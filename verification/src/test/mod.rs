pub mod assertions;
