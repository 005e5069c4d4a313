pub mod uid;
pub mod text_order;
pub mod trim;
pub mod args;
pub mod clock;
pub mod debug_handle;
pub mod error;
pub mod frequency_runner;
