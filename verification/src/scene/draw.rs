use vstd::prelude::*;

verus! {

/// The scene that clears the frame before anything is drawn.
pub struct ClearScreen;

} // verus!
