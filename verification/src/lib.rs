//! Verified core of a small game-engine architecture: test trees, resize
//! throttling, hover tracking, scene routing and identifier allocation.

pub mod utils;
pub mod test;
pub mod scene;
pub mod ui;
