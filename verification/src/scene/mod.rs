pub mod handle_resize;
pub mod event;
pub mod main;
pub mod draw;
pub mod texture_load;
pub mod draw_log;
pub mod checks;
