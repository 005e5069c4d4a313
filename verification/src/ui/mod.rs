pub mod hover;
pub mod alignment;
pub mod event;
pub mod helpers;
pub mod widget_id;
pub mod routing;
pub mod focus;
