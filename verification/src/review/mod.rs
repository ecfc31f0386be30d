pub mod dispatch;
pub mod event;
pub mod nav;
