//! The windows of the application and the shell that coordinates them.

pub mod command;
pub mod log_app;
pub mod login_app;
pub mod main_app;
pub mod registry;
pub mod setting_app;
pub mod window;
