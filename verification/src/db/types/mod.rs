//! The rows of the store.

pub mod app;
pub mod json;
pub mod logger;
pub mod user;
