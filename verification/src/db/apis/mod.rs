//! What the application asks of the store.

pub mod user;
