//! Window lifecycle coordination for a multi-window desktop application.
//!
//! The crate keeps the record of which logical view is shown in which
//! window, decides what to open, close and focus on every inbound message,
//! and hands the resulting window requests back to the caller as plain
//! values.

pub mod config;
pub mod data;
pub mod db;
pub mod event;
pub mod res;
pub mod ui;
