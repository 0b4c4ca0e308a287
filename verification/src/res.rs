//! The errors of the application.

use vstd::prelude::*;

verus! {

/// What can go wrong.
#[derive(Debug)]
pub enum Error {
    /// Hashing or checking a password failed, with the message of the
    /// hashing crate.
    Argon2(String),
    /// The windowing toolkit failed, with its message.
    Iced(String),
    /// The store failed, with the code that the database gave, if it
    /// gave one, and its message.
    Database(Option<String>, String),
    /// Data could not be read.
    DataParse(String),
    /// A helper failed, with its message.
    EUtils(String),
    /// The request was refused.
    BadRequest,
    /// The thing exists already.
    Exists(String),
    /// Authentication is required.
    Unauthorized(String),
    /// The user may not do this.
    Forbidden,
    /// The thing was not found.
    NotFound(String),
    /// The thing is not supported.
    Unsupport(String),
    /// Nothing was there.
    Empty,
    /// Logging failed.
    Log(String),
}

} // verus!
