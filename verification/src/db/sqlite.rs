//! The rules of the connection to the store.

use vstd::prelude::*;

verus! {

/// The most connections that the pool holds.
pub const SQLITE_MAX_CONNECTIONS: u32 = 30;

/// The seconds after which a connection is replaced.
pub const SQLITE_MAX_LIFETIME_SECS: u64 = 1800;

/// The seconds after which an idle connection is closed.
pub const SQLITE_IDLE_TIMEOUT_SECS: u64 = 600;

/// True where the migrations are to be run on start: where the store
/// could not say how many were run (`None`), or says fewer than two.
pub fn needs_migration(count: Option<i64>) -> (r: bool)
    ensures
        r == (match count {
            Some(n) => n < 2,
            None => true,
        }),
{
    match count {
        Some(n) => n < 2,
        None => true,
    }
}

} // verus!
