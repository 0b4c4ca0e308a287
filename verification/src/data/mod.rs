//! The fixed values of the application.

use vstd::prelude::*;

verus! {

/// The most log lines that the history keeps before it drops old ones.
pub const MAX_LOG_HISTORY_CACHE: usize = 500;

} // verus!
