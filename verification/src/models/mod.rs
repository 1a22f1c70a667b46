//! The rows that the service stores.

pub mod sessions;
pub mod tokens;
pub mod users;
pub mod users_roles;

use vstd::prelude::*;

verus! {

/// A point in time: seconds since the Unix epoch and nanoseconds past them.
#[derive(Debug, Clone, Copy, PartialEq, Eq)]
pub struct Timestamp {
    pub secs: i64,
    pub nanos: u32,
}

} // verus!
