//! Issued tokens.

use vstd::prelude::*;

use crate::models::Timestamp;

verus! {

/// A stored token: its identifier and subject are UUIDs.
#[derive(Debug, Clone, Copy, PartialEq, Eq)]
pub struct Model {
    pub jti: u128,
    pub sub: u128,
    pub created_at: Timestamp,
}

} // verus!
