//! Login sessions.

use vstd::prelude::*;

use crate::models::Timestamp;

verus! {

/// A stored session.
#[derive(Debug, Clone, PartialEq, Eq)]
pub struct Model {
    pub id: String,
    pub user_username: String,
    pub created_at: Timestamp,
}

/// The columns written when a session opens; the creation time takes its
/// default.
#[derive(Debug, Clone, PartialEq, Eq)]
pub struct NewSession {
    pub id: String,
    pub user_username: String,
}

} // verus!
