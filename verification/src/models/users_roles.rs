//! The roles held by users.

use vstd::prelude::*;

verus! {

/// A user holding a role.
#[derive(Debug, Clone, PartialEq, Eq)]
pub struct Model {
    pub user_username: String,
    pub role_title: String,
}

} // verus!
