//! Registered users.

use vstd::prelude::*;

use crate::models::Timestamp;

verus! {

/// A stored user.
#[derive(Debug, Clone, PartialEq, Eq)]
pub struct Model {
    pub username: String,
    pub first_name: String,
    pub last_name: String,
    pub password_hash: String,
    pub password_hash_previous: Option<String>,
    pub password_changed_at: Option<Timestamp>,
    pub profile_picture: bool,
    pub created_at: Timestamp,
    pub updated_at: Timestamp,
}

/// The columns written when a user registers; the others take their
/// defaults.
#[derive(Debug, Clone, PartialEq, Eq)]
pub struct NewUser {
    pub username: String,
    pub first_name: String,
    pub last_name: String,
    pub password_hash: String,
}

/// The columns written when a user changes the password.
#[derive(Debug, Clone, PartialEq, Eq)]
pub struct PasswordUpdate {
    pub username: String,
    pub password_hash: String,
    pub password_hash_previous: Option<String>,
    pub password_changed_at: Option<Timestamp>,
}

} // verus!
