//! Registering a user.

pub mod is_available;

use vstd::prelude::*;

use crate::crypto::hashing::{argon2_hash_phc, hash, hashes_secret, phc_string_parses};
use crate::http::{login_page_path, login_path, Status};
use crate::is_first_admin_registered::{grants_admin, IsFirstAdminRegistered};
use crate::models::{users, users_roles};
use crate::pages::login::{login_decision, LoginDecision};
use crate::text::str_eq;
use vstd::utf8::encode_utf8;

verus! {

/// The template of the registration page.
pub const REGISTER_TEMPLATE: &'static str = "register.html.tera";

/// The role that the first user to register is given.
pub const ADMIN_ROLE: &'static str = "admin";

/// The database's code for a key that is already taken (a primary key
/// constraint).
pub const TAKEN_KEY_CODE: &'static str = "1555";

/// The registration form.
#[derive(Debug, Clone, PartialEq, Eq)]
pub struct UserRegister {
    pub first_name: String,
    pub last_name: String,
    pub username: String,
    pub password: String,
}

/// The rows that a registration writes: the user, and the administrator
/// role where the user is the first administrator.
#[derive(Debug, Clone, PartialEq, Eq)]
pub struct Registration {
    pub user: users::NewUser,
    pub admin_role: Option<users_roles::Model>,
}

/// Why storing the new user failed.
#[derive(Debug, Clone, PartialEq, Eq)]
pub enum InsertFailure {
    /// The database refused the row, with this code where it gave one.
    Database { code: Option<String> },
    /// Anything else.
    Other,
}

/// Whether `reg` holds the rows that registering `form` with the Base64
/// salt `salt` writes while `admin_registered` says whether an administrator
/// is registered: the names from the form, the password's hash, and the
/// administrator role exactly while none is registered.
pub open spec fn registers(
    form: UserRegister,
    salt: Seq<char>,
    admin_registered: bool,
    reg: Registration,
) -> bool {
    &&& hashes_secret(reg.user.password_hash@, salt, encode_utf8(form.password@))
    &&& reg.user.username == form.username
    &&& reg.user.first_name == form.first_name
    &&& reg.user.last_name == form.last_name
    &&& (reg.admin_role is Some <==> grants_admin(admin_registered))
    &&& (reg.admin_role matches Some(role) ==> role.user_username == form.username
        && role.role_title@ == ADMIN_ROLE@)
}

/// The rows for a registration: the password hashed with `salt`, and the
/// administrator role exactly while no administrator is registered; the
/// role is claimed at once in `first_admin`, so that no other registration
/// can be granted it too. Fails, leaving `first_admin` as it was, where the
/// password cannot be hashed.
pub fn post(form: &UserRegister, salt: &str, first_admin: &mut IsFirstAdminRegistered) -> (res:
    Result<Registration, Status>)
    ensures
        match res {
            Ok(reg) => {
                &&& registers(*form, salt@, old(first_admin)@, reg)
                &&& final(first_admin)@ == (old(first_admin)@ || reg.admin_role is Some)
            },
            Err(status) => {
                &&& status == Status::InternalServerError
                &&& argon2_hash_phc(salt@, encode_utf8(form.password@)) is None
                &&& final(first_admin)@ == old(first_admin)@
            },
        },
{
    let password_hash = match hash(salt, form.password.as_str().as_bytes()) {
        Ok(h) => h,
        Err(_) => return Err(Status::InternalServerError),
    };
    let is_admin = first_admin.claim_admin();
    let user = users::NewUser {
        username: form.username.clone(),
        first_name: form.first_name.clone(),
        last_name: form.last_name.clone(),
        password_hash: password_hash.to_phc_string(),
    };
    let admin_role = if is_admin {
        Some(
            users_roles::Model {
                user_username: form.username.clone(),
                role_title: String::from_str(ADMIN_ROLE),
            },
        )
    } else {
        None
    };
    Ok(Registration { user, admin_role })
}

/// Gives back the administrator role that a registration claimed, where its
/// rows could not be stored.
pub fn abandon(first_admin: &mut IsFirstAdminRegistered, registration: &Registration)
    ensures
        final(first_admin)@ == (if registration.admin_role is Some {
            false
        } else {
            old(first_admin)@
        }),
{
    first_admin.release_admin(registration.admin_role.is_some());
}

/// The answer when the user row could not be stored: a taken username is a
/// bad request, any other failure an internal error.
pub fn user_insert_failed(failure: &InsertFailure) -> (status: Status)
    ensures
        status == (if failure matches InsertFailure::Database { code: Some(c) } && c@
            == TAKEN_KEY_CODE@ {
            Status::BadRequest
        } else {
            Status::InternalServerError
        }),
{
    match failure {
        InsertFailure::Database { code: Some(c) } => {
            if str_eq(c.as_str(), TAKEN_KEY_CODE) {
                Status::BadRequest
            } else {
                Status::InternalServerError
            }
        },
        _ => Status::InternalServerError,
    }
}

/// Where a stored registration sends the user: the login page.
pub fn finish() -> (path: String)
    ensures
        path@ == login_path(),
{
    login_page_path()
}

/// A user stored from a registration logs in with the password registered:
/// the stored hash parses and that password verifies against it.
pub proof fn law_registered_password_logs_in(
    form: UserRegister,
    salt: Seq<char>,
    admin_registered: bool,
    reg: Registration,
    user: users::Model,
)
    requires
        registers(form, salt, admin_registered, reg),
        user.username == reg.user.username,
        user.password_hash == reg.user.password_hash,
    ensures
        phc_string_parses(user.password_hash@),
        login_decision(Some(user), form.password@) == LoginDecision::Authenticated,
{
}

} // verus!
