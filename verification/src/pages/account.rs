//! The account page and changing the password.

use vstd::prelude::*;

use crate::crypto::hashing::{
    argon2_hash_phc,
    argon2_verifies,
    hash,
    hashes_secret,
    parse_hash,
    phc_string_parses,
    verify,
};
use crate::http::{account_page_path, account_path, Status};
use crate::models::{users, Timestamp};
use crate::pages::login::{login_decision, LoginDecision};
use crate::session::Session;
use vstd::utf8::encode_utf8;

verus! {

/// The template of the account page.
pub const ACCOUNT_TEMPLATE: &'static str = "account.html.tera";

/// The message for a confirmation that differs from the new password.
pub const PASSWORDS_DIFFER_MESSAGE: &'static str = "New passwords do not match";

/// The message for a wrong current password.
pub const WRONG_PASSWORD_MESSAGE: &'static str = "Current password is incorrect";

/// The password change form.
#[derive(Debug, Clone, PartialEq, Eq)]
pub struct PasswordChangeForm {
    pub current_password: String,
    pub new_password: String,
    pub confirm_password: String,
}

/// What the account page shows: the signed-in user and any messages.
#[derive(Debug, Clone, PartialEq, Eq)]
pub struct AccountPage {
    pub user: Session,
    pub messages: Vec<String>,
}

/// The outcome of a password change that the service does not fail on.
#[derive(Debug, Clone, PartialEq, Eq)]
pub enum PasswordChange {
    /// The account page is shown again with this message.
    Rejected(&'static str),
    /// These columns are written, then the user goes to the account page.
    Update(users::PasswordUpdate),
}

/// The account page of the signed-in user.
pub fn get(session: Session) -> (page: AccountPage)
    ensures
        page.user == session,
        page.messages@.len() == 0,
{
    AccountPage { user: session, messages: Vec::new() }
}

/// The account page with one message.
pub fn page_with_message(session: Session, message: &str) -> (page: AccountPage)
    ensures
        page.user == session,
        page.messages@.len() == 1,
        page.messages@[0]@ == message@,
{
    let mut messages: Vec<String> = Vec::new();
    messages.push(String::from_str(message));
    AccountPage { user: session, messages }
}

/// The first check of a password change, made before the user is looked up:
/// the new password and its confirmation must be equal.
pub fn check_confirmation(form: &PasswordChangeForm) -> (message: Option<&'static str>)
    ensures
        match message {
            Some(m) => form.new_password@ != form.confirm_password@ && m@
                == PASSWORDS_DIFFER_MESSAGE@,
            None => form.new_password@ == form.confirm_password@,
        },
{
    if form.new_password == form.confirm_password {
        None
    } else {
        Some(PASSWORDS_DIFFER_MESSAGE)
    }
}

/// Whether `update` holds the columns that changing the password of the
/// stored user `user` with `form`, the Base64 salt `salt` and the time `now`
/// writes: the new password's hash, the old hash kept as the previous one,
/// and the time.
pub open spec fn changes_password(
    form: PasswordChangeForm,
    salt: Seq<char>,
    now: Timestamp,
    user: users::Model,
    update: users::PasswordUpdate,
) -> bool {
    &&& update.username == user.username
    &&& hashes_secret(update.password_hash@, salt, encode_utf8(form.new_password@))
    &&& update.password_hash_previous == Some(user.password_hash)
    &&& update.password_changed_at == Some(now)
}

/// Changes the password of the stored user `user` (looked up under the
/// session's username) with the form, a fresh Base64 salt and the current
/// time: a missing user is unauthorized; the current password must verify
/// against the stored hash; the new password's hash replaces it, and the
/// old hash is kept as the previous one.
pub fn change_password(
    form: &PasswordChangeForm,
    user: &Option<users::Model>,
    salt: &str,
    now: Timestamp,
) -> (res: Result<PasswordChange, Status>)
    ensures
        match user {
            None => res == Err::<PasswordChange, Status>(Status::Unauthorized),
            Some(u) => if !phc_string_parses(u.password_hash@) {
                res == Err::<PasswordChange, Status>(Status::InternalServerError)
            } else if !argon2_verifies(encode_utf8(form.current_password@), u.password_hash@) {
                res matches Ok(PasswordChange::Rejected(m)) && m@ == WRONG_PASSWORD_MESSAGE@
            } else if argon2_hash_phc(salt@, encode_utf8(form.new_password@)) is None {
                res == Err::<PasswordChange, Status>(Status::InternalServerError)
            } else {
                res matches Ok(PasswordChange::Update(update)) && changes_password(
                    *form,
                    salt@,
                    now,
                    *u,
                    update,
                )
            },
        },
{
    let u = match user {
        None => return Err(Status::Unauthorized),
        Some(u) => u,
    };
    let current_hash = match parse_hash(u.password_hash.as_str()) {
        Err(_) => return Err(Status::InternalServerError),
        Ok(h) => h,
    };
    if !verify(form.current_password.as_str().as_bytes(), &current_hash) {
        return Ok(PasswordChange::Rejected(WRONG_PASSWORD_MESSAGE));
    }
    let new_hash = match hash(salt, form.new_password.as_str().as_bytes()) {
        Err(_) => return Err(Status::InternalServerError),
        Ok(h) => h,
    };
    Ok(
        PasswordChange::Update(
            users::PasswordUpdate {
                username: u.username.clone(),
                password_hash: new_hash.to_phc_string(),
                password_hash_previous: Some(u.password_hash.clone()),
                password_changed_at: Some(now),
            },
        ),
    )
}

/// Where a stored password change sends the user: the account page.
pub fn changed() -> (path: String)
    ensures
        path@ == account_path(),
{
    account_page_path()
}

/// After a stored password change, the user logs in with the new password.
pub proof fn law_changed_password_logs_in(
    form: PasswordChangeForm,
    salt: Seq<char>,
    now: Timestamp,
    user: users::Model,
    update: users::PasswordUpdate,
    changed_user: users::Model,
)
    requires
        changes_password(form, salt, now, user, update),
        changed_user.password_hash == update.password_hash,
    ensures
        phc_string_parses(changed_user.password_hash@),
        login_decision(Some(changed_user), form.new_password@) == LoginDecision::Authenticated,
{
}

} // verus!
