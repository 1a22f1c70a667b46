//! Logging in.

use vstd::prelude::*;

use crate::crypto::hashing::{argon2_verifies, parse_hash, phc_string_parses, verify};
use crate::http::{account_page_path, account_path, Status};
use crate::models::users;
use crate::session::PATROL_COOKIE;
use crate::text::{trim, trim_str};
use vstd::utf8::encode_utf8;

verus! {

/// The template of the login page.
pub const LOGIN_TEMPLATE: &'static str = "login.html.tera";

/// The message shown for an unknown user and for a wrong password alike.
pub const INVALID_CREDENTIALS_MESSAGE: &'static str = "Invalid username or password";

/// The query of the login page.
#[derive(Debug, Clone, PartialEq, Eq)]
pub struct LoginParams {
    pub redirect_to: Option<String>,
}

/// The login form.
#[derive(Debug, Clone, PartialEq, Eq)]
pub struct UserLogin {
    pub redirect_to: Option<String>,
    pub username: String,
    pub password: String,
}

/// What the login page shows.
#[derive(Debug, Clone, PartialEq, Eq)]
pub struct LoginPage {
    pub username: Option<String>,
    pub messages: Vec<String>,
    pub redirect_to: Option<String>,
}

/// The cookie that a successful login sets.
#[derive(Debug, Clone, PartialEq, Eq)]
pub struct SessionCookie {
    pub name: String,
    pub value: String,
    pub path: String,
}

/// The outcome of checking a login form against the stored user.
#[derive(Debug, Clone, Copy, PartialEq, Eq)]
pub enum LoginDecision {
    /// No such user, or a wrong password: the form is shown again.
    InvalidCredentials,
    /// The stored hash does not parse.
    CorruptHash,
    /// The password is right: a session opens.
    Authenticated,
}

impl LoginDecision {
    /// The error status the decision is answered with, where it is one.
    pub fn status(&self) -> (s: Option<Status>)
        ensures
            s == (if *self == LoginDecision::CorruptHash {
                Some(Status::InternalServerError)
            } else {
                None
            }),
    {
        match self {
            LoginDecision::CorruptHash => Some(Status::InternalServerError),
            _ => None,
        }
    }
}

/// Where a login sends the user: the trimmed target of the form, or the
/// account page where there is none or it is blank.
pub open spec fn redirect_target(redirect_to: Option<Seq<char>>) -> Seq<char> {
    match redirect_to {
        Some(target) => if trim(target).len() == 0 {
            account_path()
        } else {
            trim(target)
        },
        None => account_path(),
    }
}

/// The target that a login form asks to be sent to.
pub fn redirect_to(requested: &Option<String>) -> (target: String)
    ensures
        target@ == redirect_target(
            match requested {
                Some(r) => Some(r@),
                None => None,
            },
        ),
{
    match requested {
        Some(r) => {
            let trimmed = trim_str(r.as_str());
            if trimmed.unicode_len() == 0 {
                account_page_path()
            } else {
                trimmed.to_owned()
            }
        },
        None => account_page_path(),
    }
}

/// The login page as first shown.
pub fn get(params: LoginParams) -> (page: LoginPage)
    ensures
        page.username is None,
        page.messages@.len() == 0,
        page.redirect_to == params.redirect_to,
{
    LoginPage { username: None, messages: Vec::new(), redirect_to: params.redirect_to }
}

/// The decision on a login with `password` for the stored user `user`.
pub open spec fn login_decision(user: Option<users::Model>, password: Seq<char>) -> LoginDecision {
    match user {
        None => LoginDecision::InvalidCredentials,
        Some(u) => if !phc_string_parses(u.password_hash@) {
            LoginDecision::CorruptHash
        } else if argon2_verifies(encode_utf8(password), u.password_hash@) {
            LoginDecision::Authenticated
        } else {
            LoginDecision::InvalidCredentials
        },
    }
}

/// Checks a login form against the user stored under its username.
pub fn post(form: &UserLogin, user: &Option<users::Model>) -> (decision: LoginDecision)
    ensures
        decision == login_decision(*user, form.password@),
{
    match user {
        None => LoginDecision::InvalidCredentials,
        Some(u) => match parse_hash(u.password_hash.as_str()) {
            Err(_) => LoginDecision::CorruptHash,
            Ok(h) => if verify(form.password.as_str().as_bytes(), &h) {
                LoginDecision::Authenticated
            } else {
                LoginDecision::InvalidCredentials
            },
        },
    }
}

/// The login page shown again after invalid credentials: the username
/// kept, the one message, and the target of the form.
pub fn rejected_page(form: &UserLogin, redirect_to: String) -> (page: LoginPage)
    ensures
        page.username == Some(form.username),
        page.messages@.len() == 1,
        page.messages@[0]@ == INVALID_CREDENTIALS_MESSAGE@,
        page.redirect_to == Some(redirect_to),
{
    let mut messages: Vec<String> = Vec::new();
    messages.push(String::from_str(INVALID_CREDENTIALS_MESSAGE));
    LoginPage { username: Some(form.username.clone()), messages, redirect_to: Some(redirect_to) }
}

/// The cookie that carries the identifier of the session opened at login,
/// valid for the whole site.
pub fn session_cookie(session_id: String) -> (cookie: SessionCookie)
    ensures
        cookie.name@ == PATROL_COOKIE@,
        cookie.value == session_id,
        cookie.path@ == "/"@,
{
    SessionCookie {
        name: String::from_str(PATROL_COOKIE),
        value: session_id,
        path: String::from_str("/"),
    }
}

/// An unknown username and a wrong password are answered alike, so that the
/// answer does not tell which usernames exist; a login succeeds only with
/// the password that the stored hash was made of.
pub proof fn law_login_answers(user: users::Model, password: Seq<char>)
    ensures
        phc_string_parses(user.password_hash@) && !argon2_verifies(
            encode_utf8(password),
            user.password_hash@,
        ) ==> login_decision(Some(user), password) == login_decision(None, password),
        login_decision(Some(user), password) == LoginDecision::Authenticated ==> argon2_verifies(
            encode_utf8(password),
            user.password_hash@,
        ),
        login_decision(None, password) != LoginDecision::Authenticated,
{
}

/// A login is sent on to exactly the target it asked for, without the
/// whitespace around it, whenever that is not blank; only a missing or blank
/// target sends it to the account page.
pub proof fn law_redirect_keeps_the_target(requested: Option<Seq<char>>)
    ensures
        match requested {
            Some(t) => if trim(t).len() > 0 {
                redirect_target(requested) == trim(t)
            } else {
                redirect_target(requested) == account_path()
            },
            None => redirect_target(requested) == account_path(),
        },
{
}

/// Whatever parameters a stored hash that parses records, the login
/// succeeds exactly when Argon2 with those parameters verifies the password.
pub proof fn law_login_follows_the_stored_hash(user: users::Model, password: Seq<char>)
    requires
        phc_string_parses(user.password_hash@),
    ensures
        (login_decision(Some(user), password) == LoginDecision::Authenticated) <==> argon2_verifies(
            encode_utf8(password),
            user.password_hash@,
        ),
        (login_decision(Some(user), password) == LoginDecision::InvalidCredentials) <==> !argon2_verifies(
            encode_utf8(password),
            user.password_hash@,
        ),
{
}

} // verus!
