//! Statuses, paths and redirects that the service answers with.

use vstd::prelude::*;

verus! {

/// The path under which the service is mounted.
pub const BASE_PATH: &'static str = "/patrol";

/// An error status that a request is answered with.
#[derive(Debug, Clone, Copy, PartialEq, Eq)]
pub enum Status {
    BadRequest,
    Unauthorized,
    UnprocessableEntity,
    InternalServerError,
}

impl Status {
    /// The numeric HTTP status code.
    pub fn code(&self) -> (c: u16)
        ensures
            c == match self {
                Status::BadRequest => 400u16,
                Status::Unauthorized => 401u16,
                Status::UnprocessableEntity => 422u16,
                Status::InternalServerError => 500u16,
            },
    {
        match self {
            Status::BadRequest => 400,
            Status::Unauthorized => 401,
            Status::UnprocessableEntity => 422,
            Status::InternalServerError => 500,
        }
    }
}

/// The status that a failure of the service itself (database, templates,
/// hashing) is answered with.
pub fn internal_server_error() -> (s: Status)
    ensures
        s == Status::InternalServerError,
{
    Status::InternalServerError
}

/// `suffix` under the base path.
pub fn under_base_path(suffix: &str) -> (path: String)
    ensures
        path@ == BASE_PATH@ + suffix@,
{
    let base = String::from_str(BASE_PATH);
    base.concat(suffix)
}

/// The login page, where unauthenticated visitors are sent.
pub open spec fn login_path() -> Seq<char> {
    BASE_PATH@ + "/login"@
}

/// The account page, where authenticated visitors are sent.
pub open spec fn account_path() -> Seq<char> {
    BASE_PATH@ + "/account"@
}

/// The path of the login page.
pub fn login_page_path() -> (path: String)
    ensures
        path@ == login_path(),
{
    under_base_path("/login")
}

/// The path of the account page.
pub fn account_page_path() -> (path: String)
    ensures
        path@ == account_path(),
{
    under_base_path("/account")
}

} // verus!
