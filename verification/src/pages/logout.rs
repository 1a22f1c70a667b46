//! Logging out.

use vstd::prelude::*;

use crate::http::{login_page_path, login_path};

verus! {

/// What logging out does: the session named by the cookie, where there is
/// one, is deleted and the cookie removed; the visitor goes to the login
/// page.
#[derive(Debug, Clone, PartialEq, Eq)]
pub struct Logout {
    pub delete_session: Option<String>,
    pub redirect: String,
}

/// Logs out the holder of the session cookie `cookie`.
pub fn get(cookie: Option<String>) -> (plan: Logout)
    ensures
        plan.delete_session == cookie,
        plan.redirect@ == login_path(),
{
    Logout { delete_session: cookie, redirect: login_page_path() }
}

} // verus!
