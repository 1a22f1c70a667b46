//! The pages of the service.

pub mod account;
pub mod login;
pub mod logout;
pub mod register;

use vstd::prelude::*;

verus! {

/// Where the root page sends its visitors: the login page.
pub fn index() -> (path: &'static str)
    ensures
        path@ == "/patrol/login"@,
{
    "/patrol/login"
}

} // verus!
