//! The endpoint on which the proxy looks up a session.

use vstd::prelude::*;

use crate::http::Status;
use crate::models::{users, users_roles};
use crate::session::Session;

verus! {

/// The user that the looked-up session belongs to: a session that is not
/// found, or whose user is gone, is unauthorized.
pub fn session_user(found: Option<Option<users::Model>>) -> (res: Result<users::Model, Status>)
    ensures
        match found {
            Some(Some(user)) => res == Ok::<users::Model, Status>(user),
            _ => res == Err::<users::Model, Status>(Status::Unauthorized),
        },
{
    match found {
        Some(Some(user)) => Ok(user),
        _ => Err(Status::Unauthorized),
    }
}

/// The titles of the roles, in their order.
pub open spec fn role_titles(roles: Seq<users_roles::Model>) -> Seq<String> {
    roles.map_values(|r: users_roles::Model| r.role_title)
}

/// The session that the endpoint answers with: the user's names and picture
/// flag, creation time, and the titles of the user's roles.
pub fn get(user: users::Model, roles: &Vec<users_roles::Model>) -> (s: Session)
    ensures
        s.username == user.username,
        s.first_name == user.first_name,
        s.last_name == user.last_name,
        s.profile_picture == user.profile_picture,
        s.created_at == user.created_at,
        s.roles@ == role_titles(roles@),
{
    let mut titles: Vec<String> = Vec::new();
    let n = roles.len();
    for i in 0..n
        invariant
            n == roles@.len(),
            titles@ == role_titles(roles@.take(i as int)),
    {
        assert(role_titles(roles@.take(i + 1)) =~= role_titles(roles@.take(i as int)).push(
            roles@[i as int].role_title,
        ));
        titles.push(roles[i].role_title.clone());
    }
    assert(roles@.take(n as int) =~= roles@);
    Session {
        username: user.username,
        first_name: user.first_name,
        last_name: user.last_name,
        profile_picture: user.profile_picture,
        roles: titles,
        created_at: user.created_at,
    }
}

/// The session lists one title for every role row of the user, in order:
/// as many titles as rows, the i-th the title of the i-th row.
pub proof fn law_every_role_is_listed(roles: Seq<users_roles::Model>)
    ensures
        role_titles(roles).len() == roles.len(),
        forall|i: int| 0 <= i < roles.len() ==> #[trigger] role_titles(roles)[i] == roles[i].role_title,
{
}

} // verus!
