//! Whether the first administrator has registered: the next user to
//! register becomes an administrator exactly while none has.

use vstd::prelude::*;

use crate::models::users_roles;

verus! {

/// Whether an administrator has been registered.
pub struct IsFirstAdminRegistered {
    registered: bool,
}

impl View for IsFirstAdminRegistered {
    type V = bool;

    closed spec fn view(&self) -> bool {
        self.registered
    }
}

/// Whether a user who registers in state `registered` becomes an
/// administrator.
pub open spec fn grants_admin(registered: bool) -> bool {
    !registered
}

/// The state after a registration in state `registered`; `completed` says
/// whether the user, and the administrator role where one was granted, were
/// stored.
pub open spec fn registered_after(registered: bool, completed: bool) -> bool {
    registered || (completed && grants_admin(registered))
}

/// How many of a run of registrations, starting in state `registered`, make
/// an administrator; `completions` says of each whether it was stored.
pub open spec fn admins_granted(registered: bool, completions: Seq<bool>) -> nat
    decreases completions.len(),
{
    if completions.len() == 0 {
        0
    } else {
        (if completions[0] && grants_admin(registered) {
            1nat
        } else {
            0nat
        }) + admins_granted(registered_after(registered, completions[0]), completions.drop_first())
    }
}

impl IsFirstAdminRegistered {
    /// Whether an administrator has been registered.
    pub fn is_registered(&self) -> (r: bool)
        ensures
            r == self@,
    {
        self.registered
    }

    /// Whether the next user to register becomes an administrator.
    pub fn new_user_is_admin(&self) -> (admin: bool)
        ensures
            admin == grants_admin(self@),
    {
        !self.registered
    }

    /// Decides, and records at once, whether the user now registering
    /// becomes the administrator: exactly while none is registered.
    pub fn claim_admin(&mut self) -> (granted: bool)
        ensures
            granted == grants_admin(old(self)@),
            final(self)@ == (old(self)@ || granted),
    {
        let granted = !self.registered;
        self.registered = true;
        granted
    }

    /// Undoes a claim whose registration was not stored: a granted claim is
    /// given back, so that the next user to register becomes the
    /// administrator; otherwise nothing changes.
    pub fn release_admin(&mut self, granted: bool)
        ensures
            final(self)@ == (if granted {
                false
            } else {
                old(self)@
            }),
    {
        if granted {
            self.registered = false;
        }
    }
}

/// A claim followed, where the registration was not stored, by its release
/// leaves the state that `registered_after` describes.
pub proof fn law_claim_then_release(registered: bool, completed: bool)
    ensures
        ({
            let granted = grants_admin(registered);
            let claimed = registered || granted;
            let after = if completed {
                claimed
            } else if granted {
                false
            } else {
                claimed
            };
            after == registered_after(registered, completed)
        }),
{
}

/// The state at start-up, from the users that hold the administrator role.
pub fn is_first_admin_registered(admin_users: &Vec<users_roles::Model>) -> (state:
    IsFirstAdminRegistered)
    ensures
        state@ == (admin_users@.len() > 0),
{
    IsFirstAdminRegistered { registered: admin_users.len() > 0 }
}

/// Only the first administrator is made by registering: from a state where
/// one is registered no registration makes another, and from any state at
/// most one does; once registered, the state stays so.
pub proof fn law_at_most_one_admin(registered: bool, completions: Seq<bool>)
    ensures
        admins_granted(registered, completions) <= (if registered {
            0nat
        } else {
            1nat
        }),
        registered ==> forall|c: bool| #[trigger] registered_after(registered, c),
    decreases completions.len(),
{
    if completions.len() > 0 {
        let next = registered_after(registered, completions[0]);
        law_at_most_one_admin(next, completions.drop_first());
    }
}

} // verus!
