//! Whether a username is still free.

use vstd::prelude::*;

verus! {

/// The fragment shown next to the username field: empty while the name is
/// free.
pub fn get(username_taken: bool) -> (fragment: &'static str)
    ensures
        fragment@ == (if username_taken {
            "Username is taken"@
        } else {
            ""@
        }),
{
    if username_taken {
        "Username is taken"
    } else {
        ""
    }
}

} // verus!
