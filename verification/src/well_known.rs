//! The published key set, at its well-known place.

use vstd::prelude::*;

use crate::keys::{jwk, publishes, rsa_public_key_components, JwkSet};

verus! {

/// The published key set, where the public key reads; nothing otherwise.
pub fn jwks(public_key_pem: &str) -> (res: Option<JwkSet>)
    ensures
        match res {
            Some(set) => rsa_public_key_components(public_key_pem@) matches Some((n, e))
                && publishes(set, n, e),
            None => rsa_public_key_components(public_key_pem@) is None,
        },
{
    match jwk(public_key_pem) {
        Ok(set) => Some(set),
        Err(_) => None,
    }
}

} // verus!
