//! Argon2 password hashes in the PHC string format.

use vstd::prelude::*;

verus! {

/// Whether `PasswordHash::new` of the `password_hash` crate accepts `phc`
/// as a PHC string.
pub uninterp spec fn phc_string_parses(phc: Seq<char>) -> bool;

/// Whether Argon2, with the parameters, salt and variant that the PHC string
/// `phc` records, computes for `secret` the output that `phc` records.
pub uninterp spec fn argon2_verifies(secret: Seq<u8>, phc: Seq<char>) -> bool;

/// The PHC string that Argon2 with its default parameters computes for
/// `secret` with the Base64 salt `salt`, or `None` where it refuses them.
pub uninterp spec fn argon2_hash_phc(salt: Seq<char>, secret: Seq<u8>) -> Option<Seq<char>>;

/// The start of a PHC string that Argon2 with its default parameters
/// (Argon2id, version 19, 19456 KiB, two passes, one lane) writes for the
/// Base64 salt `salt`; the encoded output follows it.
pub open spec fn argon2_default_phc_prefix(salt: Seq<char>) -> Seq<char> {
    "$argon2id$v=19$m=19456,t=2,p=1$"@ + salt + "$"@
}

/// Whether `phc` is a stored hash that `secret` verifies against: it parses,
/// and Argon2 with what it records computes its output for `secret`.
pub open spec fn verifies_secret(phc: Seq<char>, secret: Seq<u8>) -> bool {
    phc_string_parses(phc) && argon2_verifies(secret, phc)
}

/// Whether `phc` is what hashing `secret` with the Base64 salt `salt` gives:
/// the named Argon2 result, which records the algorithm, the default
/// parameters and the salt, and which `secret` verifies against.
pub open spec fn hashes_secret(phc: Seq<char>, salt: Seq<char>, secret: Seq<u8>) -> bool {
    &&& argon2_hash_phc(salt, secret) == Some(phc)
    &&& verifies_secret(phc, secret)
    &&& phc.len() > argon2_default_phc_prefix(salt).len()
    &&& phc.subrange(0, argon2_default_phc_prefix(salt).len() as int) == argon2_default_phc_prefix(
        salt,
    )
}

/// Calls `password_hash::PasswordHash::new`. Claimed: the result says
/// whether the text parses as a PHC string, and depends on the text alone.
#[verifier::external_body]
fn phc_parses(phc: &str) -> (ok: bool)
    ensures
        ok == phc_string_parses(phc@),
{
    password_hash::PasswordHash::new(phc).is_ok()
}

/// Calls `PasswordVerifier::verify_password` of `argon2::Argon2::default()`
/// on the parsed form of `phc`. Claimed: the answer is a function of the
/// secret and the PHC string. Not claimed: which secrets are accepted.
#[verifier::external_body]
fn argon2_verify_password(secret: &[u8], phc: &str) -> (ok: bool)
    requires
        phc_string_parses(phc@),
    ensures
        ok == argon2_verifies(secret@, phc@),
{
    match password_hash::PasswordHash::new(phc) {
        Ok(parsed) => argon2::PasswordVerifier::verify_password(
            &argon2::Argon2::default(),
            secret,
            &parsed,
        ).is_ok(),
        Err(_) => false,
    }
}

/// Calls `PasswordHasher::hash_password` of `argon2::Argon2::default()` with
/// the salt parsed by `password_hash::Salt::from_b64`, and writes the result
/// as a PHC string. Claimed: the result is a function of salt and secret; a
/// produced PHC string parses, and verifying the same secret against it
/// succeeds (it records the salt and parameters it was computed with); it
/// starts with the algorithm `argon2id`, version 19, the default parameters
/// `m=19456,t=2,p=1` and the salt as given, and a non-empty encoded output
/// follows. Not claimed: on which salts and secrets the call succeeds.
#[verifier::external_body]
fn argon2_hash_password(salt: &str, secret: &[u8]) -> (res: Option<String>)
    ensures
        match res {
            Some(phc) => hashes_secret(phc@, salt@, secret@),
            None => argon2_hash_phc(salt@, secret@) is None,
        },
{
    match password_hash::Salt::from_b64(salt) {
        Ok(parsed_salt) => match argon2::PasswordHasher::hash_password(
            &argon2::Argon2::default(),
            secret,
            parsed_salt,
        ) {
            Ok(hashed) => Some(hashed.to_string()),
            Err(_) => None,
        },
        Err(_) => None,
    }
}

/// Why hashing failed.
#[derive(Debug, Clone, Copy, PartialEq, Eq)]
pub enum HashingError {
    /// A stored hash is not a PHC string.
    ParseFailed,
    /// The secret could not be hashed with the salt.
    HashFailed,
}

impl HashingError {
    /// The message that the error carries.
    pub fn message(&self) -> (m: &'static str)
        ensures
            m@ == (match self {
                HashingError::ParseFailed => "Failed to parse hash"@,
                HashingError::HashFailed => "Failed to hash secret"@,
            }),
    {
        match self {
            HashingError::ParseFailed => "Failed to parse hash",
            HashingError::HashFailed => "Failed to hash secret",
        }
    }
}

/// A password hash: a PHC string that parses.
pub struct PasswordHash {
    phc: String,
}

impl View for PasswordHash {
    type V = Seq<char>;

    closed spec fn view(&self) -> Seq<char> {
        self.phc@
    }
}

impl PasswordHash {
    #[verifier::type_invariant]
    spec fn parses(self) -> bool {
        phc_string_parses(self.phc@)
    }

    /// The PHC string.
    pub fn as_str(&self) -> (s: &str)
        ensures
            s@ == self@,
            phc_string_parses(s@),
    {
        proof {
            use_type_invariant(self);
        }
        self.phc.as_str()
    }

    /// The PHC string, owned.
    pub fn to_phc_string(&self) -> (s: String)
        ensures
            s@ == self@,
            phc_string_parses(s@),
    {
        proof {
            use_type_invariant(self);
        }
        self.phc.clone()
    }
}

/// Parses a stored hash.
pub fn parse_hash(hash: &str) -> (res: Result<PasswordHash, HashingError>)
    ensures
        match res {
            Ok(h) => h@ == hash@ && phc_string_parses(hash@),
            Err(e) => e == HashingError::ParseFailed && !phc_string_parses(hash@),
        },
{
    if phc_parses(hash) {
        Ok(PasswordHash { phc: hash.to_owned() })
    } else {
        Err(HashingError::ParseFailed)
    }
}

/// Hashes `secret` with Argon2 and the Base64 salt `salt`. A secret verifies
/// against the hash made of it, and the hash records the algorithm, the
/// parameters and the salt.
pub fn hash(salt: &str, secret: &[u8]) -> (res: Result<PasswordHash, HashingError>)
    ensures
        match res {
            Ok(h) => hashes_secret(h@, salt@, secret@),
            Err(e) => e == HashingError::HashFailed && argon2_hash_phc(salt@, secret@) is None,
        },
{
    match argon2_hash_password(salt, secret) {
        Some(phc) => Ok(PasswordHash { phc }),
        None => Err(HashingError::HashFailed),
    }
}

/// Whether `secret` is the password that `hash` was made of.
pub fn verify(secret: &[u8], hash: &PasswordHash) -> (ok: bool)
    ensures
        ok == argon2_verifies(secret@, hash@),
{
    argon2_verify_password(secret, hash.as_str())
}

} // verus!
