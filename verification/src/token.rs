//! Signed tokens (JWT) that carry the signed-in user, and the gates that
//! let visitors through by them.

use vstd::prelude::*;

use crate::base64url::{
    encode_unpadded,
    encode_unpadded_text,
    lemma_unpadded_has_no_dot,
    lemma_unpadded_injective,
};
use crate::keys::SigningKey;
use crate::models::users;
use vstd::utf8::encode_utf8;

verus! {

/// The cookie that holds the token.
pub const PATROL_COOKIE: &'static str = "patrol";

/// The issuer named in every token.
pub const ISSUER: &'static str = "patrol";

/// How long a token is valid: thirty days, in seconds.
pub const TOKEN_LIFETIME_SECS: i64 = 2592000;

/// The page that visitors without a token are sent to.
pub const LOGIN_REDIRECT: &'static str = "/patrol/login";

/// The page that visitors with a token are sent to from the guest pages.
pub const ACCOUNT_REDIRECT: &'static str = "/patrol/account";

/// The claims that a token carries.
#[derive(Debug, Clone, PartialEq, Eq)]
pub struct Claims {
    /// Issuer
    pub iss: String,
    /// Token ID
    pub jti: String,
    /// Username
    pub sub: String,
    /// First name
    pub fnm: String,
    /// Last name
    pub lnm: String,
    /// Profile picture
    pub pic: bool,
    /// Roles
    pub rls: Vec<String>,
    /// Expiration time
    pub exp: u64,
}

/// The signing algorithm of tokens.
#[derive(Debug, Clone, Copy, PartialEq, Eq)]
pub enum Algorithm {
    RS384,
}

/// The header of a token: the algorithm and the identifier of the key.
#[derive(Debug, Clone, PartialEq, Eq)]
pub struct TokenHeader {
    pub alg: Algorithm,
    pub kid: String,
}

/// What a token is checked against: the algorithm and the issuer.
#[derive(Debug, Clone, PartialEq, Eq)]
pub struct TokenValidation {
    pub algorithm: Algorithm,
    pub issuer: String,
}

/// Why a token could not be made.
#[derive(Debug, Clone, Copy, PartialEq, Eq)]
pub enum TokenError {
    Signing,
}

/// What a gate does with a request.
#[derive(Debug, Clone, Copy, PartialEq, Eq)]
pub enum Gate {
    /// The request goes on to the page.
    Proceed,
    /// The visitor is sent to this path.
    Redirect(&'static str),
}

/// The expiry time of a token issued at `now` (seconds since the epoch):
/// the absolute value of thirty days later.
pub open spec fn expiry(now: i64) -> int {
    let t = now + TOKEN_LIFETIME_SECS;
    if t >= 0 {
        t
    } else {
        -t
    }
}

/// The expiry time of a token issued at `now`.
pub fn token_expiry(now: i64) -> (exp: u64)
    requires
        now <= i64::MAX - TOKEN_LIFETIME_SECS,
    ensures
        exp == expiry(now),
{
    let t = now + TOKEN_LIFETIME_SECS;
    if t >= 0 {
        t as u64
    } else {
        (-t) as u64
    }
}

/// The key under which an issued token is stored: `token:<username>:<jti>`.
pub fn token_store_key(username: &str, jti: &str) -> (key: String)
    ensures
        key@ == "token:"@ + username@ + ":"@ + jti@,
{
    let key = String::from_str("token:");
    let key = key.concat(username);
    let key = key.concat(":");
    key.concat(jti)
}

impl Claims {
    /// The claims of a token issued at `now` with identifier `jti` for
    /// `user` holding `roles`.
    pub fn new(now: i64, jti: String, user: users::Model, roles: Vec<String>) -> (claims: Claims)
        requires
            now <= i64::MAX - TOKEN_LIFETIME_SECS,
        ensures
            claims.iss@ == ISSUER@,
            claims.jti == jti,
            claims.sub == user.username,
            claims.fnm == user.first_name,
            claims.lnm == user.last_name,
            claims.pic == user.profile_picture,
            claims.rls == roles,
            claims.exp == expiry(now),
    {
        let exp = token_expiry(now);
        Claims {
            iss: String::from_str(ISSUER),
            jti,
            sub: user.username,
            fnm: user.first_name,
            lnm: user.last_name,
            pic: user.profile_picture,
            rls: roles,
            exp,
        }
    }
}

/// The header of every token.
pub fn token_header() -> (header: TokenHeader)
    ensures
        header.alg == Algorithm::RS384,
        header.kid@ == crate::keys::KEY_ID@,
{
    TokenHeader { alg: Algorithm::RS384, kid: String::from_str(crate::keys::KEY_ID) }
}

/// What every token is checked against.
pub fn validation() -> (v: TokenValidation)
    ensures
        v.algorithm == Algorithm::RS384,
        v.issuer@ == ISSUER@,
{
    TokenValidation { algorithm: Algorithm::RS384, issuer: String::from_str(ISSUER) }
}

/// What checking the token cookie of a request found.
#[derive(Debug, Clone, Copy, PartialEq, Eq)]
pub enum TokenCheck {
    /// No token cookie came with the request.
    Missing,
    /// The token does not check out (signature, issuer, expiry or claims).
    Invalid,
    /// The token checks out.
    Valid,
}

/// Whether the visitor is signed in: exactly where the token checks out. An
/// invalid token counts as none, so its holder is sent to the login page.
pub fn is_logged_in(check: TokenCheck) -> (logged_in: bool)
    ensures
        logged_in == (check == TokenCheck::Valid),
{
    match check {
        TokenCheck::Valid => true,
        _ => false,
    }
}

/// Who may enter the pages for signed-in visitors: anyone else is sent to
/// the login page.
pub open spec fn signed_in_gate(logged_in: bool) -> Gate {
    if logged_in {
        Gate::Proceed
    } else {
        Gate::Redirect(LOGIN_REDIRECT)
    }
}

/// Who may enter the pages for guests: signed-in visitors are sent to the
/// account page.
pub open spec fn guest_gate(logged_in: bool) -> Gate {
    if logged_in {
        Gate::Redirect(ACCOUNT_REDIRECT)
    } else {
        Gate::Proceed
    }
}

/// Lets a request through to a page for signed-in visitors.
pub fn token_middleware(logged_in: bool) -> (gate: Gate)
    ensures
        gate == signed_in_gate(logged_in),
{
    if logged_in {
        Gate::Proceed
    } else {
        Gate::Redirect(LOGIN_REDIRECT)
    }
}

/// Lets a request through to a page for guests.
pub fn not_logged_in_middleware(logged_in: bool) -> (gate: Gate)
    ensures
        gate == guest_gate(logged_in),
{
    if logged_in {
        Gate::Redirect(ACCOUNT_REDIRECT)
    } else {
        Gate::Proceed
    }
}

/// Every visitor passes exactly one of the two gates: signed-in visitors
/// the one of the signed-in pages, others the one of the guest pages.
pub proof fn law_gates_complement(logged_in: bool)
    ensures
        (signed_in_gate(logged_in) == Gate::Proceed) != (guest_gate(logged_in) == Gate::Proceed),
        (signed_in_gate(logged_in) == Gate::Proceed) == logged_in,
{
}

/// The RS384 signature (RSASSA-PKCS1-v1_5 with SHA-384) of `message` by
/// the RSA private key that `jsonwebtoken::EncodingKey::from_rsa_pem` reads
/// from `pem`, as `jsonwebtoken::crypto::sign` computes it.
pub uninterp spec fn rs384_signature(pem: Seq<u8>, message: Seq<u8>) -> Seq<u8>;

/// Calls `jsonwebtoken::crypto::sign` with RS384, on the key that
/// `jsonwebtoken::EncodingKey::from_rsa_pem` reads from the signing key's
/// PEM. Claimed: a signature is the unpadded URL-safe Base64 of the named
/// signature of the message by that key (PKCS#1 v1.5 signing is
/// deterministic). Not claimed: when signing fails (the key may be refused
/// by the signer, and the signer draws on the system's randomness).
#[verifier::external_body]
fn sign_rs384(message: &[u8], key: &SigningKey) -> (res: Result<
    String,
    jsonwebtoken::errors::Error,
>)
    ensures
        res matches Ok(sig) ==> sig@ == encode_unpadded(rs384_signature(key@, message@)),
{
    let encoding_key = jsonwebtoken::EncodingKey::from_rsa_pem(key.pem())?;
    jsonwebtoken::crypto::sign(message, &encoding_key, jsonwebtoken::Algorithm::RS384)
}

/// The part of a token that is signed: the encoded header and claims,
/// joined by a dot.
pub open spec fn signing_input(header_json: Seq<u8>, claims_json: Seq<u8>) -> Seq<char> {
    encode_unpadded(header_json) + "."@ + encode_unpadded(claims_json)
}

/// A token: a signing input, a dot and a signature.
pub open spec fn token_text(signing_input: Seq<char>, signature: Seq<char>) -> Seq<char> {
    signing_input + "."@ + signature
}

/// The part of a token that is signed, for the JSON of a header and of
/// claims.
pub fn signing_input_text(header_json: &[u8], claims_json: &[u8]) -> (text: String)
    ensures
        text@ == signing_input(header_json@, claims_json@),
{
    let text = encode_unpadded_text(header_json);
    let text = text.concat(".");
    let encoded_claims = encode_unpadded_text(claims_json);
    text.concat(encoded_claims.as_str())
}

/// The token made of a signing input and the outcome of signing it: the
/// input, a dot and the signature where there is one; a signing error
/// otherwise.
pub fn token_from_signature(signing_input: String, signature: Option<String>) -> (res: Result<
    String,
    TokenError,
>)
    ensures
        match signature {
            Some(sig) => res matches Ok(token) && token@ == token_text(signing_input@, sig@),
            None => res == Err::<String, TokenError>(TokenError::Signing),
        },
{
    match signature {
        Some(sig) => {
            let token = signing_input.concat(".");
            Ok(token.concat(sig.as_str()))
        },
        None => Err(TokenError::Signing),
    }
}

/// A token made of the JSON of a header and of claims, signed with `key`:
/// the signing input, a dot and the encoded RS384 signature of the input by
/// the key. Whether signing succeeds is up to the signer; where it fails,
/// the error is a signing error.
pub fn new(header_json: &[u8], claims_json: &[u8], key: &SigningKey) -> (res: Result<
    String,
    TokenError,
>)
    ensures
        res matches Ok(token) ==> token@ == token_text(
            signing_input(header_json@, claims_json@),
            encode_unpadded(
                rs384_signature(key@, encode_utf8(signing_input(header_json@, claims_json@))),
            ),
        ),
        res matches Err(err) ==> err == TokenError::Signing,
{
    let message = signing_input_text(header_json, claims_json);
    let signature = match sign_rs384(message.as_str().as_bytes(), key) {
        Ok(sig) => Some(sig),
        Err(_) => None,
    };
    token_from_signature(message, signature)
}

/// A token issued at any time expires thirty days (2592000 seconds) later;
/// issuing one second later makes it expire one second later.
pub proof fn law_expiry_thirty_days(now: i64)
    ensures
        now + 2592000 >= 0 ==> expiry(now) == now + 2592000,
        now + 2592000 < 0 ==> expiry(now) == -(now + 2592000),
        expiry(now) >= 0,
        now < i64::MAX && now + 2592000 >= 0 ==> expiry((now + 1) as i64) == expiry(now) + 1,
{
}

/// The signed part of a token holds the whole header and the whole claims:
/// two signed parts are equal only for the same header and claims, so the
/// payload decodes back to the claims exactly, whatever their length.
pub proof fn law_signing_input_determines_parts(
    header1: Seq<u8>,
    claims1: Seq<u8>,
    header2: Seq<u8>,
    claims2: Seq<u8>,
)
    requires
        signing_input(header1, claims1) == signing_input(header2, claims2),
    ensures
        header1 == header2,
        claims1 == claims2,
{
    reveal_strlit(".");
    let s = signing_input(header1, claims1);
    let e1 = encode_unpadded(header1);
    let e2 = encode_unpadded(header2);
    assert(s == e1 + "."@ + encode_unpadded(claims1));
    assert(s == e2 + "."@ + encode_unpadded(claims2));
    assert(s[e1.len() as int] == '.');
    assert(s[e2.len() as int] == '.');
    if e1.len() < e2.len() {
        lemma_unpadded_has_no_dot(header2, e1.len() as int);
        assert(s[e1.len() as int] == e2[e1.len() as int]);
    } else if e2.len() < e1.len() {
        lemma_unpadded_has_no_dot(header1, e2.len() as int);
        assert(s[e2.len() as int] == e1[e2.len() as int]);
    }
    assert(e1 =~= s.take(e1.len() as int));
    assert(e2 =~= s.take(e2.len() as int));
    lemma_unpadded_injective(header1, header2);
    assert(encode_unpadded(claims1) =~= s.skip(e1.len() as int + 1));
    assert(encode_unpadded(claims2) =~= s.skip(e2.len() as int + 1));
    lemma_unpadded_injective(claims1, claims2);
}

} // verus!
