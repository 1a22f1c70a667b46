//! The RSA keys that tokens are signed and checked with, and the public key
//! published as a JSON Web Key set.

use vstd::prelude::*;

use crate::base64url::{encode_unpadded, encode_unpadded_text};
use vstd::slice::slice_to_vec;

verus! {

/// Where the public key is kept, in PEM.
pub const RSA_PUBLIC_KEY: &'static str = "keys/patrol_rsa_public.pem";

/// Where the private key is kept, in PEM.
pub const RSA_PRIVATE_KEY: &'static str = "keys/patrol_rsa_private.pem";

/// The identifier of the published key.
pub const KEY_ID: &'static str = "main";

/// The modulus and the public exponent, as big-endian bytes, of the RSA
/// public key that `rsa::RsaPublicKey::from_public_key_pem` reads from the
/// PEM text `pem`; `None` where it refuses the text.
pub uninterp spec fn rsa_public_key_components(pem: Seq<char>) -> Option<(Seq<u8>, Seq<u8>)>;

/// Whether `jsonwebtoken::DecodingKey::from_rsa_pem` accepts `pem`.
pub uninterp spec fn rsa_pem_accepted_for_decoding(pem: Seq<u8>) -> bool;

/// Whether `jsonwebtoken::EncodingKey::from_rsa_pem` accepts `pem`.
pub uninterp spec fn rsa_pem_accepted_for_encoding(pem: Seq<u8>) -> bool;

/// `rsa::pkcs8::spki::Error`, the error of reading a public key.
#[verifier::external_type_specification]
#[verifier::external_body]
pub struct ExSpkiError(rsa::pkcs8::spki::Error);

/// `jsonwebtoken::errors::Error`.
#[verifier::external_type_specification]
#[verifier::external_body]
pub struct ExJwtError(jsonwebtoken::errors::Error);

/// Calls `rsa::RsaPublicKey::from_public_key_pem` and, on success, the
/// key's `n()` and `e()` written by `to_bytes_be`. Claimed: the result is a
/// function of the text.
#[verifier::external_body]
fn rsa_public_key_parts(pem: &str) -> (res: Result<(Vec<u8>, Vec<u8>), rsa::pkcs8::spki::Error>)
    ensures
        match res {
            Ok((n, e)) => rsa_public_key_components(pem@) == Some((n@, e@)),
            Err(_) => rsa_public_key_components(pem@) is None,
        },
{
    match <rsa::RsaPublicKey as rsa::pkcs8::DecodePublicKey>::from_public_key_pem(pem) {
        Ok(key) => Ok(
            (
                rsa::traits::PublicKeyParts::n(&key).to_bytes_be(),
                rsa::traits::PublicKeyParts::e(&key).to_bytes_be(),
            ),
        ),
        Err(err) => Err(err),
    }
}

/// Calls `jsonwebtoken::DecodingKey::from_rsa_pem` and says whether it
/// succeeded. Claimed: the answer is a function of the bytes.
#[verifier::external_body]
fn decoding_pem_accepted(pem: &[u8]) -> (ok: bool)
    ensures
        ok == rsa_pem_accepted_for_decoding(pem@),
{
    jsonwebtoken::DecodingKey::from_rsa_pem(pem).is_ok()
}

/// Calls `jsonwebtoken::EncodingKey::from_rsa_pem` and says whether it
/// succeeded. Claimed: the answer is a function of the bytes.
#[verifier::external_body]
fn encoding_pem_accepted(pem: &[u8]) -> (ok: bool)
    ensures
        ok == rsa_pem_accepted_for_encoding(pem@),
{
    jsonwebtoken::EncodingKey::from_rsa_pem(pem).is_ok()
}

/// Why a key could not be read.
#[derive(Debug, Clone, Copy, PartialEq, Eq)]
pub enum KeyError {
    /// The public key PEM is not an RSA public key.
    PublicKey,
    /// The PEM is not accepted as a key to check tokens with.
    DecodingKey,
    /// The PEM is not accepted as a key to sign tokens with.
    EncodingKey,
}

/// The type of a published key.
#[derive(Debug, Clone, Copy, PartialEq, Eq)]
pub enum KeyType {
    Rsa,
}

/// What a published key is for.
#[derive(Debug, Clone, Copy, PartialEq, Eq)]
pub enum PublicKeyUse {
    Signature,
}

/// An operation that a published key may be used for.
#[derive(Debug, Clone, Copy, PartialEq, Eq)]
pub enum KeyOperation {
    Verify,
}

/// The algorithm that a published key is used with.
#[derive(Debug, Clone, Copy, PartialEq, Eq)]
pub enum KeyAlgorithm {
    RS384,
}

/// A published RSA key: modulus and exponent in unpadded URL-safe Base64.
#[derive(Debug, Clone, PartialEq, Eq)]
pub struct Jwk {
    pub key_type: KeyType,
    pub n: String,
    pub e: String,
    pub public_key_use: PublicKeyUse,
    pub key_operations: Vec<KeyOperation>,
    pub key_algorithm: KeyAlgorithm,
    pub key_id: String,
}

/// A published set of keys.
#[derive(Debug, Clone, PartialEq, Eq)]
pub struct JwkSet {
    pub keys: Vec<Jwk>,
}

/// Whether `set` publishes exactly the RSA key with modulus `n` and
/// exponent `e`, for verifying RS384 signatures, under the key identifier.
pub open spec fn publishes(set: JwkSet, n: Seq<u8>, e: Seq<u8>) -> bool {
    &&& set.keys@.len() == 1
    &&& set.keys@[0].n@ == encode_unpadded(n)
    &&& set.keys@[0].e@ == encode_unpadded(e)
    &&& set.keys@[0].key_operations@ == seq![KeyOperation::Verify]
    &&& set.keys@[0].key_id@ == KEY_ID@
}

/// The key set that publishes the public key in `public_key_pem`.
pub fn jwk(public_key_pem: &str) -> (res: Result<JwkSet, KeyError>)
    ensures
        match res {
            Ok(set) => rsa_public_key_components(public_key_pem@) matches Some((n, e)) && publishes(
                set,
                n,
                e,
            ),
            Err(err) => err == KeyError::PublicKey && rsa_public_key_components(
                public_key_pem@,
            ) is None,
        },
{
    let (n, e) = match rsa_public_key_parts(public_key_pem) {
        Ok(parts) => parts,
        Err(_) => return Err(KeyError::PublicKey),
    };
    let mut key_operations: Vec<KeyOperation> = Vec::new();
    key_operations.push(KeyOperation::Verify);
    let key = Jwk {
        key_type: KeyType::Rsa,
        n: encode_unpadded_text(n.as_slice()),
        e: encode_unpadded_text(e.as_slice()),
        public_key_use: PublicKeyUse::Signature,
        key_operations,
        key_algorithm: KeyAlgorithm::RS384,
        key_id: String::from_str(KEY_ID),
    };
    let mut keys: Vec<Jwk> = Vec::new();
    keys.push(key);
    let set = JwkSet { keys };
    assert(set.keys@[0].key_operations@ =~= seq![KeyOperation::Verify]);
    Ok(set)
}

/// A key that tokens are checked with: the PEM it is read from, which the
/// token library accepts.
pub struct VerifyingKey {
    pem: Vec<u8>,
}

impl View for VerifyingKey {
    type V = Seq<u8>;

    closed spec fn view(&self) -> Seq<u8> {
        self.pem@
    }
}

impl VerifyingKey {
    #[verifier::type_invariant]
    spec fn accepted(self) -> bool {
        rsa_pem_accepted_for_decoding(self.pem@)
    }

    /// The PEM that the key is read from.
    pub fn pem(&self) -> (pem: &[u8])
        ensures
            pem@ == self@,
            rsa_pem_accepted_for_decoding(pem@),
    {
        proof {
            use_type_invariant(self);
        }
        self.pem.as_slice()
    }
}

/// A key that tokens are signed with: the PEM it is read from, which the
/// token library accepts.
pub struct SigningKey {
    pem: Vec<u8>,
}

impl View for SigningKey {
    type V = Seq<u8>;

    closed spec fn view(&self) -> Seq<u8> {
        self.pem@
    }
}

impl SigningKey {
    #[verifier::type_invariant]
    spec fn accepted(self) -> bool {
        rsa_pem_accepted_for_encoding(self.pem@)
    }

    /// The PEM that the key is read from.
    pub fn pem(&self) -> (pem: &[u8])
        ensures
            pem@ == self@,
            rsa_pem_accepted_for_encoding(pem@),
    {
        proof {
            use_type_invariant(self);
        }
        self.pem.as_slice()
    }
}

/// The key that tokens are checked with, read from the public key PEM.
pub fn decoding_key(public_key_pem: &[u8]) -> (res: Result<VerifyingKey, KeyError>)
    ensures
        match res {
            Ok(key) => key@ == public_key_pem@ && rsa_pem_accepted_for_decoding(public_key_pem@),
            Err(err) => err == KeyError::DecodingKey && !rsa_pem_accepted_for_decoding(
                public_key_pem@,
            ),
        },
{
    if decoding_pem_accepted(public_key_pem) {
        Ok(VerifyingKey { pem: slice_to_vec(public_key_pem) })
    } else {
        Err(KeyError::DecodingKey)
    }
}

/// The key that tokens are signed with, read from the private key PEM.
pub fn encoding_key(private_key_pem: &[u8]) -> (res: Result<SigningKey, KeyError>)
    ensures
        match res {
            Ok(key) => key@ == private_key_pem@ && rsa_pem_accepted_for_encoding(private_key_pem@),
            Err(err) => err == KeyError::EncodingKey && !rsa_pem_accepted_for_encoding(
                private_key_pem@,
            ),
        },
{
    if encoding_pem_accepted(private_key_pem) {
        Ok(SigningKey { pem: slice_to_vec(private_key_pem) })
    } else {
        Err(KeyError::EncodingKey)
    }
}

} // verus!
