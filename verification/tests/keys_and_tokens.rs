use patrol::api::jwks::Api;
use patrol::keys::{decoding_key, encoding_key, jwk, KeyError, KeyOperation, RSA_PUBLIC_KEY};
use patrol::models::{users, Timestamp};
use patrol::token::{
    is_logged_in, new, not_logged_in_middleware, TokenCheck, signing_input_text, token_from_signature, TokenError, token_expiry, token_header, token_middleware,
    token_store_key, validation, Algorithm, Claims, Gate, ISSUER,
};
use patrol::well_known;
use rsa::pkcs1::EncodeRsaPrivateKey;
use rsa::pkcs8::{EncodePublicKey, LineEnding};

/// A fresh signing key pair: the private key in PKCS#1 PEM and the public
/// key in SPKI PEM.
fn signing_pair(bits: usize) -> (String, String) {
    let key = rsa::RsaPrivateKey::new(&mut password_hash::rand_core::OsRng, bits).unwrap();
    let private_pem = key.to_pkcs1_pem(LineEnding::LF).unwrap().to_string();
    let public_pem = key.to_public_key().to_public_key_pem(LineEnding::LF).unwrap();
    (private_pem, public_pem)
}

const PUBLIC_PEM: &str = "-----BEGIN PUBLIC KEY-----\nMIGfMA0GCSqGSIb3DQEBAQUAA4GNADCBiQKBgQCxMtF77l1saOx80wmWmFV9t6d+\nZ1/Lqb5zpckAmvlIIMVsoBssonExS2roUtD6VResSmXT35z+TjyJQrZVemKMegpV\nSOTC0PChicoTuhwPN4uFUfqJlSZfKBMHoLT9E1BAhs+kmN6HXe4jH1nka/rD29ev\n0lEy6IfQTx+7RvBJuwIDAQAB\n-----END PUBLIC KEY-----\n";

#[test]
fn the_key_set_publishes_modulus_and_exponent() {
    let set = jwk(PUBLIC_PEM).unwrap();
    assert_eq!(set.keys.len(), 1);
    let key = &set.keys[0];
    assert_eq!(key.n, "sTLRe-5dbGjsfNMJlphVfbenfmdfy6m-c6XJAJr5SCDFbKAbLKJxMUtq6FLQ-lUXrEpl09-c_k48iUK2VXpijHoKVUjkwtDwoYnKE7ocDzeLhVH6iZUmXygTB6C0_RNQQIbPpJjeh13uIx9Z5Gv6w9vXr9JRMuiH0E8fu0bwSbs");
    assert_eq!(key.e, "AQAB");
    assert_eq!(key.key_id, "main");
    assert_eq!(key.key_operations, vec![KeyOperation::Verify]);
    assert_eq!(RSA_PUBLIC_KEY, "keys/patrol_rsa_public.pem");
}

#[test]
fn an_unreadable_public_key_publishes_nothing() {
    assert_eq!(jwk("-----BEGIN PUBLIC KEY-----\nAAAA\n-----END PUBLIC KEY-----\n"), Err(KeyError::PublicKey));
    assert_eq!(Api.jwks("nonsense"), None);
    assert_eq!(well_known::jwks("nonsense"), None);
    assert_eq!(Api.jwks(PUBLIC_PEM), Some(jwk(PUBLIC_PEM).unwrap()));
    assert_eq!(well_known::jwks(PUBLIC_PEM), Some(jwk(PUBLIC_PEM).unwrap()));
}

#[test]
fn keys_read_from_pem() {
    assert!(decoding_key(PUBLIC_PEM.as_bytes()).is_ok());
    let (private_pem, _) = signing_pair(1024);
    assert!(encoding_key(private_pem.as_bytes()).is_ok());
    assert_eq!(decoding_key(b"nonsense").err(), Some(KeyError::DecodingKey));
    assert_eq!(encoding_key(b"nonsense").err(), Some(KeyError::EncodingKey));
}

#[test]
fn a_token_checks_out_with_the_public_key() {
    // the signing library refuses RSA keys shorter than 2048 bits
    let (private_pem, public_pem) = signing_pair(2048);
    let key = encoding_key(private_pem.as_bytes()).unwrap_or_else(|_| panic!("refused"));
    let header = br#"{"typ":"JWT","alg":"RS384","kid":"main"}"#;
    let claims = br#"{"iss":"patrol","sub":"ada","exp":4102444800}"#;
    let token = new(header, claims, &key).unwrap();
    assert_eq!(token.split('.').count(), 3);
    assert!(token.starts_with("eyJ0eXAiOiJKV1QiLCJhbGciOiJSUzM4NCIsImtpZCI6Im1haW4ifQ."));
    let decoding = jsonwebtoken::DecodingKey::from_rsa_pem(public_pem.as_bytes()).unwrap();
    let mut checks = jsonwebtoken::Validation::new(jsonwebtoken::Algorithm::RS384);
    checks.set_issuer(&["patrol"]);
    let data = jsonwebtoken::decode::<serde_json::Value>(&token, &decoding, &checks).unwrap();
    assert_eq!(data.claims["sub"], serde_json::Value::String("ada".to_string()));
    assert_eq!(data.header.kid, Some("main".to_string()));
}

#[test]
fn tokens_expire_thirty_days_on() {
    assert_eq!(token_expiry(1_700_000_000), 1_702_592_000);
    assert_eq!(token_expiry(-2_592_000), 0);
    assert_eq!(token_expiry(-3_000_000), 408_000);
}

#[test]
fn claims_carry_the_user() {
    let user = users::Model {
        username: "ada".to_string(),
        first_name: "Ada".to_string(),
        last_name: "Lovelace".to_string(),
        password_hash: String::new(),
        password_hash_previous: None,
        password_changed_at: None,
        profile_picture: true,
        created_at: Timestamp { secs: 0, nanos: 0 },
        updated_at: Timestamp { secs: 0, nanos: 0 },
    };
    let c = Claims::new(100, "j1".to_string(), user, vec!["admin".to_string()]);
    assert_eq!(c.iss, "patrol");
    assert_eq!(c.jti, "j1");
    assert_eq!(c.sub, "ada");
    assert_eq!(c.fnm, "Ada");
    assert_eq!(c.lnm, "Lovelace");
    assert!(c.pic);
    assert_eq!(c.rls, vec!["admin".to_string()]);
    assert_eq!(c.exp, 2_592_100);
    assert_eq!(ISSUER, "patrol");
}

#[test]
fn issued_tokens_are_stored_by_user_and_id() {
    assert_eq!(token_store_key("ada", "j1"), "token:ada:j1");
}

#[test]
fn header_and_checks_name_rs384() {
    let h = token_header();
    assert_eq!(h.alg, Algorithm::RS384);
    assert_eq!(h.kid, "main");
    let v = validation();
    assert_eq!(v.algorithm, Algorithm::RS384);
    assert_eq!(v.issuer, "patrol");
}

#[test]
fn the_gates_let_exactly_one_kind_of_visitor_through() {
    assert_eq!(token_middleware(true), Gate::Proceed);
    assert_eq!(token_middleware(false), Gate::Redirect("/patrol/login"));
    assert_eq!(not_logged_in_middleware(true), Gate::Redirect("/patrol/account"));
    assert_eq!(not_logged_in_middleware(false), Gate::Proceed);
}

#[test]
fn the_signing_input_joins_the_encoded_parts() {
    assert_eq!(signing_input_text(b"{}", b"{\"a\":1}"), "e30.eyJhIjoxfQ");
}

#[test]
fn a_token_is_the_signing_input_and_the_signature() {
    assert_eq!(
        token_from_signature("e30.e30".to_string(), Some("c2ln".to_string())),
        Ok("e30.e30.c2ln".to_string())
    );
    assert_eq!(token_from_signature("e30.e30".to_string(), None), Err(TokenError::Signing));
}

#[test]
fn only_a_token_that_checks_out_signs_in() {
    assert!(is_logged_in(TokenCheck::Valid));
    assert!(!is_logged_in(TokenCheck::Invalid));
    assert!(!is_logged_in(TokenCheck::Missing));
    assert_eq!(token_middleware(is_logged_in(TokenCheck::Invalid)), Gate::Redirect("/patrol/login"));
}

#[test]
fn keys_hold_the_pem_they_are_read_from() {
    let key = decoding_key(PUBLIC_PEM.as_bytes()).unwrap_or_else(|_| panic!("refused"));
    assert_eq!(key.pem(), PUBLIC_PEM.as_bytes());
    let (private_pem, _) = signing_pair(1024);
    let key = encoding_key(private_pem.as_bytes()).unwrap_or_else(|_| panic!("refused"));
    assert_eq!(key.pem(), private_pem.as_bytes());
}

#[test]
fn signing_is_deterministic() {
    let (private_pem, _) = signing_pair(2048);
    let key = encoding_key(private_pem.as_bytes()).unwrap_or_else(|_| panic!("refused"));
    let a = new(b"{}", b"{}", &key).unwrap();
    let b = new(b"{}", b"{}", &key).unwrap();
    assert_eq!(a, b);
    let c = new(b"{}", b"{\"x\":1}", &key).unwrap();
    assert_ne!(a.rsplit('.').next(), c.rsplit('.').next());
}
