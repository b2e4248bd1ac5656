//! End-to-end tests of verification against a caller-supplied key set
//! (`verify_with_jwks`), of the driving of a cached, refetched key set
//! (`token_step`), and of the RSA pieces. Tokens are signed with a fixed
//! 2048-bit test key; `jsonwebtoken` validates `exp`/`nbf` against the
//! system clock, so tokens are signed relative to the current time.

use std::time::{SystemTime, UNIX_EPOCH};

use base64::engine::general_purpose::URL_SAFE_NO_PAD;
use base64::Engine;
use fusionauth_jwt_rs::{
    verify_signature, Error, FetchStage, Jwk, Jwks, TokenEvent, TokenStep, Validation, Verifier,
};
use rsa::traits::PublicKeyParts;
use rsa::{BigUint, Pkcs1v15Sign, RsaPrivateKey};
use sha2::{Digest, Sha256, Sha512};

const ISS: &str = "bettyblocks.com";
const AUD: &str = "11111111-1111-1111-1111-111111111111";

const KEY_N: &[&str] = &[
    "da02b01487d8877523b12b729d013214fe2fe8528dc3487bdbc0a3888ec831a6",
    "967f3f8982b074a8f71a59d42bfb19a7c3e1dd1e34336420b56655ea5b180001",
    "d4ffe645b149275fda9dcccd913c42487520f00d3ebf11794825776f039096c5",
    "7d42c01f85565d61f8ba905a7c24e3f03b16236d49acd3edbc604279e8a07f6f",
    "0421dc0e42a6c2cb977e77de062411084adfc926b76a8a88a5883c1a70429909",
    "453a7f3a595857467d0f0470289cdd2ee2f4c6d5d033fc366c9bdfd70669eada",
    "824a079e42b9bfce501cbcfe6cc122ce478f844b25fa34bdb47f342241af396a",
    "dc8c5193ab6c85a7256b99e0bf18f1db01eff49b6494da65cdcbd5f4132fe0b7",
];

const KEY_D: &[&str] = &[
    "11ed38a7678841933b4d1d427e7093bab030264d6b84cc580af8eb39966c15d1",
    "19fcfaaf870495833356825e75035fd7b0bec8dcebf3f1ded2abc892cdccca6b",
    "5c2572bcf6580a99d233399d09bd47c207879ed5a7fc3426a1ed1ac61127f98d",
    "e1bff466632377e84f789fd820ef33a31468bc9f06f8e4305f5617014944b155",
    "bbb321cb6b9e0dbe0a34beead114fb45522f4f812b2c78a6a76deb8e3849ebf3",
    "379455fb60ecc2836c5d0de9d245ce7968f7ad872c8a448adef3fe1f067668ef",
    "9c46699875533db17fe2c68df7c4d5572587c62a05aad7811450ce082c94900d",
    "86482aa97433e883ebca3bbc7786e5b91327cdcd30a02aef4ba91df1d1c48031",
];

const KEY_P: &[&str] = &[
    "dcbcb131d87f0f7c8d824f567ee87234825be5d17bf3c044a7cb8fac6561ed8a",
    "68499f17da27a8628367f9add595f72a0fc660edd9745360b37cb6a53719afbc",
    "5f8ac2dba273f100a3e180e4f2cbd149e4d7bdc1b2254a0f801e3739e293bdbe",
    "8df43581183c68b92a5e6db78fde7f1e0ebdbfefe4f20abe101c3605940a2a89",
];

const KEY_Q: &[&str] = &[
    "fcd67d28d44dec98267f681032a335d424436461075250b24ac2f1dfd287ebb6",
    "f0b95104ab2c264283ad4ca73cf486c33f88ba3ba9b931ece1b25f71885e7697",
    "8bdf6f60ad1cf40f1b23fbfb274350a9bae3af145cd89d284c843831a430e09d",
    "846e5b2d16b5b5489aa87c750941530ddaf98909a1adf2b0f9daaea933a5e13f",
];

/// Current unix time in seconds.
fn now() -> i64 {
    SystemTime::now()
        .duration_since(UNIX_EPOCH)
        .expect("clock after epoch")
        .as_secs() as i64
}

fn big(parts: &[&str]) -> BigUint {
    BigUint::parse_bytes(parts.concat().as_bytes(), 16).expect("hex")
}

/// The 2048-bit test key.
fn test_key() -> RsaPrivateKey {
    RsaPrivateKey::from_components(
        big(KEY_N),
        BigUint::from(65537u32),
        big(KEY_D),
        vec![big(KEY_P), big(KEY_Q)],
    )
    .expect("test key")
}

fn n_b64() -> String {
    URL_SAFE_NO_PAD.encode(test_key().n().to_bytes_be())
}

fn e_b64() -> String {
    URL_SAFE_NO_PAD.encode(test_key().e().to_bytes_be())
}

/// A key set advertising the test key under `kid`/`alg`.
fn jwks_for(kid: &str, alg: &str) -> Jwks {
    Jwks {
        keys: vec![Jwk {
            kid: Some(kid.to_string()),
            kty: "RSA".to_string(),
            alg: Some(alg.to_string()),
            n: Some(n_b64()),
            e: Some(e_b64()),
        }],
    }
}

/// Sign a JWT with the test key.
fn sign_jwt(kid: &str, alg: &str, claims_json: &str) -> String {
    let header = format!(r#"{{"alg":"{alg}","typ":"JWT","kid":"{kid}"}}"#);
    let h = URL_SAFE_NO_PAD.encode(header);
    let p = URL_SAFE_NO_PAD.encode(claims_json);
    let signing_input = format!("{h}.{p}");
    let hashed = Sha256::digest(signing_input.as_bytes());
    let sig = test_key()
        .sign(Pkcs1v15Sign::new::<Sha256>(), &hashed)
        .expect("sign");
    format!("{signing_input}.{}", URL_SAFE_NO_PAD.encode(sig))
}

fn claims(exp: i64) -> String {
    let iat = now();
    format!(
        r#"{{"iss":"{ISS}","aud":"{AUD}","sub":"user-42","exp":{exp},"iat":{iat},"cas_token":"cas-abc"}}"#
    )
}

fn issuer_verifier() -> Verifier {
    Verifier::new(
        "https://auth.example.com",
        Validation::new().issuer(ISS).audience(AUD),
    )
}

fn json(text: &str) -> serde_json::Value {
    serde_json::from_str(text).expect("claims are json")
}

#[test]
fn verifies_valid_token_and_returns_claims() {
    let jwks = jwks_for("id2", "RS256");
    let jwt = sign_jwt("id2", "RS256", &claims(now() + 3600));

    let result = issuer_verifier()
        .verify_with_jwks(&jwt, &jwks)
        .expect("token should verify");
    let claims = json(&result);

    assert_eq!(claims["iss"].as_str(), Some(ISS));
    assert_eq!(claims["sub"].as_str(), Some("user-42"));
    // Custom FusionAuth claims survive.
    assert_eq!(claims.get("cas_token").and_then(|v| v.as_str()), Some("cas-abc"));
}

#[test]
fn rejects_unknown_kid() {
    // JWKS only carries "id2", token signed under "id4".
    let jwks = jwks_for("id2", "RS256");
    let jwt = sign_jwt("id4", "RS256", &claims(now() + 3600));

    match issuer_verifier().verify_with_jwks(&jwt, &jwks) {
        Err(Error::KidNotFound(kid)) => assert_eq!(kid, "id4"),
        other => panic!("expected KidNotFound, got {other:?}"),
    }
}

#[test]
fn rejects_expired_token() {
    let jwks = jwks_for("id2", "RS256");
    let jwt = sign_jwt("id2", "RS256", &claims(now() - 60));

    assert!(matches!(
        issuer_verifier().verify_with_jwks(&jwt, &jwks),
        Err(Error::TokenExpired)
    ));
}

#[test]
fn honours_leeway_on_expiry() {
    let jwks = jwks_for("id2", "RS256");
    // Expired 10s ago, but 60s of leeway keeps it valid.
    let jwt = sign_jwt("id2", "RS256", &claims(now() - 10));
    let v = Verifier::new(
        "https://auth.example.com",
        Validation::new().issuer(ISS).audience(AUD).leeway(60),
    );
    assert!(v.verify_with_jwks(&jwt, &jwks).is_ok());
}

#[test]
fn rejects_wrong_audience() {
    let jwks = jwks_for("id2", "RS256");
    let jwt = sign_jwt("id2", "RS256", &claims(now() + 3600));

    let v = Verifier::new(
        "https://auth.example.com",
        Validation::new().issuer(ISS).audience("some-other-app"),
    );
    assert!(matches!(
        v.verify_with_jwks(&jwt, &jwks),
        Err(Error::InvalidAudience)
    ));
}

#[test]
fn rejects_wrong_issuer() {
    let jwks = jwks_for("id2", "RS256");
    let jwt = sign_jwt("id2", "RS256", &claims(now() + 3600));

    let v = Verifier::new(
        "https://auth.example.com",
        Validation::new().issuer("evil.example").audience(AUD),
    );
    assert!(matches!(
        v.verify_with_jwks(&jwt, &jwks),
        Err(Error::InvalidIssuer)
    ));
}

#[test]
fn rejects_tampered_signature() {
    let jwks = jwks_for("id2", "RS256");
    let jwt = sign_jwt("id2", "RS256", &claims(now() + 3600));

    // Flip the first character of the signature segment. (Flipping the *last*
    // char can yield non-canonical base64, which decodes-error before the
    // signature is ever checked.)
    let sig_start = jwt.rfind('.').unwrap() + 1;
    let mut bytes = jwt.into_bytes();
    bytes[sig_start] = if bytes[sig_start] == b'A' { b'B' } else { b'A' };
    let tampered = String::from_utf8(bytes).unwrap();

    assert!(matches!(
        issuer_verifier().verify_with_jwks(&tampered, &jwks),
        Err(Error::InvalidSignature)
    ));
}

#[test]
fn rejects_algorithm_confusion() {
    // JWK pins RS256 but the header claims RS512: must be rejected even though
    // the signature itself is consistent with the header.
    let jwks = jwks_for("id2", "RS256");
    let jwt = sign_jwt("id2", "RS512", &claims(now() + 3600));

    assert!(matches!(
        issuer_verifier().verify_with_jwks(&jwt, &jwks),
        Err(Error::UnsupportedAlgorithm(_))
    ));
}

#[test]
fn rejects_malformed_token() {
    let jwks = jwks_for("id2", "RS256");
    assert!(matches!(
        issuer_verifier().verify_with_jwks("not-a-jwt", &jwks),
        Err(Error::MalformedToken)
    ));
}

#[test]
fn rejects_token_without_kid() {
    let jwks = jwks_for("id2", "RS256");
    let header = URL_SAFE_NO_PAD.encode(r#"{"alg":"RS256","typ":"JWT"}"#);
    let payload = URL_SAFE_NO_PAD.encode(claims(now() + 3600));
    let jwt = format!("{header}.{payload}.c2ln");
    assert!(matches!(
        issuer_verifier().verify_with_jwks(&jwt, &jwks),
        Err(Error::MissingKid)
    ));
}

#[test]
fn rejects_missing_exp_claim() {
    let jwks = jwks_for("id2", "RS256");
    let jwt = sign_jwt("id2", "RS256", &format!(r#"{{"iss":"{ISS}","aud":"{AUD}"}}"#));
    match issuer_verifier().verify_with_jwks(&jwt, &jwks) {
        Err(Error::MissingClaim(c)) => assert_eq!(c, "exp"),
        other => panic!("expected MissingClaim, got {other:?}"),
    }
}

#[test]
fn required_exp_is_required_without_expiry_checks() {
    let jwks = jwks_for("id2", "RS256");
    let jwt = sign_jwt("id2", "RS256", &format!(r#"{{"iss":"{ISS}","aud":"{AUD}"}}"#));
    let mut validation = Validation::new().issuer(ISS).audience(AUD);
    validation.validate_exp = false;
    let v = Verifier::new("https://auth.example.com", validation);
    match v.verify_with_jwks(&jwt, &jwks) {
        Err(Error::MissingClaim(c)) => assert_eq!(c, "exp"),
        other => panic!("expected MissingClaim, got {other:?}"),
    }
}

#[test]
fn expiry_not_enforced_accepts_expired_token() {
    let jwks = jwks_for("id2", "RS256");
    let jwt = sign_jwt("id2", "RS256", &claims(now() - 3600));
    let mut validation = Validation::new().issuer(ISS).audience(AUD);
    validation.validate_exp = false;
    let v = Verifier::new("https://auth.example.com", validation);
    assert!(v.verify_with_jwks(&jwt, &jwks).is_ok());
}

#[test]
fn accepts_audience_array_holding_the_audience() {
    let jwks = jwks_for("id2", "RS256");
    let exp = now() + 3600;
    let jwt = sign_jwt(
        "id2",
        "RS256",
        &format!(r#"{{"iss":"{ISS}","aud":["other","{AUD}"],"exp":{exp}}}"#),
    );
    assert!(issuer_verifier().verify_with_jwks(&jwt, &jwks).is_ok());
}

#[test]
fn rejects_missing_issuer_claim_when_issuer_required() {
    let jwks = jwks_for("id2", "RS256");
    let exp = now() + 3600;
    let jwt = sign_jwt("id2", "RS256", &format!(r#"{{"aud":"{AUD}","exp":{exp}}}"#));
    assert!(matches!(
        issuer_verifier().verify_with_jwks(&jwt, &jwks),
        Err(Error::InvalidIssuer)
    ));
}

#[test]
fn default_validation_ignores_issuer_and_audience() {
    let jwks = jwks_for("id2", "RS256");
    let jwt = sign_jwt("id2", "RS256", &claims(now() + 3600));
    let v = Verifier::new("https://auth.example.com", Validation::new());
    assert!(v.verify_with_jwks(&jwt, &jwks).is_ok());
}

#[test]
fn rejects_token_not_yet_valid() {
    let jwks = jwks_for("id2", "RS256");
    let exp = now() + 7200;
    let nbf = now() + 3600;
    let jwt = sign_jwt(
        "id2",
        "RS256",
        &format!(r#"{{"iss":"{ISS}","aud":"{AUD}","exp":{exp},"nbf":{nbf}}}"#),
    );
    assert!(matches!(
        issuer_verifier().verify_with_jwks(&jwt, &jwks),
        Err(Error::TokenNotYetValid)
    ));
}

#[test]
fn key_without_alg_takes_the_header_algorithm() {
    let mut jwks = jwks_for("id2", "RS256");
    jwks.keys[0].alg = None;
    let jwt = sign_jwt("id2", "RS256", &claims(now() + 3600));
    assert!(issuer_verifier().verify_with_jwks(&jwt, &jwks).is_ok());
}

#[test]
fn rejects_key_pinned_to_unsupported_algorithm() {
    let jwks = jwks_for("id2", "HS256");
    let jwt = sign_jwt("id2", "RS256", &claims(now() + 3600));
    match issuer_verifier().verify_with_jwks(&jwt, &jwks) {
        Err(Error::UnsupportedAlgorithm(alg)) => assert_eq!(alg, "HS256"),
        other => panic!("expected UnsupportedAlgorithm, got {other:?}"),
    }
}

#[test]
fn rejects_key_that_is_not_rsa() {
    let mut jwks = jwks_for("id2", "RS256");
    jwks.keys[0].kty = "EC".to_string();
    let jwt = sign_jwt("id2", "RS256", &claims(now() + 3600));
    assert!(matches!(
        issuer_verifier().verify_with_jwks(&jwt, &jwks),
        Err(Error::InvalidKey)
    ));
}

#[test]
fn rejects_key_with_bad_modulus_encoding() {
    let mut jwks = jwks_for("id2", "RS256");
    jwks.keys[0].n = Some("not base64!".to_string());
    let jwt = sign_jwt("id2", "RS256", &claims(now() + 3600));
    assert!(matches!(
        issuer_verifier().verify_with_jwks(&jwt, &jwks),
        Err(Error::InvalidKey)
    ));
}

#[test]
fn token_step_fetches_then_verifies() {
    let jwt = sign_jwt("id2", "RS256", &claims(now() + 3600));
    let mut v = issuer_verifier();
    match v.token_step(&jwt, TokenEvent::Start) {
        TokenStep::Fetch(FetchStage::Initial) => {}
        other => panic!("expected an initial fetch, got {other:?}"),
    }
    let fetched = TokenEvent::Fetched(FetchStage::Initial, Ok(jwks_for("id2", "RS256")));
    match v.token_step(&jwt, fetched) {
        TokenStep::Done(Ok(text)) => assert_eq!(json(&text)["sub"].as_str(), Some("user-42")),
        other => panic!("expected a verified token, got {other:?}"),
    }
    // The key set is cached now: the next token needs no fetch.
    match v.token_step(&jwt, TokenEvent::Start) {
        TokenStep::Done(Ok(_)) => {}
        other => panic!("expected a verified token, got {other:?}"),
    }
}

#[test]
fn token_step_refetches_once_on_unknown_kid() {
    let jwt = sign_jwt("id4", "RS256", &claims(now() + 3600));
    let mut v = issuer_verifier();
    v.set_jwks(jwks_for("id2", "RS256"));
    match v.token_step(&jwt, TokenEvent::Start) {
        TokenStep::Fetch(FetchStage::Refetch) => {}
        other => panic!("expected a refetch, got {other:?}"),
    }
    let fetched = TokenEvent::Fetched(FetchStage::Refetch, Ok(jwks_for("id3", "RS256")));
    match v.token_step(&jwt, fetched) {
        TokenStep::Done(Err(Error::KidNotFound(kid))) => assert_eq!(kid, "id4"),
        other => panic!("expected KidNotFound, got {other:?}"),
    }
}

#[test]
fn token_step_refetch_finds_rotated_key() {
    let jwt = sign_jwt("id4", "RS256", &claims(now() + 3600));
    let mut v = issuer_verifier();
    match v.token_step(&jwt, TokenEvent::Start) {
        TokenStep::Fetch(FetchStage::Initial) => {}
        other => panic!("expected an initial fetch, got {other:?}"),
    }
    let first = TokenEvent::Fetched(FetchStage::Initial, Ok(jwks_for("id2", "RS256")));
    match v.token_step(&jwt, first) {
        TokenStep::Fetch(FetchStage::Refetch) => {}
        other => panic!("expected a refetch, got {other:?}"),
    }
    let second = TokenEvent::Fetched(FetchStage::Refetch, Ok(jwks_for("id4", "RS256")));
    assert!(matches!(v.token_step(&jwt, second), TokenStep::Done(Ok(_))));
}

#[test]
fn token_step_reports_failed_fetch() {
    let jwt = sign_jwt("id2", "RS256", &claims(now() + 3600));
    let mut v = issuer_verifier();
    let failed = TokenEvent::Fetched(FetchStage::Initial, Err(Error::Http("down".to_string())));
    match v.token_step(&jwt, failed) {
        TokenStep::Done(Err(Error::Http(msg))) => assert_eq!(msg, "down"),
        other => panic!("expected the fetch error, got {other:?}"),
    }
    // Nothing was cached: the next verification fetches again.
    assert!(matches!(
        v.token_step(&jwt, TokenEvent::Start),
        TokenStep::Fetch(FetchStage::Initial)
    ));
}

#[test]
fn invalidate_cache_forces_a_fetch() {
    let jwt = sign_jwt("id2", "RS256", &claims(now() + 3600));
    let mut v = issuer_verifier();
    v.set_jwks(jwks_for("id2", "RS256"));
    assert!(matches!(v.token_step(&jwt, TokenEvent::Start), TokenStep::Done(Ok(_))));
    v.invalidate_cache();
    assert!(matches!(
        v.token_step(&jwt, TokenEvent::Start),
        TokenStep::Fetch(FetchStage::Initial)
    ));
}

#[test]
fn jwk_to_rsa_public_key_decodes_components() {
    let jwk = jwks_for("id2", "RS256").keys.remove(0);
    let key = jwk.to_rsa_public_key().expect("valid key");
    // The key verifies a signature of the test key, so it holds the decoded
    // modulus and exponent, not their base64url text.
    let input = "header.payload";
    let hashed = Sha256::digest(input.as_bytes());
    let sig = test_key().sign(Pkcs1v15Sign::new::<Sha256>(), &hashed).unwrap();
    assert!(verify_signature("RS256", &key, input, &sig).is_ok());
}

#[test]
fn jwk_to_rsa_public_key_rejects_bad_keys() {
    let mut jwk = jwks_for("id2", "RS256").keys.remove(0);
    jwk.e = Some(URL_SAFE_NO_PAD.encode([2u8]));
    assert!(matches!(jwk.to_rsa_public_key(), Err(Error::InvalidKey)));
    jwk.e = None;
    assert!(matches!(jwk.to_rsa_public_key(), Err(Error::InvalidKey)));
    let mut ec = jwks_for("id2", "RS256").keys.remove(0);
    ec.kty = "EC".to_string();
    assert!(matches!(ec.to_rsa_public_key(), Err(Error::InvalidKey)));
}

#[test]
fn verify_signature_checks_digest_and_algorithm() {
    let key = jwks_for("id2", "RS512").keys.remove(0).to_rsa_public_key().unwrap();
    let input = "a.b";
    let hashed = Sha512::digest(input.as_bytes());
    let sig = test_key().sign(Pkcs1v15Sign::new::<Sha512>(), &hashed).unwrap();
    assert!(verify_signature("RS512", &key, input, &sig).is_ok());
    assert!(matches!(
        verify_signature("RS256", &key, input, &sig),
        Err(Error::InvalidSignature)
    ));
    assert!(matches!(
        verify_signature("RS384", &key, input, &sig),
        Err(Error::InvalidSignature)
    ));
    assert!(matches!(
        verify_signature("RS512", &key, "a.c", &sig),
        Err(Error::InvalidSignature)
    ));
    match verify_signature("ES256", &key, input, &sig) {
        Err(Error::UnsupportedAlgorithm(alg)) => assert_eq!(alg, "ES256"),
        other => panic!("expected UnsupportedAlgorithm, got {other:?}"),
    }
}

#[test]
fn verifier_accessors_keep_the_rest() {
    let jwt = sign_jwt("id2", "RS256", &claims(now() + 3600));
    let mut v = issuer_verifier();
    assert_eq!(v.base_url(), "https://auth.example.com");
    assert_eq!(v.validation().issuer.as_deref(), Some(ISS));
    v.set_jwks(jwks_for("id2", "RS256"));
    v.set_validation(Validation::new().issuer("evil.example").audience(AUD));
    v.set_base_url("https://other.example.com");
    assert_eq!(v.base_url(), "https://other.example.com");
    // The cached set is kept: no fetch, and the new policy applies.
    assert!(matches!(
        v.token_step(&jwt, TokenEvent::Start),
        TokenStep::Done(Err(Error::InvalidIssuer))
    ));
}
