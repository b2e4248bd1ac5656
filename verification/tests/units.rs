//! Tests of the claim checks, key lookup, URL handling and error mapping.

use fusionauth_jwt_rs::{
    jwks_url, map_jwt_error, parse_url, validate_claims, Audience, Claims, Error, Jwk, Jwks,
    JwtErrorKind, RsaAlgorithm, UrlScheme, Validation,
};

fn jwk(kid: Option<&str>, n: &str) -> Jwk {
    Jwk {
        kid: kid.map(|k| k.to_string()),
        kty: "RSA".to_string(),
        alg: Some("RS256".to_string()),
        n: Some(n.to_string()),
        e: Some("AQAB".to_string()),
    }
}

fn claims(iss: Option<&str>, aud: Option<Audience>, exp: Option<i64>, nbf: Option<i64>) -> Claims {
    let mut c = Claims::default();
    c.iss = iss.map(|s| s.to_string());
    c.aud = aud;
    c.exp = exp;
    c.nbf = nbf;
    c
}

#[test]
fn audience_contains_single_and_multiple() {
    let single = Audience::Single("app".to_string());
    assert!(single.contains("app"));
    assert!(!single.contains("other"));
    let multiple = Audience::Multiple(vec!["a".to_string(), "b".to_string()]);
    assert!(multiple.contains("b"));
    assert!(!multiple.contains("c"));
    assert!(!Audience::Multiple(vec![]).contains(""));
}

#[test]
fn validation_defaults_and_builders() {
    let v = Validation::new();
    assert_eq!(v.issuer, None);
    assert_eq!(v.audience, None);
    assert!(v.validate_exp && v.validate_nbf && v.require_exp);
    assert_eq!(v.leeway, 0);
    let v = Validation::new().issuer("iss").audience("aud").leeway(30);
    assert_eq!(v.issuer.as_deref(), Some("iss"));
    assert_eq!(v.audience.as_deref(), Some("aud"));
    assert_eq!(v.leeway, 30);
    assert!(v.validate_exp && v.validate_nbf && v.require_exp);
}

#[test]
fn validate_claims_accepts_matching_claims() {
    let v = Validation::new().issuer("iss").audience("aud");
    let c = claims(Some("iss"), Some(Audience::Single("aud".to_string())), Some(100), Some(50));
    assert!(validate_claims(&c, &v, 60).is_ok());
}

#[test]
fn validate_claims_rejects_issuer_and_audience() {
    let v = Validation::new().issuer("iss").audience("aud");
    let wrong_iss = claims(Some("evil"), Some(Audience::Single("aud".to_string())), Some(100), None);
    assert!(matches!(validate_claims(&wrong_iss, &v, 60), Err(Error::InvalidIssuer)));
    let no_iss = claims(None, Some(Audience::Single("aud".to_string())), Some(100), None);
    assert!(matches!(validate_claims(&no_iss, &v, 60), Err(Error::InvalidIssuer)));
    let wrong_aud = claims(Some("iss"), Some(Audience::Multiple(vec!["x".to_string()])), Some(100), None);
    assert!(matches!(validate_claims(&wrong_aud, &v, 60), Err(Error::InvalidAudience)));
    let no_aud = claims(Some("iss"), None, Some(100), None);
    assert!(matches!(validate_claims(&no_aud, &v, 60), Err(Error::InvalidAudience)));
}

#[test]
fn validate_claims_expiry_boundary() {
    let v = Validation::new();
    let c = claims(None, None, Some(100), None);
    // Expired once now has advanced past exp + leeway.
    assert!(validate_claims(&c, &v, 99).is_ok());
    assert!(matches!(validate_claims(&c, &v, 100), Err(Error::TokenExpired)));
    let lenient = Validation::new().leeway(5);
    assert!(validate_claims(&c, &lenient, 104).is_ok());
    assert!(matches!(validate_claims(&c, &lenient, 105), Err(Error::TokenExpired)));
}

#[test]
fn validate_claims_requires_exp() {
    let c = claims(None, None, None, None);
    match validate_claims(&c, &Validation::new(), 10) {
        Err(Error::MissingClaim(name)) => assert_eq!(name, "exp"),
        other => panic!("expected MissingClaim, got {other:?}"),
    }
    let mut optional = Validation::new();
    optional.require_exp = false;
    assert!(validate_claims(&c, &optional, 10).is_ok());
    // A required `exp` is required whether or not expiry is enforced.
    let mut unchecked = Validation::new();
    unchecked.validate_exp = false;
    assert!(matches!(validate_claims(&c, &unchecked, 10), Err(Error::MissingClaim("exp"))));
    unchecked.require_exp = false;
    assert!(validate_claims(&c, &unchecked, 10).is_ok());
    // An expired `exp` is not looked at when expiry is not enforced.
    let expired = claims(None, None, Some(5), None);
    let mut lax = Validation::new();
    lax.validate_exp = false;
    assert!(validate_claims(&expired, &lax, 10).is_ok());
}

#[test]
fn validate_claims_not_before() {
    let v = Validation::new().leeway(2);
    let c = claims(None, None, Some(1000), Some(100));
    assert!(validate_claims(&c, &v, 98).is_ok());
    assert!(matches!(validate_claims(&c, &v, 97), Err(Error::TokenNotYetValid)));
    let mut unchecked = Validation::new();
    unchecked.validate_nbf = false;
    assert!(validate_claims(&c, &unchecked, 0).is_ok());
}

#[test]
fn jwks_find_returns_first_match() {
    let jwks = Jwks {
        keys: vec![jwk(None, "a"), jwk(Some("k1"), "b"), jwk(Some("k2"), "c"), jwk(Some("k1"), "d")],
    };
    assert_eq!(jwks.find("k1").and_then(|k| k.n.as_deref()), Some("b"));
    assert_eq!(jwks.find("k2").and_then(|k| k.n.as_deref()), Some("c"));
    assert!(jwks.find("k3").is_none());
    assert!(Jwks { keys: vec![] }.find("k1").is_none());
}

#[test]
fn jwks_url_strips_trailing_slashes() {
    assert_eq!(
        jwks_url("https://auth.example.com").as_str(),
        "https://auth.example.com/.well-known/jwks.json"
    );
    assert_eq!(
        jwks_url("https://auth.example.com//").as_str(),
        "https://auth.example.com/.well-known/jwks.json"
    );
    assert_eq!(jwks_url("").as_str(), "/.well-known/jwks.json");
}

#[test]
fn parse_url_splits_scheme_authority_and_path() {
    let p = parse_url("HTTP://example.com:8080/base/").unwrap();
    assert!(matches!(p.scheme, UrlScheme::Http));
    assert_eq!(p.authority, "example.com:8080");
    assert_eq!(p.path, "/base/");
    let bare = parse_url("auth.example.com").unwrap();
    assert!(matches!(bare.scheme, UrlScheme::Https));
    assert_eq!(bare.authority, "auth.example.com");
    assert_eq!(bare.path, "");
    let other = parse_url("Ftp://host/x").unwrap();
    match other.scheme {
        UrlScheme::Other(s) => assert_eq!(s, "ftp"),
        s => panic!("expected another scheme, got {s:?}"),
    }
    match parse_url("https://") {
        Err(Error::Http(msg)) => assert_eq!(msg, "empty authority in base_url"),
        other => panic!("expected an Http error, got {other:?}"),
    }
}

#[test]
fn success_statuses() {
    assert!(fusionauth_jwt_rs::is_success_status(200));
    assert!(fusionauth_jwt_rs::is_success_status(299));
    assert!(!fusionauth_jwt_rs::is_success_status(199));
    assert!(!fusionauth_jwt_rs::is_success_status(300));
    assert!(!fusionauth_jwt_rs::is_success_status(404));
}

#[test]
fn map_jwt_error_table() {
    assert!(matches!(map_jwt_error(JwtErrorKind::InvalidSignature, "RS256"), Error::InvalidSignature));
    match map_jwt_error(JwtErrorKind::InvalidAlgorithm, "RS512") {
        Error::UnsupportedAlgorithm(alg) => assert_eq!(alg, "RS512"),
        other => panic!("expected UnsupportedAlgorithm, got {other:?}"),
    }
    match map_jwt_error(JwtErrorKind::InvalidAlgorithmName, "XX1") {
        Error::UnsupportedAlgorithm(alg) => assert_eq!(alg, "XX1"),
        other => panic!("expected UnsupportedAlgorithm, got {other:?}"),
    }
    assert!(matches!(map_jwt_error(JwtErrorKind::InvalidRsaKey, "RS256"), Error::InvalidKey));
    assert!(matches!(map_jwt_error(JwtErrorKind::InvalidKeyFormat, "RS256"), Error::InvalidKey));
    assert!(matches!(map_jwt_error(JwtErrorKind::Utf8, "RS256"), Error::MalformedToken));
    assert!(matches!(map_jwt_error(JwtErrorKind::ExpiredSignature, "RS256"), Error::TokenExpired));
    assert!(matches!(map_jwt_error(JwtErrorKind::ImmatureSignature, "RS256"), Error::TokenNotYetValid));
    assert!(matches!(map_jwt_error(JwtErrorKind::InvalidIssuer, "RS256"), Error::InvalidIssuer));
    assert!(matches!(map_jwt_error(JwtErrorKind::InvalidAudience, "RS256"), Error::InvalidAudience));
    let missing = |name: &str| map_jwt_error(JwtErrorKind::MissingRequiredClaim(name.to_string()), "RS256");
    assert!(matches!(missing("iss"), Error::InvalidIssuer));
    assert!(matches!(missing("aud"), Error::InvalidAudience));
    assert!(matches!(missing("exp"), Error::MissingClaim("exp")));
    assert!(matches!(missing("nbf"), Error::MissingClaim("nbf")));
    assert!(matches!(missing("sub"), Error::MalformedToken));
    for kind in [JwtErrorKind::InvalidClaimFormat, JwtErrorKind::Base64, JwtErrorKind::Json, JwtErrorKind::InvalidToken] {
        assert!(matches!(map_jwt_error(kind, "RS256"), Error::MalformedToken));
    }
    // Unrecognised failures fail closed.
    assert!(matches!(map_jwt_error(JwtErrorKind::Other, "RS256"), Error::InvalidSignature));
}

#[test]
fn error_messages() {
    assert_eq!(Error::MalformedToken.to_string(), "malformed token");
    assert_eq!(Error::KidNotFound("id4".to_string()).to_string(), "kid does not match any jwk: id4");
    assert_eq!(Error::MissingClaim("exp").to_string(), "missing required claim: exp");
    assert_eq!(Error::Http("boom".to_string()).to_string(), "jwks http request failed: boom");
    let json_err = serde_json::from_str::<serde_json::Value>("{").unwrap_err();
    assert!(Error::InvalidJson(json_err).to_string().starts_with("invalid json: "));
}

#[test]
fn claims_get_looks_up_extra_claims() {
    let mut c = Claims::default();
    assert!(c.get("cas_token").is_none());
    c.extra.insert("cas_token".to_string(), serde_json::Value::String("cas-abc".to_string()));
    assert_eq!(c.get("cas_token").and_then(|v| v.as_str()), Some("cas-abc"));
    let copy = c.clone();
    assert!(copy.get("cas_token").is_some());
}

#[test]
fn jwk_to_decoding_key_pins_the_algorithm() {
    let mut k = jwk(Some("k"), "AQAB");
    let (_, alg) = k.to_decoding_key("RS512").unwrap();
    assert_eq!(alg, RsaAlgorithm::RS256);
    k.alg = None;
    let (_, alg) = k.to_decoding_key("RS384").unwrap();
    assert_eq!(alg, RsaAlgorithm::RS384);
    match k.to_decoding_key("PS256") {
        Err(Error::UnsupportedAlgorithm(a)) => assert_eq!(a, "PS256"),
        other => panic!("expected UnsupportedAlgorithm, got {:?}", other.map(|p| p.1)),
    }
    k.e = Some("***".to_string());
    assert!(matches!(k.to_decoding_key("RS256").map(|p| p.1), Err(Error::InvalidKey)));
}

#[test]
fn relaxing_the_policy_keeps_acceptance() {
    let strict = Validation::new().issuer("iss").audience("aud").leeway(1);
    let c = claims(Some("iss"), Some(Audience::Single("aud".to_string())), Some(100), Some(90));
    assert!(validate_claims(&c, &strict, 95).is_ok());
    let mut no_issuer = strict.clone();
    no_issuer.issuer = None;
    assert!(validate_claims(&c, &no_issuer, 95).is_ok());
    let mut no_audience = strict.clone();
    no_audience.audience = None;
    assert!(validate_claims(&c, &no_audience, 95).is_ok());
    assert!(validate_claims(&c, &strict.clone().leeway(10), 95).is_ok());
}
