//! The boundary with `jsonwebtoken`: reading a token's header, building the
//! RSA decoding key and the validation options, decoding a token, and the
//! kinds of error it reports.

use vstd::prelude::*;
use std::collections::HashSet;
use jsonwebtoken::errors::Error as JwtError;
use jsonwebtoken::errors::ErrorKind as JwtKind;
use jsonwebtoken::Algorithm as JwtAlg;
use jsonwebtoken::DecodingKey;
use jsonwebtoken::Validation as JwtOptions;
use serde_json::value::RawValue;

use crate::b64url::base64url_decode;
use crate::text::text_bytes;
use crate::crypto::{digest_of, rsa_key_acceptable, rsa_pkcs1v15_verify, DigestAlgorithm};

verus! {

/// An error reported by `jsonwebtoken`.
#[verifier::external_type_specification]
#[verifier::external_body]
pub struct ExJwtError(JwtError);

/// A key that `jsonwebtoken` verifies signatures with.
#[verifier::external_type_specification]
#[verifier::external_body]
pub struct ExDecodingKey(DecodingKey);

/// The kind of an error reported by `jsonwebtoken`.
#[verifier::external_type_specification]
#[verifier::external_body]
pub struct ExJwtKind(JwtKind);

/// The validation options of `jsonwebtoken`.
#[verifier::external_type_specification]
#[verifier::external_body]
pub struct ExJwtOptions(JwtOptions);

/// The RSA signature algorithms a JWK can pin.
#[derive(Debug, Clone, Copy, PartialEq, Eq, Structural)]
pub enum RsaAlgorithm {
    RS256,
    RS384,
    RS512,
}

/// The JOSE name of an algorithm.
pub open spec fn rsa_algorithm_name(a: RsaAlgorithm) -> Seq<char> {
    match a {
        RsaAlgorithm::RS256 => "RS256"@,
        RsaAlgorithm::RS384 => "RS384"@,
        RsaAlgorithm::RS512 => "RS512"@,
    }
}

/// The algorithm with a JOSE name, among those a JWK can pin.
pub open spec fn rsa_algorithm_named(name: Seq<char>) -> Option<RsaAlgorithm> {
    if name == "RS256"@ {
        Some(RsaAlgorithm::RS256)
    } else if name == "RS384"@ {
        Some(RsaAlgorithm::RS384)
    } else if name == "RS512"@ {
        Some(RsaAlgorithm::RS512)
    } else {
        None
    }
}

/// The digest an algorithm signs.
pub open spec fn rsa_algorithm_digest(a: RsaAlgorithm) -> DigestAlgorithm {
    match a {
        RsaAlgorithm::RS256 => DigestAlgorithm::Sha256,
        RsaAlgorithm::RS384 => DigestAlgorithm::Sha384,
        RsaAlgorithm::RS512 => DigestAlgorithm::Sha512,
    }
}

/// The header of a token, as far as key selection reads it.
#[derive(Debug)]
pub struct JwtHeader {
    /// The name of the header's `alg`, such as `"RS256"`.
    pub alg: String,
    /// The header's `kid`.
    pub kid: Option<String>,
}

impl View for JwtHeader {
    /// The algorithm's name and the key id.
    type V = (Seq<char>, Option<Seq<char>>);

    open spec fn view(&self) -> (Seq<char>, Option<Seq<char>>) {
        (
            self.alg@,
            match self.kid {
                Some(k) => Some(k@),
                None => None,
            },
        )
    }
}

/// The header that `jsonwebtoken` reads from a token: the name of its `alg`
/// and its `kid`; `None` where the token has no well-formed header.
pub uninterp spec fn jwt_header_of(token: Seq<u8>) -> Option<(Seq<char>, Option<Seq<char>>)>;

/// Read a token's header without verifying anything.
///
/// Calls `jsonwebtoken::decode_header`, a function of the token alone, and
/// keeps the `Debug` name of the header's algorithm and its `kid`.
#[verifier::external_body]
pub(crate) fn decode_jwt_header(token: &str) -> (res: Result<JwtHeader, JwtError>)
    ensures
        res is Ok <==> jwt_header_of(text_bytes(token@)) is Some,
        res matches Ok(h) ==> jwt_header_of(text_bytes(token@)) == Some(h@),
{
    jsonwebtoken::decode_header(token).map(|h| JwtHeader { alg: format!("{:?}", h.alg), kid: h.kid })
}

/// An RSA key for `jsonwebtoken`, with the base64url modulus and exponent it
/// was built from.
pub struct JwtRsaKey {
    n: String,
    e: String,
    key: DecodingKey,
}

impl View for JwtRsaKey {
    /// The base64url modulus and exponent.
    type V = (Seq<char>, Seq<char>);

    closed spec fn view(&self) -> (Seq<char>, Seq<char>) {
        (self.n@, self.e@)
    }
}

/// Build a decoding key from a base64url modulus and exponent.
///
/// Calls `jsonwebtoken::DecodingKey::from_rsa_components`, which decodes both
/// with unpadded base64url and fails exactly where one of them does not
/// decode.
#[verifier::external_body]
pub(crate) fn rsa_decoding_key(n: &str, e: &str) -> (res: Result<JwtRsaKey, JwtError>)
    ensures
        res is Ok <==> (base64url_decode(text_bytes(n@)) is Some && base64url_decode(
            text_bytes(e@),
        ) is Some),
        res matches Ok(k) ==> k@ == (n@, e@),
{
    DecodingKey::from_rsa_components(n, e).map(
        |key| JwtRsaKey { n: n.to_string(), e: e.to_string(), key },
    )
}

/// The claim checks handed to `jsonwebtoken`, as plain values.
#[derive(Debug)]
pub struct JwtPolicy {
    /// The only algorithm a token's header may name.
    pub algorithm: RsaAlgorithm,
    /// The registered claims a token must carry.
    pub required_claims: Vec<String>,
    /// Clock-skew tolerance, in seconds.
    pub leeway: u64,
    /// Check `exp`.
    pub validate_exp: bool,
    /// Check `nbf`.
    pub validate_nbf: bool,
    /// Check `aud`.
    pub validate_aud: bool,
    /// The accepted issuer, if any.
    pub issuer: Option<String>,
    /// The accepted audience, if any.
    pub audience: Option<String>,
}

/// The claim checks of a policy as abstract values.
pub struct ClaimPolicy {
    pub algorithm: RsaAlgorithm,
    pub required: Seq<Seq<char>>,
    pub validate_exp: bool,
    pub validate_nbf: bool,
    pub validate_aud: bool,
    pub issuer: Option<Seq<char>>,
    pub audience: Option<Seq<char>>,
}

/// The text of an optional string.
pub open spec fn opt_text(s: Option<String>) -> Option<Seq<char>> {
    match s {
        Some(t) => Some(t@),
        None => None,
    }
}

impl View for JwtPolicy {
    /// The claim checks; the leeway is left out, as only the clock reads it.
    type V = ClaimPolicy;

    open spec fn view(&self) -> ClaimPolicy {
        ClaimPolicy {
            algorithm: self.algorithm,
            required: self.required_claims@.map_values(|s: String| s@),
            validate_exp: self.validate_exp,
            validate_nbf: self.validate_nbf,
            validate_aud: self.validate_aud,
            issuer: opt_text(self.issuer),
            audience: opt_text(self.audience),
        }
    }
}

/// The validation options of `jsonwebtoken`, with the policy they were built
/// from.
pub struct JwtValidation {
    policy: JwtPolicy,
    options: JwtOptions,
}

impl JwtValidation {
    /// The policy the options were built from.
    pub closed spec fn policy(self) -> JwtPolicy {
        self.policy
    }
}

/// Build `jsonwebtoken`'s validation options from a policy.
///
/// Calls `jsonwebtoken::Validation::new` with the policy's algorithm and sets
/// each option from the field of the same meaning: the required claims, the
/// leeway, the `exp`/`nbf`/`aud` switches, and the accepted issuer and
/// audience as one-element sets.
#[verifier::external_body]
pub(crate) fn jwt_validation(p: JwtPolicy) -> (v: JwtValidation)
    ensures
        v.policy() == p,
{
    let alg = match p.algorithm {
        RsaAlgorithm::RS256 => JwtAlg::RS256,
        RsaAlgorithm::RS384 => JwtAlg::RS384,
        RsaAlgorithm::RS512 => JwtAlg::RS512,
    };
    let mut options = JwtOptions::new(alg);
    options.required_spec_claims = p.required_claims.iter().cloned().collect();
    options.leeway = p.leeway;
    options.validate_exp = p.validate_exp;
    options.validate_nbf = p.validate_nbf;
    options.validate_aud = p.validate_aud;
    options.iss = p.issuer.as_ref().map(|i| HashSet::from([i.clone()]));
    options.aud = p.audience.as_ref().map(|a| HashSet::from([a.clone()]));
    JwtValidation { policy: p, options }
}

/// The most leeway the time checks of `jsonwebtoken` take without their
/// clock arithmetic leaving `u64`: it subtracts the leeway from the current
/// time, which is past this many seconds since the epoch (November 2023).
pub const MAX_LEEWAY: u64 = 1_700_000_000;

/// A byte sequence split at its last `.`: what comes before and what comes
/// after; `None` where there is no `.`.
pub open spec fn split_at_last_dot(s: Seq<u8>) -> Option<(Seq<u8>, Seq<u8>)>
    decreases s.len(),
{
    if s.len() == 0 {
        None
    } else if s.last() == 46 {
        Some((s.drop_last(), Seq::<u8>::empty()))
    } else {
        match split_at_last_dot(s.drop_last()) {
            Some((before, after)) => Some((before, after.push(s.last()))),
            None => None,
        }
    }
}

/// The token carries an RSASSA-PKCS1-v1_5 signature, under the key with
/// base64url modulus `n` and exponent `e` and with the digest of `alg`, over
/// its signing input: everything before its last `.`. The signature is the
/// base64url text after that `.`.
pub open spec fn rsa_signature_holds(token: Seq<u8>, n: Seq<char>, e: Seq<char>, alg: RsaAlgorithm) -> bool {
    let d = rsa_algorithm_digest(alg);
    match (
        split_at_last_dot(token),
        base64url_decode(text_bytes(n)),
        base64url_decode(text_bytes(e)),
    ) {
        (Some((message, sig_text)), Some(nb), Some(eb)) => match base64url_decode(sig_text) {
            Some(sig) => rsa_key_acceptable(nb, eb) && rsa_pkcs1v15_verify(
                d,
                nb,
                eb,
                digest_of(d, message),
                sig,
            ),
            None => false,
        },
        _ => false,
    }
}

/// The `iss` claim of a token as `jsonwebtoken` reads it for validation:
/// the one string, or the strings of an array of strings; `None` where the
/// claim is absent, null or of another shape.
pub uninterp spec fn jwt_claim_iss(token: Seq<u8>) -> Option<Seq<Seq<char>>>;

/// The `aud` claim of a token as `jsonwebtoken` reads it for validation:
/// the one string, or the strings of an array of strings; `None` where the
/// claim is absent, null or of another shape.
pub uninterp spec fn jwt_claim_aud(token: Seq<u8>) -> Option<Seq<Seq<char>>>;

/// The `exp` claim of a token as `jsonwebtoken` reads it for validation: a
/// number representable as a `u64`; `None` where the claim is absent, null
/// or not such a number.
pub uninterp spec fn jwt_claim_exp(token: Seq<u8>) -> Option<u64>;

/// The `nbf` claim of a token as `jsonwebtoken` reads it for validation: a
/// number representable as a `u64`; `None` where the claim is absent, null
/// or not such a number.
pub uninterp spec fn jwt_claim_nbf(token: Seq<u8>) -> Option<u64>;

/// The time checks pass at the instant `now` (seconds since the epoch): an
/// `exp` that is checked is not before `now - leeway`, and an `nbf` that is
/// checked is not after `now + leeway`.
pub open spec fn times_admit(
    exp: Option<u64>,
    nbf: Option<u64>,
    validate_exp: bool,
    validate_nbf: bool,
    leeway: int,
    now: int,
) -> bool {
    &&& validate_exp ==> (exp matches Some(e) ==> e >= now - leeway)
    &&& validate_nbf ==> (nbf matches Some(n) ==> n <= now + leeway)
}

/// The signature segment of a token (after its last `.`) is unpadded
/// base64url.
pub open spec fn signature_segment_decodes(token: Seq<u8>) -> bool {
    split_at_last_dot(token) matches Some((_, sig)) && base64url_decode(sig) is Some
}

/// The payload segment of a token: between its last two `.`.
pub open spec fn payload_segment(token: Seq<u8>) -> Option<Seq<u8>> {
    match split_at_last_dot(token) {
        Some((message, _)) => match split_at_last_dot(message) {
            Some((_, payload)) => Some(payload),
            None => None,
        },
        None => None,
    }
}

/// The token's base64url-decoded payload is JSON that `serde_json` reads as
/// a raw value and `jsonwebtoken` reads as a claim set (a JSON object).
pub uninterp spec fn jwt_claims_readable(token: Seq<u8>) -> bool;

/// The conditions under which `jsonwebtoken::decode` may report an error of
/// kind `k` for `token`, a key with base64url modulus `n` and exponent `e`,
/// and options built from the policy `p`. Kinds not listed never arise.
pub open spec fn jwt_error_cause(
    token: Seq<u8>,
    n: Seq<char>,
    e: Seq<char>,
    p: ClaimPolicy,
    k: JwtErrorKind,
) -> bool {
    let header = jwt_header_of(token);
    match k {
        JwtErrorKind::InvalidToken => header is None,
        JwtErrorKind::Base64 => header is None || !signature_segment_decodes(token) || !(
        payload_segment(token) matches Some(pl) && base64url_decode(pl) is Some),
        JwtErrorKind::Json => header is None || !jwt_claims_readable(token),
        JwtErrorKind::InvalidAlgorithm => header matches Some(h) && h.0 != rsa_algorithm_name(
            p.algorithm,
        ),
        JwtErrorKind::InvalidSignature => header matches Some(h) && h.0 == rsa_algorithm_name(
            p.algorithm,
        ) && signature_segment_decodes(token) && !rsa_signature_holds(token, n, e, p.algorithm),
        JwtErrorKind::MissingRequiredClaim(c) => p.required.contains(c@) && (c@ == "exp"@
            && jwt_claim_exp(token) is None || c@ == "iss"@ && jwt_claim_iss(token) is None || c@
            == "aud"@ && jwt_claim_aud(token) is None || c@ == "nbf"@ && jwt_claim_nbf(token) is None
            || c@ == "sub"@),
        JwtErrorKind::InvalidClaimFormat => p.validate_exp && jwt_claim_exp(token) is None
            || p.validate_nbf && jwt_claim_nbf(token) is None,
        JwtErrorKind::ExpiredSignature => p.validate_exp && jwt_claim_exp(token) is Some,
        JwtErrorKind::ImmatureSignature => p.validate_nbf && jwt_claim_nbf(token) is Some,
        JwtErrorKind::InvalidIssuer => match (p.issuer, jwt_claim_iss(token)) {
            (Some(i), Some(l)) => !l.contains(i),
            _ => false,
        },
        JwtErrorKind::InvalidAudience => p.validate_aud && match jwt_claim_aud(token) {
            Some(l) => match p.audience {
                Some(a) => !l.contains(a),
                None => true,
            },
            None => false,
        },
        _ => false,
    }
}

/// Everything `jsonwebtoken::decode` checks without the clock holds: the
/// header names the pinned algorithm, the signature verifies, the payload
/// decodes and reads as a claim set, each required claim is one of `exp`,
/// `iss`, `aud` and present, a present `iss` holds the accepted issuer, and a
/// checked `aud` is absent or holds the accepted audience.
pub open spec fn jwt_accepts_without_clock(token: Seq<u8>, n: Seq<char>, e: Seq<char>, p: ClaimPolicy) -> bool {
    &&& jwt_header_of(token) matches Some(h) && h.0 == rsa_algorithm_name(p.algorithm)
    &&& rsa_signature_holds(token, n, e, p.algorithm)
    &&& payload_segment(token) matches Some(pl) && base64url_decode(pl) is Some
    &&& jwt_claims_readable(token)
    &&& forall|i: int|
        0 <= i < p.required.len() ==> (#[trigger] p.required[i] == "exp"@ && jwt_claim_exp(token) is Some)
            || (p.required[i] == "iss"@ && jwt_claim_iss(token) is Some) || (p.required[i]
            == "aud"@ && jwt_claim_aud(token) is Some)
    &&& p.issuer matches Some(i) ==> (jwt_claim_iss(token) matches Some(l) ==> l.contains(i))
    &&& p.validate_aud ==> (jwt_claim_aud(token) matches Some(l) ==> (p.audience matches Some(a)
        && l.contains(a)))
}

/// The JSON text of a token's claim set, as `serde_json` reads it as a raw
/// value from the token's base64url-decoded payload segment.
pub uninterp spec fn jwt_claims_text(token: Seq<u8>) -> Seq<char>;

/// Decode and validate a token, keeping its claim set as JSON text.
///
/// Calls `jsonwebtoken::decode`, asking for the claims as raw JSON, and
/// names the kind of the error it reports. Where `exp` or `nbf` is checked
/// it reads the system clock, so there success is not a function of the
/// arguments. Stated is what its source shows:
/// - before anything else, a header that names another algorithm than the
///   pinned one is answered `InvalidAlgorithm`;
/// - with the pinned algorithm, a base64url signature segment that does not
///   verify under the key is answered `InvalidSignature`; both come before
///   the clock is read;
/// - each kind of error it reports arises only under its condition
///   ([`jwt_error_cause`]);
/// - with neither `exp` nor `nbf` checked, no clock is read, and it succeeds
///   wherever everything it checks holds ([`jwt_accepts_without_clock`]);
/// - of every success: the header names the pinned algorithm, the signature
///   verifies, the text is the token's claim set, the required claims are
///   present, a present `iss` holds the accepted issuer, a checked `aud`
///   holds the accepted audience, and the time checks passed at some instant.
#[verifier::external_body]
pub(crate) fn jwt_decode(token: &str, key: &JwtRsaKey, validation: &JwtValidation) -> (res: Result<
    String,
    JwtErrorKind,
>)
    requires
        validation.policy().leeway <= MAX_LEEWAY,
    ensures
        jwt_header_of(text_bytes(token@)) matches Some(h) && h.0 != rsa_algorithm_name(
            validation.policy().algorithm,
        ) ==> res matches Err(JwtErrorKind::InvalidAlgorithm),
        jwt_header_of(text_bytes(token@)) matches Some(h) && h.0 == rsa_algorithm_name(
            validation.policy().algorithm,
        ) && signature_segment_decodes(text_bytes(token@)) && !rsa_signature_holds(
            text_bytes(token@),
            key@.0,
            key@.1,
            validation.policy().algorithm,
        ) ==> res matches Err(JwtErrorKind::InvalidSignature),
        res is Ok ==> (jwt_header_of(text_bytes(token@)) matches Some(h) && h.0
            == rsa_algorithm_name(validation.policy().algorithm)),
        res is Ok ==> rsa_signature_holds(
            text_bytes(token@),
            key@.0,
            key@.1,
            validation.policy().algorithm,
        ),
        res is Ok && validation.policy().required_claims@.map_values(|s: String| s@).contains(
            "exp"@,
        ) ==> jwt_claim_exp(text_bytes(token@)) is Some,
        res is Ok && validation.policy().required_claims@.map_values(|s: String| s@).contains(
            "iss"@,
        ) ==> jwt_claim_iss(text_bytes(token@)) is Some,
        res is Ok && validation.policy().required_claims@.map_values(|s: String| s@).contains(
            "aud"@,
        ) ==> jwt_claim_aud(text_bytes(token@)) is Some,
        res is Ok ==> (validation.policy().issuer matches Some(i) ==> (jwt_claim_iss(
            text_bytes(token@),
        ) matches Some(l) ==> l.contains(i@))),
        res is Ok && validation.policy().validate_aud ==> (validation.policy().audience matches Some(
            a,
        ) ==> (jwt_claim_aud(text_bytes(token@)) matches Some(l) ==> l.contains(a@))),
        res is Ok ==> exists|now: int|
            #[trigger] times_admit(
                jwt_claim_exp(text_bytes(token@)),
                jwt_claim_nbf(text_bytes(token@)),
                validation.policy().validate_exp,
                validation.policy().validate_nbf,
                validation.policy().leeway as int,
                now,
            ),
        res matches Ok(text) ==> text@ == jwt_claims_text(text_bytes(token@)),
        res is Ok ==> jwt_claims_readable(text_bytes(token@)),
        res matches Err(k) ==> jwt_error_cause(
            text_bytes(token@),
            key@.0,
            key@.1,
            validation.policy()@,
            k,
        ),
        !validation.policy().validate_exp && !validation.policy().validate_nbf
            && jwt_accepts_without_clock(text_bytes(token@), key@.0, key@.1, validation.policy()@)
            ==> res is Ok,
{
    jsonwebtoken::decode::<Box<RawValue>>(token, &key.key, &validation.options).map(
        |data| data.claims.get().to_string(),
    ).map_err(|err| jwt_error_kind(&err))
}

/// The kinds of error `jsonwebtoken` reports, as far as this library tells
/// them apart.
#[derive(Debug)]
pub enum JwtErrorKind {
    InvalidToken,
    InvalidSignature,
    InvalidAlgorithm,
    InvalidAlgorithmName,
    InvalidRsaKey,
    InvalidKeyFormat,
    ExpiredSignature,
    ImmatureSignature,
    InvalidIssuer,
    InvalidAudience,
    MissingRequiredClaim(String),
    InvalidClaimFormat,
    Base64,
    Json,
    Utf8,
    /// Any other kind.
    Other,
}

/// The kind of a `jsonwebtoken` error.
///
/// Calls `jsonwebtoken::errors::Error::kind` and names its variant: the
/// signature, algorithm and claim kinds here, the others through
/// [`jwt_other_kind`]. Nothing is stated: the error is opaque here.
#[verifier::external_body]
fn jwt_error_kind(err: &JwtError) -> (kind: JwtErrorKind) {
    match err.kind() {
        JwtKind::InvalidSignature => JwtErrorKind::InvalidSignature,
        JwtKind::InvalidAlgorithm => JwtErrorKind::InvalidAlgorithm,
        JwtKind::InvalidAlgorithmName => JwtErrorKind::InvalidAlgorithmName,
        JwtKind::ExpiredSignature => JwtErrorKind::ExpiredSignature,
        JwtKind::ImmatureSignature => JwtErrorKind::ImmatureSignature,
        JwtKind::InvalidIssuer => JwtErrorKind::InvalidIssuer,
        JwtKind::InvalidAudience => JwtErrorKind::InvalidAudience,
        JwtKind::MissingRequiredClaim(c) => JwtErrorKind::MissingRequiredClaim(c.clone()),
        JwtKind::InvalidClaimFormat(_) => JwtErrorKind::InvalidClaimFormat,
        other => jwt_other_kind(other),
    }
}

/// The name of a `jsonwebtoken` error kind that is about the token's format
/// or the key: one arm per variant, every other variant `Other`.
#[verifier::external_body]
fn jwt_other_kind(kind: &JwtKind) -> (k: JwtErrorKind) {
    match kind {
        JwtKind::InvalidToken => JwtErrorKind::InvalidToken,
        JwtKind::InvalidRsaKey(_) => JwtErrorKind::InvalidRsaKey,
        JwtKind::InvalidKeyFormat => JwtErrorKind::InvalidKeyFormat,
        JwtKind::Base64(_) => JwtErrorKind::Base64,
        JwtKind::Json(_) => JwtErrorKind::Json,
        JwtKind::Utf8(_) => JwtErrorKind::Utf8,
        _ => JwtErrorKind::Other,
    }
}

} // verus!
