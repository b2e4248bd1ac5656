//! Verification of FusionAuth-issued JWTs against a JSON Web Key Set.
//!
//! A token is verified by matching its header's `kid` against the keys of the
//! set, pinning the algorithm to the matched key, and letting `jsonwebtoken`
//! check the RSA signature and the `iss`/`aud`/`exp`/`nbf` claims. The
//! verified claim set comes back as JSON text.
//!
//! [`Verifier::token_step`] holds the decisions of verifying with a cached
//! key set that is fetched, and fetched again once when a `kid` is unknown;
//! the caller performs the fetches it asks for.

mod b64url;
mod crypto;
mod error;
mod http;
mod json;
mod jwks;
mod jwt;
mod token;
mod text;
mod validation;

use vstd::prelude::*;

pub use b64url::base64url_decode;
pub use text::text_bytes;
pub use crypto::{
    be_value, digest_for_alg, digest_of, rsa_key_acceptable, rsa_pkcs1v15_verify, sha256_digest,
    sha384_digest, sha512_digest, verify_signature, DigestAlgorithm, RsaKey,
    lemma_each_name_selects_its_digest,
};
pub use error::{error_message, Error, ErrorView};
pub use http::{
    lemma_bare_host_is_https, lemma_jwks_url_ignores_trailing_slash, lemma_jwks_url_keeps_base_url, lemma_jwks_url_shape,
    lemma_parse_url_fails_on_empty_authority, lemma_parse_url_split, is_success_status, jwks_url, jwks_url_of, parse_url, parsed_url, trim_trailing_slashes,
    ParsedUrl, UrlScheme, JWKS_PATH,
};
pub use json::json_object_keys;
pub use jwks::{
    decoding_key_outcome, find_key, jwk_rsa_components, kid_matches, lemma_find_key_is_first_match,
    pinned_algorithm_name, lemma_rsa_key_pins_the_named_algorithm, Jwk, Jwks,
};
pub use jwt::{
    jwt_accepts_without_clock, jwt_claims_readable, jwt_error_cause, opt_text, payload_segment,
    ClaimPolicy, jwt_claim_aud, jwt_claim_exp, jwt_claim_iss, jwt_claim_nbf, signature_segment_decodes,
    times_admit, jwt_claims_text, jwt_header_of,
 rsa_algorithm_digest, rsa_algorithm_name, rsa_algorithm_named,
    rsa_signature_holds, split_at_last_dot, JwtErrorKind, JwtHeader, JwtPolicy, JwtRsaKey,
    RsaAlgorithm, MAX_LEEWAY,
};
pub use token::{audience_contains, lemma_audience_contains_is_membership, Audience, AudienceView, Claims};
pub use validation::{
    audience_ok, claims_verdict, clock_arithmetic_fits, exp_missing, expired, is_default_validation,
    issuer_ok, lemma_acceptance_is_an_interval, lemma_audience_array_member_is_accepted,
    lemma_audience_array_order_does_not_matter, lemma_accepted_claims_satisfy_policy,
    lemma_default_policy_ignores_issuer_and_audience, lemma_expiry_is_permanent,
    claim_policy_of, lemma_dropping_audience_keeps_acceptance, lemma_dropping_issuer_keeps_acceptance,
    lemma_more_leeway_keeps_acceptance, lemma_required_claim_names_list, not_yet_valid,
    required_claim_names, same_but_audience,
    same_but_issuer, same_but_leeway, unsigned_leeway, validate_claims, Validation,
};

use jwks::find_key as find_key_spec;
use jwt::{decode_jwt_header, jwt_decode, jwt_validation};

verus! {

/// What a `jsonwebtoken` error means to a caller: the error of this library
/// it is reported as. Unrecognised failures fail closed as
/// [`Error::InvalidSignature`].
pub open spec fn jwt_error_meaning(kind: JwtErrorKind, header_alg: Seq<char>) -> ErrorView {
    match kind {
        JwtErrorKind::InvalidSignature => ErrorView::InvalidSignature,
        JwtErrorKind::InvalidAlgorithm => ErrorView::UnsupportedAlgorithm(header_alg),
        JwtErrorKind::InvalidAlgorithmName => ErrorView::UnsupportedAlgorithm(header_alg),
        JwtErrorKind::InvalidRsaKey => ErrorView::InvalidKey,
        JwtErrorKind::InvalidKeyFormat => ErrorView::InvalidKey,
        JwtErrorKind::ExpiredSignature => ErrorView::TokenExpired,
        JwtErrorKind::ImmatureSignature => ErrorView::TokenNotYetValid,
        JwtErrorKind::InvalidIssuer => ErrorView::InvalidIssuer,
        JwtErrorKind::InvalidAudience => ErrorView::InvalidAudience,
        JwtErrorKind::MissingRequiredClaim(name) => if name@ == "iss"@ {
            ErrorView::InvalidIssuer
        } else if name@ == "aud"@ {
            ErrorView::InvalidAudience
        } else if name@ == "exp"@ {
            ErrorView::MissingClaim("exp"@)
        } else if name@ == "nbf"@ {
            ErrorView::MissingClaim("nbf"@)
        } else {
            ErrorView::MalformedToken
        },
        JwtErrorKind::InvalidClaimFormat => ErrorView::MalformedToken,
        JwtErrorKind::Base64 => ErrorView::MalformedToken,
        JwtErrorKind::Json => ErrorView::MalformedToken,
        JwtErrorKind::Utf8 => ErrorView::MalformedToken,
        JwtErrorKind::InvalidToken => ErrorView::MalformedToken,
        JwtErrorKind::Other => ErrorView::InvalidSignature,
    }
}

/// Map a `jsonwebtoken` verification failure onto this crate's [`Error`].
/// Unrecognised failures fail closed as [`Error::InvalidSignature`].
pub fn map_jwt_error(kind: JwtErrorKind, header_alg: &str) -> (e: Error)
    ensures
        e@ == jwt_error_meaning(kind, header_alg@),
{
    match kind {
        JwtErrorKind::InvalidSignature => Error::InvalidSignature,
        JwtErrorKind::InvalidAlgorithm | JwtErrorKind::InvalidAlgorithmName => {
            Error::UnsupportedAlgorithm(String::from_str(header_alg))
        },
        JwtErrorKind::InvalidRsaKey | JwtErrorKind::InvalidKeyFormat => Error::InvalidKey,
        JwtErrorKind::ExpiredSignature => Error::TokenExpired,
        JwtErrorKind::ImmatureSignature => Error::TokenNotYetValid,
        JwtErrorKind::InvalidIssuer => Error::InvalidIssuer,
        JwtErrorKind::InvalidAudience => Error::InvalidAudience,
        // A required claim was absent: `iss`/`aud` map to the matching policy
        // error, `exp` (and the rest) to a missing-claim error.
        JwtErrorKind::MissingRequiredClaim(name) => {
            if text::str_eq(name.as_str(), "iss") {
                Error::InvalidIssuer
            } else if text::str_eq(name.as_str(), "aud") {
                Error::InvalidAudience
            } else if text::str_eq(name.as_str(), "exp") {
                Error::MissingClaim("exp")
            } else if text::str_eq(name.as_str(), "nbf") {
                Error::MissingClaim("nbf")
            } else {
                Error::MalformedToken
            }
        },
        JwtErrorKind::InvalidClaimFormat
        | JwtErrorKind::Base64
        | JwtErrorKind::Json
        | JwtErrorKind::Utf8
        | JwtErrorKind::InvalidToken => Error::MalformedToken,
        JwtErrorKind::Other => Error::InvalidSignature,
    }
}

/// How a token's key is selected from a key set, before anything is
/// verified: its header's algorithm name, the matched key and the algorithm
/// the key pins; or the error.
pub open spec fn key_selection(token: Seq<u8>, keys: Seq<Jwk>) -> Result<
    (Seq<char>, Jwk, RsaAlgorithm),
    ErrorView,
> {
    match jwt_header_of(token) {
        None => Err(ErrorView::MalformedToken),
        Some((alg, kid)) => match kid {
            None => Err(ErrorView::MissingKid),
            Some(kid) => match find_key_spec(keys, kid) {
                None => Err(ErrorView::KidNotFound(kid)),
                Some(jwk) => match decoding_key_outcome(jwk, alg) {
                    Err(e) => Err(e),
                    Ok(pinned) => Ok((alg, jwk, pinned)),
                },
            },
        },
    }
}

/// An accepted token meets the checks of `validation` that read no clock:
/// it carries an `iss` holding the configured issuer, an `aud` holding the
/// configured audience, and an `exp` where one is required.
pub open spec fn claims_meet_validation(token: Seq<u8>, validation: Validation) -> bool {
    &&& validation.issuer matches Some(i) ==> (jwt_claim_iss(token) matches Some(l) && l.contains(
        i@,
    ))
    &&& validation.audience matches Some(a) ==> (jwt_claim_aud(token) matches Some(l)
        && l.contains(a@))
    &&& validation.require_exp ==> jwt_claim_exp(token) is Some
}

/// What verifying `token` against the key set `keys` under `validation` may
/// answer: the error of key selection where it fails. Otherwise: a header
/// naming another algorithm than the key pins is answered
/// `UnsupportedAlgorithm` with the header's algorithm; with the pinned
/// algorithm, a base64url signature that does not verify under the key is
/// answered `InvalidSignature`; an accepted token's claim set comes back,
/// with the signature verifying, the claims meeting the validation and the
/// time checks passing at some instant; any other error is what a
/// `jsonwebtoken` failure of a kind means whose condition holds
/// ([`jwt_error_cause`]). With neither `exp` nor `nbf` checked no clock is
/// read, and a token that meets everything checked is accepted.
pub open spec fn verification_outcome(
    token: Seq<u8>,
    keys: Seq<Jwk>,
    validation: Validation,
    res: Result<String, Error>,
) -> bool {
    match key_selection(token, keys) {
        Err(e) => res matches Err(x) && x@ == e,
        Ok((alg, jwk, pinned)) => {
            &&& alg != rsa_algorithm_name(pinned) ==> (res matches Err(x) && x@
                == ErrorView::UnsupportedAlgorithm(alg))
            &&& (alg == rsa_algorithm_name(pinned) && signature_segment_decodes(token)
                && !rsa_signature_holds(token, jwk.n.unwrap()@, jwk.e.unwrap()@, pinned)) ==> (
            res matches Err(x) && x@ == ErrorView::InvalidSignature)
            &&& match res {
                Ok(text) => {
                    &&& text@ == jwt_claims_text(token)
                    &&& alg == rsa_algorithm_name(pinned)
                    &&& rsa_signature_holds(token, jwk.n.unwrap()@, jwk.e.unwrap()@, pinned)
                    &&& claims_meet_validation(token, validation)
                    &&& exists|now: int|
                        #[trigger] times_admit(
                            jwt_claim_exp(token),
                            jwt_claim_nbf(token),
                            validation.validate_exp,
                            validation.validate_nbf,
                            unsigned_leeway(validation),
                            now,
                        )
                },
                Err(e) => exists|k: JwtErrorKind|
                    e@ == #[trigger] jwt_error_meaning(k, alg) && jwt_error_cause(
                        token,
                        jwk.n.unwrap()@,
                        jwk.e.unwrap()@,
                        claim_policy_of(validation, pinned),
                        k,
                    ),
            }
            &&& (!validation.validate_exp && !validation.validate_nbf && jwt_accepts_without_clock(
                token,
                jwk.n.unwrap()@,
                jwk.e.unwrap()@,
                claim_policy_of(validation, pinned),
            )) ==> res is Ok
        },
    }
}

/// Which fetch of the key set a verification asks for.
#[derive(Debug, Clone, Copy, PartialEq, Eq, Structural)]
pub enum FetchStage {
    /// The first fetch, where nothing is cached.
    Initial,
    /// The one refetch, where the cached set lacks the token's `kid`.
    Refetch,
}

/// What happened since the last step of a verification.
#[derive(Debug)]
pub enum TokenEvent {
    /// The verification begins.
    Start,
    /// The fetch asked for has completed.
    Fetched(FetchStage, Result<Jwks, Error>),
}

/// What a verification asks of its caller next.
#[derive(Debug)]
pub enum TokenStep {
    /// Fetch the key set and report it with [`TokenEvent::Fetched`].
    Fetch(FetchStage),
    /// The verification is over, with this result.
    Done(Result<String, Error>),
}

/// An event, as far as the decisions read it.
pub enum EventKind {
    Start,
    FetchFailed(ErrorView),
    Fetched(FetchStage, Seq<Jwk>),
}

/// The kind of an event.
pub open spec fn event_kind(e: TokenEvent) -> EventKind {
    match e {
        TokenEvent::Start => EventKind::Start,
        TokenEvent::Fetched(_, Err(err)) => EventKind::FetchFailed(err@),
        TokenEvent::Fetched(stage, Ok(jwks)) => EventKind::Fetched(stage, jwks.keys@),
    }
}

/// A step, as far as the decisions read it.
pub enum StepKind {
    Fetch(FetchStage),
    Done,
}

/// The kind of a step.
pub open spec fn step_kind(s: TokenStep) -> StepKind {
    match s {
        TokenStep::Fetch(stage) => StepKind::Fetch(stage),
        TokenStep::Done(_) => StepKind::Done,
    }
}

/// The token's header names a key id.
pub open spec fn header_has_kid(token: Seq<u8>) -> bool {
    jwt_header_of(token) matches Some(h) && h.1 is Some
}

/// The key id of the token's header.
pub open spec fn header_kid(token: Seq<u8>) -> Seq<char> {
    jwt_header_of(token).unwrap().1.unwrap()
}

/// The cached key set after a step.
pub open spec fn next_cache(cache: Option<Seq<Jwk>>, token: Seq<u8>, ev: EventKind) -> Option<
    Seq<Jwk>,
> {
    if !header_has_kid(token) {
        cache
    } else {
        match ev {
            EventKind::Fetched(_, keys) => Some(keys),
            _ => cache,
        }
    }
}

/// The step that follows an event. Nothing is cached: fetch. A cached set
/// that lacks the `kid`: fetch once more. A fetch has failed, or the set
/// fetched again: done. Otherwise verify against the cached set: done.
pub open spec fn next_step(cache: Option<Seq<Jwk>>, token: Seq<u8>, ev: EventKind) -> StepKind {
    if !header_has_kid(token) {
        StepKind::Done
    } else {
        let kid = header_kid(token);
        match ev {
            EventKind::Start => match cache {
                None => StepKind::Fetch(FetchStage::Initial),
                Some(keys) => if find_key_spec(keys, kid) is None {
                    StepKind::Fetch(FetchStage::Refetch)
                } else {
                    StepKind::Done
                },
            },
            EventKind::FetchFailed(_) => StepKind::Done,
            EventKind::Fetched(FetchStage::Initial, keys) => if find_key_spec(keys, kid) is None {
                StepKind::Fetch(FetchStage::Refetch)
            } else {
                StepKind::Done
            },
            EventKind::Fetched(FetchStage::Refetch, _) => StepKind::Done,
        }
    }
}

/// The result a finished step gives: the header's error, the failed fetch's
/// error, or the outcome of verifying against the key set cached after the
/// step.
pub open spec fn step_result(
    cache: Option<Seq<Jwk>>,
    token: Seq<u8>,
    ev: EventKind,
    validation: Validation,
    res: Result<String, Error>,
) -> bool {
    if jwt_header_of(token) is None {
        res matches Err(e) && e@ == ErrorView::MalformedToken
    } else if !header_has_kid(token) {
        res matches Err(e) && e@ == ErrorView::MissingKid
    } else {
        match ev {
            EventKind::FetchFailed(err) => res matches Err(e) && e@ == err,
            _ => match next_cache(cache, token, ev) {
                Some(keys) => verification_outcome(token, keys, validation, res),
                None => false,
            },
        }
    }
}

/// A verification fetches the key set at most twice: from any cache, after
/// the start and any two fetch results, it is done; where it asks for a
/// second fetch, that is the refetch.
pub proof fn lemma_at_most_two_fetches(
    cache: Option<Seq<Jwk>>,
    token: Seq<u8>,
    first: EventKind,
    second: EventKind,
)
    requires
        first !is Start,
        second !is Start,
    ensures
        ({
            let step0 = next_step(cache, token, EventKind::Start);
            let cache1 = next_cache(cache, token, EventKind::Start);
            step0 matches StepKind::Fetch(stage1) ==> {
                let ev1 = match first {
                    EventKind::Fetched(_, keys) => EventKind::Fetched(stage1, keys),
                    other => other,
                };
                let step1 = next_step(cache1, token, ev1);
                let cache2 = next_cache(cache1, token, ev1);
                step1 matches StepKind::Fetch(stage2) ==> {
                    let ev2 = match second {
                        EventKind::Fetched(_, keys) => EventKind::Fetched(stage2, keys),
                        other => other,
                    };
                    &&& stage2 == FetchStage::Refetch
                    &&& next_step(cache2, token, ev2) == StepKind::Done
                }
            }
        }),
{
}

/// With nothing cached, a verification of a token that names a key id
/// begins by fetching the key set.
pub proof fn lemma_empty_cache_fetches_first(token: Seq<u8>)
    requires
        header_has_kid(token),
    ensures
        next_step(None, token, EventKind::Start) == StepKind::Fetch(FetchStage::Initial),
{
}

/// A cached key set that knows the token's key id is used as it is: the
/// verification is done without fetching, the cache is kept, and the result
/// is what verifying against that set answers.
pub proof fn lemma_known_kid_needs_no_fetch(
    keys: Seq<Jwk>,
    token: Seq<u8>,
    validation: Validation,
    res: Result<String, Error>,
)
    requires
        header_has_kid(token),
        find_key_spec(keys, header_kid(token)) is Some,
    ensures
        next_step(Some(keys), token, EventKind::Start) == StepKind::Done,
        next_cache(Some(keys), token, EventKind::Start) == Some(keys),
        step_result(Some(keys), token, EventKind::Start, validation, res) == verification_outcome(
            token,
            keys,
            validation,
            res,
        ),
{
}

/// With nothing cached (a new verifier, or one whose cache was invalidated),
/// a token whose key id the fetched set knows takes exactly one fetch: the
/// set is cached and the result is what verifying against it answers.
pub proof fn lemma_empty_cache_fetches_once(
    keys: Seq<Jwk>,
    token: Seq<u8>,
    validation: Validation,
    res: Result<String, Error>,
)
    requires
        header_has_kid(token),
        find_key_spec(keys, header_kid(token)) is Some,
    ensures
        next_step(None, token, EventKind::Start) == StepKind::Fetch(FetchStage::Initial),
        next_cache(None, token, EventKind::Start) is None,
        next_step(None, token, EventKind::Fetched(FetchStage::Initial, keys)) == StepKind::Done,
        next_cache(None, token, EventKind::Fetched(FetchStage::Initial, keys)) == Some(keys),
        step_result(None, token, EventKind::Fetched(FetchStage::Initial, keys), validation, res)
            == verification_outcome(token, keys, validation, res),
{
}

/// A token whose key id no key of the set carries is rejected with that key
/// id, whatever else it holds.
pub proof fn lemma_unknown_kid_is_rejected(
    token: Seq<u8>,
    keys: Seq<Jwk>,
    validation: Validation,
    res: Result<String, Error>,
)
    requires
        header_has_kid(token),
        find_key_spec(keys, header_kid(token)) is None,
        verification_outcome(token, keys, validation, res),
    ensures
        res matches Err(e) && e@ == ErrorView::KidNotFound(header_kid(token)),
{
}

/// An accepted token was signed with the algorithm its key pins: its header
/// names the key's own `alg` where the key declares one, the signature
/// verifies under the key with that algorithm's digest, and its claims hold
/// the configured issuer and audience and an `exp` where one is required.
pub proof fn lemma_accepted_token_uses_pinned_algorithm(
    token: Seq<u8>,
    keys: Seq<Jwk>,
    validation: Validation,
    text: String,
)
    requires
        verification_outcome(token, keys, validation, Ok(text)),
    ensures
        key_selection(token, keys) matches Ok((alg, jwk, pinned)) && {
            &&& jwk.alg matches Some(a) ==> a@ == alg
            &&& rsa_algorithm_named(alg) == Some(pinned)
            &&& rsa_signature_holds(token, jwk.n.unwrap()@, jwk.e.unwrap()@, pinned)
            &&& kid_matches(jwk, jwt_header_of(token).unwrap().1.unwrap())
            &&& claims_meet_validation(token, validation)
        },
{
    let (alg, jwk, pinned) = key_selection(token, keys)->Ok_0;
    let kid = jwt_header_of(token).unwrap().1.unwrap();
    lemma_find_key_is_first_match(keys, kid);
    reveal_strlit("RS256");
    reveal_strlit("RS384");
    reveal_strlit("RS512");
    assert("RS256"@ != "RS384"@ && "RS256"@ != "RS512"@ && "RS384"@ != "RS512"@) by {
        assert("RS256"@[3] != "RS384"@[3]);
        assert("RS256"@[3] != "RS512"@[3]);
        assert("RS384"@[3] != "RS512"@[3]);
    }
}

/// Verifies FusionAuth JWTs against a JWKS.
///
/// Holds the FusionAuth base URL, the [`Validation`] policy, and a cached copy
/// of the JWKS so repeated verifications avoid extra HTTP calls.
pub struct Verifier {
    /// FusionAuth base URL, e.g. `https://auth.example.com`.
    base_url: String,
    /// Claim validation policy.
    validation: Validation,
    /// Cached JWKS (populated through [`Verifier::token_step`]).
    cache: Option<Jwks>,
}

impl Verifier {
    /// The base URL the key set is fetched under.
    pub closed spec fn base_url_spec(&self) -> String {
        self.base_url
    }

    /// The claim validation policy.
    pub closed spec fn validation_spec(&self) -> Validation {
        self.validation
    }

    /// The keys of the cached key set, if one is cached.
    pub closed spec fn cached_keys(&self) -> Option<Seq<Jwk>> {
        match self.cache {
            Some(jwks) => Some(jwks.keys@),
            None => None,
        }
    }

    /// FusionAuth base URL, e.g. `https://auth.example.com`.
    pub fn base_url(&self) -> (url: &str)
        ensures
            url@ == self.base_url_spec()@,
    {
        self.base_url.as_str()
    }

    /// Claim validation policy.
    pub fn validation(&self) -> (v: &Validation)
        ensures
            *v == self.validation_spec(),
    {
        &self.validation
    }

    /// Replace the base URL; the policy and the cache are kept.
    pub fn set_base_url(&mut self, base_url: &str)
        ensures
            final(self).base_url_spec()@ == base_url@,
            final(self).validation_spec() == old(self).validation_spec(),
            final(self).cached_keys() == old(self).cached_keys(),
    {
        self.base_url = String::from_str(base_url);
    }

    /// Replace the claim validation policy; the base URL and the cache are kept.
    pub fn set_validation(&mut self, validation: Validation)
        ensures
            final(self).validation_spec() == validation,
            final(self).base_url_spec() == old(self).base_url_spec(),
            final(self).cached_keys() == old(self).cached_keys(),
    {
        self.validation = validation;
    }

    /// Create a verifier for the given FusionAuth base URL and validation policy.
    pub fn new(base_url: &str, validation: Validation) -> (v: Self)
        ensures
            v.base_url_spec()@ == base_url@,
            v.validation_spec() == validation,
            v.cached_keys() is None,
    {
        Verifier { base_url: String::from_str(base_url), validation, cache: None }
    }

    /// Verify a token against a caller-supplied [`Jwks`]. Does no I/O, so it
    /// works on every target. `exp`/`nbf` are checked against the system
    /// clock. On success the verified claim set is returned as JSON text; its
    /// signature holds under the matched key and pinned algorithm, and its
    /// claims hold the configured issuer and audience and an `exp` where one
    /// is required.
    pub fn verify_with_jwks(&self, token: &str, jwks: &Jwks) -> (res: Result<String, Error>)
        requires
            self.validation_spec().leeway <= MAX_LEEWAY,
        ensures
            verification_outcome(text_bytes(token@), jwks.keys@, self.validation_spec(), res),
    {
        self.verify_core(token, jwks)
    }

    /// Replace the cached JWKS (e.g. with one you fetched yourself).
    pub fn set_jwks(&mut self, jwks: Jwks)
        ensures
            final(self).cached_keys() == Some(jwks.keys@),
            final(self).base_url_spec() == old(self).base_url_spec(),
            final(self).validation_spec() == old(self).validation_spec(),
    {
        self.cache = Some(jwks);
    }

    /// Force a JWKS refetch on the next verification.
    pub fn invalidate_cache(&mut self)
        ensures
            final(self).cached_keys() is None,
            final(self).base_url_spec() == old(self).base_url_spec(),
            final(self).validation_spec() == old(self).validation_spec(),
    {
        self.cache = None;
    }

    /// Shared verification core: select the key by `kid`, then let
    /// `jsonwebtoken` verify the signature, algorithm and registered claims.
    fn verify_core(&self, token: &str, jwks: &Jwks) -> (res: Result<String, Error>)
        requires
            self.validation_spec().leeway <= MAX_LEEWAY,
        ensures
            verification_outcome(text_bytes(token@), jwks.keys@, self.validation_spec(), res),
    {
        // Peek at the (unverified) header to select the key.
        let header = match decode_jwt_header(token) {
            Ok(h) => h,
            Err(_) => return Err(Error::MalformedToken),
        };
        let header_alg = header.alg;
        let kid = match header.kid {
            Some(kid) => kid,
            None => return Err(Error::MissingKid),
        };
        let jwk = match jwks.find(kid.as_str()) {
            Some(jwk) => jwk,
            None => return Err(Error::KidNotFound(kid)),
        };
        // The algorithm is pinned by the JWK, so a token header cannot swap it:
        // `decode` rejects a header `alg` other than the pinned one.
        let (key, alg) = match jwk.to_decoding_key(header_alg.as_str()) {
            Ok(pair) => pair,
            Err(e) => return Err(e),
        };
        let options = jwt_validation(self.validation.to_jwt_policy(alg));
        // `jsonwebtoken` verifies the signature, algorithm and `iss`/`aud`/
        // `exp`/`nbf` in one pass.
        match jwt_decode(token, &key, &options) {
            Ok(text) => {
                proof {
                    validation::lemma_required_claim_names_list(self.validation);
                }
                assert(options.policy()@ == claim_policy_of(self.validation, alg));
                Ok(text)
            },
            Err(kind) => {
                assert(options.policy()@ == claim_policy_of(self.validation, alg));
                let e = map_jwt_error(kind, header_alg.as_str());
                assert(e@ == jwt_error_meaning(kind, header_alg@));
                Err(e)
            },
        }
    }

    /// One step of verifying a token end to end: fetch (and cache) the JWKS,
    /// match the `kid`, verify the signature and validate the claims.
    ///
    /// The caller starts with [`TokenEvent::Start`], performs each fetch the
    /// step asks for and reports it, until the step is done. If the token's
    /// `kid` is not in the cached set, the JWKS is fetched again once (keys
    /// may have rotated) before giving up with [`Error::KidNotFound`]. A failed fetch ends the verification with its
    /// error and leaves the cache as it was.
    pub fn token_step(&mut self, token: &str, event: TokenEvent) -> (step: TokenStep)
        requires
            old(self).validation_spec().leeway <= MAX_LEEWAY,
        ensures
            final(self).base_url_spec() == old(self).base_url_spec(),
            final(self).validation_spec() == old(self).validation_spec(),
            final(self).cached_keys() == next_cache(
                old(self).cached_keys(),
                text_bytes(token@),
                event_kind(event),
            ),
            step_kind(step) == next_step(
                old(self).cached_keys(),
                text_bytes(token@),
                event_kind(event),
            ),
            step matches TokenStep::Done(res) ==> step_result(
                old(self).cached_keys(),
                text_bytes(token@),
                event_kind(event),
                old(self).validation_spec(),
                res,
            ),
    {
        let header = match decode_jwt_header(token) {
            Ok(h) => h,
            Err(_) => return TokenStep::Done(Err(Error::MalformedToken)),
        };
        let kid = match header.kid {
            Some(kid) => kid,
            None => return TokenStep::Done(Err(Error::MissingKid)),
        };
        match event {
            TokenEvent::Start => {},
            TokenEvent::Fetched(_, Err(e)) => return TokenStep::Done(Err(e)),
            TokenEvent::Fetched(stage, Ok(jwks)) => {
                self.cache = Some(jwks);
                match stage {
                    FetchStage::Refetch => return self.finish(token),
                    FetchStage::Initial => {},
                }
            },
        }
        match &self.cache {
            None => TokenStep::Fetch(FetchStage::Initial),
            Some(jwks) => {
                if jwks.find(kid.as_str()).is_none() {
                    // Refetch once on an unknown kid, in case of key rotation.
                    TokenStep::Fetch(FetchStage::Refetch)
                } else {
                    self.finish(token)
                }
            },
        }
    }

    /// Verify against the cached set, which is there.
    fn finish(&self, token: &str) -> (step: TokenStep)
        requires
            self.validation_spec().leeway <= MAX_LEEWAY,
            self.cached_keys() is Some,
        ensures
            step matches TokenStep::Done(res) && verification_outcome(
                text_bytes(token@),
                self.cached_keys().unwrap(),
                self.validation_spec(),
                res,
            ),
    {
        match &self.cache {
            Some(jwks) => TokenStep::Done(self.verify_core(token, jwks)),
            None => TokenStep::Done(Err(Error::MalformedToken)),
        }
    }
}

} // verus!
