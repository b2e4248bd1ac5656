use vstd::prelude::*;
use serde_json::Error as JsonError;

verus! {

/// Everything that can go wrong while verifying a FusionAuth JWT.
#[derive(Debug)]
pub enum Error {
    /// The token is not a well-formed `header.payload.signature` string.
    MalformedToken,
    /// A token segment was not valid base64url.
    InvalidBase64,
    /// A token segment or the JWKS response was not valid JSON.
    InvalidJson(JsonError),
    /// The token header had no `kid`. FusionAuth always sets one.
    MissingKid,
    /// No JWK in the set matched the token's `kid`.
    KidNotFound(String),
    /// The signing algorithm is not a supported RSA variant, or the header
    /// algorithm disagrees with the JWK's declared algorithm.
    UnsupportedAlgorithm(String),
    /// The JWK could not be turned into an RSA public key.
    InvalidKey,
    /// The RSA signature did not verify against the matched key.
    InvalidSignature,
    /// `exp` is in the past (accounting for leeway).
    TokenExpired,
    /// `nbf` is in the future (accounting for leeway).
    TokenNotYetValid,
    /// `iss` did not match the configured issuer.
    InvalidIssuer,
    /// `aud` did not contain the configured audience.
    InvalidAudience,
    /// A claim required by the configured validation was absent.
    MissingClaim(&'static str),
    /// Fetching the JWKS over HTTP failed.
    Http(String),
}

/// The abstract value of an [`Error`]: its variant, with the text it carries.
pub enum ErrorView {
    MalformedToken,
    InvalidBase64,
    InvalidJson,
    MissingKid,
    KidNotFound(Seq<char>),
    UnsupportedAlgorithm(Seq<char>),
    InvalidKey,
    InvalidSignature,
    TokenExpired,
    TokenNotYetValid,
    InvalidIssuer,
    InvalidAudience,
    MissingClaim(Seq<char>),
    Http(Seq<char>),
}

impl View for Error {
    type V = ErrorView;

    open spec fn view(&self) -> ErrorView {
        match self {
            Error::MalformedToken => ErrorView::MalformedToken,
            Error::InvalidBase64 => ErrorView::InvalidBase64,
            Error::InvalidJson(_) => ErrorView::InvalidJson,
            Error::MissingKid => ErrorView::MissingKid,
            Error::KidNotFound(kid) => ErrorView::KidNotFound(kid@),
            Error::UnsupportedAlgorithm(alg) => ErrorView::UnsupportedAlgorithm(alg@),
            Error::InvalidKey => ErrorView::InvalidKey,
            Error::InvalidSignature => ErrorView::InvalidSignature,
            Error::TokenExpired => ErrorView::TokenExpired,
            Error::TokenNotYetValid => ErrorView::TokenNotYetValid,
            Error::InvalidIssuer => ErrorView::InvalidIssuer,
            Error::InvalidAudience => ErrorView::InvalidAudience,
            Error::MissingClaim(c) => ErrorView::MissingClaim(c@),
            Error::Http(msg) => ErrorView::Http(msg@),
        }
    }
}

/// The text that `serde_json` prints for one of its errors.
///
/// Calls `<serde_json::Error as Display>::fmt` through `format!`. Nothing is
/// claimed of the text: it depends on the error's position and category,
/// which are not visible here.
#[verifier::external_body]
fn json_error_text(err: &JsonError) -> (text: String) {
    format!("{}", err)
}

/// The message of each error variant that carries no outside value.
pub open spec fn error_message(e: Error) -> Seq<char> {
    match e {
        Error::MalformedToken => "malformed token"@,
        Error::InvalidBase64 => "invalid base64url in token"@,
        Error::InvalidJson(_) => "invalid json: "@,
        Error::MissingKid => "no kid in token header"@,
        Error::KidNotFound(kid) => "kid does not match any jwk: "@ + kid@,
        Error::UnsupportedAlgorithm(alg) => "unsupported algorithm: "@ + alg@,
        Error::InvalidKey => "invalid rsa key in jwks"@,
        Error::InvalidSignature => "signature verification failed"@,
        Error::TokenExpired => "token has expired"@,
        Error::TokenNotYetValid => "token is not yet valid"@,
        Error::InvalidIssuer => "issuer does not match"@,
        Error::InvalidAudience => "audience does not match"@,
        Error::MissingClaim(c) => "missing required claim: "@ + c@,
        Error::Http(msg) => "jwks http request failed: "@ + msg@,
    }
}

impl Error {
    /// The human-readable message of this error.
    ///
    /// For [`Error::InvalidJson`] the message is `"invalid json: "` followed by
    /// the text `serde_json` gives for the inner error; for every other
    /// variant it is exactly [`error_message`].
    pub fn to_string(&self) -> (s: String)
        ensures
            !(self is InvalidJson) ==> s@ == error_message(*self),
            self is InvalidJson ==> exists|t: Seq<char>| s@ == error_message(*self) + t,
    {
        match self {
            Error::MalformedToken => String::from_str("malformed token"),
            Error::InvalidBase64 => String::from_str("invalid base64url in token"),
            Error::InvalidJson(e) => {
                let inner = json_error_text(e);
                let s = String::from_str("invalid json: ").concat(inner.as_str());
                assert(s@ == error_message(*self) + inner@);
                s
            },
            Error::MissingKid => String::from_str("no kid in token header"),
            Error::KidNotFound(kid) => String::from_str("kid does not match any jwk: ").concat(
                kid.as_str(),
            ),
            Error::UnsupportedAlgorithm(alg) => String::from_str("unsupported algorithm: ").concat(
                alg.as_str(),
            ),
            Error::InvalidKey => String::from_str("invalid rsa key in jwks"),
            Error::InvalidSignature => String::from_str("signature verification failed"),
            Error::TokenExpired => String::from_str("token has expired"),
            Error::TokenNotYetValid => String::from_str("token is not yet valid"),
            Error::InvalidIssuer => String::from_str("issuer does not match"),
            Error::InvalidAudience => String::from_str("audience does not match"),
            Error::MissingClaim(c) => String::from_str("missing required claim: ").concat(c),
            Error::Http(msg) => String::from_str("jwks http request failed: ").concat(
                msg.as_str(),
            ),
        }
    }
}

} // verus!
