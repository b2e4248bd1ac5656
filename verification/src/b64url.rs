//! Unpadded base64url, the encoding of JWK key material and JWT segments.

use vstd::prelude::*;
use base64::engine::general_purpose::URL_SAFE_NO_PAD;
use base64::Engine;

use crate::text::text_bytes;

verus! {

/// The bytes that unpadded base64url decoding (RFC 4648 section 5, without
/// `=` padding) gives for `input`, or `None` where `input` is not such an
/// encoding.
pub uninterp spec fn base64url_decode(input: Seq<u8>) -> Option<Seq<u8>>;

/// Decode unpadded base64url text.
///
/// Calls `base64::engine::general_purpose::URL_SAFE_NO_PAD.decode`, which
/// is a function of its input alone.
#[verifier::external_body]
pub(crate) fn decode_base64url(text: &str) -> (res: Option<Vec<u8>>)
    ensures
        match res {
            Some(bytes) => base64url_decode(text_bytes(text@)) == Some(bytes@),
            None => base64url_decode(text_bytes(text@)) is None,
        },
{
    URL_SAFE_NO_PAD.decode(text).ok()
}

} // verus!
