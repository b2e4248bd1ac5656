//! RSASSA-PKCS1-v1_5 signature verification (RS256/RS384/RS512).

use vstd::prelude::*;
use rsa::{BigUint, Pkcs1v15Sign, RsaPublicKey};
use sha2::{Digest, Sha256, Sha384, Sha512};

use crate::text::text_bytes;
use crate::error::Error;
use crate::text::str_eq;

verus! {

/// An RSA public key of the `rsa` crate.
#[verifier::external_type_specification]
#[verifier::external_body]
pub struct ExRsaPublicKey(RsaPublicKey);

/// The value of a big-endian unsigned integer.
pub open spec fn be_value(bytes: Seq<u8>) -> nat
    decreases bytes.len(),
{
    if bytes.len() == 0 {
        0
    } else {
        be_value(bytes.drop_last()) * 256 + bytes.last() as nat
    }
}

/// The public keys that `rsa::RsaPublicKey::new` accepts: a modulus of at
/// most 4096 bits that is odd, and an odd exponent between 3 and 2^33 - 1
/// that is smaller than the modulus.
pub open spec fn rsa_key_acceptable(n: Seq<u8>, e: Seq<u8>) -> bool {
    let nv = be_value(n);
    let ev = be_value(e);
    &&& nv < vstd::arithmetic::power2::pow2(4096)
    &&& nv % 2 == 1
    &&& ev % 2 == 1
    &&& 3 <= ev <= 0x1_ffff_ffff
    &&& ev < nv
}

/// An RSA public key, with the modulus `n` and exponent `e` (big-endian
/// bytes) it was built from.
pub struct RsaKey {
    n: Vec<u8>,
    e: Vec<u8>,
    key: RsaPublicKey,
}

impl View for RsaKey {
    /// The modulus and the exponent, as big-endian bytes.
    type V = (Seq<u8>, Seq<u8>);

    closed spec fn view(&self) -> (Seq<u8>, Seq<u8>) {
        (self.n@, self.e@)
    }
}

/// Build an RSA public key from its big-endian modulus and exponent.
///
/// Calls `rsa::RsaPublicKey::new` on the two integers; `Some` exactly where
/// its checks (modulus size and parity, exponent range and parity) pass.
#[verifier::external_body]
pub(crate) fn rsa_public_key_new(n: Vec<u8>, e: Vec<u8>) -> (res: Option<RsaKey>)
    ensures
        res is Some <==> rsa_key_acceptable(n@, e@),
        res matches Some(k) ==> k@ == (n@, e@),
{
    let key = RsaPublicKey::new(BigUint::from_bytes_be(&n), BigUint::from_bytes_be(&e));
    key.ok().map(|key| RsaKey { n, e, key })
}

/// The digests that RS256, RS384 and RS512 sign.
#[derive(Debug, Clone, Copy, PartialEq, Eq, Structural)]
pub enum DigestAlgorithm {
    Sha256,
    Sha384,
    Sha512,
}

/// The SHA-256 digest of `data`.
pub uninterp spec fn sha256_digest(data: Seq<u8>) -> Seq<u8>;

/// The SHA-384 digest of `data`.
pub uninterp spec fn sha384_digest(data: Seq<u8>) -> Seq<u8>;

/// The SHA-512 digest of `data`.
pub uninterp spec fn sha512_digest(data: Seq<u8>) -> Seq<u8>;

/// The digest of `data` under `d`.
pub open spec fn digest_of(d: DigestAlgorithm, data: Seq<u8>) -> Seq<u8> {
    match d {
        DigestAlgorithm::Sha256 => sha256_digest(data),
        DigestAlgorithm::Sha384 => sha384_digest(data),
        DigestAlgorithm::Sha512 => sha512_digest(data),
    }
}

/// SHA-256 of `data`.
///
/// Calls `sha2::Sha256::digest`; the digest is 32 bytes long.
#[verifier::external_body]
fn sha256(data: &[u8]) -> (h: Vec<u8>)
    ensures
        h@ == sha256_digest(data@),
        h@.len() == 32,
{
    Sha256::digest(data).to_vec()
}

/// SHA-384 of `data`.
///
/// Calls `sha2::Sha384::digest`; the digest is 48 bytes long.
#[verifier::external_body]
fn sha384(data: &[u8]) -> (h: Vec<u8>)
    ensures
        h@ == sha384_digest(data@),
        h@.len() == 48,
{
    Sha384::digest(data).to_vec()
}

/// SHA-512 of `data`.
///
/// Calls `sha2::Sha512::digest`; the digest is 64 bytes long.
#[verifier::external_body]
fn sha512(data: &[u8]) -> (h: Vec<u8>)
    ensures
        h@ == sha512_digest(data@),
        h@.len() == 64,
{
    Sha512::digest(data).to_vec()
}

/// Whether `signature` is an RSASSA-PKCS1-v1_5 signature, with the digest
/// info of `d`, of the digest `hashed` under the public key (`n`, `e`).
pub uninterp spec fn rsa_pkcs1v15_verify(
    d: DigestAlgorithm,
    n: Seq<u8>,
    e: Seq<u8>,
    hashed: Seq<u8>,
    signature: Seq<u8>,
) -> bool;

/// Check an RSASSA-PKCS1-v1_5 signature of a digest.
///
/// Calls `rsa::RsaPublicKey::verify` with the scheme
/// `rsa::Pkcs1v15Sign::new::<H>()` for the digest `H` that `d` names; `true`
/// exactly where it returns `Ok`.
#[verifier::external_body]
fn rsa_verify_pkcs1v15(key: &RsaKey, d: DigestAlgorithm, hashed: &[u8], signature: &[u8]) -> (ok:
    bool)
    ensures
        ok == rsa_pkcs1v15_verify(d, key@.0, key@.1, hashed@, signature@),
{
    let scheme = match d {
        DigestAlgorithm::Sha256 => Pkcs1v15Sign::new::<Sha256>(),
        DigestAlgorithm::Sha384 => Pkcs1v15Sign::new::<Sha384>(),
        DigestAlgorithm::Sha512 => Pkcs1v15Sign::new::<Sha512>(),
    };
    key.key.verify(scheme, hashed, signature).is_ok()
}

/// The digest that a JOSE `alg` name selects: RS256, RS384 and RS512 only.
pub open spec fn digest_for_alg(alg: Seq<char>) -> Option<DigestAlgorithm> {
    if alg == "RS256"@ {
        Some(DigestAlgorithm::Sha256)
    } else if alg == "RS384"@ {
        Some(DigestAlgorithm::Sha384)
    } else if alg == "RS512"@ {
        Some(DigestAlgorithm::Sha512)
    } else {
        None
    }
}

/// Each JOSE name selects its own digest: RS256 SHA-256, RS384 SHA-384 and
/// RS512 SHA-512, and each digest is the hash function of that name.
pub proof fn lemma_each_name_selects_its_digest(data: Seq<u8>)
    ensures
        digest_for_alg("RS256"@) == Some(DigestAlgorithm::Sha256),
        digest_for_alg("RS384"@) == Some(DigestAlgorithm::Sha384),
        digest_for_alg("RS512"@) == Some(DigestAlgorithm::Sha512),
        digest_of(DigestAlgorithm::Sha256, data) == sha256_digest(data),
        digest_of(DigestAlgorithm::Sha384, data) == sha384_digest(data),
        digest_of(DigestAlgorithm::Sha512, data) == sha512_digest(data),
{
    reveal_strlit("RS256");
    reveal_strlit("RS384");
    reveal_strlit("RS512");
    assert("RS256"@[3] != "RS384"@[3]);
    assert("RS256"@[3] != "RS512"@[3]);
    assert("RS384"@[3] != "RS512"@[3]);
}

/// The digest of `data` under `d`, computed.
fn compute_digest(d: DigestAlgorithm, data: &[u8]) -> (h: Vec<u8>)
    ensures
        h@ == digest_of(d, data@),
{
    match d {
        DigestAlgorithm::Sha256 => sha256(data),
        DigestAlgorithm::Sha384 => sha384(data),
        DigestAlgorithm::Sha512 => sha512(data),
    }
}

/// Verify the JWT signature over `signing_input` (`header.payload`) using the
/// RSA public key, selecting the digest from the JOSE `alg`.
pub fn verify_signature(alg: &str, key: &RsaKey, signing_input: &str, signature: &[u8]) -> (res:
    Result<(), Error>)
    ensures
        match digest_for_alg(alg@) {
            None => res matches Err(Error::UnsupportedAlgorithm(a)) && a@ == alg@,
            Some(d) => {
                &&& res is Ok <==> rsa_pkcs1v15_verify(
                    d,
                    key@.0,
                    key@.1,
                    digest_of(d, text_bytes(signing_input@)),
                    signature@,
                )
                &&& res is Err ==> res matches Err(Error::InvalidSignature)
            },
        },
{
    let data = signing_input.as_bytes();
    let d = if str_eq(alg, "RS256") {
        DigestAlgorithm::Sha256
    } else if str_eq(alg, "RS384") {
        DigestAlgorithm::Sha384
    } else if str_eq(alg, "RS512") {
        DigestAlgorithm::Sha512
    } else {
        return Err(Error::UnsupportedAlgorithm(String::from_str(alg)));
    };
    let hashed = compute_digest(d, data);
    if rsa_verify_pkcs1v15(key, d, hashed.as_slice(), signature) {
        Ok(())
    } else {
        Err(Error::InvalidSignature)
    }
}

} // verus!
