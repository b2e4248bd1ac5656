//! JSON Web Key Set handling, as served by FusionAuth's
//! `/.well-known/jwks.json` endpoint.

use vstd::prelude::*;

use crate::b64url::{base64url_decode, decode_base64url};
use crate::text::{str_eq, text_bytes};
use crate::crypto::{rsa_key_acceptable, rsa_public_key_new, RsaKey};
use crate::error::{Error, ErrorView};
use crate::jwt::{rsa_algorithm_named, rsa_decoding_key, JwtRsaKey, RsaAlgorithm};

verus! {

/// A single JSON Web Key. Only the fields needed for RSA verification are
/// modelled; unknown fields are ignored.
#[derive(Debug)]
pub struct Jwk {
    /// Key id, matched against the token header's `kid`.
    pub kid: Option<String>,
    /// Key type. Must be `"RSA"`.
    pub kty: String,
    /// Intended algorithm, e.g. `"RS256"`. Used to reject algorithm confusion.
    pub alg: Option<String>,
    /// Modulus, base64url-encoded.
    pub n: Option<String>,
    /// Public exponent, base64url-encoded.
    pub e: Option<String>,
}

impl Clone for Jwk {
    /// A copy of the key with the same fields.
    fn clone(&self) -> (k: Self)
        ensures
            k == *self,
    {
        Jwk {
            kid: self.kid.clone(),
            kty: self.kty.clone(),
            alg: self.alg.clone(),
            n: self.n.clone(),
            e: self.e.clone(),
        }
    }
}

/// The decoded modulus and exponent of an RSA JWK, where the key has type
/// `"RSA"`, carries both and both are unpadded base64url.
pub open spec fn jwk_rsa_components(jwk: Jwk) -> Option<(Seq<u8>, Seq<u8>)> {
    if jwk.kty@ != "RSA"@ {
        None
    } else {
        match (jwk.n, jwk.e) {
            (Some(n), Some(e)) => match (
                base64url_decode(text_bytes(n@)),
                base64url_decode(text_bytes(e@)),
            ) {
                (Some(nb), Some(eb)) => Some((nb, eb)),
                _ => None,
            },
            _ => None,
        }
    }
}

impl Jwk {
    /// Build an [`RsaKey`] from the JWK's `n`/`e` parameters.
    ///
    /// Succeeds exactly where the key has type `"RSA"`, both parameters are
    /// present and base64url, and the `rsa` crate accepts the decoded
    /// modulus and exponent; every failure is [`Error::InvalidKey`].
    pub fn to_rsa_public_key(&self) -> (res: Result<RsaKey, Error>)
        ensures
            res is Ok <==> (jwk_rsa_components(*self) matches Some(c) && rsa_key_acceptable(
                c.0,
                c.1,
            )),
            res matches Ok(k) ==> jwk_rsa_components(*self) == Some(k@),
            res is Err ==> res matches Err(Error::InvalidKey),
    {
        if !str_eq(self.kty.as_str(), "RSA") {
            return Err(Error::InvalidKey);
        }
        let n = match &self.n {
            Some(n) => n,
            None => return Err(Error::InvalidKey),
        };
        let e = match &self.e {
            Some(e) => e,
            None => return Err(Error::InvalidKey),
        };
        let n = match decode_base64url(n.as_str()) {
            Some(n) => n,
            None => return Err(Error::InvalidKey),
        };
        let e = match decode_base64url(e.as_str()) {
            Some(e) => e,
            None => return Err(Error::InvalidKey),
        };
        match rsa_public_key_new(n, e) {
            Some(key) => Ok(key),
            None => Err(Error::InvalidKey),
        }
    }
}

/// The name of the algorithm a key pins: its own `alg` where it has one,
/// else the one the token's header names.
pub open spec fn pinned_algorithm_name(jwk: Jwk, header_alg: Seq<char>) -> Seq<char> {
    match jwk.alg {
        Some(a) => a@,
        None => header_alg,
    }
}

/// What [`Jwk::to_decoding_key`] gives: the pinned algorithm, or the error.
pub open spec fn decoding_key_outcome(jwk: Jwk, header_alg: Seq<char>) -> Result<
    RsaAlgorithm,
    ErrorView,
> {
    if jwk.kty@ != "RSA"@ {
        Err(ErrorView::InvalidKey)
    } else {
        match rsa_algorithm_named(pinned_algorithm_name(jwk, header_alg)) {
            None => Err(ErrorView::UnsupportedAlgorithm(pinned_algorithm_name(jwk, header_alg))),
            Some(a) => match (jwk.n, jwk.e) {
                (Some(n), Some(e)) => if base64url_decode(text_bytes(n@)) is Some
                    && base64url_decode(text_bytes(e@)) is Some {
                    Ok(a)
                } else {
                    Err(ErrorView::InvalidKey)
                },
                _ => Err(ErrorView::InvalidKey),
            },
        }
    }
}

impl Jwk {
    /// Build the decoding key and pick the algorithm it is pinned to.
    ///
    /// The algorithm is the key's own `alg`, or the header's `header_alg`
    /// where the key declares none; it must be RS256, RS384 or RS512. The key
    /// must have type `"RSA"` and carry a base64url `n` and `e`.
    pub fn to_decoding_key(&self, header_alg: &str) -> (res: Result<(JwtRsaKey, RsaAlgorithm), Error>)
        ensures
            match res {
                Ok((key, alg)) => {
                    &&& decoding_key_outcome(*self, header_alg@) == Ok::<RsaAlgorithm, ErrorView>(alg)
                    &&& key@ == (self.n.unwrap()@, self.e.unwrap()@)
                },
                Err(e) => decoding_key_outcome(*self, header_alg@) == Err::<RsaAlgorithm, ErrorView>(e@),
            },
    {
        if !str_eq(self.kty.as_str(), "RSA") {
            return Err(Error::InvalidKey);
        }
        let name = match &self.alg {
            Some(a) => a.as_str(),
            None => header_alg,
        };
        let alg = if str_eq(name, "RS256") {
            RsaAlgorithm::RS256
        } else if str_eq(name, "RS384") {
            RsaAlgorithm::RS384
        } else if str_eq(name, "RS512") {
            RsaAlgorithm::RS512
        } else {
            return Err(Error::UnsupportedAlgorithm(String::from_str(name)));
        };
        let (n, e) = match (&self.n, &self.e) {
            (Some(n), Some(e)) => (n, e),
            _ => return Err(Error::InvalidKey),
        };
        match rsa_decoding_key(n.as_str(), e.as_str()) {
            Ok(key) => Ok((key, alg)),
            Err(_) => Err(Error::InvalidKey),
        }
    }
}

/// An RSA key with a base64url `n` and `e` is accepted and pinned to the
/// very algorithm its own `alg` (or, without one, the header's `alg`) names,
/// for each of RS256, RS384 and RS512; any other name is refused as
/// unsupported with that name.
pub proof fn lemma_rsa_key_pins_the_named_algorithm(jwk: Jwk, header_alg: Seq<char>)
    requires
        jwk.kty@ == "RSA"@,
        jwk.n is Some,
        jwk.e is Some,
        base64url_decode(text_bytes(jwk.n->0@)) is Some,
        base64url_decode(text_bytes(jwk.e->0@)) is Some,
    ensures
        ({
            let name = match jwk.alg {
                Some(a) => a@,
                None => header_alg,
            };
            &&& name == "RS256"@ ==> decoding_key_outcome(jwk, header_alg) == Ok::<
                RsaAlgorithm,
                ErrorView,
            >(RsaAlgorithm::RS256)
            &&& name == "RS384"@ ==> decoding_key_outcome(jwk, header_alg) == Ok::<
                RsaAlgorithm,
                ErrorView,
            >(RsaAlgorithm::RS384)
            &&& name == "RS512"@ ==> decoding_key_outcome(jwk, header_alg) == Ok::<
                RsaAlgorithm,
                ErrorView,
            >(RsaAlgorithm::RS512)
            &&& (name != "RS256"@ && name != "RS384"@ && name != "RS512"@) ==> decoding_key_outcome(
                jwk,
                header_alg,
            ) == Err::<RsaAlgorithm, ErrorView>(ErrorView::UnsupportedAlgorithm(name))
        }),
{
    reveal_strlit("RS256");
    reveal_strlit("RS384");
    reveal_strlit("RS512");
    assert("RS256"@[3] != "RS384"@[3]);
    assert("RS256"@[3] != "RS512"@[3]);
    assert("RS384"@[3] != "RS512"@[3]);
}

/// A set of JSON Web Keys.
#[derive(Debug)]
pub struct Jwks {
    pub keys: Vec<Jwk>,
}

impl Clone for Jwks {
    /// A copy of the set with the same keys in the same order.
    fn clone(&self) -> (s: Self)
        ensures
            s.keys@ == self.keys@,
    {
        let mut keys: Vec<Jwk> = Vec::new();
        let mut i: usize = 0;
        while i < self.keys.len()
            invariant
                0 <= i <= self.keys@.len(),
                keys@ == self.keys@.take(i as int),
            decreases self.keys@.len() - i,
        {
            keys.push(self.keys[i].clone());
            i = i + 1;
            assert(keys@ =~= self.keys@.take(i as int));
        }
        assert(self.keys@.take(self.keys@.len() as int) =~= self.keys@);
        Jwks { keys }
    }
}

/// The key carries the key id `kid`.
pub open spec fn kid_matches(jwk: Jwk, kid: Seq<char>) -> bool {
    jwk.kid matches Some(k) && k@ == kid
}

/// The first key of `keys` that carries the key id `kid`.
pub open spec fn find_key(keys: Seq<Jwk>, kid: Seq<char>) -> Option<Jwk>
    decreases keys.len(),
{
    if keys.len() == 0 {
        None
    } else if kid_matches(keys[0], kid) {
        Some(keys[0])
    } else {
        find_key(keys.drop_first(), kid)
    }
}

/// [`find_key`] gives a key of the set with that id, the first one, and gives
/// none exactly where no key has the id.
pub proof fn lemma_find_key_is_first_match(keys: Seq<Jwk>, kid: Seq<char>)
    ensures
        find_key(keys, kid) is None <==> forall|i: int|
            0 <= i < keys.len() ==> !kid_matches(#[trigger] keys[i], kid),
        find_key(keys, kid) matches Some(k) ==> exists|i: int|
            0 <= i < keys.len() && keys[i] == k && kid_matches(k, kid) && forall|j: int|
                0 <= j < i ==> !kid_matches(#[trigger] keys[j], kid),
    decreases keys.len(),
{
    if keys.len() > 0 {
        let rest = keys.drop_first();
        lemma_find_key_is_first_match(rest, kid);
        if !kid_matches(keys[0], kid) {
            assert forall|i: int| 0 < i < keys.len() implies keys[i] == rest[i - 1] by {}
            if find_key(rest, kid) is None {
                assert forall|i: int| 0 <= i < keys.len() implies !kid_matches(
                    #[trigger] keys[i],
                    kid,
                ) by {
                    if i > 0 {
                        assert(keys[i] == rest[i - 1]);
                    }
                }
            } else {
                let k = find_key(rest, kid)->0;
                let i = choose|i: int|
                    0 <= i < rest.len() && rest[i] == k && kid_matches(k, kid) && forall|j: int|
                        0 <= j < i ==> !kid_matches(#[trigger] rest[j], kid);
                assert(keys[i + 1] == k);
                assert forall|j: int| 0 <= j < i + 1 implies !kid_matches(#[trigger] keys[j], kid) by {
                    if j > 0 {
                        assert(keys[j] == rest[j - 1]);
                    }
                }
                assert(!kid_matches(keys[0], kid));
            }
        }
    }
}

impl Jwks {
    /// Find the key with the given `kid`, if present.
    pub fn find(&self, kid: &str) -> (res: Option<&Jwk>)
        ensures
            match res {
                Some(k) => find_key(self.keys@, kid@) == Some(*k),
                None => find_key(self.keys@, kid@) is None,
            },
    {
        let mut i: usize = 0;
        assert(self.keys@.skip(0) =~= self.keys@);
        while i < self.keys.len()
            invariant
                0 <= i <= self.keys@.len(),
                find_key(self.keys@, kid@) == find_key(self.keys@.skip(i as int), kid@),
            decreases self.keys@.len() - i,
        {
            let ghost rest = self.keys@.skip(i as int);
            assert(rest[0] == self.keys@[i as int]);
            assert(rest.drop_first() =~= self.keys@.skip(i + 1));
            let matched = match &self.keys[i].kid {
                Some(k) => str_eq(k.as_str(), kid),
                None => false,
            };
            if matched {
                return Some(&self.keys[i]);
            }
            i = i + 1;
        }
        None
    }
}

} // verus!
