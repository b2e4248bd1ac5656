//! Claim validation: which registered claims a token must carry, and the
//! `iss`/`aud`/`exp`/`nbf` checks applied to them.

use vstd::prelude::*;

use crate::error::Error;
use crate::jwt::{opt_text, ClaimPolicy, JwtPolicy, RsaAlgorithm};
use crate::token::{audience_contains, Audience, Claims};

verus! {

/// Which claims to enforce and how. Build with [`Validation::new`] and the
/// chained setters.
#[derive(Debug)]
pub struct Validation {
    /// Required issuer (`iss`). `None` skips the check.
    pub issuer: Option<String>,
    /// Required audience (`aud`). `None` skips the check.
    pub audience: Option<String>,
    /// Enforce `exp` (expiry).
    pub validate_exp: bool,
    /// Enforce `nbf` (not-before) when the claim is present.
    pub validate_nbf: bool,
    /// Reject tokens that carry no `exp` at all.
    pub require_exp: bool,
    /// Clock-skew tolerance, in seconds.
    pub leeway: i64,
}

/// The default policy: expiry enforced and required, `nbf` enforced when
/// present, no issuer or audience constraint, no leeway.
pub open spec fn is_default_validation(v: Validation) -> bool {
    &&& v.issuer is None
    &&& v.audience is None
    &&& v.validate_exp
    &&& v.validate_nbf
    &&& v.require_exp
    &&& v.leeway == 0
}

/// `a` and `b` agree on every setting but the issuer.
pub open spec fn same_but_issuer(a: Validation, b: Validation) -> bool {
    &&& a.audience == b.audience
    &&& a.validate_exp == b.validate_exp
    &&& a.validate_nbf == b.validate_nbf
    &&& a.require_exp == b.require_exp
    &&& a.leeway == b.leeway
}

/// `a` and `b` agree on every setting but the audience.
pub open spec fn same_but_audience(a: Validation, b: Validation) -> bool {
    &&& a.issuer == b.issuer
    &&& a.validate_exp == b.validate_exp
    &&& a.validate_nbf == b.validate_nbf
    &&& a.require_exp == b.require_exp
    &&& a.leeway == b.leeway
}

/// `a` and `b` agree on every setting but the leeway.
pub open spec fn same_but_leeway(a: Validation, b: Validation) -> bool {
    &&& a.issuer == b.issuer
    &&& a.audience == b.audience
    &&& a.validate_exp == b.validate_exp
    &&& a.validate_nbf == b.validate_nbf
    &&& a.require_exp == b.require_exp
}

impl Clone for Validation {
    /// A copy of the policy with the same settings.
    fn clone(&self) -> (v: Self)
        ensures
            v == *self,
    {
        Validation {
            issuer: self.issuer.clone(),
            audience: self.audience.clone(),
            validate_exp: self.validate_exp,
            validate_nbf: self.validate_nbf,
            require_exp: self.require_exp,
            leeway: self.leeway,
        }
    }
}

impl Default for Validation {
    /// Default validation: enforce expiry, no issuer/audience constraint.
    fn default() -> (v: Self)
        ensures
            is_default_validation(v),
    {
        Validation {
            issuer: None,
            audience: None,
            validate_exp: true,
            validate_nbf: true,
            require_exp: true,
            leeway: 0,
        }
    }
}

impl Validation {
    /// Default validation: enforce expiry, no issuer/audience constraint.
    pub fn new() -> (v: Self)
        ensures
            is_default_validation(v),
    {
        Validation::default()
    }

    /// Require this issuer (`iss`).
    pub fn issuer(self, iss: &str) -> (v: Self)
        ensures
            v.issuer matches Some(i) && i@ == iss@,
            same_but_issuer(v, self),
    {
        let mut v = self;
        v.issuer = Some(String::from_str(iss));
        v
    }

    /// Require this audience (`aud`). For FusionAuth this is the application id.
    pub fn audience(self, aud: &str) -> (v: Self)
        ensures
            v.audience matches Some(a) && a@ == aud@,
            same_but_audience(v, self),
    {
        let mut v = self;
        v.audience = Some(String::from_str(aud));
        v
    }

    /// Allow this much clock skew (seconds) on `exp`/`nbf`.
    pub fn leeway(self, seconds: i64) -> (v: Self)
        ensures
            v.leeway == seconds,
            same_but_leeway(v, self),
    {
        let mut v = self;
        v.leeway = seconds;
        v
    }
}

/// The registered claims a token must carry under `v`: `exp` where it is
/// required, `iss` where an issuer is configured, `aud` where an
/// audience is.
pub open spec fn required_claim_names(v: Validation) -> Seq<Seq<char>> {
    (if v.require_exp {
        seq!["exp"@]
    } else {
        Seq::<Seq<char>>::empty()
    }) + (if v.issuer is Some {
        seq!["iss"@]
    } else {
        Seq::<Seq<char>>::empty()
    }) + (if v.audience is Some {
        seq!["aud"@]
    } else {
        Seq::<Seq<char>>::empty()
    })
}

/// The required claims list `exp` where it is required, `iss` where an issuer
/// is configured and `aud` where an audience is.
pub proof fn lemma_required_claim_names_list(v: Validation)
    ensures
        v.require_exp ==> required_claim_names(v).contains("exp"@),
        v.issuer is Some ==> required_claim_names(v).contains("iss"@),
        v.audience is Some ==> required_claim_names(v).contains("aud"@),
{
    let e = if v.require_exp { seq!["exp"@] } else { Seq::<Seq<char>>::empty() };
    let i = if v.issuer is Some { seq!["iss"@] } else { Seq::<Seq<char>>::empty() };
    let a = if v.audience is Some { seq!["aud"@] } else { Seq::<Seq<char>>::empty() };
    let names = required_claim_names(v);
    assert(names == e + i + a);
    if v.require_exp {
        assert(names[0] == "exp"@);
    }
    if v.issuer is Some {
        assert(names[e.len() as int] == "iss"@);
    }
    if v.audience is Some {
        assert(names[(e.len() + i.len()) as int] == "aud"@);
    }
}

/// The claim checks handed to `jsonwebtoken` for a token pinned to `alg`
/// under `v`, as abstract values (what [`Validation::to_jwt_policy`] builds).
pub open spec fn claim_policy_of(v: Validation, alg: RsaAlgorithm) -> ClaimPolicy {
    ClaimPolicy {
        algorithm: alg,
        required: required_claim_names(v),
        validate_exp: v.validate_exp,
        validate_nbf: v.validate_nbf,
        validate_aud: v.audience is Some,
        issuer: opt_text(v.issuer),
        audience: opt_text(v.audience),
    }
}

/// The leeway as `jsonwebtoken` takes it: a negative one counts as none.
pub open spec fn unsigned_leeway(v: Validation) -> int {
    if v.leeway < 0 {
        0
    } else {
        v.leeway as int
    }
}

impl Validation {
    /// The checks handed to `jsonwebtoken` for a token pinned to `alg`: the
    /// same issuer, audience and time settings, the audience looked at only
    /// where one is configured, and the claims of [`required_claim_names`]
    /// made required so that a configured issuer or audience cannot be met by
    /// leaving the claim out.
    pub fn to_jwt_policy(&self, alg: RsaAlgorithm) -> (p: JwtPolicy)
        ensures
            p.algorithm == alg,
            p.required_claims@.map_values(|s: String| s@) == required_claim_names(*self),
            p.leeway == unsigned_leeway(*self),
            p.validate_exp == self.validate_exp,
            p.validate_nbf == self.validate_nbf,
            p.validate_aud == self.audience is Some,
            p.issuer == self.issuer,
            p.audience == self.audience,
    {
        let mut required: Vec<String> = Vec::new();
        if self.require_exp {
            required.push(String::from_str("exp"));
        }
        if self.issuer.is_some() {
            required.push(String::from_str("iss"));
        }
        if self.audience.is_some() {
            required.push(String::from_str("aud"));
        }
        assert(required@.map_values(|s: String| s@) =~= required_claim_names(*self));
        let leeway: u64 = if self.leeway < 0 {
            0
        } else {
            self.leeway as u64
        };
        JwtPolicy {
            algorithm: alg,
            required_claims: required,
            leeway,
            validate_exp: self.validate_exp,
            validate_nbf: self.validate_nbf,
            validate_aud: self.audience.is_some(),
            issuer: self.issuer.clone(),
            audience: self.audience.clone(),
        }
    }
}

/// The issuer check passes: no issuer is configured, or `iss` equals it.
pub open spec fn issuer_ok(claims: Claims, v: Validation) -> bool {
    v.issuer matches Some(expected) ==> (claims.iss matches Some(iss) && iss@ == expected@)
}

/// The audience check passes: no audience is configured, or `aud` holds it.
pub open spec fn audience_ok(claims: Claims, v: Validation) -> bool {
    v.audience matches Some(expected) ==> (claims.aud matches Some(aud) && audience_contains(
        aud,
        expected@,
    ))
}

/// The token has expired at `now`: once now has advanced past exp + leeway.
pub open spec fn expired(claims: Claims, v: Validation, now: int) -> bool {
    &&& v.validate_exp
    &&& claims.exp matches Some(exp) && now - v.leeway >= exp
}

/// An `exp` is required but the token carries none: a token that carries no
/// `exp` at all is rejected whenever `require_exp` is set.
pub open spec fn exp_missing(claims: Claims, v: Validation) -> bool {
    v.require_exp && claims.exp is None
}

/// The token is not yet valid at `now`: `nbf` lies beyond now + leeway.
pub open spec fn not_yet_valid(claims: Claims, v: Validation, now: int) -> bool {
    &&& v.validate_nbf
    &&& claims.nbf matches Some(nbf) && now + v.leeway < nbf
}

/// What [`validate_claims`] answers: the checks in order, the first that
/// fails giving the error.
pub open spec fn claims_verdict(claims: Claims, v: Validation, now: int) -> Result<(), Error> {
    if !issuer_ok(claims, v) {
        Err(Error::InvalidIssuer)
    } else if !audience_ok(claims, v) {
        Err(Error::InvalidAudience)
    } else if expired(claims, v, now) {
        Err(Error::TokenExpired)
    } else if exp_missing(claims, v) {
        Err(Error::MissingClaim("exp"))
    } else if not_yet_valid(claims, v, now) {
        Err(Error::TokenNotYetValid)
    } else {
        Ok(())
    }
}

/// The clock arithmetic of [`validate_claims`] stays within `i64` on these
/// inputs: `now - leeway` where `exp` is compared, and `now + leeway` where
/// `nbf` is.
pub open spec fn clock_arithmetic_fits(claims: Claims, v: Validation, now: i64) -> bool {
    &&& (issuer_ok(claims, v) && audience_ok(claims, v) && v.validate_exp && claims.exp is Some)
        ==> i64::MIN <= now - v.leeway <= i64::MAX
    &&& (issuer_ok(claims, v) && audience_ok(claims, v) && !expired(claims, v, now as int)
        && !exp_missing(claims, v) && v.validate_nbf && claims.nbf is Some) ==> i64::MIN <= now
        + v.leeway <= i64::MAX
}

/// Validate the registered claims against `validation`, treating `now` as the
/// current time (unix seconds).
pub fn validate_claims(claims: &Claims, validation: &Validation, now: i64) -> (res: Result<
    (),
    Error,
>)
    requires
        clock_arithmetic_fits(*claims, *validation, now),
    ensures
        res == claims_verdict(*claims, *validation, now as int),
{
    match &validation.issuer {
        Some(expected) => match &claims.iss {
            Some(iss) => {
                if !(*iss == *expected) {
                    return Err(Error::InvalidIssuer);
                }
            },
            None => {
                return Err(Error::InvalidIssuer);
            },
        },
        None => {},
    }
    match &validation.audience {
        Some(expected) => match &claims.aud {
            Some(aud) => {
                if !aud.contains(expected.as_str()) {
                    return Err(Error::InvalidAudience);
                }
            },
            None => {
                return Err(Error::InvalidAudience);
            },
        },
        None => {},
    }
    match claims.exp {
        Some(exp) => {
            // Expired once now has advanced past exp + leeway.
            if validation.validate_exp && now - validation.leeway >= exp {
                return Err(Error::TokenExpired);
            }
        },
        None => {
            if validation.require_exp {
                return Err(Error::MissingClaim("exp"));
            }
        },
    }
    if validation.validate_nbf {
        match claims.nbf {
            Some(nbf) => {
                if now + validation.leeway < nbf {
                    return Err(Error::TokenNotYetValid);
                }
            },
            None => {},
        }
    }
    Ok(())
}

/// A passing verdict means every configured check held: the issuer equals the
/// configured one, the audience holds the configured one, the token has not
/// expired and is already valid.
pub proof fn lemma_accepted_claims_satisfy_policy(claims: Claims, v: Validation, now: int)
    requires
        claims_verdict(claims, v, now) is Ok,
    ensures
        v.issuer matches Some(expected) ==> claims.iss matches Some(iss) && iss@ == expected@,
        v.audience matches Some(expected) ==> claims.aud matches Some(aud) && audience_contains(
            aud,
            expected@,
        ),
        v.validate_exp ==> (claims.exp matches Some(exp) ==> now < exp + v.leeway),
        v.require_exp ==> claims.exp is Some,
        v.validate_nbf ==> (claims.nbf matches Some(nbf) ==> nbf <= now + v.leeway),
{
}

/// More leeway never turns an accepted token into a rejected one.
pub proof fn lemma_more_leeway_keeps_acceptance(
    claims: Claims,
    v: Validation,
    wider: Validation,
    now: int,
)
    requires
        same_but_leeway(v, wider),
        v.leeway <= wider.leeway,
        claims_verdict(claims, v, now) is Ok,
    ensures
        claims_verdict(claims, wider, now) is Ok,
{
}

/// The instants at which a claim set is accepted form an interval: a token
/// accepted at `t1` and at `t2` is accepted at every instant between.
pub proof fn lemma_acceptance_is_an_interval(claims: Claims, v: Validation, t1: int, t: int, t2: int)
    requires
        t1 <= t <= t2,
        claims_verdict(claims, v, t1) is Ok,
        claims_verdict(claims, v, t2) is Ok,
    ensures
        claims_verdict(claims, v, t) is Ok,
{
}

/// Once expired, a token stays expired: expiry is reported at every later
/// instant too, unless an earlier check (issuer, audience) already fails.
pub proof fn lemma_expiry_is_permanent(claims: Claims, v: Validation, now: int, later: int)
    requires
        now <= later,
        claims_verdict(claims, v, now) == Err::<(), Error>(Error::TokenExpired),
    ensures
        claims_verdict(claims, v, later) == Err::<(), Error>(Error::TokenExpired),
{
}

/// Dropping the issuer constraint never turns an accepted token into a
/// rejected one.
pub proof fn lemma_dropping_issuer_keeps_acceptance(
    claims: Claims,
    v: Validation,
    relaxed: Validation,
    now: int,
)
    requires
        same_but_issuer(v, relaxed),
        relaxed.issuer is None,
        claims_verdict(claims, v, now) is Ok,
    ensures
        claims_verdict(claims, relaxed, now) is Ok,
{
}

/// Dropping the audience constraint never turns an accepted token into a
/// rejected one.
pub proof fn lemma_dropping_audience_keeps_acceptance(
    claims: Claims,
    v: Validation,
    relaxed: Validation,
    now: int,
)
    requires
        same_but_audience(v, relaxed),
        relaxed.audience is None,
        claims_verdict(claims, v, now) is Ok,
    ensures
        claims_verdict(claims, relaxed, now) is Ok,
{
}

/// An `aud` array that holds the configured audience at any position passes
/// the audience check: with no issuer constraint, an unexpired `exp` and no
/// `nbf`, the claims are accepted.
pub proof fn lemma_audience_array_member_is_accepted(
    claims: Claims,
    v: Validation,
    now: int,
    list: Vec<String>,
    i: int,
)
    requires
        v.issuer is None,
        v.audience is Some,
        claims.aud == Some(Audience::Multiple(list)),
        0 <= i < list@.len(),
        list@[i]@ == v.audience->0@,
        claims.exp is Some,
        now - v.leeway < claims.exp->0,
        claims.nbf is None,
    ensures
        claims_verdict(claims, v, now) is Ok,
{
    let a = Audience::Multiple(list);
    assert(a->Multiple_0 == list);
    assert((list@[i])@ == v.audience->0@);
    assert(audience_contains(a, v.audience->0@));
}

/// The audience check looks at an `aud` array only for membership: claims
/// whose `aud` is the configured audience itself get the same verdict as the
/// same claims whose `aud` is an array holding it anywhere.
pub proof fn lemma_audience_array_order_does_not_matter(
    single: Claims,
    array: Claims,
    v: Validation,
    now: int,
    s: String,
    list: Vec<String>,
    i: int,
)
    requires
        v.audience is Some,
        single.iss == array.iss,
        single.exp == array.exp,
        single.nbf == array.nbf,
        single.aud == Some(Audience::Single(s)),
        s@ == v.audience->0@,
        array.aud == Some(Audience::Multiple(list)),
        0 <= i < list@.len(),
        list@[i]@ == v.audience->0@,
    ensures
        claims_verdict(single, v, now) == claims_verdict(array, v, now),
{
    let a = Audience::Multiple(list);
    assert(a->Multiple_0 == list);
    assert((list@[i])@ == v.audience->0@);
    assert(audience_contains(a, v.audience->0@));
}

/// With the default policy the issuer and audience are not looked at: two
/// claim sets that differ only there get the same verdict.
pub proof fn lemma_default_policy_ignores_issuer_and_audience(
    a: Claims,
    b: Claims,
    v: Validation,
    now: int,
)
    requires
        is_default_validation(v),
        a.exp == b.exp,
        a.nbf == b.nbf,
    ensures
        claims_verdict(a, v, now) == claims_verdict(b, v, now),
{
}

} // verus!
