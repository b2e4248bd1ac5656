//! The claim types returned to callers.

use vstd::prelude::*;
use serde_json::Map as JsonMap;
use serde_json::Value as JsonValue;

use crate::text::str_eq;
use crate::json::{json_object_clone, json_object_get, json_object_keys, json_object_new};

verus! {

/// The `aud` claim, which may be a single string or an array of strings.
#[derive(Debug)]
pub enum Audience {
    Single(String),
    Multiple(Vec<String>),
}

/// `aud` equals (single) or contains (array) the value `aud`.
pub open spec fn audience_contains(audience: Audience, aud: Seq<char>) -> bool {
    match audience {
        Audience::Single(s) => s@ == aud,
        Audience::Multiple(v) => exists|i: int| 0 <= i < v@.len() && (#[trigger] v@[i])@ == aud,
    }
}

/// Audience membership: a single `aud` holds exactly the value it equals, and
/// an array holds a value wherever it stands in the array, at any position.
pub proof fn lemma_audience_contains_is_membership(list: Vec<String>, s: String, aud: Seq<char>)
    ensures
        audience_contains(Audience::Single(s), aud) <==> s@ == aud,
        audience_contains(Audience::Multiple(list), aud) <==> exists|i: int|
            0 <= i < list@.len() && (#[trigger] list@[i])@ == aud,
        forall|i: int|
            0 <= i < list@.len() && (#[trigger] list@[i])@ == aud ==> audience_contains(
                Audience::Multiple(list),
                aud,
            ),
{
    let a = Audience::Multiple(list);
    assert(a->Multiple_0 == list);
    assert(audience_contains(a, aud) == (exists|i: int| 0 <= i < list@.len() && (#[trigger] list@[i])@ == aud));
}

impl Clone for Audience {
    /// A copy of the audience, of the same shape and with the same strings.
    fn clone(&self) -> (a: Self)
        ensures
            a@ == self@,
    {
        match self {
            Audience::Single(s) => Audience::Single(s.clone()),
            Audience::Multiple(v) => {
                let mut out: Vec<String> = Vec::new();
                let mut i: usize = 0;
                while i < v.len()
                    invariant
                        0 <= i <= v@.len(),
                        out@.len() == i,
                        forall|j: int| 0 <= j < i ==> (#[trigger] out@[j])@ == v@[j]@,
                    decreases v@.len() - i,
                {
                    out.push(v[i].clone());
                    i = i + 1;
                }
                let a = Audience::Multiple(out);
                assert(out@.map_values(|s: String| s@) =~= v@.map_values(|s: String| s@));
                a
            },
        }
    }
}

/// The abstract value of an audience: one string, or a list of strings.
pub enum AudienceView {
    Single(Seq<char>),
    Multiple(Seq<Seq<char>>),
}

impl View for Audience {
    type V = AudienceView;

    open spec fn view(&self) -> AudienceView {
        match self {
            Audience::Single(s) => AudienceView::Single(s@),
            Audience::Multiple(v) => AudienceView::Multiple(v@.map_values(|s: String| s@)),
        }
    }
}

impl Audience {
    /// True if `aud` equals (single) or contains (array) the given value.
    pub fn contains(&self, aud: &str) -> (res: bool)
        ensures
            res == audience_contains(*self, aud@),
    {
        match self {
            Audience::Single(s) => str_eq(s.as_str(), aud),
            Audience::Multiple(v) => {
                let mut i: usize = 0;
                while i < v.len()
                    invariant
                        0 <= i <= v@.len(),
                        *self == Audience::Multiple(*v),
                        forall|j: int| 0 <= j < i ==> (#[trigger] v@[j])@ != aud@,
                    decreases v@.len() - i,
                {
                    if str_eq(v[i].as_str(), aud) {
                        assert((v@[i as int])@ == aud@);
                        assert(exists|k: int| 0 <= k < v@.len() && (#[trigger] v@[k])@ == aud@);
                        assert(self->Multiple_0 == *v);
                        return true;
                    }
                    i = i + 1;
                }
                false
            },
        }
    }
}

/// The decoded claim set of a verified token. Registered claims are typed;
/// everything else (FusionAuth custom claims such as `cas_token`, roles, etc.)
/// is preserved in [`Claims::extra`] and reachable via [`Claims::get`].
#[derive(Debug)]
pub struct Claims {
    pub iss: Option<String>,
    pub sub: Option<String>,
    pub aud: Option<Audience>,
    pub exp: Option<i64>,
    pub nbf: Option<i64>,
    pub iat: Option<i64>,
    /// Any non-registered claims carried by the token.
    pub extra: JsonMap<String, JsonValue>,
}

impl Claims {
    /// Look up a non-registered claim by name.
    pub fn get(&self, key: &str) -> (res: Option<&JsonValue>)
        ensures
            res is Some <==> json_object_keys(self.extra).contains(key@),
    {
        json_object_get(&self.extra, key)
    }
}

impl Clone for Claims {
    /// A copy of the claim set: the same registered claims and the same
    /// non-registered claim names.
    fn clone(&self) -> (c: Self)
        ensures
            c.iss == self.iss,
            c.aud matches Some(a) ==> self.aud matches Some(b) && a@ == b@,
            c.aud is None <==> self.aud is None,
            c.sub == self.sub,
            c.exp == self.exp,
            c.nbf == self.nbf,
            c.iat == self.iat,
            json_object_keys(c.extra) == json_object_keys(self.extra),
    {
        Claims {
            iss: self.iss.clone(),
            sub: self.sub.clone(),
            aud: self.aud.clone(),
            exp: self.exp,
            nbf: self.nbf,
            iat: self.iat,
            extra: json_object_clone(&self.extra),
        }
    }
}

impl Default for Claims {
    /// A claim set with no claims at all.
    fn default() -> (c: Self)
        ensures
            c.iss is None,
            c.sub is None,
            c.aud is None,
            c.exp is None,
            c.nbf is None,
            c.iat is None,
            json_object_keys(c.extra) == Set::<Seq<char>>::empty(),
    {
        Claims {
            iss: None,
            sub: None,
            aud: None,
            exp: None,
            nbf: None,
            iat: None,
            extra: json_object_new(),
        }
    }
}

} // verus!
