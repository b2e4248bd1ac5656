//! Where the JWKS is fetched from: the URL of the key set, the parts of the
//! base URL a request is built from, and which HTTP statuses are success.

use vstd::prelude::*;

use crate::error::{Error, ErrorView};
use crate::text::str_eq;

verus! {

/// Path of the JWKS document, relative to the FusionAuth base URL.
pub const JWKS_PATH: &'static str = "/.well-known/jwks.json";

/// `s` without the `/` characters at its end.
pub open spec fn trim_trailing_slashes(s: Seq<char>) -> Seq<char>
    decreases s.len(),
{
    if s.len() > 0 && s.last() == '/' {
        trim_trailing_slashes(s.drop_last())
    } else {
        s
    }
}

/// The URL of the JWKS document under a base URL: the base URL without its
/// trailing slashes, followed by [`JWKS_PATH`].
pub open spec fn jwks_url_of(base_url: Seq<char>) -> Seq<char> {
    trim_trailing_slashes(base_url) + JWKS_PATH@
}

/// The URL of the JWKS document, `<base_url>/.well-known/jwks.json`.
pub fn jwks_url(base_url: &str) -> (url: String)
    ensures
        url@ == jwks_url_of(base_url@),
{
    let mut end: usize = base_url.unicode_len();
    assert(base_url@.take(base_url@.len() as int) =~= base_url@);
    while end > 0 && base_url.get_char(end - 1) == '/'
        invariant
            end <= base_url@.len(),
            trim_trailing_slashes(base_url@) == trim_trailing_slashes(base_url@.take(end as int)),
        decreases end,
    {
        assert(base_url@.take(end as int).drop_last() =~= base_url@.take(end - 1));
        end = end - 1;
    }
    let kept = base_url.substring_char(0, end);
    assert(kept@ =~= base_url@.take(end as int));
    String::from_str(kept).concat(JWKS_PATH)
}

/// Whether an HTTP status is a success: 200 to 299.
pub fn is_success_status(status: u16) -> (ok: bool)
    ensures
        ok == (200 <= status < 300),
{
    200 <= status && status < 300
}

/// The scheme of a URL: HTTP, HTTPS, or another one, lower-cased.
#[derive(Debug)]
pub enum UrlScheme {
    Http,
    Https,
    Other(String),
}

/// The abstract value of a scheme.
pub enum UrlSchemeView {
    Http,
    Https,
    Other(Seq<char>),
}

impl View for UrlScheme {
    type V = UrlSchemeView;

    open spec fn view(&self) -> UrlSchemeView {
        match self {
            UrlScheme::Http => UrlSchemeView::Http,
            UrlScheme::Https => UrlSchemeView::Https,
            UrlScheme::Other(s) => UrlSchemeView::Other(s@),
        }
    }
}

/// A base URL split into the parts an HTTP request is built from.
#[derive(Debug)]
pub struct ParsedUrl {
    /// The scheme; HTTPS where the URL names none.
    pub scheme: UrlScheme,
    /// The host, with its port if the URL gives one.
    pub authority: String,
    /// The path, from its first `/`; empty where there is none.
    pub path: String,
}

/// The lower-case form of an ASCII letter; any other character unchanged.
pub open spec fn ascii_lower(c: char) -> char {
    if 'A' <= c && c <= 'Z' {
        ((c as u32) + 32) as char
    } else {
        c
    }
}

/// `s` with its ASCII letters in lower case.
pub open spec fn ascii_lowercase_of(s: Seq<char>) -> Seq<char> {
    s.map_values(|c: char| ascii_lower(c))
}

/// The text in lower case, as far as it is ASCII: each ASCII letter in its
/// lower-case form, every other character as it is.
fn to_ascii_lowercase(s: &str) -> (res: String)
    ensures
        res@ == ascii_lowercase_of(s@),
{
    let len = s.unicode_len();
    let mut out = String::new();
    let mut i: usize = 0;
    while i < len
        invariant
            len == s@.len(),
            i <= len,
            out@ == ascii_lowercase_of(s@.take(i as int)),
        decreases len - i,
    {
        let c = s.get_char(i);
        let piece = if 'A' <= c && c <= 'Z' {
            let k = (c as u32 - 65) as usize;
            proof {
                reveal_strlit("abcdefghijklmnopqrstuvwxyz");
                assert("abcdefghijklmnopqrstuvwxyz"@[k as int] as u32 == k + 97);
            }
            "abcdefghijklmnopqrstuvwxyz".substring_char(k, k + 1)
        } else {
            s.substring_char(i, i + 1)
        };
        assert(piece@ =~= seq![ascii_lower(c)]);
        out.append(piece);
        assert(s@.take(i + 1) =~= s@.take(i as int).push(c));
        assert(ascii_lowercase_of(s@.take(i + 1)) =~= ascii_lowercase_of(s@.take(i as int)).push(
            ascii_lower(c),
        ));
        i = i + 1;
    }
    assert(s@.take(len as int) =~= s@);
    out
}

/// `://` starts at index `i` of `s`.
pub open spec fn scheme_separator_at(s: Seq<char>, i: int) -> bool {
    0 <= i && i + 3 <= s.len() && s[i] == ':' && s[i + 1] == '/' && s[i + 2] == '/'
}

/// The first index, from `i` on, where `://` starts in `s`.
pub open spec fn scheme_separator_from(s: Seq<char>, i: nat) -> Option<int>
    decreases s.len() - i,
{
    if i + 3 > s.len() {
        None
    } else if scheme_separator_at(s, i as int) {
        Some(i as int)
    } else {
        scheme_separator_from(s, i + 1)
    }
}

/// The first index, from `i` on, where `c` stands in `s`.
pub open spec fn char_index_from(s: Seq<char>, c: char, i: nat) -> Option<int>
    decreases s.len() - i,
{
    if i >= s.len() {
        None
    } else if s[i as int] == c {
        Some(i as int)
    } else {
        char_index_from(s, c, i + 1)
    }
}

/// Where [`scheme_separator_from`] finds `://`, it does start there, at or
/// after `i`, and nowhere between `i` and there.
proof fn lemma_scheme_separator_found(s: Seq<char>, i: nat)
    ensures
        scheme_separator_from(s, i) matches Some(j) ==> i <= j && scheme_separator_at(s, j)
            && forall|k: int| i <= k < j ==> !scheme_separator_at(s, k),
    decreases s.len() - i,
{
    if i + 3 <= s.len() && !scheme_separator_at(s, i as int) {
        lemma_scheme_separator_found(s, i + 1);
    }
}

/// Where [`char_index_from`] finds `c`, it does stand there, at or after `i`,
/// and nowhere between `i` and there.
proof fn lemma_char_index_found(s: Seq<char>, c: char, i: nat)
    ensures
        char_index_from(s, c, i) matches Some(j) ==> i <= j < s.len() && s[j] == c && forall|
            k: int,
        | i <= k < j ==> s[k] != c,
    decreases s.len() - i,
{
    if i < s.len() && s[i as int] != c {
        lemma_char_index_found(s, c, i + 1);
    }
}

/// The scheme named by `name`, compared without regard to ASCII case.
pub open spec fn scheme_named(name: Seq<char>) -> UrlSchemeView {
    let lower = ascii_lowercase_of(name);
    if lower == "http"@ {
        UrlSchemeView::Http
    } else if lower == "https"@ {
        UrlSchemeView::Https
    } else {
        UrlSchemeView::Other(lower)
    }
}

/// The scheme text and the rest of a URL: split at its first `://`; a bare
/// host (no `scheme://`) has the scheme `https`.
pub open spec fn scheme_split(url: Seq<char>) -> (Seq<char>, Seq<char>) {
    match scheme_separator_from(url, 0) {
        Some(i) => (url.take(i), url.skip(i + 3)),
        None => ("https"@, url),
    }
}

/// What [`parse_url`] gives: the scheme, the authority (up to the first `/`
/// after the scheme) and the path (from that `/` on), or the error for an
/// empty authority.
pub open spec fn parsed_url(url: Seq<char>) -> Result<
    (UrlSchemeView, Seq<char>, Seq<char>),
    ErrorView,
> {
    let (scheme, rest) = scheme_split(url);
    if rest.len() == 0 {
        Err(ErrorView::Http("empty authority in base_url"@))
    } else {
        match char_index_from(rest, '/', 0) {
            Some(i) => Ok((scheme_named(scheme), rest.take(i), rest.skip(i))),
            None => Ok((scheme_named(scheme), rest, Seq::<char>::empty())),
        }
    }
}

/// The first index where `://` starts in `s`.
fn find_scheme_separator(s: &str) -> (res: Option<usize>)
    ensures
        match res {
            Some(i) => scheme_separator_from(s@, 0) == Some(i as int),
            None => scheme_separator_from(s@, 0) is None,
        },
{
    let len = s.unicode_len();
    let mut i: usize = 0;
    while len >= 3 && i <= len - 3
        invariant
            len == s@.len(),
            i <= len,
            scheme_separator_from(s@, 0) == scheme_separator_from(s@, i as nat),
        decreases len - i,
    {
        if s.get_char(i) == ':' && s.get_char(i + 1) == '/' && s.get_char(i + 2) == '/' {
            return Some(i);
        }
        i = i + 1;
    }
    None
}

/// The first index where `c` stands in `s`.
fn find_char(s: &str, c: char) -> (res: Option<usize>)
    ensures
        match res {
            Some(i) => char_index_from(s@, c, 0) == Some(i as int),
            None => char_index_from(s@, c, 0) is None,
        },
{
    let len = s.unicode_len();
    let mut i: usize = 0;
    while i < len
        invariant
            len == s@.len(),
            i <= len,
            char_index_from(s@, c, 0) == char_index_from(s@, c, i as nat),
        decreases len - i,
    {
        if s.get_char(i) == c {
            return Some(i);
        }
        i = i + 1;
    }
    None
}

/// Split a base URL into scheme, authority (host[:port]) and path.
/// A bare host (no `scheme://`) defaults to HTTPS.
pub fn parse_url(url: &str) -> (res: Result<ParsedUrl, Error>)
    ensures
        match res {
            Ok(p) => parsed_url(url@) == Ok::<_, ErrorView>((p.scheme@, p.authority@, p.path@)),
            Err(e) => parsed_url(url@) == Err::<(UrlSchemeView, Seq<char>, Seq<char>), _>(e@),
        },
{
    let len = url.unicode_len();
    proof {
        lemma_scheme_separator_found(url@, 0);
    }
    let (scheme_str, rest) = match find_scheme_separator(url) {
        Some(i) => (url.substring_char(0, i), url.substring_char(i + 3, len)),
        None => ("https", url),
    };
    assert(scheme_str@ == scheme_split(url@).0 && rest@ == scheme_split(url@).1) by {
        if let Some(i) = scheme_separator_from(url@, 0) {
            assert(url@.subrange(0, i) =~= url@.take(i));
            assert(url@.subrange(i + 3, url@.len() as int) =~= url@.skip(i + 3));
        }
    }
    let lower = to_ascii_lowercase(scheme_str);
    let scheme = if str_eq(lower.as_str(), "http") {
        UrlScheme::Http
    } else if str_eq(lower.as_str(), "https") {
        UrlScheme::Https
    } else {
        UrlScheme::Other(lower)
    };
    let rest_len = rest.unicode_len();
    if rest_len == 0 {
        return Err(Error::Http(String::from_str("empty authority in base_url")));
    }
    proof {
        lemma_char_index_found(rest@, '/', 0);
    }
    match find_char(rest, '/') {
        Some(idx) => {
            let authority = rest.substring_char(0, idx);
            let path = rest.substring_char(idx, rest_len);
            assert(authority@ =~= rest@.take(idx as int));
            assert(path@ =~= rest@.skip(idx as int));
            Ok(ParsedUrl {
                scheme,
                authority: String::from_str(authority),
                path: String::from_str(path),
            })
        },
        None => {
            let path = String::new();
            Ok(ParsedUrl { scheme, authority: String::from_str(rest), path })
        },
    }
}

/// Trailing slashes on the base URL do not change the JWKS URL.
pub proof fn lemma_jwks_url_ignores_trailing_slash(base_url: Seq<char>)
    ensures
        jwks_url_of(base_url.push('/')) == jwks_url_of(base_url),
{
    assert(base_url.push('/').drop_last() =~= base_url);
}

/// The JWKS URL keeps the whole base URL, path included: a base URL that
/// does not end in `/` is followed directly by [`JWKS_PATH`], and a trailing
/// `/` makes no difference.
pub proof fn lemma_jwks_url_keeps_base_url(base_url: Seq<char>)
    ensures
        (base_url.len() == 0 || base_url.last() != '/') ==> jwks_url_of(base_url) == base_url
            + JWKS_PATH@,
        jwks_url_of(base_url.push('/')) == jwks_url_of(base_url),
{
    lemma_jwks_url_ignores_trailing_slash(base_url);
}

/// The JWKS URL always ends with [`JWKS_PATH`], and what precedes it ends in
/// no `/`.
pub proof fn lemma_jwks_url_shape(base_url: Seq<char>)
    ensures
        jwks_url_of(base_url).len() >= JWKS_PATH@.len(),
        jwks_url_of(base_url).subrange(
            jwks_url_of(base_url).len() - JWKS_PATH@.len(),
            jwks_url_of(base_url).len() as int,
        ) == JWKS_PATH@,
        trim_trailing_slashes(base_url).len() > 0 ==> trim_trailing_slashes(base_url).last()
            != '/',
    decreases base_url.len(),
{
    let t = trim_trailing_slashes(base_url);
    assert((t + JWKS_PATH@).subrange(t.len() as int, (t + JWKS_PATH@).len() as int)
        =~= JWKS_PATH@);
    if base_url.len() > 0 && base_url.last() == '/' {
        lemma_jwks_url_shape(base_url.drop_last());
    }
}

/// A parsed URL splits what follows its scheme into the authority, which
/// holds no `/`, and the path, which is empty or starts with `/`; put back
/// together they give that text again. The scheme is the one named before
/// the first `://` (compared without regard to ASCII case), or `https`.
pub proof fn lemma_parse_url_split(url: Seq<char>)
    ensures
        parsed_url(url) matches Ok(p) ==> {
            &&& p.1 + p.2 == scheme_split(url).1
            &&& forall|k: int| 0 <= k < p.1.len() ==> p.1[k] != '/'
            &&& p.2.len() == 0 || p.2[0] == '/'
            &&& p.0 == scheme_named(scheme_split(url).0)
        },
{
    let rest = scheme_split(url).1;
    lemma_char_index_found(rest, '/', 0);
    if let Some(i) = char_index_from(rest, '/', 0) {
        assert(rest.take(i) + rest.skip(i) =~= rest);
    } else {
        assert(forall|k: int| 0 <= k < rest.len() ==> rest[k] != '/') by {
            lemma_no_char_found(rest, '/', 0);
        }
        assert(rest + Seq::<char>::empty() =~= rest);
    }
}

/// Where [`char_index_from`] finds nothing, `c` stands nowhere from `i` on.
proof fn lemma_no_char_found(s: Seq<char>, c: char, i: nat)
    requires
        char_index_from(s, c, i) is None,
    ensures
        forall|k: int| i <= k < s.len() ==> s[k] != c,
    decreases s.len() - i,
{
    if i < s.len() {
        lemma_no_char_found(s, c, i + 1);
    }
}

/// Parsing fails exactly where nothing follows the scheme, and then with the
/// empty-authority error.
pub proof fn lemma_parse_url_fails_on_empty_authority(url: Seq<char>)
    ensures
        parsed_url(url) is Err <==> scheme_split(url).1.len() == 0,
        parsed_url(url) is Err ==> parsed_url(url) == Err::<(UrlSchemeView, Seq<char>, Seq<char>), _>(
            ErrorView::Http("empty authority in base_url"@),
        ),
{
}

/// A bare host, with no `scheme://`, is reached over HTTPS.
pub proof fn lemma_bare_host_is_https(url: Seq<char>)
    requires
        scheme_separator_from(url, 0) is None,
        url.len() > 0,
    ensures
        parsed_url(url) matches Ok(p) && p.0 == UrlSchemeView::Https,
{
    reveal_strlit("https");
    reveal_strlit("http");
    assert(ascii_lowercase_of("https"@) =~= "https"@);
    assert("https"@ != "http"@) by {
        assert("https"@.len() != "http"@.len());
    }
}

} // verus!
