//! Where a favicon is looked for: the direct-link test, the page origin,
//! the resolution of an icon reference and the well-known fallback location.
use vstd::prelude::*;
use crate::text::{chars_of, ends_with_chars, has_prefix, has_suffix, starts_with_chars};

verus! {

/// What `url::Url::parse` yields for a string, read as the scheme, the host
/// (empty when there is none) and the last path segment (none for a URL that
/// cannot be a base); `None` when the string does not parse.
pub uninterp spec fn parsed_url_parts(s: Seq<char>) -> Option<(Seq<char>, Seq<char>, Option<Seq<char>>)>;

/// Relies on `url::Url::parse`, then `Url::scheme`, `Url::host_str` and the
/// last item of `Url::path_segments` of the parsed URL.
#[verifier::external_body]
pub(crate) fn parse_url_parts(s: &str) -> (r: Option<(String, String, Option<String>)>)
    ensures
        r.deep_view() == parsed_url_parts(s@),
{
    let u = url::Url::parse(s).ok()?;
    let last = u.path_segments().and_then(|segs| segs.last()).map(|x| x.to_string());
    Some((u.scheme().to_string(), u.host_str().unwrap_or_default().to_string(), last))
}

/// The scheme and host of a page, the base against which icon references
/// are resolved.
pub struct Origin {
    pub scheme: String,
    pub host: String,
}

impl Origin {
    /// The origin of `url`, or `None` when it does not parse as a URL.
    pub fn of_url(url: &str) -> (r: Option<Origin>)
        ensures
            match parsed_url_parts(url@) {
                Some(p) => r is Some && r->0.scheme@ == p.0 && r->0.host@ == p.1,
                None => r is None,
            },
    {
        match parse_url_parts(url) {
            Some((scheme, host, _)) => Some(Origin { scheme, host }),
            None => None,
        }
    }
}

pub open spec fn seq_http() -> Seq<char> {
    seq!['h', 't', 't', 'p']
}

pub open spec fn seq_scheme_sep() -> Seq<char> {
    seq![':', '/', '/']
}

/// The absolute URL that an icon reference `href` stands for, on a page of
/// the given scheme and host. The page's own path is not taken into account.
pub open spec fn resolved(href: Seq<char>, scheme: Seq<char>, host: Seq<char>) -> Seq<char> {
    if has_prefix(href, seq_http()) {
        href
    } else if has_prefix(href, seq!['/', '/']) {
        scheme + seq![':'] + href
    } else if has_prefix(href, seq!['/']) {
        scheme + seq_scheme_sep() + host + href
    } else {
        scheme + seq_scheme_sep() + host + seq!['/'] + href
    }
}

/// The well-known icon location at an origin: `scheme://host/favicon.ico`.
pub open spec fn fallback(scheme: Seq<char>, host: Seq<char>) -> Seq<char> {
    scheme + seq_scheme_sep() + host + "/favicon.ico"@
}

/// A URL that names an icon directly ends in `.ico`, `.png` or `.svg`
/// (compared with case).
pub open spec fn is_direct_image(url: Seq<char>) -> bool {
    has_suffix(url, seq!['.', 'i', 'c', 'o'])
        || has_suffix(url, seq!['.', 'p', 'n', 'g'])
        || has_suffix(url, seq!['.', 's', 'v', 'g'])
}

/// Whether `url` already points at an icon, so that no page needs fetching.
pub fn is_direct_image_url(url: &str) -> (r: bool)
    ensures
        r == is_direct_image(url@),
{
    let c = chars_of(url);
    ends_with_chars(&c, &['.', 'i', 'c', 'o']) || ends_with_chars(&c, &['.', 'p', 'n', 'g'])
        || ends_with_chars(&c, &['.', 's', 'v', 'g'])
}

/// `scheme://host` as a new string.
fn origin_prefix(origin: &Origin) -> (r: String)
    ensures
        r@ == origin.scheme@ + seq_scheme_sep() + origin.host@,
{
    let mut r = origin.scheme.clone();
    r.append("://");
    r.append(origin.host.as_str());
    proof {
        reveal_strlit("://");
        assert("://"@ =~= seq_scheme_sep());
    }
    r
}

/// Turns an icon reference into an absolute URL: verbatim when it begins
/// with `http`, after the scheme when it begins with `//`, after the origin
/// when it begins with `/`, and after the origin and a `/` otherwise.
pub fn resolve_href(href: &str, origin: &Origin) -> (r: String)
    ensures
        r@ == resolved(href@, origin.scheme@, origin.host@),
{
    let c = chars_of(href);
    let http: [char; 4] = ['h', 't', 't', 'p'];
    let dslash: [char; 2] = ['/', '/'];
    let slash: [char; 1] = ['/'];
    assert(http@ =~= seq_http());
    assert(dslash@ =~= seq!['/', '/']);
    assert(slash@ =~= seq!['/']);
    if starts_with_chars(&c, &http) {
        href.to_owned()
    } else if starts_with_chars(&c, &dslash) {
        let mut r = origin.scheme.clone();
        r.append(":");
        r.append(href);
        proof {
            reveal_strlit(":");
            assert(":"@ =~= seq![':']);
        }
        r
    } else if starts_with_chars(&c, &slash) {
        let mut r = origin_prefix(origin);
        r.append(href);
        r
    } else {
        let mut r = origin_prefix(origin);
        r.append("/");
        r.append(href);
        proof {
            reveal_strlit("/");
            assert("/"@ =~= seq!['/']);
        }
        r
    }
}

/// The fallback icon location `scheme://host/favicon.ico` of an origin.
pub fn fallback_url(origin: &Origin) -> (r: String)
    ensures
        r@ == fallback(origin.scheme@, origin.host@),
{
    let mut r = origin_prefix(origin);
    r.append("/favicon.ico");
    r
}

/// An absolute reference is kept as it is: resolving a reference that
/// begins with `http` gives back the same string, on any page.
pub proof fn absolute_reference_unchanged(href: Seq<char>, scheme: Seq<char>, host: Seq<char>)
    requires
        has_prefix(href, seq_http()),
    ensures
        resolved(href, scheme, host) == href,
{
}

} // verus!
