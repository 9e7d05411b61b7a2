//! Reading a page's HTML: the icon link chosen by selector priority, the
//! title and the description.
use vstd::prelude::*;
use crate::resolve::{resolve_href, resolved, Origin};

verus! {

/// What scraper gives for the first element of the parsed document `doc`
/// that matches the CSS selector `selector`: `None` when no element matches
/// (or the selector does not parse), else the value of its attribute `attr`,
/// if it has one.
pub uninterp spec fn first_match_attr(doc: Seq<char>, selector: Seq<char>, attr: Seq<char>) -> Option<Option<Seq<char>>>;

/// What scraper gives as the inner HTML of the first element of the parsed
/// document `doc` that matches `selector`; `None` when there is none.
pub uninterp spec fn first_match_inner_html(doc: Seq<char>, selector: Seq<char>) -> Option<Seq<char>>;

/// Relies on scraper's `Selector::parse`, `Html::parse_document`, the first
/// element that `Html::select` yields, and `ElementRef::attr`.
#[verifier::external_body]
fn first_element_attr(doc: &str, selector: &str, attr: &str) -> (r: Option<Option<String>>)
    ensures
        r.deep_view() == first_match_attr(doc@, selector@, attr@),
{
    let sel = scraper::Selector::parse(selector).ok()?;
    let html = scraper::Html::parse_document(doc);
    let element = html.select(&sel).next()?;
    Some(element.attr(attr).map(|v| v.to_string()))
}

/// Relies on scraper's `Selector::parse`, `Html::parse_document`, the first
/// element that `Html::select` yields, and `ElementRef::inner_html`.
#[verifier::external_body]
fn first_element_inner_html(doc: &str, selector: &str) -> (r: Option<String>)
    ensures
        r.deep_view() == first_match_inner_html(doc@, selector@),
{
    let sel = scraper::Selector::parse(selector).ok()?;
    let html = scraper::Html::parse_document(doc);
    let element = html.select(&sel).next()?;
    Some(element.inner_html())
}

/// An HTML document, kept as its source text; each query parses it.
pub struct Html {
    pub source: String,
}

impl Html {
    /// The document whose source is `html`.
    pub fn parse(html: &str) -> (r: Html)
        ensures
            r.source@ == html@,
    {
        Html { source: html.to_owned() }
    }

    /// The attribute `attr` of the first element matching `selector`:
    /// `None` when no element matches, `Some(None)` when it lacks the attribute.
    pub fn select_first_attr(&self, selector: &str, attr: &str) -> (r: Option<Option<String>>)
        ensures
            r.deep_view() == first_match_attr(self.source@, selector@, attr@),
    {
        first_element_attr(self.source.as_str(), selector, attr)
    }

    /// The inner HTML of the first element matching `selector`.
    pub fn select_first_inner_html(&self, selector: &str) -> (r: Option<String>)
        ensures
            r.deep_view() == first_match_inner_html(self.source@, selector@),
    {
        first_element_inner_html(self.source.as_str(), selector)
    }
}

/// How many icon selectors there are.
pub const ICON_SELECTOR_COUNT: usize = 6;

/// The icon selectors, most preferred first.
pub open spec fn icon_selector_text(i: int) -> Seq<char> {
    if i == 0 {
        "link[rel='icon']"@
    } else if i == 1 {
        "link[rel='shortcut icon']"@
    } else if i == 2 {
        "link[rel='apple-touch-icon']"@
    } else if i == 3 {
        "link[rel='apple-touch-icon-precomposed']"@
    } else if i == 4 {
        "link[rel='fluid-icon']"@
    } else {
        "link[rel='mask-icon']"@
    }
}

/// The icon selector of rank `i`.
pub fn icon_selector(i: usize) -> (r: &'static str)
    requires
        i < ICON_SELECTOR_COUNT,
    ensures
        r@ == icon_selector_text(i as int),
{
    if i == 0 {
        "link[rel='icon']"
    } else if i == 1 {
        "link[rel='shortcut icon']"
    } else if i == 2 {
        "link[rel='apple-touch-icon']"
    } else if i == 3 {
        "link[rel='apple-touch-icon-precomposed']"
    } else if i == 4 {
        "link[rel='fluid-icon']"
    } else {
        "link[rel='mask-icon']"
    }
}

/// The non-empty `href` of the first element that icon selector `i`
/// matches, if that element has one.
pub open spec fn usable_href(doc: Seq<char>, i: int) -> Option<Seq<char>> {
    match first_match_attr(doc, icon_selector_text(i), "href"@) {
        Some(Some(h)) => if h.len() > 0 {
            Some(h)
        } else {
            None
        },
        _ => None,
    }
}

/// The first selector rank from `k` on whose first match carries a usable
/// `href`.
pub open spec fn first_usable_from(doc: Seq<char>, k: int) -> Option<int>
    decreases 6 - k,
{
    if k < 0 || k >= 6 {
        None
    } else if usable_href(doc, k) is Some {
        Some(k)
    } else {
        first_usable_from(doc, k + 1)
    }
}

/// An icon reference found in a page, already made absolute.
pub struct IconCandidate {
    /// The rank of the selector that found it.
    pub selector_index: usize,
    pub url: String,
}

/// Looks for the icon link of a page: the selectors are tried in order, and
/// the first whose first match has a non-empty `href` wins; that reference
/// is resolved against the page's origin.
pub fn locate_icon(page: &Html, origin: &Origin) -> (r: Option<IconCandidate>)
    ensures
        match first_usable_from(page.source@, 0) {
            Some(i) => r is Some && r->0.selector_index == i && r->0.url@ == resolved(
                usable_href(page.source@, i)->0,
                origin.scheme@,
                origin.host@,
            ),
            None => r is None,
        },
{
    let mut i: usize = 0;
    while i < ICON_SELECTOR_COUNT
        invariant
            i <= 6,
            first_usable_from(page.source@, 0) == first_usable_from(page.source@, i as int),
        decreases 6 - i,
    {
        let found = page.select_first_attr(icon_selector(i), "href");
        match found {
            Some(Some(href)) => {
                if !href.as_str().is_empty() {
                    let url = resolve_href(href.as_str(), origin);
                    return Some(IconCandidate { selector_index: i, url });
                }
            },
            _ => {},
        }
        i = i + 1;
    }
    None
}

/// Of two selectors that both find a usable reference, the earlier one wins.
pub proof fn earlier_selector_wins(doc: Seq<char>, i: int, j: int)
    requires
        0 <= i < j < 6,
        usable_href(doc, i) is Some,
        usable_href(doc, j) is Some,
    ensures
        first_usable_from(doc, 0) is Some,
        first_usable_from(doc, 0)->0 <= i,
        first_usable_from(doc, 0)->0 != j,
{
    first_usable_reaches(doc, 0, i);
}

/// From any rank up to `i`, the search stops at or before `i` when `i` has a
/// usable reference.
proof fn first_usable_reaches(doc: Seq<char>, k: int, i: int)
    requires
        0 <= k <= i < 6,
        usable_href(doc, i) is Some,
    ensures
        first_usable_from(doc, k) is Some,
        k <= first_usable_from(doc, k)->0 <= i,
    decreases i - k,
{
    if k < i && usable_href(doc, k) is None {
        first_usable_reaches(doc, k + 1, i);
    }
}

/// The inner HTML of a page's first `title` element, or `No title found`.
pub fn title_of(page: &str) -> (r: String)
    ensures
        r@ == match first_match_inner_html(page@, "title"@) {
            Some(t) => t,
            None => "No title found"@,
        },
{
    let html = Html::parse(page);
    match html.select_first_inner_html("title") {
        Some(t) => t,
        None => "No title found".to_owned(),
    }
}

/// The `content` of a page's first `meta[name=description]` element, or
/// `No description available` when there is no such element or attribute.
pub fn description_of(page: &str) -> (r: String)
    ensures
        r@ == match first_match_attr(page@, "meta[name=description]"@, "content"@) {
            Some(Some(d)) => d,
            _ => "No description available"@,
        },
{
    let html = Html::parse(page);
    match html.select_first_attr("meta[name=description]", "content") {
        Some(Some(d)) => d,
        _ => "No description available".to_owned(),
    }
}

} // verus!
