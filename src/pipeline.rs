//! The favicon pipeline's decisions, between the network steps that the
//! caller performs: what to fetch first, which icon URL follows from the
//! page, what a response yields, and where the icon is saved.
use vstd::prelude::*;
use crate::classify::{classification, classify_bytes, ClassifyError, FormatWarning, ImageFormat};
use crate::html::{first_usable_from, locate_icon, usable_href, Html};
use crate::resolve::{
    fallback, fallback_url, is_direct_image, is_direct_image_url, parsed_url_parts, resolved,
    Origin,
};
use crate::text::{chars_of, string_of_chars};

verus! {

/// Why no favicon came out of a URL.
pub enum FaviconError {
    /// The URL does not parse.
    InvalidUrl,
    /// The icon request ended with a status outside 2xx.
    HttpStatus { status: u16, url: String },
    /// The icon request returned no bytes.
    EmptyResponse,
    /// The server sent an error page or API response with no image in it.
    NotAnImage { content_type: String },
}

/// A downloaded favicon: where it finally came from, its format and bytes.
pub struct FaviconArtifact {
    pub url: String,
    pub format: ImageFormat,
    pub data: Vec<u8>,
}

impl FaviconArtifact {
    /// The file extension the icon is saved with.
    pub fn file_extension(&self) -> (r: &'static str)
        ensures
            r@ == self.format.ext(),
    {
        self.format.extension()
    }
}

/// What to fetch first for a URL.
pub enum FetchPlan {
    /// The URL names an icon: fetch it as it is.
    Direct(String),
    /// The URL names a page: fetch it and look for an icon link.
    Page(Origin),
}

/// Decides the first step for `url`: a URL ending in `.ico`, `.png` or
/// `.svg` is fetched directly, with no page request; any other must parse,
/// and its page is read.
pub fn plan_fetch(url: &str) -> (r: Result<FetchPlan, FaviconError>)
    ensures
        is_direct_image(url@) ==> (r matches Ok(FetchPlan::Direct(u)) && u@ == url@),
        !is_direct_image(url@) ==> match parsed_url_parts(url@) {
            Some(p) => r matches Ok(FetchPlan::Page(o)) && o.scheme@ == p.0 && o.host@ == p.1,
            None => r matches Err(FaviconError::InvalidUrl),
        },
{
    if is_direct_image_url(url) {
        Ok(FetchPlan::Direct(url.to_owned()))
    } else {
        match Origin::of_url(url) {
            Some(o) => Ok(FetchPlan::Page(o)),
            None => Err(FaviconError::InvalidUrl),
        }
    }
}

/// The icon URL to fetch once the page is known.
pub struct IconTarget {
    pub url: String,
    /// The rank of the selector that found the link; `None` for the fallback.
    pub selector_index: Option<usize>,
}

/// Chooses the icon URL of a page. `page_html` is the page's text when it
/// was fetched with a 2xx status, `None` otherwise. The icon link found by
/// selector priority wins; without one, `/favicon.ico` at the origin.
pub fn icon_target(origin: &Origin, page_html: Option<&str>) -> (r: IconTarget)
    ensures
        match page_html {
            Some(doc) => match first_usable_from(doc@, 0) {
                Some(i) => r.selector_index == Some(i as usize) && r.url@ == resolved(
                    usable_href(doc@, i)->0,
                    origin.scheme@,
                    origin.host@,
                ),
                None => r.selector_index is None && r.url@ == fallback(origin.scheme@, origin.host@),
            },
            None => r.selector_index is None && r.url@ == fallback(origin.scheme@, origin.host@),
        },
{
    match page_html {
        Some(doc) => {
            let page = Html::parse(doc);
            match locate_icon(&page, origin) {
                Some(c) => IconTarget { url: c.url, selector_index: Some(c.selector_index) },
                None => IconTarget { url: fallback_url(origin), selector_index: None },
            }
        },
        None => IconTarget { url: fallback_url(origin), selector_index: None },
    }
}

pub open spec fn is_success(status: u16) -> bool {
    200 <= status < 300
}

/// Whether an HTTP status is a success (2xx).
pub fn is_success_status(status: u16) -> (r: bool)
    ensures
        r == is_success(status),
{
    200 <= status && status < 300
}

/// The content type to classify by: the header's text, or `unknown` when
/// the header is absent or not visible ASCII.
pub fn content_type_or_unknown(header: Option<&str>) -> (r: String)
    ensures
        r@ == match header {
            Some(h) => h@,
            None => "unknown"@,
        },
{
    match header {
        Some(h) => h.to_owned(),
        None => "unknown".to_owned(),
    }
}

/// Turns the icon response into a favicon. A status outside 2xx and an
/// empty body are errors; otherwise the body is classified, and the bytes
/// are kept as they came.
pub fn favicon_from_response(final_url: &str, status: u16, content_type: &str, data: Vec<u8>) -> (r:
    Result<(FaviconArtifact, Option<FormatWarning>), FaviconError>)
    ensures
        !is_success(status) ==> (r matches Err(FaviconError::HttpStatus { status: s, url: u })
            && s == status && u@ == final_url@),
        is_success(status) && data@.len() == 0 ==> r matches Err(FaviconError::EmptyResponse),
        is_success(status) && data@.len() > 0 ==> match classification(
            content_type@,
            final_url@,
            data@,
        ) {
            Ok(c) => r matches Ok((a, w)) && a.url@ == final_url@ && a.format == c.format && w
                == c.warning && a.data@ == data@,
            Err(ClassifyError::NotAnImage) => r matches Err(FaviconError::NotAnImage { content_type: t })
                && t@ == content_type@,
            Err(ClassifyError::UnparsableUrl) => r matches Err(FaviconError::InvalidUrl),
        },
{
    if !is_success_status(status) {
        return Err(FaviconError::HttpStatus { status, url: final_url.to_owned() });
    }
    if data.len() == 0 {
        return Err(FaviconError::EmptyResponse);
    }
    match classify_bytes(content_type, final_url, data.as_slice()) {
        Ok(c) => Ok(
            (FaviconArtifact { url: final_url.to_owned(), format: c.format, data }, c.warning),
        ),
        Err(ClassifyError::NotAnImage) => Err(
            FaviconError::NotAnImage { content_type: content_type.to_owned() },
        ),
        Err(ClassifyError::UnparsableUrl) => Err(FaviconError::InvalidUrl),
    }
}

/// What `char::is_alphanumeric` says of a character.
pub uninterp spec fn alphanumeric(c: char) -> bool;

/// Relies on `char::is_alphanumeric`: the Unicode alphabetic or numeric
/// property of the character.
#[verifier::external_body]
fn is_alphanumeric(c: char) -> (r: bool)
    ensures
        r == alphanumeric(c),
{
    c.is_alphanumeric()
}

/// The URL with every character that is not alphanumeric made `_`.
pub open spec fn slug(url: Seq<char>) -> Seq<char> {
    Seq::new(url.len(), |i: int| if alphanumeric(url[i]) { url[i] } else { '_' })
}

/// The name a favicon is saved under: `favicon.<ext>` for a single URL,
/// `favicon_<slug>.<ext>` when many URLs are processed.
pub open spec fn saved_name(url: Seq<char>, ext: Seq<char>, many: bool) -> Seq<char> {
    if many {
        "favicon_"@ + slug(url) + "."@ + ext
    } else {
        "favicon."@ + ext
    }
}

/// The slug of a URL.
pub fn url_slug(url: &str) -> (r: String)
    ensures
        r@ == slug(url@),
{
    let c = chars_of(url);
    let mut out: Vec<char> = Vec::new();
    let mut i: usize = 0;
    while i < c.len()
        invariant
            i <= c@.len(),
            c@ == url@,
            out@ == slug(url@).subrange(0, i as int),
        decreases c@.len() - i,
    {
        let ch = c[i];
        if is_alphanumeric(ch) {
            out.push(ch);
        } else {
            out.push('_');
        }
        assert(out@ =~= slug(url@).subrange(0, i + 1));
        i = i + 1;
    }
    assert(out@ =~= slug(url@));
    string_of_chars(out.as_slice())
}

/// The file name of a favicon fetched from `url`.
pub fn saved_file_name(url: &str, favicon: &FaviconArtifact, many: bool) -> (r: String)
    ensures
        r@ == saved_name(url@, favicon.format.ext(), many),
{
    if many {
        let mut r = "favicon_".to_owned();
        let s = url_slug(url);
        r.append(s.as_str());
        r.append(".");
        r.append(favicon.file_extension());
        r
    } else {
        let mut r = "favicon.".to_owned();
        r.append(favicon.file_extension());
        r
    }
}

} // verus!
