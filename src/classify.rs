//! Classification of downloaded icon bytes into a canonical file extension,
//! from the declared content type, the magic bytes and the URL's suffix.
use vstd::prelude::*;
use vstd::utf8::{decode_utf8, valid_utf8};
use crate::resolve::{parse_url_parts, parsed_url_parts};
use crate::text::{
    chars_of, contains_chars, same_chars, string_of_chars, has_prefix, has_substring, starts_with_bytes,
};

verus! {

/// What `str::to_lowercase` yields for a string.
pub uninterp spec fn lower_of(s: Seq<char>) -> Seq<char>;

/// Relies on `str::to_lowercase`: the result depends on the characters alone.
#[verifier::external_body]
fn lowercase(s: &str) -> (r: String)
    ensures
        r@ == lower_of(s@),
{
    s.to_lowercase()
}

/// Relies on `std::str::from_utf8`: it succeeds exactly on valid UTF-8, and
/// the text it gives is what the bytes encode.
#[verifier::external_body]
fn utf8_text(b: &[u8]) -> (r: Option<&str>)
    ensures
        r is Some <==> valid_utf8(b@),
        r matches Some(s) ==> s@ == decode_utf8(b@),
{
    std::str::from_utf8(b).ok()
}

/// The canonical image formats an icon can be saved as.
#[derive(Clone, Copy, Debug, PartialEq, Eq, Structural)]
pub enum ImageFormat {
    Png,
    Ico,
    Svg,
    Jpg,
    Jpeg,
    Gif,
}

impl ImageFormat {
    pub open spec fn ext(self) -> Seq<char> {
        match self {
            ImageFormat::Png => "png"@,
            ImageFormat::Ico => "ico"@,
            ImageFormat::Svg => "svg"@,
            ImageFormat::Jpg => "jpg"@,
            ImageFormat::Jpeg => "jpeg"@,
            ImageFormat::Gif => "gif"@,
        }
    }

    /// The lowercase file extension of the format.
    pub fn extension(&self) -> (r: &'static str)
        ensures
            r@ == self.ext(),
    {
        match self {
            ImageFormat::Png => "png",
            ImageFormat::Ico => "ico",
            ImageFormat::Svg => "svg",
            ImageFormat::Jpg => "jpg",
            ImageFormat::Jpeg => "jpeg",
            ImageFormat::Gif => "gif",
        }
    }
}

/// Every format is saved under one of `png`, `ico`, `svg`, `jpg`, `jpeg`
/// and `gif`: never an empty extension and never `bin`.
pub proof fn extension_is_canonical(f: ImageFormat)
    ensures
        f.ext() == "png"@ || f.ext() == "ico"@ || f.ext() == "svg"@ || f.ext() == "jpg"@
            || f.ext() == "jpeg"@ || f.ext() == "gif"@,
        f.ext().len() > 0,
        f.ext() != "bin"@,
{
    reveal_strlit("png");
    reveal_strlit("ico");
    reveal_strlit("svg");
    reveal_strlit("jpg");
    reveal_strlit("jpeg");
    reveal_strlit("gif");
    reveal_strlit("bin");
    assert("png"@[0] != "bin"@[0]);
    assert("ico"@[0] != "bin"@[0]);
    assert("svg"@[0] != "bin"@[0]);
    assert("jpg"@[0] != "bin"@[0]);
    assert("jpeg"@.len() != "bin"@.len());
    assert("gif"@[0] != "bin"@[0]);
}

/// A disagreement between the declared content type and the bytes, noted
/// while the declared type was kept or overridden.
#[derive(Clone, Copy, Debug, PartialEq, Eq, Structural)]
pub enum FormatWarning {
    /// Declared `image/png`, but the 8-byte PNG signature is missing.
    PngSignatureMismatch,
    /// Declared `image/svg+xml`, but the body is not UTF-8 text holding `<svg`.
    SvgTagMissing,
    /// Declared `image/jpeg`, but the JPEG signature is missing.
    JpegSignatureMismatch,
    /// Declared `image/gif`, but neither GIF signature is present.
    GifSignatureMismatch,
    /// Declared an error-page type (HTML or JSON), but the bytes are an image.
    DetectedDespiteContentType,
}

/// The outcome of classifying a body.
#[derive(Clone, Copy, Debug, PartialEq, Eq, Structural)]
pub struct Classification {
    pub format: ImageFormat,
    pub warning: Option<FormatWarning>,
}

/// Why a body could not be classified.
#[derive(Clone, Copy, Debug, PartialEq, Eq, Structural)]
pub enum ClassifyError {
    /// An error-page content type with no recognisable image bytes.
    NotAnImage,
    /// The URL the body came from does not parse.
    UnparsableUrl,
}

pub open spec fn png_signature() -> Seq<u8> {
    seq![0x89u8, 0x50u8, 0x4Eu8, 0x47u8, 0x0Du8, 0x0Au8, 0x1Au8, 0x0Au8]
}

pub open spec fn png_short_signature() -> Seq<u8> {
    seq![0x89u8, 0x50u8, 0x4Eu8, 0x47u8]
}

pub open spec fn jpeg_signature() -> Seq<u8> {
    seq![0xFFu8, 0xD8u8, 0xFFu8]
}

pub open spec fn gif87_signature() -> Seq<u8> {
    seq![0x47u8, 0x49u8, 0x46u8, 0x38u8, 0x37u8, 0x61u8]
}

pub open spec fn gif89_signature() -> Seq<u8> {
    seq![0x47u8, 0x49u8, 0x46u8, 0x38u8, 0x39u8, 0x61u8]
}

pub open spec fn is_gif(data: Seq<u8>) -> bool {
    has_prefix(data, gif87_signature()) || has_prefix(data, gif89_signature())
}

/// The bytes are UTF-8 text that contains `<svg`.
pub open spec fn is_svg_text(data: Seq<u8>) -> bool {
    valid_utf8(data) && has_substring(decode_utf8(data), "<svg"@)
}

/// The format that a content type declares, in the order png, ico, svg,
/// jpeg, gif; matched as substrings, with case.
pub open spec fn declared_format(ct: Seq<char>) -> Option<ImageFormat> {
    if has_substring(ct, "image/png"@) {
        Some(ImageFormat::Png)
    } else if has_substring(ct, "image/x-icon"@) || has_substring(ct, "image/vnd.microsoft.icon"@) {
        Some(ImageFormat::Ico)
    } else if has_substring(ct, "image/svg+xml"@) {
        Some(ImageFormat::Svg)
    } else if has_substring(ct, "image/jpeg"@) {
        Some(ImageFormat::Jpg)
    } else if has_substring(ct, "image/gif"@) {
        Some(ImageFormat::Gif)
    } else {
        None
    }
}

/// A content type that usually marks an error page rather than an image.
pub open spec fn is_error_page_type(ct: Seq<char>) -> bool {
    has_substring(ct, "text/html"@) || has_substring(ct, "application/json"@)
}

/// Whether the bytes carry the signature that goes with a declared format.
pub open spec fn signature_agrees(f: ImageFormat, data: Seq<u8>) -> bool {
    match f {
        ImageFormat::Png => has_prefix(data, png_signature()),
        ImageFormat::Svg => is_svg_text(data),
        ImageFormat::Jpg => has_prefix(data, jpeg_signature()),
        ImageFormat::Gif => is_gif(data),
        _ => true,
    }
}

pub open spec fn mismatch_warning(f: ImageFormat) -> FormatWarning {
    match f {
        ImageFormat::Png => FormatWarning::PngSignatureMismatch,
        ImageFormat::Svg => FormatWarning::SvgTagMissing,
        ImageFormat::Jpg => FormatWarning::JpegSignatureMismatch,
        _ => FormatWarning::GifSignatureMismatch,
    }
}

/// The image found in the body of an error page: PNG, JPEG, then SVG.
pub open spec fn rescued_format(data: Seq<u8>) -> Option<ImageFormat> {
    if has_prefix(data, png_short_signature()) {
        Some(ImageFormat::Png)
    } else if has_prefix(data, jpeg_signature()) {
        Some(ImageFormat::Jpg)
    } else if is_svg_text(data) {
        Some(ImageFormat::Svg)
    } else {
        None
    }
}

/// The format by magic bytes alone: PNG, JPEG, GIF, SVG, and ICO otherwise.
pub open spec fn sniffed_format(data: Seq<u8>) -> ImageFormat {
    if has_prefix(data, png_short_signature()) {
        ImageFormat::Png
    } else if has_prefix(data, jpeg_signature()) {
        ImageFormat::Jpg
    } else if is_gif(data) {
        ImageFormat::Gif
    } else if is_svg_text(data) {
        ImageFormat::Svg
    } else {
        ImageFormat::Ico
    }
}

/// The index of the last `.` in `s`, or -1 when there is none.
pub open spec fn last_dot(s: Seq<char>) -> int
    decreases s.len(),
{
    if s.len() == 0 {
        -1
    } else if s.last() == '.' {
        s.len() - 1
    } else {
        last_dot(s.drop_last())
    }
}

/// The extension of a file name, as `std::path::Path::extension` defines it:
/// what follows the last `.`, with no extension when there is no `.`, when
/// the only `.` begins the name, or when the name is `..`.
pub open spec fn path_extension(name: Seq<char>) -> Option<Seq<char>> {
    if name == seq!['.', '.'] || last_dot(name) <= 0 {
        None
    } else {
        Some(name.subrange(last_dot(name) + 1, name.len() as int))
    }
}

/// The format named by a lowercase extension token.
pub open spec fn token_format(t: Seq<char>) -> Option<ImageFormat> {
    if t == "png"@ {
        Some(ImageFormat::Png)
    } else if t == "ico"@ {
        Some(ImageFormat::Ico)
    } else if t == "svg"@ {
        Some(ImageFormat::Svg)
    } else if t == "jpg"@ {
        Some(ImageFormat::Jpg)
    } else if t == "jpeg"@ {
        Some(ImageFormat::Jpeg)
    } else if t == "gif"@ {
        Some(ImageFormat::Gif)
    } else {
        None
    }
}

/// The format that the last path segment of a URL names by its extension.
pub open spec fn suffix_format(segment: Option<Seq<char>>) -> Option<ImageFormat> {
    match segment {
        Some(s) => match path_extension(s) {
            Some(e) => token_format(lower_of(e)),
            None => None,
        },
        None => None,
    }
}

/// The full decision: declared type first (keeping it on a signature
/// mismatch, with a warning), then the error-page rescue, then the URL's
/// suffix, then the magic bytes.
pub open spec fn classification(ct: Seq<char>, url: Seq<char>, data: Seq<u8>) -> Result<
    Classification,
    ClassifyError,
> {
    match declared_format(ct) {
        Some(f) => Ok(
            Classification {
                format: f,
                warning: if signature_agrees(f, data) {
                    None
                } else {
                    Some(mismatch_warning(f))
                },
            },
        ),
        None => if is_error_page_type(ct) {
            match rescued_format(data) {
                Some(f) => Ok(
                    Classification {
                        format: f,
                        warning: Some(FormatWarning::DetectedDespiteContentType),
                    },
                ),
                None => Err(ClassifyError::NotAnImage),
            }
        } else {
            match parsed_url_parts(url) {
                Some(p) => Ok(
                    Classification {
                        format: match suffix_format(p.2) {
                            Some(f) => f,
                            None => sniffed_format(data),
                        },
                        warning: None,
                    },
                ),
                None => Err(ClassifyError::UnparsableUrl),
            }
        },
    }
}

/// Whether `ct` contains the text `pat`.
fn mentions(ct: &[char], pat: &str) -> (r: bool)
    ensures
        r == has_substring(ct@, pat@),
{
    let p = chars_of(pat);
    contains_chars(ct, &p)
}

/// Whether `t` is exactly the text `lit`.
fn is_token(t: &[char], lit: &str) -> (r: bool)
    ensures
        r == (t@ == lit@),
{
    let p = chars_of(lit);
    same_chars(t, &p)
}

/// Whether the bytes are UTF-8 text containing `<svg`.
pub fn looks_like_svg(data: &[u8]) -> (r: bool)
    ensures
        r == is_svg_text(data@),
{
    match utf8_text(data) {
        Some(s) => {
            let c = chars_of(s);
            mentions(&c, "<svg")
        },
        None => false,
    }
}

fn has_png_signature(data: &[u8]) -> (r: bool)
    ensures
        r == has_prefix(data@, png_signature()),
{
    let sig: [u8; 8] = [0x89, 0x50, 0x4E, 0x47, 0x0D, 0x0A, 0x1A, 0x0A];
    assert(sig@ =~= png_signature());
    starts_with_bytes(data, &sig)
}

fn has_png_short_signature(data: &[u8]) -> (r: bool)
    ensures
        r == has_prefix(data@, png_short_signature()),
{
    let sig: [u8; 4] = [0x89, 0x50, 0x4E, 0x47];
    assert(sig@ =~= png_short_signature());
    starts_with_bytes(data, &sig)
}

fn has_jpeg_signature(data: &[u8]) -> (r: bool)
    ensures
        r == has_prefix(data@, jpeg_signature()),
{
    let sig: [u8; 3] = [0xFF, 0xD8, 0xFF];
    assert(sig@ =~= jpeg_signature());
    starts_with_bytes(data, &sig)
}

fn has_gif_signature(data: &[u8]) -> (r: bool)
    ensures
        r == is_gif(data@),
{
    let sig87: [u8; 6] = [0x47, 0x49, 0x46, 0x38, 0x37, 0x61];
    let sig89: [u8; 6] = [0x47, 0x49, 0x46, 0x38, 0x39, 0x61];
    assert(sig87@ =~= gif87_signature());
    assert(sig89@ =~= gif89_signature());
    starts_with_bytes(data, &sig87) || starts_with_bytes(data, &sig89)
}

/// The format a content type declares, if any.
pub fn format_declared_by(content_type: &str) -> (r: Option<ImageFormat>)
    ensures
        r == declared_format(content_type@),
{
    let ct = chars_of(content_type);
    if mentions(&ct, "image/png") {
        Some(ImageFormat::Png)
    } else if mentions(&ct, "image/x-icon") || mentions(&ct, "image/vnd.microsoft.icon") {
        Some(ImageFormat::Ico)
    } else if mentions(&ct, "image/svg+xml") {
        Some(ImageFormat::Svg)
    } else if mentions(&ct, "image/jpeg") {
        Some(ImageFormat::Jpg)
    } else if mentions(&ct, "image/gif") {
        Some(ImageFormat::Gif)
    } else {
        None
    }
}

/// The index of the last `.` in `name`.
fn last_dot_index(name: &[char]) -> (r: Option<usize>)
    ensures
        match r {
            Some(k) => last_dot(name@) == k && k < name@.len(),
            None => last_dot(name@) == -1,
        },
{
    let mut i: usize = name.len();
    assert(name@.subrange(0, i as int) =~= name@);
    while i > 0
        invariant
            i <= name@.len(),
            last_dot(name@.subrange(0, i as int)) == last_dot(name@),
        decreases i,
    {
        let ghost pre = name@.subrange(0, i as int);
        assert(pre.drop_last() =~= name@.subrange(0, i - 1));
        if name[i - 1] == '.' {
            return Some(i - 1);
        }
        i = i - 1;
    }
    assert(name@.subrange(0, 0) =~= Seq::<char>::empty());
    None
}

/// The extension of a file name, as `std::path::Path::extension` gives it.
pub fn extension_of_name(name: &str) -> (r: Option<String>)
    ensures
        r.deep_view() == path_extension(name@),
{
    let c = chars_of(name);
    if c.len() == 2 && c[0] == '.' && c[1] == '.' {
        assert(c@ =~= seq!['.', '.']);
        return None;
    }
    assert(c@ != seq!['.', '.'] ==> name@ != seq!['.', '.']);
    match last_dot_index(&c) {
        Some(k) => {
            if k == 0 {
                None
            } else {
                let rest = vstd::slice::slice_subrange(c.as_slice(), k + 1, c.len());
                Some(string_of_chars(rest))
            }
        },
        None => None,
    }
}

/// The format named by a lowercase extension token.
pub fn format_of_token(t: &str) -> (r: Option<ImageFormat>)
    ensures
        r == token_format(t@),
{
    let c = chars_of(t);
    if is_token(&c, "png") {
        Some(ImageFormat::Png)
    } else if is_token(&c, "ico") {
        Some(ImageFormat::Ico)
    } else if is_token(&c, "svg") {
        Some(ImageFormat::Svg)
    } else if is_token(&c, "jpg") {
        Some(ImageFormat::Jpg)
    } else if is_token(&c, "jpeg") {
        Some(ImageFormat::Jpeg)
    } else if is_token(&c, "gif") {
        Some(ImageFormat::Gif)
    } else {
        None
    }
}

/// The format the extension of a URL's last path segment names, compared
/// after lowercasing.
pub fn format_of_segment(segment: &Option<String>) -> (r: Option<ImageFormat>)
    ensures
        r == suffix_format(segment.deep_view()),
{
    match segment {
        Some(s) => match extension_of_name(s.as_str()) {
            Some(e) => {
                let lower = lowercase(e.as_str());
                format_of_token(lower.as_str())
            },
            None => None,
        },
        None => None,
    }
}

/// The format by magic bytes alone, ICO when nothing matches.
pub fn sniff_format(data: &[u8]) -> (r: ImageFormat)
    ensures
        r == sniffed_format(data@),
{
    if has_png_short_signature(data) {
        ImageFormat::Png
    } else if has_jpeg_signature(data) {
        ImageFormat::Jpg
    } else if has_gif_signature(data) {
        ImageFormat::Gif
    } else if looks_like_svg(data) {
        ImageFormat::Svg
    } else {
        ImageFormat::Ico
    }
}

/// The image recognised in the body of what was declared an error page.
pub fn rescue_format(data: &[u8]) -> (r: Option<ImageFormat>)
    ensures
        r == rescued_format(data@),
{
    if has_png_short_signature(data) {
        Some(ImageFormat::Png)
    } else if has_jpeg_signature(data) {
        Some(ImageFormat::Jpg)
    } else if looks_like_svg(data) {
        Some(ImageFormat::Svg)
    } else {
        None
    }
}

/// Whether the bytes carry the signature of a declared format.
fn signature_matches(f: ImageFormat, data: &[u8]) -> (r: bool)
    ensures
        r == signature_agrees(f, data@),
{
    match f {
        ImageFormat::Png => has_png_signature(data),
        ImageFormat::Svg => looks_like_svg(data),
        ImageFormat::Jpg => has_jpeg_signature(data),
        ImageFormat::Gif => has_gif_signature(data),
        _ => true,
    }
}

/// Classifies a body by its declared content type, the URL it finally came
/// from and its bytes.
pub fn classify_bytes(content_type: &str, final_url: &str, data: &[u8]) -> (r: Result<
    Classification,
    ClassifyError,
>)
    ensures
        r == classification(content_type@, final_url@, data@),
{
    match format_declared_by(content_type) {
        Some(f) => {
            let warning = if signature_matches(f, data) {
                None
            } else {
                Some(
                    match f {
                        ImageFormat::Png => FormatWarning::PngSignatureMismatch,
                        ImageFormat::Svg => FormatWarning::SvgTagMissing,
                        ImageFormat::Jpg => FormatWarning::JpegSignatureMismatch,
                        _ => FormatWarning::GifSignatureMismatch,
                    },
                )
            };
            Ok(Classification { format: f, warning })
        },
        None => {
            let ct = chars_of(content_type);
            if mentions(&ct, "text/html") || mentions(&ct, "application/json") {
                match rescue_format(data) {
                    Some(f) => Ok(
                        Classification {
                            format: f,
                            warning: Some(FormatWarning::DetectedDespiteContentType),
                        },
                    ),
                    None => Err(ClassifyError::NotAnImage),
                }
            } else {
                match parse_url_parts(final_url) {
                    Some((_, _, segment)) => {
                        let format = match format_of_segment(&segment) {
                            Some(f) => f,
                            None => sniff_format(data),
                        };
                        Ok(Classification { format, warning: None })
                    },
                    None => Err(ClassifyError::UnparsableUrl),
                }
            }
        },
    }
}

} // verus!
