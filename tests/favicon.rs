use favicon_fetch::classify::{
    classify_bytes, extension_of_name, format_declared_by, looks_like_svg, sniff_format,
    ClassifyError, FormatWarning, ImageFormat,
};
use favicon_fetch::html::{description_of, icon_selector, locate_icon, title_of, Html};
use favicon_fetch::pipeline::{
    content_type_or_unknown, favicon_from_response, icon_target, is_success_status, plan_fetch,
    saved_file_name, url_slug, FaviconError, FetchPlan,
};
use favicon_fetch::resolve::{fallback_url, is_direct_image_url, resolve_href, Origin};

const PNG: [u8; 10] = [0x89, 0x50, 0x4E, 0x47, 0x0D, 0x0A, 0x1A, 0x0A, 0, 0];

fn origin(scheme: &str, host: &str) -> Origin {
    Origin { scheme: scheme.to_string(), host: host.to_string() }
}

#[test]
fn direct_ico_url_is_fetched_without_page() {
    match plan_fetch("http://example.com/favicon.ico") {
        Ok(FetchPlan::Direct(u)) => assert_eq!(u, "http://example.com/favicon.ico"),
        _ => panic!("expected a direct fetch"),
    }
    assert!(is_direct_image_url("https://a.test/x.png"));
    assert!(is_direct_image_url("https://a.test/x.svg"));
    assert!(!is_direct_image_url("https://a.test/x.ICO"));
    assert!(!is_direct_image_url("https://a.test/x.jpg"));
}

#[test]
fn page_url_plans_page_fetch() {
    match plan_fetch("https://site.test/some/page") {
        Ok(FetchPlan::Page(o)) => {
            assert_eq!(o.scheme, "https");
            assert_eq!(o.host, "site.test");
        }
        _ => panic!("expected a page fetch"),
    }
    assert!(matches!(plan_fetch("not a url"), Err(FaviconError::InvalidUrl)));
}

#[test]
fn direct_ico_scenario() {
    let data = vec![0u8; 318];
    let (a, w) = match favicon_from_response("http://example.com/favicon.ico", 200, "image/x-icon", data.clone()) {
        Ok(x) => x,
        Err(_) => panic!("expected a favicon"),
    };
    assert_eq!(a.file_extension(), "ico");
    assert_eq!(a.format, ImageFormat::Ico);
    assert_eq!(a.data, data);
    assert_eq!(w, None);
    assert_eq!(saved_file_name("http://example.com/favicon.ico", &a, false), "favicon.ico");
}

#[test]
fn resolve_absolute_href_verbatim() {
    let o = origin("https", "site.test");
    assert_eq!(resolve_href("https://cdn.example.com/logo.png", &o), "https://cdn.example.com/logo.png");
    assert_eq!(resolve_href("http://x.test/a.ico", &o), "http://x.test/a.ico");
}

#[test]
fn resolve_relative_forms() {
    let o = origin("https", "a.test");
    assert_eq!(resolve_href("//cdn.b.test/i.svg", &o), "https://cdn.b.test/i.svg");
    assert_eq!(resolve_href("/static/icon", &o), "https://a.test/static/icon");
    assert_eq!(resolve_href("img/icon.png", &o), "https://a.test/img/icon.png");
    assert_eq!(fallback_url(&o), "https://a.test/favicon.ico");
}

#[test]
fn html_absolute_icon_png() {
    let doc = r#"<html><head><link rel="icon" href="https://cdn.example.com/logo.png"></head></html>"#;
    let t = icon_target(&origin("https", "site.test"), Some(doc));
    assert_eq!(t.url, "https://cdn.example.com/logo.png");
    assert_eq!(t.selector_index, Some(0));
    let (a, w) = match favicon_from_response(&t.url, 200, "image/png", PNG.to_vec()) {
        Ok(x) => x,
        Err(_) => panic!("expected a favicon"),
    };
    assert_eq!(a.file_extension(), "png");
    assert_eq!(w, None);
}

#[test]
fn root_relative_mislabelled_jpeg() {
    let doc = r#"<html><head><link rel="shortcut icon" href="/static/icon"></head></html>"#;
    let t = icon_target(&origin("https", "site.test"), Some(doc));
    assert_eq!(t.url, "https://site.test/static/icon");
    assert_eq!(t.selector_index, Some(1));
    assert_eq!(icon_selector(1), "link[rel='shortcut icon']");
    let body = vec![0xFF, 0xD8, 0xFF, 0xE0, 1, 2];
    let (a, w) = match favicon_from_response(&t.url, 200, "text/html", body.clone()) {
        Ok(x) => x,
        Err(_) => panic!("expected a favicon"),
    };
    assert_eq!(a.file_extension(), "jpg");
    assert_eq!(w, Some(FormatWarning::DetectedDespiteContentType));
    assert_eq!(a.data, body);
}

#[test]
fn fallback_gif_by_magic_bytes() {
    let doc = "<html><head><title>x</title></head></html>";
    let t = icon_target(&origin("https", "site.test"), Some(doc));
    assert_eq!(t.url, "https://site.test/favicon.ico");
    assert_eq!(t.selector_index, None);
    // the suffix of "favicon.ico" names ico before the magic bytes are read
    let r = classify_bytes("unknown", "https://site.test/favicon.ico", b"GIF89a....");
    assert_eq!(r.unwrap().format, ImageFormat::Ico);
    let r = classify_bytes("unknown", "https://site.test/icon", b"GIF89a....");
    assert_eq!(r, Ok(favicon_fetch::classify::Classification { format: ImageFormat::Gif, warning: None }));
}

#[test]
fn protocol_relative_svg() {
    let doc = "<html><head><link rel='icon' href='//cdn.b.test/i.svg'></head></html>";
    let t = icon_target(&origin("https", "a.test"), Some(doc));
    assert_eq!(t.url, "https://cdn.b.test/i.svg");
    let (a, w) = match favicon_from_response(&t.url, 200, "image/svg+xml", b"<svg xmlns='x'></svg>".to_vec()) {
        Ok(x) => x,
        Err(_) => panic!("expected a favicon"),
    };
    assert_eq!(a.file_extension(), "svg");
    assert_eq!(w, None);
}

#[test]
fn not_found_status_is_error() {
    match favicon_from_response("https://site.test/favicon.ico", 404, "text/html", vec![1]) {
        Err(FaviconError::HttpStatus { status, url }) => {
            assert_eq!(status, 404);
            assert_eq!(url, "https://site.test/favicon.ico");
        }
        _ => panic!("expected an HTTP status error"),
    }
    assert!(is_success_status(200));
    assert!(is_success_status(299));
    assert!(!is_success_status(300));
    assert!(!is_success_status(199));
}

#[test]
fn page_fetch_failure_falls_back() {
    let t = icon_target(&origin("http", "x.test"), None);
    assert_eq!(t.url, "http://x.test/favicon.ico");
}

#[test]
fn first_selector_wins_over_third() {
    let doc = r#"<html><head>
        <link rel="apple-touch-icon" href="/apple.png">
        <link rel="icon" href="/icon.png">
    </head></html>"#;
    let page = Html::parse(doc);
    let c = locate_icon(&page, &origin("https", "s.test")).expect("a candidate");
    assert_eq!(c.selector_index, 0);
    assert_eq!(c.url, "https://s.test/icon.png");
}

#[test]
fn empty_href_moves_to_next_selector() {
    let doc = r#"<link rel="icon" href=""><link rel="mask-icon" href="m.svg">"#;
    let t = icon_target(&origin("https", "s.test"), Some(doc));
    assert_eq!(t.url, "https://s.test/m.svg");
    assert_eq!(t.selector_index, Some(5));
}

#[test]
fn empty_body_gives_no_favicon() {
    assert!(matches!(
        favicon_from_response("https://s.test/favicon.ico", 200, "image/x-icon", vec![]),
        Err(FaviconError::EmptyResponse)
    ));
}

#[test]
fn error_page_without_image_is_rejected() {
    match favicon_from_response("https://s.test/favicon.ico", 200, "application/json", b"{}".to_vec()) {
        Err(FaviconError::NotAnImage { content_type }) => assert_eq!(content_type, "application/json"),
        _ => panic!("expected a classification error"),
    }
}

#[test]
fn unparsable_final_url_is_rejected() {
    assert_eq!(classify_bytes("unknown", "no scheme here", b"abc"), Err(ClassifyError::UnparsableUrl));
    assert!(matches!(
        favicon_from_response("no scheme here", 200, "unknown", vec![1, 2]),
        Err(FaviconError::InvalidUrl)
    ));
}

#[test]
fn declared_type_kept_on_signature_mismatch() {
    let r = classify_bytes("image/png", "https://s.test/a", b"nope").unwrap();
    assert_eq!(r.format, ImageFormat::Png);
    assert_eq!(r.warning, Some(FormatWarning::PngSignatureMismatch));
    let r = classify_bytes("image/jpeg; charset=x", "https://s.test/a", b"nope").unwrap();
    assert_eq!(r.format, ImageFormat::Jpg);
    assert_eq!(r.warning, Some(FormatWarning::JpegSignatureMismatch));
    let r = classify_bytes("image/gif", "https://s.test/a", b"GIF87a").unwrap();
    assert_eq!((r.format, r.warning), (ImageFormat::Gif, None));
    let r = classify_bytes("image/gif", "https://s.test/a", b"GIF").unwrap();
    assert_eq!(r.warning, Some(FormatWarning::GifSignatureMismatch));
    let r = classify_bytes("image/svg+xml", "https://s.test/a", &[0xFF, 0xFE]).unwrap();
    assert_eq!((r.format, r.warning), (ImageFormat::Svg, Some(FormatWarning::SvgTagMissing)));
    let r = classify_bytes("image/vnd.microsoft.icon", "https://s.test/a", b"x").unwrap();
    assert_eq!((r.format, r.warning), (ImageFormat::Ico, None));
}

#[test]
fn declared_type_order() {
    assert_eq!(format_declared_by("image/png, image/gif"), Some(ImageFormat::Png));
    assert_eq!(format_declared_by("Image/PNG"), None);
    assert_eq!(format_declared_by("unknown"), None);
}

#[test]
fn url_suffix_is_lowercased() {
    let r = classify_bytes("unknown", "https://s.test/img/ICON.JPEG?x=1", b"GIF89a").unwrap();
    assert_eq!(r.format, ImageFormat::Jpeg);
    assert_eq!(r.format.extension(), "jpeg");
    let r = classify_bytes("application/octet-stream", "https://s.test/a.Png", b"zz").unwrap();
    assert_eq!(r.format, ImageFormat::Png);
    let r = classify_bytes("unknown", "https://s.test/a.webp", b"zz").unwrap();
    assert_eq!(r.format, ImageFormat::Ico);
}

#[test]
fn error_page_rescue_order() {
    let r = classify_bytes("text/html", "https://s.test/", &PNG[..4]).unwrap();
    assert_eq!(r.format, ImageFormat::Png);
    let r = classify_bytes("text/html", "https://s.test/", b"<?xml?><svg></svg>").unwrap();
    assert_eq!(r.format, ImageFormat::Svg);
    assert_eq!(r.warning, Some(FormatWarning::DetectedDespiteContentType));
}

#[test]
fn magic_byte_default_order() {
    assert_eq!(sniff_format(&PNG), ImageFormat::Png);
    assert_eq!(sniff_format(&[0xFF, 0xD8, 0xFF]), ImageFormat::Jpg);
    assert_eq!(sniff_format(b"GIF87a"), ImageFormat::Gif);
    assert_eq!(sniff_format(b"  <svg/>"), ImageFormat::Svg);
    assert_eq!(sniff_format(&[0, 0, 1, 0]), ImageFormat::Ico);
    assert!(looks_like_svg("é<svg".as_bytes()));
    assert!(!looks_like_svg(&[0xC3, 0x28, b'<', b's', b'v', b'g']));
}

#[test]
fn path_extension_rules() {
    assert_eq!(extension_of_name("a.tar.gz"), Some("gz".to_string()));
    assert_eq!(extension_of_name(".hidden"), None);
    assert_eq!(extension_of_name("noext"), None);
    assert_eq!(extension_of_name(".."), None);
    assert_eq!(extension_of_name(""), None);
    assert_eq!(extension_of_name("a."), Some("".to_string()));
}

#[test]
fn bulk_file_name_uses_slug() {
    assert_eq!(url_slug("https://a.test/x"), "https___a_test_x");
    let a = favicon_from_response("https://a.test/x.png", 200, "image/png", PNG.to_vec()).ok().unwrap().0;
    assert_eq!(saved_file_name("https://a.test/x", &a, true), "favicon_https___a_test_x.png");
    assert_eq!(saved_file_name("https://a.test/x", &a, false), "favicon.png");
}

#[test]
fn content_type_default() {
    assert_eq!(content_type_or_unknown(None), "unknown");
    assert_eq!(content_type_or_unknown(Some("image/png")), "image/png");
}

#[test]
fn title_and_description() {
    let doc = r#"<html><head><title>Hello</title><meta name="description" content="A site"></head></html>"#;
    assert_eq!(title_of(doc), "Hello");
    assert_eq!(description_of(doc), "A site");
    assert_eq!(title_of("<p>x</p>"), "No title found");
    assert_eq!(description_of("<p>x</p>"), "No description available");
}
