use content_router::headers::{create_content_disposition, DispositionType};
use content_router::router::{canonical_path, site_router, Router};
use content_router::site::{not_found, Config, Response, Route, Site};

fn sample_site(correct_mimes: bool, download: bool) -> Site {
    Site {
        config: Config { correct_mimes, download },
        image: vec![0x89, b'P', b'N', b'G', 0x0d, 0x0a, 0x1a, 0x0a, 0x00],
        pdf: b"%PDF-1.4\n%\xe2\xe3\xcf\xd3\nsample\n%%EOF".to_vec(),
        index_page: Some(b"<html><body>index</body></html>".to_vec()),
    }
}

fn segments(path: &str) -> Vec<String> {
    path.trim_start_matches('/').split('/').map(|s| s.to_string()).collect()
}

fn get(router: &Router, site: &Site, path: &str) -> Response {
    router.handle(site, &segments(path))
}

fn content_type(r: &Response) -> Option<&str> {
    r.content_type.as_deref()
}

fn disposition(r: &Response) -> Option<Vec<u8>> {
    r.content_disposition.as_ref().map(|d| d.header_value())
}

#[test]
fn disposition_attachment_serializes() {
    let d = create_content_disposition(b"image.png", true);
    assert_eq!(d.disposition, DispositionType::Attachment);
    assert_eq!(d.header_value(), b"attachment; filename=\"image.png\"".to_vec());
}

#[test]
fn disposition_inline_serializes() {
    let d = create_content_disposition(b"x.txt", false);
    assert_eq!(d.disposition, DispositionType::Inline);
    assert_eq!(d.header_value(), b"inline; filename=\"x.txt\"".to_vec());
}

#[test]
fn disposition_keeps_latin1_bytes_raw() {
    let d = create_content_disposition(b"caf\xe9 \"a\".txt", true);
    assert_eq!(d.filename, b"caf\xe9 \"a\".txt".to_vec());
    assert_eq!(d.header_value(), b"attachment; filename=\"caf\xe9 \"a\".txt\"".to_vec());
}

#[test]
fn disposition_empty_filename() {
    let d = create_content_disposition(b"", false);
    assert_eq!(d.header_value(), b"inline; filename=\"\"".to_vec());
}

#[test]
fn pdf_route_serves_embedded_pdf() {
    let site = sample_site(true, true);
    let r = get(&site_router(), &site, "/res/pdf1");
    assert_eq!(r.status, 200);
    assert_eq!(r.body, site.pdf);
    assert_eq!(content_type(&r), Some("application/pdf"));
    assert_eq!(disposition(&r), Some(b"attachment; filename=\"sample-pdf.pdf\"".to_vec()));
}

#[test]
fn unknown_path_is_not_found() {
    let site = sample_site(true, true);
    let r = get(&site_router(), &site, "/nonexistent");
    assert_eq!(r.status, 404);
    assert!(r.body.is_empty());
    assert!(r.content_type.is_none());
    assert!(r.content_disposition.is_none());
}

#[test]
fn error_route_is_bad_request() {
    let site = sample_site(true, true);
    let r = get(&site_router(), &site, "/error");
    assert_eq!(r.status, 400);
    assert!(r.body.is_empty());
    assert!(r.content_type.is_none());
    assert!(r.content_disposition.is_none());
}

#[test]
fn every_registered_path_has_documented_headers() {
    let site = sample_site(true, true);
    let router = site_router();

    let r = get(&router, &site, "/");
    assert_eq!(r.status, 200);
    assert_eq!(content_type(&r), Some("text/html"));
    assert_eq!(disposition(&r), None);
    assert_eq!(Some(r.body.clone()), site.index_page);

    let r = get(&router, &site, "/res/image1");
    assert_eq!(r.status, 200);
    assert_eq!(content_type(&r), Some("image/png"));
    assert_eq!(disposition(&r), Some(b"attachment; filename=\"image.png\"".to_vec()));
    assert_eq!(r.body, site.image);

    let r = get(&router, &site, "/res/text1");
    assert_eq!(r.status, 200);
    assert_eq!(content_type(&r), Some("text/plain"));
    assert_eq!(disposition(&r), Some(b"attachment; filename=\"text.txt\"".to_vec()));
    assert_eq!(r.body, b"neki text 1".to_vec());

    let r = get(&router, &site, "/html");
    assert_eq!(r.status, 200);
    assert_eq!(content_type(&r), Some("text/html"));
    assert_eq!(disposition(&r), Some(b"attachment; filename=\"page.html\"".to_vec()));
    assert_eq!(Some(r.body.clone()), site.index_page);

    for other in ["/res", "/res/pdf", "/res/pdf1/", "/HTML", "/res//pdf1", "/errors"] {
        assert_eq!(get(&router, &site, other).status, 404, "{}", other);
    }
}

#[test]
fn repeated_requests_give_identical_responses() {
    let site = sample_site(true, false);
    let router = site_router();
    for path in ["/", "/res/image1", "/res/pdf1", "/res/text1", "/html", "/error", "/nope"] {
        let a = get(&router, &site, path);
        let b = get(&router, &site, path);
        assert_eq!(a.status, b.status);
        assert_eq!(a.content_type, b.content_type);
        assert_eq!(disposition(&a), disposition(&b));
        assert_eq!(a.body, b.body);
    }
}

#[test]
fn mime_flag_changes_only_content_type() {
    let right = sample_site(true, true);
    let wrong = sample_site(false, true);
    let router = site_router();
    let expected = [
        ("/res/image1", "image/png", "mytype/forimg"),
        ("/res/pdf1", "application/pdf", "mytype/forpdf"),
        ("/res/text1", "text/plain", "mytype/fortext"),
        ("/html", "text/html", "mytype/forhtml"),
    ];
    for (path, good, bogus) in expected {
        let a = get(&router, &right, path);
        let b = get(&router, &wrong, path);
        assert_eq!(content_type(&a), Some(good));
        assert_eq!(content_type(&b), Some(bogus));
        assert_eq!(a.status, b.status);
        assert_eq!(disposition(&a), disposition(&b));
        assert_eq!(a.body, b.body);
    }
    let a = get(&router, &wrong, "/");
    assert_eq!(content_type(&a), Some("text/html"));
}

#[test]
fn download_flag_switches_to_inline() {
    let site = sample_site(true, false);
    let r = get(&site_router(), &site, "/res/image1");
    assert_eq!(disposition(&r), Some(b"inline; filename=\"image.png\"".to_vec()));
    let r = get(&site_router(), &site, "/res/pdf1");
    assert_eq!(disposition(&r), Some(b"inline; filename=\"sample-pdf.pdf\"".to_vec()));
}

#[test]
fn failed_render_gives_server_error() {
    let mut site = sample_site(true, true);
    site.index_page = None;
    let router = site_router();
    for path in ["/", "/html"] {
        let r = get(&router, &site, path);
        assert_eq!(r.status, 500);
        assert!(r.body.is_empty());
        assert!(r.content_type.is_none());
        assert!(r.content_disposition.is_none());
    }
    assert_eq!(get(&router, &site, "/res/text1").status, 200);
}

#[test]
fn empty_router_finds_nothing() {
    let site = sample_site(true, true);
    let router = Router::new();
    assert_eq!(get(&router, &site, "/").status, 404);
    assert_eq!(router.route_for(&String::new()), None);
}

#[test]
fn add_route_overwrites_existing_path() {
    let site = sample_site(true, true);
    let mut router = Router::new();
    router.add_route("res/pdf1".to_string(), Route::Error);
    assert_eq!(get(&router, &site, "/res/pdf1").status, 400);
    router.add_route("res/pdf1".to_string(), Route::Pdf);
    assert_eq!(router.route_for(&"res/pdf1".to_string()), Some(Route::Pdf));
    assert_eq!(get(&router, &site, "/res/pdf1").status, 200);
    assert_eq!(router.route_for(&"res/image1".to_string()), None);
}

#[test]
fn canonical_path_joins_segments() {
    assert_eq!(canonical_path(&vec![]), "");
    assert_eq!(canonical_path(&vec!["".to_string()]), "");
    assert_eq!(canonical_path(&vec!["res".to_string(), "pdf1".to_string()]), "res/pdf1");
    assert_eq!(canonical_path(&vec!["a".to_string(), "".to_string(), "b".to_string()]), "a//b");
}

#[test]
fn serve_error_and_not_found_directly() {
    let site = sample_site(false, false);
    let r = site.serve(Route::Error);
    assert_eq!(r.status, 400);
    assert!(r.body.is_empty());
    let r = not_found();
    assert_eq!(r.status, 404);
    assert!(r.body.is_empty());
}
