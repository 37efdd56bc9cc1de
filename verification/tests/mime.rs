use devserver::mime::extension_to_mime_impl;

#[test]
fn html_is_served_as_html() {
    assert_eq!(extension_to_mime_impl(Some("html")), "text/html; charset=utf8");
    assert_eq!(extension_to_mime_impl(Some("htm")), "text/html; charset=utf8");
}

#[test]
fn common_web_types() {
    assert_eq!(extension_to_mime_impl(Some("css")), "text/css; charset=utf8");
    assert_eq!(extension_to_mime_impl(Some("js")), "application/javascript");
    assert_eq!(extension_to_mime_impl(Some("json")), "application/json");
    assert_eq!(extension_to_mime_impl(Some("png")), "image/png");
    assert_eq!(extension_to_mime_impl(Some("jpg")), "image/jpeg");
    assert_eq!(extension_to_mime_impl(Some("svg")), "image/svg+xml");
    assert_eq!(extension_to_mime_impl(Some("wasm")), "application/wasm");
}

#[test]
fn first_and_last_entries() {
    assert_eq!(extension_to_mime_impl(Some("323")), "text/h323; charset=utf8");
    assert_eq!(extension_to_mime_impl(Some("zip")), "application/zip");
}

#[test]
fn entries_with_dots_and_case() {
    assert_eq!(extension_to_mime_impl(Some("dll.config")), "application/xml");
    assert_eq!(extension_to_mime_impl(Some("dtsConfig")), "application/xml");
    assert_eq!(extension_to_mime_impl(Some("filters")), "Application/xml");
}

#[test]
fn unknown_or_missing_extension_is_octet_stream() {
    assert_eq!(extension_to_mime_impl(None), "application/octet-stream");
    assert_eq!(extension_to_mime_impl(Some("")), "application/octet-stream");
    assert_eq!(extension_to_mime_impl(Some("HTML")), "application/octet-stream");
    assert_eq!(extension_to_mime_impl(Some("nosuchext")), "application/octet-stream");
}

#[test]
fn mime_types_fit_a_header_line() {
    for ext in ["html", "css", "323", "zip", "filters", "dll.config", "docx", "nosuchext"] {
        let m = extension_to_mime_impl(Some(ext));
        assert!(!m.is_empty() && m.is_ascii() && m.contains('/'));
        assert!(!m.contains('\r') && !m.contains('\n'));
    }
}
