use devserver::http::{
    header_complete, is_https_connection, listen_address, locate_file, plan_response, response_bytes,
    request_file, request_is_well_formed,
};

fn file_for(request: &str) -> Option<String> {
    let bytes = request.as_bytes();
    assert!(request_is_well_formed(bytes));
    request_file(bytes).map(|f| f.into_iter().collect())
}

#[test]
fn header_completion() {
    assert!(header_complete(b"GET / HTTP/1.1\r\n\r\n"));
    assert!(header_complete(b"\r\n\r\n"));
    assert!(!header_complete(b"GET / HTTP/1.1\r\n"));
    assert!(!header_complete(b"\n\r\n\r"));
}

#[test]
fn https_detection() {
    assert!(!is_https_connection(b'G', b'E'));
    assert!(!is_https_connection(b'P', b'O'));
    assert!(is_https_connection(0x16, 0x03));
    assert!(is_https_connection(b'G', b' '));
    // Latin-1 letters count as alphabetic, the multiplication sign does not.
    assert!(!is_https_connection(0xe9, 0xc0));
    assert!(is_https_connection(0xd7, b'a'));
}

#[test]
fn listen_addresses() {
    assert_eq!(listen_address("localhost", 8080), "localhost:8080");
    assert_eq!(listen_address("127.0.0.1", 0), "127.0.0.1:0");
    assert_eq!(listen_address("", 4294967295), ":4294967295");
}

#[test]
fn directory_targets_name_index_html() {
    assert_eq!(file_for("GET / HTTP/1.1\r\n\r\n"), Some("index.html".to_string()));
    assert_eq!(file_for("GET /docs/ HTTP/1.1\r\n\r\n"), Some("docs/index.html".to_string()));
    assert_eq!(file_for("GET //a// HTTP/1.1\r\n\r\n"), Some("a//index.html".to_string()));
}

#[test]
fn file_targets_lose_their_slashes() {
    assert_eq!(file_for("GET /style.css HTTP/1.1\r\n\r\n"), Some("style.css".to_string()));
    assert_eq!(file_for("GET /a/b.js HTTP/1.1\r\n\r\n"), Some("a/b.js".to_string()));
}

#[test]
fn escaped_spaces_become_spaces() {
    assert_eq!(
        file_for("GET /my%20page.html HTTP/1.1\r\n\r\n"),
        Some("my page.html".to_string())
    );
    assert_eq!(file_for("GET /%%2020 HTTP/1.1\r\n\r\n"), Some("% 20".to_string()));
}

#[test]
fn empty_request_names_no_file() {
    assert!(request_is_well_formed(b""));
    assert_eq!(request_file(b""), None);
}

#[test]
fn malformed_requests_are_refused() {
    assert!(!request_is_well_formed(b"GET"));
    assert!(!request_is_well_formed(b"GET /"));
    assert!(!request_is_well_formed(&[b'G', b' ', 0xc3, b' ']));
    assert!(request_is_well_formed(b"GET / "));
}

#[test]
fn locating_files() {
    let file = locate_file("/srv", &"a/b.txt".chars().collect::<Vec<char>>());
    assert_eq!(file.path, "/srv/a/b.txt");
    assert_eq!(file.found_extension, Some("txt".to_string()));
    assert_eq!(file.extension, "txt");

    let file = locate_file("/srv", &"page".chars().collect::<Vec<char>>());
    assert_eq!(file.path, "/srv/page.html");
    assert_eq!(file.found_extension, None);
    assert_eq!(file.extension, "html");

    let file = locate_file("/srv/", &"index.html".chars().collect::<Vec<char>>());
    assert_eq!(file.path, "/srv/index.html");
    assert_eq!(file.extension, "html");
}

#[test]
fn ok_response_counts_the_script_for_html() {
    let r = plan_response("html", Some(100), true, 20, "");
    assert!(r.append_script);
    assert_eq!(
        r.head,
        "HTTP/1.1 200 OK\r\nContent-type: text/html; charset=utf8\r\nContent-Length: 120\r\n\r\n"
    );
}

#[test]
fn ok_response_without_script() {
    let r = plan_response("html", Some(100), false, 20, "");
    assert!(!r.append_script);
    assert_eq!(
        r.head,
        "HTTP/1.1 200 OK\r\nContent-type: text/html; charset=utf8\r\nContent-Length: 100\r\n\r\n"
    );
    let r = plan_response("css", Some(0), true, 20, "\r\nX-A: b");
    assert!(!r.append_script);
    assert_eq!(
        r.head,
        "HTTP/1.1 200 OK\r\nContent-type: text/css; charset=utf8\r\nContent-Length: 0\r\nX-A: b\r\n\r\n"
    );
}

#[test]
fn missing_file_is_not_found() {
    let r = plan_response("html", None, true, 20, "\r\nX-A: b");
    assert!(!r.append_script);
    assert_eq!(r.head, "HTTP/1.1 404 NOT FOUND\r\nX-A: b\r\n\r\n");
    let r = plan_response("html", None, true, 20, "");
    assert_eq!(r.head, "HTTP/1.1 404 NOT FOUND\r\n\r\n");
}

#[test]
fn response_bytes_for_html_with_script() {
    let bytes = response_bytes("html", Some(b"<p>hi</p>"), true, b"<s/>", "\r\nAccess-Control-Allow-Origin:*");
    let expected = b"HTTP/1.1 200 OK\r\nContent-type: text/html; charset=utf8\r\nContent-Length: 13\r\nAccess-Control-Allow-Origin:*\r\n\r\n<p>hi</p><s/>";
    assert_eq!(bytes, expected.to_vec());
}

#[test]
fn response_bytes_for_text_and_missing() {
    let bytes = response_bytes("txt", Some(b"abc"), true, b"<s/>", "");
    assert_eq!(
        bytes,
        b"HTTP/1.1 200 OK\r\nContent-type: text/plain; charset=utf8\r\nContent-Length: 3\r\n\r\nabc".to_vec()
    );
    let bytes = response_bytes("html", None, true, b"<s/>", "\r\nX: y");
    assert_eq!(bytes, b"HTTP/1.1 404 NOT FOUND\r\nX: y\r\n\r\n".to_vec());
}

#[test]
fn same_file_whatever_method_and_version() {
    let a = request_file(b"POST /a.txt HTTP/1.0\r\n\r\n");
    let b = request_file(b"GET /a.txt HTTP/1.1\r\n\r\n");
    assert_eq!(a, b);
    let file = locate_file("site", &a.unwrap());
    assert_eq!(file.path, "site/a.txt");
    assert_eq!(file.extension, "txt");
}

#[test]
fn request_to_file_on_disk() {
    let f = |req: &str| {
        let rel = request_file(req.as_bytes()).unwrap();
        let file = locate_file("site", &rel);
        (file.path, file.extension)
    };
    assert_eq!(f("GET / HTTP/1.1\r\n\r\n"), ("site/index.html".to_string(), "html".to_string()));
    assert_eq!(f("GET /docs/ HTTP/1.1\r\n\r\n"), ("site/docs/index.html".to_string(), "html".to_string()));
    assert_eq!(f("GET /about HTTP/1.1\r\n\r\n"), ("site/about.html".to_string(), "html".to_string()));
    assert_eq!(f("GET /my%20file.txt HTTP/1.1\r\n\r\n"), ("site/my file.txt".to_string(), "txt".to_string()));
}
