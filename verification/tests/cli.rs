use devserver::cli::{header_value, parse_args, split_address, Command};
use devserver::http::listen_address;

fn args(list: &[&str]) -> Vec<String> {
    list.iter().map(|s| s.to_string()).collect()
}

fn serve(list: &[&str]) -> (String, String, String, bool) {
    match parse_args(&args(list)) {
        Command::Serve(s) => (s.address, s.path, s.headers, s.reload),
        _ => panic!("expected settings"),
    }
}

#[test]
fn defaults() {
    assert_eq!(
        serve(&[]),
        ("localhost:8080".to_string(), "".to_string(), "".to_string(), true)
    );
}

#[test]
fn flags_are_read_in_order() {
    let (address, path, headers, reload) = serve(&[
        "--address",
        "127.0.0.1:9000",
        "--noreload",
        "--path",
        "site",
        "--header",
        "Access-Control-Allow-Origin=*",
        "--header",
        "X-A: b=c",
    ]);
    assert_eq!(address, "127.0.0.1:9000");
    assert_eq!(path, "site");
    assert_eq!(headers, "\r\nAccess-Control-Allow-Origin:*\r\nX-A: b=c");
    assert!(!reload);
    assert!(serve(&["--norefresh", "--refresh"]).3);
    assert!(serve(&["--noreload", "--reload"]).3);
}

#[test]
fn help_and_unknown_flags() {
    assert!(matches!(parse_args(&args(&["--help", "--bogus"])), Command::Help));
    match parse_args(&args(&["--path", "x", "--bogus", "--help"])) {
        Command::Unrecognized(a) => assert_eq!(a, "--bogus"),
        _ => panic!("expected an unrecognized flag"),
    }
}

#[test]
fn missing_values() {
    assert!(matches!(parse_args(&args(&["--address"])), Command::MissingAddress));
    assert!(matches!(parse_args(&args(&["--path"])), Command::MissingPath));
    assert!(matches!(parse_args(&args(&["--header"])), Command::MissingHeader));
}

#[test]
fn header_values() {
    assert_eq!(header_value("A=b=c").ok(), Some("A:b=c".to_string()));
    assert_eq!(header_value("A: b").ok(), Some("A: b".to_string()));
    assert!(matches!(header_value("Ab"), Err(Command::HeaderWithoutSeparator)));
    assert!(matches!(header_value("A:\r\nB: c"), Err(Command::HeaderNotPlain)));
    assert!(matches!(header_value("A=\u{e9}"), Err(Command::HeaderNotPlain)));
    assert!(matches!(
        parse_args(&args(&["--header", "nothing"])),
        Command::HeaderWithoutSeparator
    ));
}

#[test]
fn addresses_and_ports() {
    assert_eq!(split_address("localhost:8080"), ("localhost".to_string(), Some(8080)));
    assert_eq!(split_address("127.0.0.1:3000"), ("127.0.0.1".to_string(), Some(3000)));
    assert_eq!(split_address("localhost"), ("localhost".to_string(), Some(8080)));
    assert_eq!(split_address("localhost:"), ("localhost".to_string(), None));
    assert_eq!(split_address("localhost:http"), ("localhost".to_string(), None));
    assert_eq!(split_address("localhost:+81"), ("localhost".to_string(), Some(81)));
    assert_eq!(split_address("h:4294967295"), ("h".to_string(), Some(4294967295)));
    assert_eq!(split_address("h:4294967296"), ("h".to_string(), None));
    assert_eq!(split_address("h:1:2"), ("h".to_string(), Some(1)));
}

#[test]
fn listen_address_reads_back() {
    for (host, port) in [("localhost", 8080u32), ("127.0.0.1", 8129), ("", 0), ("h", 4294967295)] {
        let address = listen_address(host, port);
        assert_eq!(split_address(&address), (host.to_string(), Some(port)));
    }
}
