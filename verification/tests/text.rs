use devserver::text::{
    chars_of, decimal_chars, parse_u32, replace_chars, replace_first_char, same_chars, same_text,
    split_chars, trim_chars, Strip,
};

fn c(s: &str) -> Vec<char> {
    s.chars().collect()
}

fn s(v: &[char]) -> String {
    v.iter().collect()
}

#[test]
fn splitting() {
    let parts = split_chars(&c("a:b::c:"), &[':']);
    let parts: Vec<String> = parts.iter().map(|p| s(p)).collect();
    assert_eq!(parts, vec!["a", "b", "", "c", ""]);
    let parts = split_chars(&c("x\r\r\ny\r\n"), &['\r', '\n']);
    let parts: Vec<String> = parts.iter().map(|p| s(p)).collect();
    assert_eq!(parts, vec!["x\r", "y", ""]);
    assert_eq!(split_chars(&[], &[' ']).len(), 1);
}

#[test]
fn trimming() {
    assert_eq!(s(&trim_chars(&c(" \t a b \u{3000}\n"), Strip::WhiteSpace, true)), "a b");
    assert_eq!(s(&trim_chars(&c("//a/b//"), Strip::Char('/'), true)), "a/b");
    assert_eq!(s(&trim_chars(&c("//a/b//"), Strip::Char('/'), false)), "a/b//");
    assert_eq!(s(&trim_chars(&c("///"), Strip::Char('/'), true)), "");
}

#[test]
fn replacing() {
    assert_eq!(s(&replace_chars(&c("a%20b%20"), &c("%20"), &c(" "))), "a b ");
    assert_eq!(s(&replace_first_char(&c("a=b=c"), '=', ':')), "a:b=c");
}

#[test]
fn comparing() {
    assert!(same_text("é", "é"));
    assert!(!same_text("é", "e"));
    assert!(same_chars(&c("ab"), &c("ab")));
    assert!(!same_chars(&c("ab"), &c("abc")));
    assert_eq!(chars_of("añb"), c("añb"));
}

#[test]
fn decimal_round_trip() {
    for n in [0u32, 7, 10, 8080, 8129, 65535, 4294967295] {
        let digits = decimal_chars(n as u64);
        assert_eq!(s(&digits), n.to_string());
        assert_eq!(parse_u32(&digits), Some(n));
    }
    assert_eq!(parse_u32(&c("")), None);
    assert_eq!(parse_u32(&c("+")), None);
    assert_eq!(parse_u32(&c("-1")), None);
    assert_eq!(parse_u32(&c("007")), Some(7));
}
