use fetchquest::headers::{build_headers, parse_header, Header};
use fetchquest::text::{trimmed_range, white_space};

fn pair(h: &Header) -> (&str, &str) {
    (h.name.as_str(), h.value.as_str())
}

#[test]
fn header_without_colon_is_dropped() {
    assert!(parse_header("NoColonHere").is_none());
    assert!(parse_header("").is_none());
    let raws = vec!["Garbage".to_string(), "X-A: 1".to_string(), "also garbage".to_string()];
    let hs = build_headers(&None, &raws, &None);
    assert_eq!(hs.len(), 1);
    assert_eq!(pair(&hs[0]), ("X-A", "1"));
}

#[test]
fn header_with_extra_colons_keeps_them_in_value() {
    let h = parse_header("X-Time: 10:30:00").unwrap();
    assert_eq!(pair(&h), ("X-Time", "10:30:00"));
}

#[test]
fn header_parts_are_trimmed() {
    let h = parse_header("  X-Pad \t:\t  padded value  ").unwrap();
    assert_eq!(pair(&h), ("X-Pad", "padded value"));
}

#[test]
fn header_with_empty_name_or_value_is_dropped() {
    assert!(parse_header(": value").is_none());
    assert!(parse_header("   : value").is_none());
    assert!(parse_header("X-Empty:").is_none());
    assert!(parse_header("X-Empty:   ").is_none());
}

#[test]
fn headers_keep_order_and_duplicates() {
    let raws = vec!["X-A: 1".to_string(), "X-A: 2".to_string(), "X-B:3".to_string()];
    let hs = build_headers(&Some("k=v".to_string()), &raws, &None);
    let got: Vec<(&str, &str)> = hs.iter().map(pair).collect();
    assert_eq!(got, vec![("Cookie", "k=v"), ("X-A", "1"), ("X-A", "2"), ("X-B", "3")]);
}

#[test]
fn bearer_token_added_beside_manual_authorization() {
    let raws = vec!["Authorization: Basic abc".to_string()];
    let hs = build_headers(&None, &raws, &Some("T0K3N".to_string()));
    let got: Vec<(&str, &str)> = hs.iter().map(pair).collect();
    assert_eq!(got, vec![("Authorization", "Basic abc"), ("Authorization", "Bearer T0K3N")]);
}

#[test]
fn no_headers_from_nothing() {
    let hs = build_headers(&None, &Vec::new(), &None);
    assert!(hs.is_empty());
}

#[test]
fn unicode_white_space_is_trimmed() {
    assert!(white_space(' '));
    assert!(white_space('\t'));
    assert!(white_space('\u{3000}'));
    assert!(white_space('\u{a0}'));
    assert!(!white_space('x'));
    assert!(!white_space('\u{200b}'));
    let s = "\u{3000} ab c \u{2003}";
    assert_eq!(trimmed_range(s, 0, 7), "ab c");
    assert_eq!(trimmed_range(s, 2, 4), "ab");
    assert_eq!(trimmed_range(s, 0, 1), "");
}
