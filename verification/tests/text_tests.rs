use ilo_toki::session::parse_session_record;
use ilo_toki::text::{parse_i64_chars, parse_u64_chars, replace_char};

fn chars(s: &str) -> Vec<char> {
    s.chars().collect()
}

#[test]
fn parse_u64_plain() {
    assert_eq!(parse_u64_chars(&chars("0")), Some(0));
    assert_eq!(parse_u64_chars(&chars("42")), Some(42));
    assert_eq!(parse_u64_chars(&chars("007")), Some(7));
    assert_eq!(parse_u64_chars(&chars("18446744073709551615")), Some(u64::MAX));
}

#[test]
fn parse_u64_rejects() {
    assert_eq!(parse_u64_chars(&chars("")), None);
    assert_eq!(parse_u64_chars(&chars("+")), None);
    assert_eq!(parse_u64_chars(&chars("-1")), None);
    assert_eq!(parse_u64_chars(&chars("4a2")), None);
    assert_eq!(parse_u64_chars(&chars("18446744073709551616")), None);
    assert_eq!(parse_u64_chars(&chars(" 3")), None);
}

#[test]
fn parse_u64_plus_sign() {
    assert_eq!(parse_u64_chars(&chars("+9")), Some(9));
}

#[test]
fn parse_i64_values() {
    assert_eq!(parse_i64_chars(&chars("0")), Some(0));
    assert_eq!(parse_i64_chars(&chars("-17")), Some(-17));
    assert_eq!(parse_i64_chars(&chars("+17")), Some(17));
    assert_eq!(parse_i64_chars(&chars("9223372036854775807")), Some(i64::MAX));
    assert_eq!(parse_i64_chars(&chars("-9223372036854775808")), Some(i64::MIN));
}

#[test]
fn parse_i64_rejects() {
    assert_eq!(parse_i64_chars(&chars("")), None);
    assert_eq!(parse_i64_chars(&chars("-")), None);
    assert_eq!(parse_i64_chars(&chars("12x")), None);
    assert_eq!(parse_i64_chars(&chars("9223372036854775808")), None);
    assert_eq!(parse_i64_chars(&chars("-9223372036854775809")), None);
}

#[test]
fn replace_char_replaces_all() {
    assert_eq!(replace_char(&chars("new-pass-word"), '-', ' '), chars("new pass word"));
    assert_eq!(replace_char(&chars("no dash"), '-', ' '), chars("no dash"));
    assert_eq!(replace_char(&chars(""), '-', ' '), chars(""));
}

#[test]
fn session_record_roundtrip() {
    let rec = parse_session_record(&chars("https://example.org:2289\ntok123\n77\n")).unwrap();
    assert_eq!(rec.homeserver, chars("https://example.org:2289"));
    assert_eq!(rec.token, chars("tok123"));
    assert_eq!(rec.user_id, 77);
}

#[test]
fn session_record_without_trailing_newline() {
    let rec = parse_session_record(&chars("host\nt\n5")).unwrap();
    assert_eq!(rec.homeserver, chars("host"));
    assert_eq!(rec.token, chars("t"));
    assert_eq!(rec.user_id, 5);
}

#[test]
fn session_record_incomplete() {
    assert!(parse_session_record(&chars("host")).is_none());
    assert!(parse_session_record(&chars("host\ntoken")).is_none());
    assert!(parse_session_record(&chars("host\ntoken\nnot-a-number\n")).is_none());
    assert!(parse_session_record(&chars("")).is_none());
}
