use rest_auth::error::APIError;
use rest_auth::token::parse_token;

fn ok(t: &str) -> (u64, String, String) {
    parse_token(t).expect("token should parse")
}

#[test]
fn parses_issued_token() {
    assert_eq!(ok("user-1.exp.sign"), (1, "exp".to_string(), "sign".to_string()));
}

#[test]
fn garbage_token_is_wrong_format() {
    assert_eq!(parse_token("garbage"), Err(APIError::AuthFailTokenWrongFormat));
}

#[test]
fn rejects_malformed_tokens() {
    for t in [
        "",
        "user",
        "user-",
        "user-.a.b",
        "user-12.a",
        "user-12.a.",
        "user-1..b",
        "user-x1.a.b",
        "xuser-1.a.b",
        "User-1.a.b",
        "user-1.\na.b",
        "user-1.a\n.b",
        "user-\u{0661}.a.b",
        "user-1\u{0661}.a.b",
    ] {
        assert_eq!(parse_token(t), Err(APIError::AuthFailTokenWrongFormat), "{t:?}");
    }
}

#[test]
fn expiry_takes_the_longest_run() {
    assert_eq!(ok("user-7.a.b.c"), (7, "a.b".to_string(), "c".to_string()));
    assert_eq!(ok("user-7.a.b."), (7, "a".to_string(), "b.".to_string()));
    assert_eq!(ok("user-7...b"), (7, ".".to_string(), "b".to_string()));
}

#[test]
fn stops_at_first_line() {
    assert_eq!(ok("user-3.a.b\nrest.of.text"), (3, "a".to_string(), "b".to_string()));
}

#[test]
fn user_id_bounds() {
    assert_eq!(ok("user-18446744073709551615.e.s").0, u64::MAX);
    assert_eq!(
        parse_token("user-18446744073709551616.e.s"),
        Err(APIError::AuthFailTokenWrongFormat)
    );
    assert_eq!(ok("user-007.e.s").0, 7);
}

#[test]
fn keeps_non_ascii_parts() {
    assert_eq!(ok("user-42.é.ü"), (42, "é".to_string(), "ü".to_string()));
}
