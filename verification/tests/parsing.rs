use params_bind::ctype::content_type_matches;
use params_bind::strutil::{eq_ignore_case, parse_bool, parse_i64, parse_u64, split_commas, str_eq};

#[test]
fn parse_i64_accepts_the_integer_grammar() {
    assert_eq!(parse_i64("0"), Some(0));
    assert_eq!(parse_i64("123"), Some(123));
    assert_eq!(parse_i64("-5"), Some(-5));
    assert_eq!(parse_i64("+7"), Some(7));
    assert_eq!(parse_i64("007"), Some(7));
    assert_eq!(parse_i64("9223372036854775807"), Some(i64::MAX));
    assert_eq!(parse_i64("-9223372036854775808"), Some(i64::MIN));
}

#[test]
fn parse_i64_rejects_everything_else() {
    assert_eq!(parse_i64(""), None);
    assert_eq!(parse_i64("+"), None);
    assert_eq!(parse_i64("-"), None);
    assert_eq!(parse_i64("x"), None);
    assert_eq!(parse_i64("12x"), None);
    assert_eq!(parse_i64(" 12"), None);
    assert_eq!(parse_i64("9223372036854775808"), None);
    assert_eq!(parse_i64("-9223372036854775809"), None);
    assert_eq!(parse_i64("1.5"), None);
}

#[test]
fn parse_u64_accepts_and_rejects() {
    assert_eq!(parse_u64("0"), Some(0));
    assert_eq!(parse_u64("+42"), Some(42));
    assert_eq!(parse_u64("18446744073709551615"), Some(u64::MAX));
    assert_eq!(parse_u64("18446744073709551616"), None);
    assert_eq!(parse_u64("-1"), None);
    assert_eq!(parse_u64(""), None);
}

#[test]
fn parse_bool_is_exact() {
    assert_eq!(parse_bool("true"), Some(true));
    assert_eq!(parse_bool("false"), Some(false));
    assert_eq!(parse_bool("True"), None);
    assert_eq!(parse_bool("1"), None);
    assert_eq!(parse_bool(""), None);
}

#[test]
fn split_commas_keeps_every_piece() {
    assert_eq!(split_commas("1,2,x,4"), vec!["1", "2", "x", "4"]);
    assert_eq!(split_commas(""), vec![""]);
    assert_eq!(split_commas("a"), vec!["a"]);
    assert_eq!(split_commas("a,,b"), vec!["a", "", "b"]);
    assert_eq!(split_commas("a,b,"), vec!["a", "b", ""]);
    assert_eq!(split_commas(",x"), vec!["", "x"]);
}

#[test]
fn string_comparisons() {
    assert!(str_eq("abc", "abc"));
    assert!(!str_eq("abc", "abd"));
    assert!(eq_ignore_case("Content-Type", "content-type"));
    assert!(eq_ignore_case("TOKEN", "token"));
    assert!(!eq_ignore_case("token", "tokens"));
    assert!(!eq_ignore_case("a", "b"));
}

fn headers(ct: &str) -> Vec<(String, String)> {
    vec![("content-type".to_string(), ct.to_string())]
}

#[test]
fn content_type_matching() {
    assert!(content_type_matches(&headers("application/json"), "application", "json"));
    assert!(content_type_matches(
        &headers("application/json; charset=utf-8"),
        "application",
        "json"
    ));
    // a +json suffix counts as JSON
    assert!(content_type_matches(&headers("application/hal+json"), "application", "json"));
    assert!(!content_type_matches(&headers("text/plain"), "application", "json"));
    // the media type itself is matched case-insensitively: the parse
    // lowercases the essence
    assert!(content_type_matches(&headers("Application/JSON"), "application", "json"));
    assert!(!content_type_matches(&headers("not a mime"), "application", "json"));
    assert!(content_type_matches(
        &headers("application/x-www-form-urlencoded"),
        "application",
        "x-www-form-urlencoded"
    ));
    // no content-type header at all
    let none: Vec<(String, String)> = vec![];
    assert!(!content_type_matches(&none, "application", "json"));
    // case-insensitive header lookup
    let upper = vec![("Content-Type".to_string(), "application/json".to_string())];
    assert!(content_type_matches(&upper, "application", "json"));
}
