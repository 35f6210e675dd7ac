use github::json::{is_parsable_json, is_shallow_json, MAX_NESTING};
use github::client::{Client, DEFAULT_BASE_URL, DEFAULT_UPLOAD_BASE_URL};
use github::response::{add_header_line, get_single_header_value, HttpHeaderType, Populatable, Rate};
use github::text::{decimal_string, parse_u32, parse_u64, str_eq};

#[test]
fn decimal_parsing() {
    assert_eq!(parse_u32("0"), Some(0));
    assert_eq!(parse_u32("5000"), Some(5000));
    assert_eq!(parse_u32("+17"), Some(17));
    assert_eq!(parse_u32("007"), Some(7));
    assert_eq!(parse_u32("4294967295"), Some(4294967295));
    assert_eq!(parse_u32("4294967296"), None);
    assert_eq!(parse_u32(""), None);
    assert_eq!(parse_u32("+"), None);
    assert_eq!(parse_u32("-1"), None);
    assert_eq!(parse_u32(" 1"), None);
    assert_eq!(parse_u32("1x"), None);
    assert_eq!(parse_u64("18446744073709551615"), Some(u64::MAX));
    assert_eq!(parse_u64("18446744073709551616"), None);
    assert_eq!(parse_u64("99999999999999999999x"), None);
}

#[test]
fn decimal_writing() {
    assert_eq!(decimal_string(0), "0");
    assert_eq!(decimal_string(7), "7");
    assert_eq!(decimal_string(422), "422");
    assert_eq!(decimal_string(u64::MAX), "18446744073709551615");
}

#[test]
fn string_equality() {
    assert!(str_eq("abc", "abc"));
    assert!(!str_eq("abc", "abd"));
    assert!(str_eq("", ""));
}

#[test]
fn header_values() {
    let h: HttpHeaderType = vec![
        ("x-ratelimit-limit".to_string(), vec!["60".to_string(), "70".to_string()]),
        ("x-ratelimit-remaining".to_string(), vec![]),
        ("x-ratelimit-limit".to_string(), vec!["80".to_string()]),
    ];
    assert_eq!(get_single_header_value(&h, "x-ratelimit-limit"), 60);
    assert_eq!(get_single_header_value(&h, "x-ratelimit-remaining"), 0);
    assert_eq!(get_single_header_value(&h, "X-RateLimit-Limit"), 60);
    assert_eq!(get_single_header_value(&h, "x-ratelimit-reset"), 0);
    let r = Rate::populate(&h);
    assert_eq!((r.limit, r.remaining, r.reset.as_str()), (60, 0, ""));
}

#[test]
fn clients() {
    let c = Client::new("glendc");
    assert_eq!(c.user_agent, "glendc");
    assert_eq!(c.base_url, DEFAULT_BASE_URL);
    assert_eq!(c.base_url, "https://api.github.com/");
    assert_eq!(c.upload_url, "https://uploads.github.com/");
    assert_eq!(c.upload_url, DEFAULT_UPLOAD_BASE_URL);
    let d = Client::custom("u", "b", "p");
    assert_eq!((d.user_agent.as_str(), d.base_url.as_str(), d.upload_url.as_str()), ("u", "b", "p"));
}

#[test]
fn header_lines() {
    let mut h: HttpHeaderType = Vec::new();
    for line in [
        "HTTP/1.1 200 OK\r\n",
        "X-RateLimit-Limit: 60\r\n",
        "Link:  <https://api.github.com/events?page=2>; rel=\"next\"\r\n",
        "x-ratelimit-limit:70\r\n",
        "Empty:\r\n",
        "\r\n",
    ] {
        add_header_line(&mut h, line);
    }
    assert_eq!(
        h,
        vec![
            ("X-RateLimit-Limit".to_string(), vec!["60".to_string(), "70".to_string()]),
            ("Link".to_string(), vec!["<https://api.github.com/events?page=2>; rel=\"next\"".to_string()]),
            ("Empty".to_string(), vec!["".to_string()]),
        ]
    );
    assert_eq!(get_single_header_value(&h, "x-ratelimit-limit"), 60);
}

#[test]
fn nesting_bound() {
    let n = MAX_NESTING as usize;
    let ok = format!("{}{}", "[".repeat(n), "]".repeat(n));
    let deep = format!("{}{}", "[".repeat(n + 1), "]".repeat(n + 1));
    assert!(is_shallow_json(ok.as_bytes()));
    assert!(!is_shallow_json(deep.as_bytes()));
    let in_string = format!("[\"{}\"]", "[{".repeat(500));
    assert!(is_shallow_json(in_string.as_bytes()));
    let escaped_quote = format!("[\"\\\"{}\"]", "[".repeat(500));
    assert!(is_shallow_json(escaped_quote.as_bytes()));
    let siblings = "[[]]".repeat(1000);
    assert!(is_shallow_json(siblings.as_bytes()));
    assert!(is_shallow_json(b""));
}

#[test]
fn key_and_exponent_bounds() {
    use_bounds();
}

fn use_bounds() {
    let key_ok = format!("{{\"{}\":1}}", "k".repeat(511));
    let key_long = format!("{{\"{}\":1}}", "k".repeat(512));
    let value_long = format!("{{\"k\":\"{}\"}}", "v".repeat(100_000));
    let key_spaced = format!("{{\"{}\" \n:1}}", "k".repeat(512));
    assert!(is_parsable_json(key_ok.as_bytes()));
    assert!(!is_parsable_json(key_long.as_bytes()));
    assert!(is_parsable_json(value_long.as_bytes()));
    assert!(!is_parsable_json(key_spaced.as_bytes()));
    assert!(is_parsable_json(b"[1e123456789, 2E-5, true, false]"));
    assert!(!is_parsable_json(b"[1e1234567890]"));
    assert!(is_parsable_json(b"[18446744073709551615]"));
    assert!(is_parsable_json(b"[\"1e1234567890\"]"));
}
