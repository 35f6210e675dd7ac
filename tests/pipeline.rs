use github::activity::events::{list_events, list_my_repo_issue_events, list_organisation_events, list_repo_events};
use github::activity::{EventResponse, IssueEventResponse, IssueEventType};
use github::error::{ClientError, ErrorCode, ErrorStatus};
use github::http::{handle_response, RawResponse, Transport, API_ACCEPT_HEADER};
use github::response::{HttpHeaderType, Response};
use github::Client;
use std::cell::RefCell;

const EVENT: &str = r#"{"type":"PushEvent","public":true,"repo":{"id":3,"name":"octocat/Hello-World","url":"https://api.github.com/repos/octocat/Hello-World"},"actor":{"id":1,"login":"octocat","gravatar_id":"","avatar_url":"https://github.com/images/error/octocat_happy.gif","url":"https://api.github.com/users/octocat"},"org":{"id":1,"login":"github","gravatar_id":"","url":"https://api.github.com/orgs/github","avatar_url":"https://github.com/images/error/octocat_happy.gif"},"created_at":"2011-09-06T17:26:27Z","id":"12345"}"#;

const EVENT_NO_ORG: &str = r#"{"public":false,"repo":{"id":"42","name":"a/b","url":"u"},"actor":{"id":7,"login":"me","gravatar_id":"g","avatar_url":"av","url":"x","html_url":"h","site_admin":true},"created_at":"now","id":"9"}"#;

fn headers(pairs: &[(&str, &str)]) -> HttpHeaderType {
    pairs.iter().map(|(k, v)| (k.to_string(), vec![v.to_string()])).collect()
}

fn rate_headers() -> HttpHeaderType {
    headers(&[
        ("x-ratelimit-limit", "5000"),
        ("x-ratelimit-remaining", "4999"),
        ("x-ratelimit-reset", "1372700873"),
    ])
}

fn events(status: u32, h: &HttpHeaderType, body: &str) -> Result<(Vec<EventResponse>, Response), ClientError> {
    handle_response::<EventResponse>(status, h, body.as_bytes())
}

#[test]
fn positive_response_gives_records_in_order_and_metadata() {
    let body = format!("[{},{}]", EVENT, EVENT_NO_ORG);
    let (recs, meta) = events(200, &rate_headers(), &body).unwrap();
    assert_eq!(recs.len(), 2);
    assert_eq!(recs[0].id, "12345");
    assert!(recs[0].public);
    assert_eq!(recs[0].repo.id, 3);
    assert_eq!(recs[0].repo.name, "octocat/Hello-World");
    assert_eq!(recs[0].actor.login, "octocat");
    assert_eq!(recs[0].actor.html_url, None);
    assert_eq!(recs[0].org.as_ref().unwrap().login, "github");
    assert_eq!(recs[0].created_at, "2011-09-06T17:26:27Z");
    assert_eq!(recs[1].id, "9");
    assert!(!recs[1].public);
    assert_eq!(recs[1].repo.id, 42);
    assert_eq!(recs[1].actor.html_url, Some("h".to_string()));
    assert_eq!(recs[1].actor.site_admin, Some(true));
    assert_eq!(recs[1].org, None);
    assert_eq!(meta.rate.limit, 5000);
    assert_eq!(meta.rate.remaining, 4999);
    assert_eq!(meta.rate.reset, "1372700873");
    assert_eq!(meta.resp, rate_headers());
    assert_eq!(meta.next, None);
}

#[test]
fn named_statuses_are_classified() {
    for (code, want) in [
        (400, ErrorStatus::BadRequest),
        (403, ErrorStatus::Forbidden),
        (422, ErrorStatus::UnprocessableEntity),
    ] {
        match events(code, &rate_headers(), "[]") {
            Err(ClientError::Http(e)) => assert_eq!(e.code, want),
            _ => panic!("expected an HTTP error for {}", code),
        }
    }
}

#[test]
fn other_statuses_are_unknown() {
    for code in [404, 500, 999, 201, 0] {
        match events(code, &rate_headers(), "[]") {
            Err(ClientError::Http(e)) => assert_eq!(e.code, ErrorStatus::Unknown(code)),
            _ => panic!("expected an HTTP error for {}", code),
        }
    }
}

#[test]
fn missing_rate_headers_read_as_zero() {
    let (recs, meta) = events(200, &Vec::new(), &format!("[{}]", EVENT)).unwrap();
    assert_eq!(recs.len(), 1);
    assert_eq!(meta.rate.limit, 0);
    assert_eq!(meta.rate.remaining, 0);
    assert_eq!(meta.rate.reset, "");
}

#[test]
fn unreadable_rate_headers_read_as_zero() {
    let h = headers(&[("x-ratelimit-limit", "lots"), ("x-ratelimit-remaining", "-3")]);
    let (_, meta) = events(200, &h, "[]").unwrap();
    assert_eq!(meta.rate.limit, 0);
    assert_eq!(meta.rate.remaining, 0);
}

#[test]
fn empty_array_is_success() {
    let (recs, meta) = events(200, &rate_headers(), "[]").unwrap();
    assert!(recs.is_empty());
    assert_eq!(meta.rate.limit, 5000);
}

#[test]
fn unparsable_positive_body_is_internal() {
    for body in ["", "not json", "{\"a\":1}", "[1,2]", "[{\"public\":true}]", "[]x"] {
        match events(200, &rate_headers(), body) {
            Err(ClientError::Internal(_)) => {}
            _ => panic!("expected an internal error for {:?}", body),
        }
    }
}

#[test]
fn invalid_utf8_positive_body_is_internal() {
    let r = handle_response::<EventResponse>(200, &rate_headers(), &[0x5b, 0xff, 0x5d]);
    assert!(matches!(r, Err(ClientError::Internal(_))));
}

#[test]
fn unparsable_error_body_gives_no_contexts() {
    for body in ["", "oops", "{\"message\":\"Not Found\"}", "[{\"resource\":1}]"] {
        match events(404, &rate_headers(), body) {
            Err(ClientError::Http(e)) => {
                assert_eq!(e.code, ErrorStatus::Unknown(404));
                assert!(e.errors.is_empty());
            }
            _ => panic!("expected an HTTP error"),
        }
    }
}

#[test]
fn error_body_contexts_are_read() {
    let body = r#"[{"resource":"Issue","field":"title","code":"missing_field"},{"resource":"Label","field":"name","code":"custom"}]"#;
    match events(422, &Vec::new(), body) {
        Err(ClientError::Http(e)) => {
            assert_eq!(e.code, ErrorStatus::UnprocessableEntity);
            assert_eq!(e.errors.len(), 2);
            assert_eq!(e.errors[0].resource, "Issue");
            assert_eq!(e.errors[0].field, "title");
            assert_eq!(e.errors[0].code, ErrorCode::MissingField);
            assert_eq!(e.errors[1].code, ErrorCode::Unknown("custom".to_string()));
            assert_eq!(e.display(), "HTTP Error: status 422: Unprocessable Entity. Found 2 error description(s)!");
        }
        _ => panic!("expected an HTTP error"),
    }
}

#[test]
fn same_answer_read_twice_gives_the_same() {
    let body = format!("[{},{}]", EVENT, EVENT_NO_ORG);
    let (a, ma) = events(200, &rate_headers(), &body).unwrap();
    let (b, mb) = events(200, &rate_headers(), &body).unwrap();
    assert_eq!(a, b);
    assert_eq!(ma.resp, mb.resp);
    assert_eq!(ma.rate.limit, mb.rate.limit);
    assert_eq!(ma.rate.reset, mb.rate.reset);
    assert_eq!((ma.first, ma.prev, ma.next, ma.last), (mb.first, mb.prev, mb.next, mb.last));
}

#[test]
fn issue_events_decode_their_kind() {
    let body = format!(
        r#"[{{"public":true,"repo":{{"id":1,"name":"n","url":"u"}},"actor":{{"id":2,"login":"l","gravatar_id":"","avatar_url":"a","url":"u"}},"org":null,"event":"head_ref_deleted","created_at":"t","commit_id":"c","id":"1"}},{{"public":true,"repo":{{"id":1,"name":"n","url":"u"}},"actor":{{"id":2,"login":"l","gravatar_id":"","avatar_url":"a","url":"u"}},"event":"transferred","created_at":"t","commit_id":"c","id":"2"}}]"#
    );
    let (recs, _) = handle_response::<IssueEventResponse>(200, &Vec::new(), body.as_bytes()).unwrap();
    assert_eq!(recs[0].event, IssueEventType::HeadRefDeleted);
    assert_eq!(recs[0].event.display(), "head reference deleted");
    assert_eq!(recs[1].event, IssueEventType::Unknown("transferred".to_string()));
    assert_eq!(recs[1].org, None);
}

struct Fixture {
    status: u32,
    body: String,
    seen: RefCell<Vec<(String, Vec<(String, String)>)>>,
}

impl Transport for Fixture {
    fn get(&self, url: &str, headers: &Vec<(String, String)>) -> Result<RawResponse, String> {
        self.seen.borrow_mut().push((url.to_string(), headers.clone()));
        Ok(RawResponse { status: self.status, headers: rate_headers(), body: self.body.as_bytes().to_vec() })
    }
}

struct Unreachable;

impl Transport for Unreachable {
    fn get(&self, _url: &str, _headers: &Vec<(String, String)>) -> Result<RawResponse, String> {
        Err("could not resolve host".to_string())
    }
}

fn fixture(status: u32, body: &str) -> Fixture {
    Fixture { status, body: body.to_string(), seen: RefCell::new(Vec::new()) }
}

#[test]
fn listing_requests_its_url_with_fixed_headers() {
    let client = Client::new("octocat");
    let t = fixture(200, &format!("[{}]", EVENT));
    let (recs, meta) = list_events(&client, &t).unwrap();
    assert_eq!(recs[0].id, "12345");
    assert_eq!(meta.rate.remaining, 4999);
    let seen = t.seen.borrow();
    assert_eq!(seen[0].0, "https://api.github.com/events");
    assert_eq!(
        seen[0].1,
        vec![
            ("User-Agent".to_string(), "octocat".to_string()),
            ("Accept".to_string(), API_ACCEPT_HEADER.to_string()),
        ]
    );
}

#[test]
fn listings_build_their_paths() {
    let client = Client::custom("me", "http://example.test/", "http://up.test/");
    let t = fixture(200, "[]");
    list_repo_events(&client, &t, "u", "r").unwrap();
    list_organisation_events(&client, &t, "u", "o").unwrap();
    list_my_repo_issue_events(&client, &t, "r").unwrap();
    let seen = t.seen.borrow();
    assert_eq!(seen[0].0, "http://example.test/repos/u/r/events");
    assert_eq!(seen[1].0, "http://example.test/users/u/events/orgs/o");
    assert_eq!(seen[2].0, "http://example.test/repos/me/r/issues/events");
}

#[test]
fn same_get_twice_gives_the_same() {
    let client = Client::new("octocat");
    let t = fixture(200, &format!("[{}]", EVENT));
    let (a, ma) = list_events(&client, &t).unwrap();
    let (b, mb) = list_events(&client, &t).unwrap();
    assert_eq!(a, b);
    assert_eq!(ma.resp, mb.resp);
    assert_eq!(ma.rate.limit, mb.rate.limit);
}

#[test]
fn failed_exchange_is_internal() {
    let client = Client::new("octocat");
    match list_events(&client, &Unreachable) {
        Err(ClientError::Internal(e)) => {
            assert_eq!(e.msg, "could not resolve host");
            assert_eq!(e.display(), "Internal Error: could not resolve host");
        }
        _ => panic!("expected an internal error"),
    }
}

#[test]
fn negative_listing_is_http_error() {
    let client = Client::new("octocat");
    let t = fixture(404, "{\"message\":\"Not Found\"}");
    match list_events(&client, &t) {
        Err(ClientError::Http(e)) => {
            assert_eq!(e.code, ErrorStatus::Unknown(404));
            assert_eq!(e.errors.len(), 0);
        }
        _ => panic!("expected an HTTP error"),
    }
}

#[test]
fn number_forms_of_ids() {
    let repo = |id: &str| {
        format!(
            r#"[{{"public":true,"repo":{{"id":{},"name":"n","url":"u"}},"actor":{{"id":2,"login":"l","gravatar_id":"","avatar_url":"a","url":"u"}},"created_at":"t","id":"1"}}]"#,
            id
        )
    };
    assert_eq!(events(200, &Vec::new(), &repo("18446744073709551615")).unwrap().0[0].repo.id, u64::MAX);
    assert_eq!(events(200, &Vec::new(), &repo("\"17\"")).unwrap().0[0].repo.id, 17);
    for bad in ["-1", "1.5", "1e3", "null", "true", "\"x\""] {
        assert!(matches!(events(200, &Vec::new(), &repo(bad)), Err(ClientError::Internal(_))), "{}", bad);
    }
}

#[test]
fn object_keys_repeated_keep_the_last() {
    let body = r#"[{"resource":"A","resource":"B","field":"f","code":"invalid"}]"#;
    match events(400, &Vec::new(), body) {
        Err(ClientError::Http(e)) => assert_eq!(e.errors[0].resource, "B"),
        _ => panic!("expected an HTTP error"),
    }
}

#[test]
fn deeply_nested_positive_body_is_internal() {
    let body = "[".repeat(300_000);
    match events(200, &rate_headers(), &body) {
        Err(ClientError::Internal(e)) => assert_eq!(e.msg, github::http::BODY_NOT_JSON),
        _ => panic!("expected an internal error"),
    }
}

#[test]
fn deeply_nested_error_body_gives_no_contexts() {
    let body = format!("{}{}", "[".repeat(300_000), "]".repeat(300_000));
    match events(500, &rate_headers(), &body) {
        Err(ClientError::Http(e)) => {
            assert_eq!(e.code, ErrorStatus::Unknown(500));
            assert!(e.errors.is_empty());
        }
        _ => panic!("expected an HTTP error"),
    }
}

#[test]
fn stable_fixture_differing_rate_counters_agree() {
    let body = format!("[{}]", EVENT);
    let h2 = headers(&[
        ("x-ratelimit-limit", "5000"),
        ("x-ratelimit-remaining", "4998"),
        ("x-ratelimit-reset", "1372700999"),
    ]);
    let (a, ma) = events(200, &rate_headers(), &body).unwrap();
    let (b, mb) = events(200, &h2, &body).unwrap();
    assert_eq!(a, b);
    assert_eq!(ma.rate.limit, mb.rate.limit);
    assert_eq!((ma.first, ma.prev, ma.next, ma.last), (mb.first, mb.prev, mb.next, mb.last));
    assert_eq!(mb.rate.remaining, 4998);
}

#[test]
fn long_nested_keys_are_refused_not_parsed() {
    let inner = format!("{{\"{}\":1}}", "k".repeat(40_000));
    let body = format!("[{{\"{}\":{}}}]", "o".repeat(30_000), inner);
    match events(200, &rate_headers(), &body) {
        Err(ClientError::Internal(e)) => assert_eq!(e.msg, github::http::BODY_NOT_JSON),
        _ => panic!("expected an internal error"),
    }
    match events(422, &rate_headers(), &body) {
        Err(ClientError::Http(e)) => assert!(e.errors.is_empty()),
        _ => panic!("expected an HTTP error"),
    }
}

#[test]
fn long_key_cut_inside_a_character_is_refused() {
    let body = format!("[{{\"{}a\":1}}]", "\u{e9}".repeat(32_769));
    assert!(matches!(events(200, &Vec::new(), &body), Err(ClientError::Internal(_))));
}

#[test]
fn long_exponent_is_refused_not_parsed() {
    for body in ["[1e100000000000000000000]", "[1E+1234567890]"] {
        match events(200, &Vec::new(), body) {
            Err(ClientError::Internal(e)) => assert_eq!(e.msg, github::http::BODY_NOT_JSON),
            _ => panic!("expected an internal error for {}", body),
        }
    }
}

#[test]
fn fixed_transport_answers_every_request_alike() {
    use_fixed_transport();
}

fn use_fixed_transport() {
    let t = github::http::FixedTransport { status: 200, headers: rate_headers(), body: format!("[{}]", EVENT).into_bytes() };
    let client = Client::new("octocat");
    let (a, ma) = list_events(&client, &t).unwrap();
    let (b, mb) = list_repo_events(&client, &t, "u", "r").unwrap();
    assert_eq!(a, b);
    assert_eq!(ma.rate.limit, mb.rate.limit);
    let t404 = github::http::FixedTransport { status: 404, headers: Vec::new(), body: b"{}".to_vec() };
    assert!(matches!(list_events(&client, &t404), Err(ClientError::Http(_))));
}
