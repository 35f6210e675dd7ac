use github::activity::EventResponse;
use github::http::handle_response;
use github::links::{find_from, page_of_entry, page_of_link, page_of_url};
use github::response::{get_linked_page, Page};

const LINK: &str = "<https://api.github.com/events?page=2>; rel=\"next\", <https://api.github.com/events?page=10>; rel=\"last\"";

#[test]
fn link_pages_by_relation() {
    assert_eq!(page_of_link(LINK, "next"), Some(2));
    assert_eq!(page_of_link(LINK, "last"), Some(10));
    assert_eq!(page_of_link(LINK, "prev"), None);
    assert_eq!(page_of_link(LINK, "first"), None);
    assert_eq!(page_of_link("", "next"), None);
    assert_eq!(page_of_link("garbage", "next"), None);
}

#[test]
fn page_parameter_is_not_per_page() {
    assert_eq!(page_of_url("https://x.test/r?per_page=100&page=3"), Some(3));
    assert_eq!(page_of_url("https://x.test/r?page=7&per_page=100"), Some(7));
    assert_eq!(page_of_url("https://x.test/r?per_page=100"), None);
    assert_eq!(page_of_url("https://x.test/r?page=x"), None);
    assert_eq!(page_of_url("page=4"), None);
}

#[test]
fn link_entries() {
    assert_eq!(page_of_entry("  <https://a.test/?page=5>; rel=\"prev\"  ", "prev"), Some(5));
    assert_eq!(page_of_entry("<https://a.test/?page=5>; rel=\"prev\"", "next"), None);
    assert_eq!(page_of_entry("https://a.test/?page=5; rel=\"prev\"", "prev"), None);
}

#[test]
fn finding_text() {
    assert_eq!(find_from("abcabc", "bc", 0), Some(1));
    assert_eq!(find_from("abcabc", "bc", 2), Some(4));
    assert_eq!(find_from("abcabc", "bd", 0), None);
    assert_eq!(find_from("ab", "abc", 0), None);
}

#[test]
fn response_pages_from_headers() {
    let headers = vec![
        ("Link".to_string(), vec![LINK.to_string()]),
        ("x-ratelimit-limit".to_string(), vec!["60".to_string()]),
    ];
    assert_eq!(get_linked_page(&headers, "next"), Some(Page { number: 2 }));
    let (recs, meta) = handle_response::<EventResponse>(200, &headers, b"[]").unwrap();
    assert!(recs.is_empty());
    assert_eq!(meta.next, Some(Page { number: 2 }));
    assert_eq!(meta.last, Some(Page { number: 10 }));
    assert_eq!(meta.prev, None);
    assert_eq!(meta.first, None);
    assert_eq!(meta.rate.limit, 60);
}
