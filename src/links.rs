//! The pages that a response links to, read from its `Link` header:
//! `<https://api.github.com/events?page=2>; rel="next", <...?page=5>; rel="last"`.
use crate::response::{trim_range, trimmed};
use crate::text::{parse_u64, u64_of_text};
use vstd::prelude::*;

verus! {

/// Whether `pat` occurs in `s` at `k`.
pub open spec fn matches_at(s: Seq<char>, pat: Seq<char>, k: int) -> bool {
    &&& 0 <= k
    &&& k + pat.len() <= s.len()
    &&& s.subrange(k, k + pat.len()) == pat
}

/// The first place at or after `from` where `pat` occurs in `s`.
pub open spec fn first_match_from(s: Seq<char>, pat: Seq<char>, from: int) -> Option<int>
    decreases s.len() + 1 - from,
{
    if from < 0 || from + pat.len() > s.len() {
        None
    } else if matches_at(s, pat, from) {
        Some(from)
    } else {
        first_match_from(s, pat, from + 1)
    }
}

proof fn lemma_first_match_bounds(s: Seq<char>, pat: Seq<char>, from: int)
    ensures
        match first_match_from(s, pat, from) {
            Some(i) => from <= i && matches_at(s, pat, i),
            None => true,
        },
    decreases s.len() + 1 - from,
{
    if !(from < 0 || from + pat.len() > s.len()) && !matches_at(s, pat, from) {
        lemma_first_match_bounds(s, pat, from + 1);
    }
}

fn matches_here(s: &str, pat: &str, k: usize) -> (r: bool)
    ensures
        r == matches_at(s@, pat@, k as int),
{
    let n = s.unicode_len();
    let m = pat.unicode_len();
    if k > n || m > n - k {
        return false;
    }
    let mut j: usize = 0;
    while j < m
        invariant
            j <= m,
            m == pat@.len(),
            n == s@.len(),
            k + m <= n,
            forall|t: int| 0 <= t < j ==> s@[k + t] == #[trigger] pat@[t],
        decreases m - j,
    {
        if s.get_char(k + j) != pat.get_char(j) {
            assert(s@.subrange(k as int, k + m)[j as int] != pat@[j as int]);
            return false;
        }
        j = j + 1;
    }
    assert(s@.subrange(k as int, k + m) =~= pat@);
    true
}

/// Finds the first place at or after `from` where `pat` occurs in `s`.
pub fn find_from(s: &str, pat: &str, from: usize) -> (r: Option<usize>)
    ensures
        match r {
            Some(i) => first_match_from(s@, pat@, from as int) == Some(i as int),
            None => first_match_from(s@, pat@, from as int) is None,
        },
{
    let n = s.unicode_len();
    let m = pat.unicode_len();
    if m > n || from > n - m {
        return None;
    }
    let mut k = from;
    while k <= n - m
        invariant
            from <= k,
            m <= n,
            n == s@.len(),
            m == pat@.len(),
            first_match_from(s@, pat@, from as int) == first_match_from(s@, pat@, k as int),
        decreases n + 1 - k,
    {
        if matches_here(s, pat, k) {
            return Some(k);
        }
        if k == n - m {
            assert(first_match_from(s@, pat@, k + 1) is None);
            return None;
        }
        k = k + 1;
    }
    None
}

/// The place of the `page` parameter's name in a URL: the first `page=` at
/// or after `k` that follows a `?` or a `&`.
pub open spec fn page_param_from(u: Seq<char>, k: int) -> Option<int>
    decreases u.len() - k,
{
    if k < 1 || k + 5 > u.len() {
        None
    } else if matches_at(u, "page="@, k) && (u[k - 1] == '?' || u[k - 1] == '&') {
        Some(k)
    } else {
        page_param_from(u, k + 1)
    }
}

/// The number of the page that a URL names in its `page` parameter: the text
/// after `page=` up to the next `&` (or the end), read as a `u64`.
pub open spec fn url_page(u: Seq<char>) -> Option<u64> {
    match page_param_from(u, 1) {
        Some(k) => {
            let start = k + 5;
            let end = match first_match_from(u, "&"@, start) {
                Some(e) => e,
                None => u.len() as int,
            };
            u64_of_text(u.subrange(start, end))
        },
        None => None,
    }
}

/// The page that one entry of a `Link` header names for the relation `rel`:
/// the entry, without blanks at either end, is a URL in angle brackets
/// followed by parameters that hold `rel="<rel>"`; the page is the URL's
/// `page` parameter.
pub open spec fn entry_page(e: Seq<char>, rel: Seq<char>) -> Option<u64> {
    let t = trimmed(e);
    if t.len() > 0 && t[0] == '<' {
        match first_match_from(t, ">"@, 0) {
            Some(j) => {
                let params = t.subrange(j + 1, t.len() as int);
                let wanted = "rel=\""@ + rel + "\""@;
                if first_match_from(params, wanted, 0) is Some {
                    url_page(t.subrange(1, j))
                } else {
                    None
                }
            },
            None => None,
        }
    } else {
        None
    }
}

/// The page that a `Link` header names for the relation `rel`: the page of
/// the first of its comma-separated entries that names one.
pub open spec fn link_page(s: Seq<char>, rel: Seq<char>) -> Option<u64>
    decreases s.len(),
{
    match first_match_from(s, ","@, 0) {
        Some(i) => if 0 <= i < s.len() {
            match entry_page(s.subrange(0, i), rel) {
                Some(p) => Some(p),
                None => link_page(s.subrange(i + 1, s.len() as int), rel),
            }
        } else {
            None
        },
        None => entry_page(s, rel),
    }
}

fn find_page_param(u: &str) -> (r: Option<usize>)
    ensures
        match r {
            Some(k) => page_param_from(u@, 1) == Some(k as int),
            None => page_param_from(u@, 1) is None,
        },
{
    proof {
        reveal_strlit("page=");
    }
    let n = u.unicode_len();
    if n < 6 {
        return None;
    }
    let mut k: usize = 1;
    while k <= n - 5
        invariant
            1 <= k,
            6 <= n,
            n == u@.len(),
            "page="@.len() == 5,
            page_param_from(u@, 1) == page_param_from(u@, k as int),
        decreases n + 1 - k,
    {
        if matches_here(u, "page=", k) {
            let c = u.get_char(k - 1);
            if c == '?' || c == '&' {
                return Some(k);
            }
        }
        if k == n - 5 {
            assert(page_param_from(u@, k + 1) is None);
            return None;
        }
        k = k + 1;
    }
    None
}

/// Reads the number of the page that a URL names.
pub fn page_of_url(u: &str) -> (r: Option<u64>)
    ensures
        r == url_page(u@),
{
    match find_page_param(u) {
        Some(k) => {
            proof {
                reveal_strlit("&");
                lemma_page_param_bounds(u@, 1);
            }
            let n = u.unicode_len();
            let start = k + 5;
            let end = match find_from(u, "&", start) {
                Some(e) => {
                    proof {
                        lemma_first_match_bounds(u@, "&"@, start as int);
                    }
                    e
                },
                None => n,
            };
            parse_u64(u.substring_char(start, end))
        },
        None => None,
    }
}

proof fn lemma_page_param_bounds(u: Seq<char>, k: int)
    ensures
        match page_param_from(u, k) {
            Some(i) => k <= i && 1 <= i && i + 5 <= u.len(),
            None => true,
        },
    decreases u.len() - k,
{
    if !(k < 1 || k + 5 > u.len()) && !(matches_at(u, "page="@, k) && (u[k - 1] == '?' || u[k - 1] == '&')) {
        lemma_page_param_bounds(u, k + 1);
    }
}

/// Reads the page that one entry of a `Link` header names for `rel`.
pub fn page_of_entry(e: &str, rel: &str) -> (r: Option<u64>)
    ensures
        r == entry_page(e@, rel@),
{
    proof {
        reveal_strlit(">");
    }
    let t = trim_range(e, 0, e.unicode_len());
    assert(e@.subrange(0, e@.len() as int) =~= e@);
    let t = t.as_str();
    let n = t.unicode_len();
    if n == 0 || t.get_char(0) != '<' {
        return None;
    }
    match find_from(t, ">", 0) {
        Some(j) => {
            proof {
                lemma_first_match_bounds(t@, ">"@, 0);
                assert(t@.subrange(j as int, j + 1)[0] == ">"@[0]);
            }
            let params = t.substring_char(j + 1, n);
            let mut wanted = String::from_str("rel=\"");
            wanted.append(rel);
            wanted.append("\"");
            if find_from(params, wanted.as_str(), 0).is_some() {
                page_of_url(t.substring_char(1, j))
            } else {
                None
            }
        },
        None => None,
    }
}

/// Reads the page that a `Link` header names for the relation `rel`.
pub fn page_of_link(s: &str, rel: &str) -> (r: Option<u64>)
    ensures
        r == link_page(s@, rel@),
    decreases s@.len(),
{
    proof {
        reveal_strlit(",");
        lemma_first_match_bounds(s@, ","@, 0);
    }
    let n = s.unicode_len();
    match find_from(s, ",", 0) {
        Some(i) => match page_of_entry(s.substring_char(0, i), rel) {
            Some(p) => Some(p),
            None => page_of_link(s.substring_char(i + 1, n), rel),
        },
        None => page_of_entry(s, rel),
    }
}

} // verus!
