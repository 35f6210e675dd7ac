//! What the headers of a positive response say: the rate limit, the pages
//! of a listing, and the raw headers themselves.
use crate::links::{link_page, page_of_link};
use crate::text::{names_match, parse_u32, same_name, u32_of_text};
use vstd::prelude::*;

verus! {

/// The raw headers of a response: each name with the values sent under it,
/// in the order they came.
///
/// A header map has one entry per name: names are distinct, the case of
/// ASCII letters aside (`distinct_names`). `add_header_line` keeps them so,
/// adding a repeated header's value to the entry it already has. Where a
/// caller builds a map with a repeated name, every lookup reads the first
/// entry of that name.
pub type HttpHeaderType = Vec<(String, Vec<String>)>;

/// Headers as the contracts speak of them: each name with its values, as text.
pub type HeaderModel = Seq<(Seq<char>, Seq<Seq<char>>)>;

/// The values under the header `key`: those of the first entry of that
/// name, the case of ASCII letters aside (header names are case-insensitive).
pub open spec fn header_values(h: HeaderModel, key: Seq<char>) -> Option<Seq<Seq<char>>>
    decreases h.len(),
{
    if h.len() == 0 {
        None
    } else if same_name(h[0].0, key) {
        Some(h[0].1)
    } else {
        header_values(h.drop_first(), key)
    }
}

/// The first value under the header `key`, if there is one.
pub open spec fn first_header_value(h: HeaderModel, key: Seq<char>) -> Option<Seq<char>> {
    match header_values(h, key) {
        Some(vs) => if vs.len() > 0 {
            Some(vs[0])
        } else {
            None
        },
        None => None,
    }
}

/// The number under the header `key`: its first value read as a `u32`, and
/// zero where there is none or it is no such number.
pub open spec fn header_u32(h: HeaderModel, key: Seq<char>) -> u32 {
    match first_header_value(h, key) {
        Some(t) => match u32_of_text(t) {
            Some(n) => n,
            None => 0,
        },
        None => 0,
    }
}

/// The text under the header `key`: its first value, and empty where there
/// is none.
pub open spec fn header_text(h: HeaderModel, key: Seq<char>) -> Seq<char> {
    match first_header_value(h, key) {
        Some(t) => t,
        None => Seq::empty(),
    }
}

/// Finds the first value under the header `key`.
pub fn first_header<'a>(raw_data: &'a HttpHeaderType, key: &str) -> (r: Option<&'a String>)
    ensures
        match r {
            Some(v) => first_header_value(raw_data.deep_view(), key@) == Some(v@),
            None => first_header_value(raw_data.deep_view(), key@) is None,
        },
{
    let ghost h = raw_data.deep_view();
    let mut i: usize = 0;
    assert(h.subrange(0, h.len() as int) =~= h);
    while i < raw_data.len()
        invariant
            i <= raw_data@.len(),
            h == raw_data.deep_view(),
            header_values(h, key@) == header_values(h.subrange(i as int, h.len() as int), key@),
        decreases raw_data.len() - i,
    {
        let ghost rest = h.subrange(i as int, h.len() as int);
        assert(rest.drop_first() =~= h.subrange(i + 1, h.len() as int));
        assert(rest[0] == h[i as int]);
        if names_match(raw_data[i].0.as_str(), key) {
            assert(h[i as int].1 == raw_data@[i as int].1.deep_view());
            if raw_data[i].1.len() > 0 {
                return Some(&raw_data[i].1[0]);
            } else {
                return None;
            }
        }
        i = i + 1;
    }
    None
}

/// Reads the number under the header `key`, as a `u32`; zero where the
/// header is missing or its first value is no such number.
pub fn get_single_header_value(raw_data: &HttpHeaderType, key: &str) -> (r: u32)
    ensures
        r == header_u32(raw_data.deep_view(), key@),
{
    match first_header(raw_data, key) {
        Some(t) => match parse_u32(t.as_str()) {
            Some(n) => n,
            None => 0,
        },
        None => 0,
    }
}

/// Copies raw headers, name for name and value for value.
pub fn copy_headers(raw_data: &HttpHeaderType) -> (r: HttpHeaderType)
    ensures
        r.deep_view() == raw_data.deep_view(),
{
    let mut out: HttpHeaderType = Vec::new();
    let mut i: usize = 0;
    while i < raw_data.len()
        invariant
            i <= raw_data@.len(),
            out@.len() == i,
            forall|j: int| 0 <= j < i ==> (#[trigger] out@[j]).deep_view() == raw_data@[j].deep_view(),
        decreases raw_data.len() - i,
    {
        let values = &raw_data[i].1;
        let mut copied: Vec<String> = Vec::new();
        let mut k: usize = 0;
        while k < values.len()
            invariant
                k <= values@.len(),
                copied@.len() == k,
                forall|j: int| 0 <= j < k ==> (#[trigger] copied@[j])@ == values@[j]@,
            decreases values.len() - k,
        {
            copied.push(values[k].clone());
            k = k + 1;
        }
        assert(copied.deep_view() =~= values.deep_view());
        out.push((raw_data[i].0.clone(), copied));
        i = i + 1;
    }
    assert(out.deep_view() =~= raw_data.deep_view());
    out
}

/// Whether no two entries of `h` have the same name, the case of ASCII
/// letters aside.
pub open spec fn distinct_names(h: HeaderModel) -> bool {
    forall|i: int, j: int| 0 <= i < j < h.len() ==> !same_name(#[trigger] h[i].0, #[trigger] h[j].0)
}

/// Whether `c` is a blank that may surround a header's name or value.
pub open spec fn is_blank(c: char) -> bool {
    c == ' ' || c == '\t' || c == '\r' || c == '\n'
}

/// `s` without the blanks at its start.
pub open spec fn trim_start(s: Seq<char>) -> Seq<char>
    decreases s.len(),
{
    if s.len() > 0 && is_blank(s[0]) {
        trim_start(s.drop_first())
    } else {
        s
    }
}

/// `s` without the blanks at its end.
pub open spec fn trim_end(s: Seq<char>) -> Seq<char>
    decreases s.len(),
{
    if s.len() > 0 && is_blank(s.last()) {
        trim_end(s.drop_last())
    } else {
        s
    }
}

/// `s` without the blanks at either end.
pub open spec fn trimmed(s: Seq<char>) -> Seq<char> {
    trim_end(trim_start(s))
}

/// Whether `i` is the place of the first colon in `s`.
pub open spec fn first_colon(s: Seq<char>, i: int) -> bool {
    &&& 0 <= i < s.len()
    &&& s[i] == ':'
    &&& forall|j: int| 0 <= j < i ==> s[j] != ':'
}

/// What a raw header line holds: the name before its first colon and the
/// value after it, each without surrounding blanks. `None` for a line with
/// no colon, such as the status line or the empty line that ends the headers.
pub open spec fn header_line(line: Seq<char>) -> Option<(Seq<char>, Seq<char>)> {
    if exists|i: int| first_colon(line, i) {
        let i = choose|i: int| first_colon(line, i);
        Some((trimmed(line.subrange(0, i)), trimmed(line.subrange(i + 1, line.len() as int))))
    } else {
        None
    }
}

/// Whether `i` is the place of the first entry named `name` in `h`, the
/// case of ASCII letters aside.
pub open spec fn first_entry(h: HeaderModel, name: Seq<char>, i: int) -> bool {
    &&& 0 <= i < h.len()
    &&& same_name(h[i].0, name)
    &&& forall|j: int| 0 <= j < i ==> !same_name(#[trigger] h[j].0, name)
}

/// The headers `h` with `value` added under `name`: after the values of the
/// first entry of that name, or as a new entry at the end where there is none.
pub open spec fn with_header(h: HeaderModel, name: Seq<char>, value: Seq<char>) -> HeaderModel {
    if exists|i: int| first_entry(h, name, i) {
        let i = choose|i: int| first_entry(h, name, i);
        h.update(i, (h[i].0, h[i].1.push(value)))
    } else {
        h.push((name, seq![value]))
    }
}

/// The part of `s` from `from` on, without blanks at either end.
pub fn trim_range(s: &str, from: usize, to: usize) -> (r: String)
    requires
        from <= to <= s@.len(),
    ensures
        r@ == trimmed(s@.subrange(from as int, to as int)),
{
    let ghost whole = s@.subrange(from as int, to as int);
    let mut a = from;
    assert(s@.subrange(a as int, to as int) =~= whole);
    while a < to && (s.get_char(a) == ' ' || s.get_char(a) == '\t' || s.get_char(a) == '\r' || s.get_char(a) == '\n')
        invariant
            from <= a <= to <= s@.len(),
            trim_start(whole) == trim_start(s@.subrange(a as int, to as int)),
        decreases to - a,
    {
        assert(s@.subrange(a as int, to as int).drop_first() =~= s@.subrange(a + 1, to as int));
        a = a + 1;
    }
    let ghost front = s@.subrange(a as int, to as int);
    assert(trim_start(front) == front);
    let mut b = to;
    assert(s@.subrange(a as int, b as int) =~= front);
    while b > a && (s.get_char(b - 1) == ' ' || s.get_char(b - 1) == '\t' || s.get_char(b - 1) == '\r' || s.get_char(b - 1) == '\n')
        invariant
            a <= b <= to <= s@.len(),
            front == s@.subrange(a as int, to as int),
            trim_end(front) == trim_end(s@.subrange(a as int, b as int)),
        decreases b - a,
    {
        assert(s@.subrange(a as int, b as int).drop_last() =~= s@.subrange(a as int, b - 1));
        b = b - 1;
    }
    String::from_str(s.substring_char(a, b))
}

/// Adds what a raw header line holds to the headers `h`; a line with no
/// colon adds nothing.
pub fn add_header_line(h: &mut HttpHeaderType, line: &str)
    ensures
        match header_line(line@) {
            Some((name, value)) => final(h).deep_view() == with_header(old(h).deep_view(), name, value),
            None => final(h).deep_view() == old(h).deep_view(),
        },
        distinct_names(old(h).deep_view()) ==> distinct_names(final(h).deep_view()),
{
    let n = line.unicode_len();
    let mut c: usize = 0;
    while c < n && line.get_char(c) != ':'
        invariant
            c <= n,
            n == line@.len(),
            forall|j: int| 0 <= j < c ==> line@[j] != ':',
        decreases n - c,
    {
        c = c + 1;
    }
    if c == n {
        assert(!exists|i: int| first_colon(line@, i));
        return;
    }
    assert(first_colon(line@, c as int));
    proof {
        let k = choose|k: int| first_colon(line@, k);
        assert(line@[c as int] == ':');
        assert(k == c) by {
            if k < c {
                assert(line@[k] != ':');
            } else if k > c {
                assert(line@[c as int] != ':');
            }
        }
    }
    let name = trim_range(line, 0, c);
    let value = trim_range(line, c + 1, n);
    let ghost old_h = h.deep_view();
    assert(header_line(line@) == Some((name@, value@)));
    let mut i: usize = 0;
    while i < h.len()
        invariant
            i <= h@.len(),
            old_h == h.deep_view(),
            old_h == old(h).deep_view(),
            header_line(line@) == Some((name@, value@)),
            forall|j: int| 0 <= j < i ==> !same_name(#[trigger] old_h[j].0, name@),
        decreases h.len() - i,
    {
        if names_match(h[i].0.as_str(), name.as_str()) {
            assert(first_entry(old_h, name@, i as int));
            proof {
                let k = choose|k: int| first_entry(old_h, name@, k);
                assert(k == i) by {
                    if k < i {
                        assert(!same_name(old_h[k].0, name@));
                    } else if k > i {
                        assert(!same_name(old_h[i as int].0, name@));
                    }
                }
            }
            let ghost before = h@;
            let mut entry = h.remove(i);
            let ghost old_values = entry.1.deep_view();
            entry.1.push(value);
            assert(entry.1.deep_view() =~= old_values.push(value@));
            h.insert(i, entry);
            let ghost target = old_h.update(i as int, (old_h[i as int].0, old_h[i as int].1.push(value@)));
            assert forall|k: int| 0 <= k < h@.len() implies #[trigger] h.deep_view()[k] == target[k] by {
                if k != i {
                    assert(h@[k] == before[k]);
                }
            }
            assert(h.deep_view() =~= target);
            assert(forall|k: int| 0 <= k < target.len() ==> #[trigger] target[k].0 == old_h[k].0);
            return;
        }
        i = i + 1;
    }
    assert(!exists|k: int| first_entry(old_h, name@, k));
    let mut values: Vec<String> = Vec::new();
    values.push(value);
    assert(values.deep_view() =~= seq![value@]);
    let ghost before = h@;
    h.push((name, values));
    assert forall|k: int| 0 <= k < h@.len() implies #[trigger] h.deep_view()[k] == old_h.push((name@, seq![value@]))[k] by {
        if k < before.len() {
            assert(h@[k] == before[k]);
        }
    }
    assert(h.deep_view() =~= old_h.push((name@, seq![value@])));
}

/// A type whose value is read from the headers of a response.
pub trait Populatable: Sized {
    /// Whether `r` is what the headers `h` say.
    spec fn populated(h: HeaderModel, r: Self) -> bool;

    /// Reads the value from the headers of a response.
    fn populate(raw_header: &HttpHeaderType) -> (r: Self)
        ensures
            Self::populated(raw_header.deep_view(), r),
    ;
}

/// The rate limit of the service, as each response reports it.
#[derive(Debug)]
pub struct Rate {
    /// How many requests the limit allows.
    pub limit: u32,
    /// How many requests remain before the limit is reached.
    pub remaining: u32,
    /// When the limit resets, as the text the service sent.
    pub reset: String,
}

impl Populatable for Rate {
    /// The limit and the remaining count are the numbers under
    /// `x-ratelimit-limit` and `x-ratelimit-remaining`, zero where either is
    /// missing or unreadable; the reset time is the text under
    /// `x-ratelimit-reset`, empty where it is missing.
    open spec fn populated(h: HeaderModel, r: Rate) -> bool {
        &&& r.limit == header_u32(h, "x-ratelimit-limit"@)
        &&& r.remaining == header_u32(h, "x-ratelimit-remaining"@)
        &&& r.reset@ == header_text(h, "x-ratelimit-reset"@)
    }

    fn populate(raw_header: &HttpHeaderType) -> (r: Rate) {
        let reset = match first_header(raw_header, "x-ratelimit-reset") {
            Some(t) => t.clone(),
            None => String::new(),
        };
        Rate {
            limit: get_single_header_value(raw_header, "x-ratelimit-limit"),
            remaining: get_single_header_value(raw_header, "x-ratelimit-remaining"),
            reset,
        }
    }
}

/// A page of a listing that a response links to.
#[derive(Debug, Clone, Copy, PartialEq, Eq, Structural)]
pub struct Page {
    /// The number of the page.
    pub number: u64,
}

/// The page that the `Link` header links to under the relation `rel`, if
/// the header is there and names one.
pub open spec fn linked_page(h: HeaderModel, rel: Seq<char>) -> Option<Page> {
    match first_header_value(h, "link"@) {
        Some(t) => match link_page(t, rel) {
            Some(n) => Some(Page { number: n }),
            None => None,
        },
        None => None,
    }
}

/// Reads the page that the `Link` header links to under the relation `rel`.
pub fn get_linked_page(raw_data: &HttpHeaderType, rel: &str) -> (r: Option<Page>)
    ensures
        r == linked_page(raw_data.deep_view(), rel@),
{
    match first_header(raw_data, "link") {
        Some(t) => match page_of_link(t.as_str(), rel) {
            Some(n) => Some(Page { number: n }),
            None => None,
        },
        None => None,
    }
}

/// What the headers of a positive response say.
#[derive(Debug)]
pub struct Response {
    /// The raw headers.
    pub resp: HttpHeaderType,
    /// The page after this one.
    pub next: Option<Page>,
    /// The last page.
    pub last: Option<Page>,
    /// The first page.
    pub first: Option<Page>,
    /// The page before this one.
    pub prev: Option<Page>,
    /// The rate limit.
    pub rate: Rate,
}

impl Populatable for Response {
    /// The raw headers are kept as they came; the rate limit is read from
    /// them; each page is the one that the `Link` header names under the
    /// relation of the same name, and none where it names none.
    open spec fn populated(h: HeaderModel, r: Response) -> bool {
        &&& r.resp.deep_view() == h
        &&& r.next == linked_page(h, "next"@)
        &&& r.last == linked_page(h, "last"@)
        &&& r.first == linked_page(h, "first"@)
        &&& r.prev == linked_page(h, "prev"@)
        &&& Rate::populated(h, r.rate)
    }

    fn populate(raw_header: &HttpHeaderType) -> (r: Response) {
        Response {
            next: get_linked_page(raw_header, "next"),
            last: get_linked_page(raw_header, "last"),
            first: get_linked_page(raw_header, "first"),
            prev: get_linked_page(raw_header, "prev"),
            rate: Rate::populate(raw_header),
            resp: copy_headers(raw_header),
        }
    }
}

} // verus!
