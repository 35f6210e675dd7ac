//! The request pipeline: one GET exchange, and what its answer means.
use crate::error::{
    error_body_contexts, error_status_spec, ClientError, ErrorContext, InternalError, RequestError,
};
use crate::json::{
    is_parsable_json, parse_json, parsed_json, records_from_json, records_spec, parsable_text, FromJson,
};
use crate::response::{copy_headers, header_values, HeaderModel, HttpHeaderType, Populatable, Response};
use crate::text::{folded_code, same_name};
use crate::text::{read_utf8, utf8_text};
use vstd::prelude::*;

verus! {

/// The media type that names the version of the API this library speaks,
/// sent under `Accept`.
pub const API_ACCEPT_HEADER: &'static str = "application/vnd.github.v3+json";

/// The message where a positive response's body is not UTF-8 text.
pub const BODY_NOT_UTF8: &'static str = "the response body is not valid UTF-8";

/// The message where a positive response's body is not one JSON value, or
/// exceeds the parser's limits (`parsable_json`).
pub const BODY_NOT_JSON: &'static str = "the response body is not valid JSON";

/// The message where a positive response's body is JSON but not an array of
/// the records asked for.
pub const BODY_NOT_RECORDS: &'static str = "the response body is not a JSON array of the expected records";

/// The answer to a GET request, as it came.
#[derive(Debug)]
pub struct RawResponse {
    /// The status code.
    pub status: u32,
    /// The headers, each name with its values.
    pub headers: HttpHeaderType,
    /// The body.
    pub body: Vec<u8>,
}

/// A way to make an HTTP GET exchange. Any implementation can carry the
/// requests of this library; it makes no decision of its own.
pub trait Transport {
    /// Whether `r` is an answer that this transport may give to a GET
    /// request for `url` with `headers`, in their order. What a network
    /// answers is up to the network, so by default every answer is admitted;
    /// a transport whose answers are known says which.
    open spec fn answers(&self, url: Seq<char>, headers: Seq<(Seq<char>, Seq<char>)>, r: Result<RawResponse, String>) -> bool {
        true
    }

    /// Sends a GET request for `url` with the `headers` given, in their
    /// order, and returns the answer; `Err`, with a description, where no
    /// answer could be had.
    fn get(&self, url: &str, headers: &Vec<(String, String)>) -> (r: Result<RawResponse, String>)
        ensures
            self.answers(url@, headers.deep_view(), r),
    ;
}

/// A transport that gives the same answer to every request: a stable
/// fixture.
#[derive(Debug)]
pub struct FixedTransport {
    /// The status of the answer.
    pub status: u32,
    /// The headers of the answer.
    pub headers: HttpHeaderType,
    /// The body of the answer.
    pub body: Vec<u8>,
}

impl Transport for FixedTransport {
    open spec fn answers(&self, url: Seq<char>, headers: Seq<(Seq<char>, Seq<char>)>, r: Result<RawResponse, String>) -> bool {
        &&& r is Ok
        &&& r->Ok_0.status == self.status
        &&& r->Ok_0.headers.deep_view() == self.headers.deep_view()
        &&& r->Ok_0.body@ == self.body@
    }

    fn get(&self, url: &str, headers: &Vec<(String, String)>) -> (r: Result<RawResponse, String>) {
        let mut body: Vec<u8> = Vec::new();
        let mut i: usize = 0;
        while i < self.body.len()
            invariant
                i <= self.body@.len(),
                body@ == self.body@.subrange(0, i as int),
            decreases self.body.len() - i,
        {
            body.push(self.body[i]);
            i = i + 1;
        }
        assert(body@ =~= self.body@);
        Ok(RawResponse { status: self.status, headers: copy_headers(&self.headers), body })
    }
}

/// The headers of a request: the user agent, the media type of the API,
/// then the extra headers, in their order.
pub open spec fn request_headers_spec(
    user: Seq<char>,
    opts: Option<Seq<(Seq<char>, Seq<char>)>>,
) -> Seq<(Seq<char>, Seq<char>)> {
    let fixed = seq![("User-Agent"@, user), ("Accept"@, API_ACCEPT_HEADER@)];
    match opts {
        Some(extra) => fixed + extra,
        None => fixed,
    }
}

/// Lists the headers of a request.
pub fn request_headers(user: &str, opts: &Option<Vec<(&str, &str)>>) -> (r: Vec<(String, String)>)
    ensures
        r.deep_view() == request_headers_spec(user@, opts.deep_view()),
{
    let mut r: Vec<(String, String)> = Vec::new();
    r.push((String::from_str("User-Agent"), String::from_str(user)));
    r.push((String::from_str("Accept"), String::from_str(API_ACCEPT_HEADER)));
    let ghost fixed = r.deep_view();
    match opts {
        Some(extra) => {
            let mut i: usize = 0;
            while i < extra.len()
                invariant
                    i <= extra@.len(),
                    r@.len() == 2 + i,
                    fixed.len() == 2,
                    forall|j: int| 0 <= j < 2 ==> (#[trigger] r@[j]).deep_view() == fixed[j],
                    forall|j: int| 0 <= j < i ==> (#[trigger] r@[2 + j]).deep_view() == extra@[j].deep_view(),
                decreases extra.len() - i,
            {
                let (name, value) = extra[i];
                r.push((String::from_str(name), String::from_str(value)));
                i = i + 1;
            }
            assert forall|k: int| 0 <= k < r@.len() implies #[trigger] r.deep_view()[k] == (fixed + extra.deep_view())[k] by {
                if k >= 2 {
                    assert(r@[2 + (k - 2)].deep_view() == extra@[k - 2].deep_view());
                }
            }
            assert(r.deep_view() =~= fixed + extra.deep_view());
        },
        None => {},
    }
    r
}

/// The records that the body of a positive response holds: the body read as
/// UTF-8 text, the text as a JSON array of records. `None` where either step
/// fails.
pub open spec fn body_records<R: FromJson>(body: Seq<u8>) -> Option<Seq<R>> {
    match utf8_text(body) {
        Some(t) => if parsable_text(t) {
            match parsed_json(t) {
                Some(v) => records_spec::<R>(v),
                None => None,
            }
        } else {
            None
        },
        None => None,
    }
}

/// The message of the internal error that a positive response's `body`
/// gives where it holds no records: it names the step that failed.
pub open spec fn body_failure(body: Seq<u8>) -> Seq<char> {
    match utf8_text(body) {
        None => BODY_NOT_UTF8@,
        Some(t) => if !parsable_text(t) {
            BODY_NOT_JSON@
        } else {
            match parsed_json(t) {
                None => BODY_NOT_JSON@,
                Some(_) => BODY_NOT_RECORDS@,
            }
        },
    }
}

/// Whether `r` is what an answer with `status`, headers `h` and `body` means.
/// With status 200 it is the records of the body with what the headers say,
/// or an internal error where the body holds no such records. With any other
/// status it is the HTTP error of that status, with the error contexts of the
/// body.
pub open spec fn response_outcome<R: FromJson>(
    status: u32,
    h: HeaderModel,
    body: Seq<u8>,
    r: Result<(Vec<R>, Response), ClientError>,
) -> bool {
    if status == 200 {
        match body_records::<R>(body) {
            Some(recs) => r is Ok && r->Ok_0.0@ == recs && Response::populated(h, r->Ok_0.1),
            None => match r {
                Err(ClientError::Internal(e)) => e.msg@ == body_failure(body),
                _ => false,
            },
        }
    } else {
        match r {
            Err(ClientError::Http(e)) => {
                &&& e.code == error_status_spec(status)
                &&& e.errors@ == error_body_contexts(body)
            },
            _ => false,
        }
    }
}

/// Whether `r` is what the result `a` of an exchange means: the internal
/// error with the transport's description where the exchange failed, else
/// the meaning of the answer.
pub open spec fn exchange_outcome<R: FromJson>(
    a: Result<RawResponse, String>,
    r: Result<(Vec<R>, Response), ClientError>,
) -> bool {
    match a {
        Err(e) => match r {
            Err(ClientError::Internal(x)) => x.msg@ == e@,
            _ => false,
        },
        Ok(ans) => response_outcome(ans.status, ans.headers.deep_view(), ans.body@, r),
    }
}

/// Whether `r` is what a GET request for `url` with `headers`, made through
/// `transport`, ends in: the meaning of an answer that the transport gives
/// to that request.
pub open spec fn fetched<R: FromJson, T: Transport>(
    transport: T,
    url: Seq<char>,
    headers: Seq<(Seq<char>, Seq<char>)>,
    r: Result<(Vec<R>, Response), ClientError>,
) -> bool {
    exists|a: Result<RawResponse, String>| #[trigger] transport.answers(url, headers, a) && exchange_outcome(a, r)
}

/// Reads the result of an exchange: the transport's failure as an internal
/// error, or the meaning of its answer.
pub fn handle_exchange<R: FromJson>(a: Result<RawResponse, String>) -> (r: Result<(Vec<R>, Response), ClientError>)
    ensures
        exchange_outcome(a, r),
{
    match a {
        Ok(answer) => handle_response(answer.status, &answer.headers, answer.body.as_slice()),
        Err(e) => InternalError::new(e.as_str()),
    }
}

/// Reads the answer to a request: the records of a positive response's
/// body with what its headers say, or the error that the answer means.
pub fn handle_response<R: FromJson>(status: u32, headers: &HttpHeaderType, body: &[u8]) -> (r: Result<(Vec<R>, Response), ClientError>)
    ensures
        response_outcome(status, headers.deep_view(), body@, r),
{
    if crate::error::check_status_code(status) {
        match read_utf8(body) {
            Some(text) => if !is_parsable_json(text.as_bytes()) {
                InternalError::new(BODY_NOT_JSON)
            } else {
                match parse_json(text) {
                    Some(v) => match records_from_json::<R>(&v) {
                        Some(records) => Ok((records, Response::populate(headers))),
                        None => InternalError::new(BODY_NOT_RECORDS),
                    },
                    None => InternalError::new(BODY_NOT_JSON),
                }
            },
            None => InternalError::new(BODY_NOT_UTF8),
        }
    } else {
        RequestError::new(status, body)
    }
}

/// Makes a GET request for `url` as the user agent `user`, with the extra
/// headers `opts`, through `transport`, and reads the answer.
pub fn get<R: FromJson, T: Transport>(
    transport: &T,
    user: &str,
    url: &str,
    opts: Option<Vec<(&str, &str)>>,
) -> (r: Result<(Vec<R>, Response), ClientError>)
    ensures
        fetched(*transport, url@, request_headers_spec(user@, opts.deep_view()), r),
{
    let headers = request_headers(user, &opts);
    let answer = transport.get(url, &headers);
    let ghost a = answer;
    let r = handle_exchange(answer);
    assert(transport.answers(url@, request_headers_spec(user@, opts.deep_view()), a) && exchange_outcome(a, r));
    r
}

/// Two results of reading an answer say the same: the same records and the
/// same headers, rate limit and pages; or the same HTTP error; or the same
/// internal error.
pub open spec fn same_outcome<R>(
    a: Result<(Vec<R>, Response), ClientError>,
    b: Result<(Vec<R>, Response), ClientError>,
) -> bool {
    match (a, b) {
        (Ok(x), Ok(y)) => {
            &&& x.0@ == y.0@
            &&& x.1.resp.deep_view() == y.1.resp.deep_view()
            &&& x.1.rate.limit == y.1.rate.limit
            &&& x.1.rate.remaining == y.1.rate.remaining
            &&& x.1.rate.reset@ == y.1.rate.reset@
            &&& x.1.first == y.1.first
            &&& x.1.prev == y.1.prev
            &&& x.1.next == y.1.next
            &&& x.1.last == y.1.last
        },
        (Err(ClientError::Http(x)), Err(ClientError::Http(y))) => x.code == y.code && x.errors@ == y.errors@,
        (Err(ClientError::Internal(x)), Err(ClientError::Internal(y))) => x.msg@ == y.msg@,
        _ => false,
    }
}

/// Reading the same answer twice gives the same result: records, headers,
/// rate limit and pages, or the same error.
pub proof fn lemma_same_answer_same_outcome<R: FromJson>(
    status: u32,
    h: HeaderModel,
    body: Seq<u8>,
    a: Result<(Vec<R>, Response), ClientError>,
    b: Result<(Vec<R>, Response), ClientError>,
)
    requires
        response_outcome(status, h, body, a),
        response_outcome(status, h, body, b),
    ensures
        same_outcome(a, b),
{
}

/// A positive answer never gives an HTTP error: it gives records, or an
/// internal error where its body holds none.
pub proof fn lemma_positive_answer_is_never_http<R: FromJson>(
    h: HeaderModel,
    body: Seq<u8>,
    r: Result<(Vec<R>, Response), ClientError>,
)
    requires
        response_outcome(200, h, body, r),
    ensures
        r is Ok <==> body_records::<R>(body) is Some,
        !(r matches Err(ClientError::Http(_))),
{
}

/// A negative answer whose body cannot be read as a JSON array of error
/// contexts (it is no UTF-8, exceeds the parser's limits, is no JSON, or is
/// no such array) gives the HTTP error of its status with no contexts.
pub proof fn lemma_unreadable_error_body_gives_no_contexts<R: FromJson>(
    status: u32,
    h: HeaderModel,
    body: Seq<u8>,
    r: Result<(Vec<R>, Response), ClientError>,
)
    requires
        status != 200,
        match utf8_text(body) {
            Some(t) => !parsable_text(t) || match parsed_json(t) {
                Some(v) => records_spec::<ErrorContext>(v) is None,
                None => true,
            },
            None => true,
        },
        response_outcome(status, h, body, r),
    ensures
        match r {
            Err(ClientError::Http(e)) => e.code == error_status_spec(status) && e.errors@.len() == 0,
            _ => false,
        },
{
}

/// A positive answer whose headers have none of the rate-limit entries still
/// gives its records, with a rate limit of zero, zero remaining and an empty
/// reset time.
pub proof fn lemma_missing_rate_headers_read_as_zero<R: FromJson>(
    h: HeaderModel,
    body: Seq<u8>,
    r: Result<(Vec<R>, Response), ClientError>,
)
    requires
        forall|i: int| 0 <= i < h.len() ==> {
            &&& !same_name(#[trigger] h[i].0, "x-ratelimit-limit"@)
            &&& !same_name(h[i].0, "x-ratelimit-remaining"@)
            &&& !same_name(h[i].0, "x-ratelimit-reset"@)
        },
        body_records::<R>(body) is Some,
        response_outcome(200, h, body, r),
    ensures
        r is Ok,
        r->Ok_0.0@ == body_records::<R>(body)->Some_0,
        r->Ok_0.1.rate.limit == 0,
        r->Ok_0.1.rate.remaining == 0,
        r->Ok_0.1.rate.reset@.len() == 0,
{
    lemma_no_entry_no_values(h, "x-ratelimit-limit"@);
    lemma_no_entry_no_values(h, "x-ratelimit-remaining"@);
    lemma_no_entry_no_values(h, "x-ratelimit-reset"@);
}

/// Whether a header name is one of the counters of the rate limit that
/// change from one response to the next: `x-ratelimit-remaining` and
/// `x-ratelimit-reset`.
pub open spec fn is_rate_counter(name: Seq<char>) -> bool {
    same_name(name, "x-ratelimit-remaining"@) || same_name(name, "x-ratelimit-reset"@)
}

/// Whether two header maps agree but for the values of the rate-limit
/// counters: the same names in the same order, and the same values under
/// every other name.
pub open spec fn same_but_rate_counters(h1: HeaderModel, h2: HeaderModel) -> bool {
    &&& h1.len() == h2.len()
    &&& forall|i: int| 0 <= i < h1.len() ==> {
        &&& (#[trigger] h1[i]).0 == h2[i].0
        &&& (h1[i].1 == h2[i].1 || is_rate_counter(h1[i].0))
    }
}

/// Whether two results of reading answers agree but for what the rate-limit
/// counters say: the same records, raw headers that differ at most in those
/// counters, the same limit and pages; or the same HTTP error; or the same
/// internal error.
pub open spec fn agree_but_rate_counters<R>(
    a: Result<(Vec<R>, Response), ClientError>,
    b: Result<(Vec<R>, Response), ClientError>,
) -> bool {
    match (a, b) {
        (Ok(x), Ok(y)) => {
            &&& x.0@ == y.0@
            &&& same_but_rate_counters(x.1.resp.deep_view(), y.1.resp.deep_view())
            &&& x.1.rate.limit == y.1.rate.limit
            &&& x.1.first == y.1.first
            &&& x.1.prev == y.1.prev
            &&& x.1.next == y.1.next
            &&& x.1.last == y.1.last
        },
        (Err(ClientError::Http(x)), Err(ClientError::Http(y))) => x.code == y.code && x.errors@ == y.errors@,
        (Err(ClientError::Internal(x)), Err(ClientError::Internal(y))) => x.msg@ == y.msg@,
        _ => false,
    }
}

/// The same request answered twice by a stable service gives agreeing
/// results: where the two answers have the same status and body, and headers
/// that differ at most in the values of `x-ratelimit-remaining` and
/// `x-ratelimit-reset`, both give the same records with the same limit and
/// pages, or both the same error.
pub proof fn lemma_stable_answers_agree<R: FromJson>(
    status: u32,
    h1: HeaderModel,
    h2: HeaderModel,
    body: Seq<u8>,
    a: Result<(Vec<R>, Response), ClientError>,
    b: Result<(Vec<R>, Response), ClientError>,
)
    requires
        same_but_rate_counters(h1, h2),
        response_outcome(status, h1, body, a),
        response_outcome(status, h2, body, b),
    ensures
        agree_but_rate_counters(a, b),
{
    reveal_strlit("x-ratelimit-limit");
    reveal_strlit("x-ratelimit-remaining");
    reveal_strlit("x-ratelimit-reset");
    reveal_strlit("link");
    assert("x-ratelimit-limit"@.len() == 17);
    assert("x-ratelimit-remaining"@.len() == 21);
    assert("x-ratelimit-reset"@.len() == 17);
    assert("link"@.len() == 4);
    assert(folded_code("x-ratelimit-limit"@[12]) != folded_code("x-ratelimit-reset"@[12]));
    lemma_other_values_agree(h1, h2, "x-ratelimit-limit"@);
    lemma_other_values_agree(h1, h2, "link"@);
}

proof fn lemma_same_name_trans(a: Seq<char>, b: Seq<char>, c: Seq<char>)
    requires
        same_name(a, b),
        same_name(a, c),
    ensures
        same_name(b, c),
{
    assert forall|i: int| 0 <= i < b.len() implies folded_code(#[trigger] b[i]) == folded_code(c[i]) by {
        assert(folded_code(a[i]) == folded_code(b[i]));
        assert(folded_code(a[i]) == folded_code(c[i]));
    }
}

proof fn lemma_other_values_agree(h1: HeaderModel, h2: HeaderModel, key: Seq<char>)
    requires
        same_but_rate_counters(h1, h2),
        !is_rate_counter(key),
    ensures
        header_values(h1, key) == header_values(h2, key),
    decreases h1.len(),
{
    if h1.len() > 0 {
        assert(h1[0].0 == h2[0].0);
        if same_name(h1[0].0, key) {
            if same_name(h1[0].0, "x-ratelimit-remaining"@) {
                lemma_same_name_trans(h1[0].0, key, "x-ratelimit-remaining"@);
            }
            if same_name(h1[0].0, "x-ratelimit-reset"@) {
                lemma_same_name_trans(h1[0].0, key, "x-ratelimit-reset"@);
            }
        } else {
            assert forall|i: int| 0 <= i < h1.drop_first().len() implies {
                &&& (#[trigger] h1.drop_first()[i]).0 == h2.drop_first()[i].0
                &&& (h1.drop_first()[i].1 == h2.drop_first()[i].1 || is_rate_counter(h1.drop_first()[i].0))
            } by {
                assert(h1.drop_first()[i] == h1[i + 1]);
                assert(h2.drop_first()[i] == h2[i + 1]);
            }
            lemma_other_values_agree(h1.drop_first(), h2.drop_first(), key);
        }
    }
}

proof fn lemma_no_entry_no_values(h: HeaderModel, key: Seq<char>)
    requires
        forall|i: int| 0 <= i < h.len() ==> !same_name(#[trigger] h[i].0, key),
    ensures
        header_values(h, key) is None,
    decreases h.len(),
{
    if h.len() > 0 {
        assert(!same_name(h[0].0, key));
        assert forall|i: int| 0 <= i < h.drop_first().len() implies !same_name(#[trigger] h.drop_first()[i].0, key) by {
            assert(h.drop_first()[i] == h[i + 1]);
        }
        lemma_no_entry_no_values(h.drop_first(), key);
    }
}

} // verus!
