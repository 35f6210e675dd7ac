//! The errors that a request can end in, and how a negative response is
//! classified.
use crate::json::{field_spec, member_spec, is_parsable_json, parsable_text, parse_json, parsed_json, records_from_json, records_spec, string_field, string_spec, FromJson, JsonValue};
use crate::text::{decimal_string, decimal_text, read_utf8, str_eq, utf8_text};
use vstd::prelude::*;

verus! {

/// The reason that the service gives for one error on a field.
#[derive(Debug, Clone, PartialEq, Eq)]
pub enum ErrorCode {
    /// This means a resource does not exist.
    Missing,
    /// This means a required field on a resource has not been set.
    MissingField,
    /// This means the formatting of a field is invalid; the documentation
    /// of that resource tells more.
    Invalid,
    /// This means another resource has the same value as this field, which
    /// happens where a resource must have a unique key (such as a label's name).
    AlreadyExists,
    /// A reason that the library does not know, with the name the service
    /// gave it.
    Unknown(String),
}

/// The known reason that the service names `name`; `None` for a name the
/// library does not know.
pub open spec fn known_error_code(name: Seq<char>) -> Option<ErrorCode> {
    if name == "missing"@ {
        Some(ErrorCode::Missing)
    } else if name == "missing_field"@ {
        Some(ErrorCode::MissingField)
    } else if name == "invalid"@ {
        Some(ErrorCode::Invalid)
    } else if name == "already_exists"@ {
        Some(ErrorCode::AlreadyExists)
    } else {
        None
    }
}

/// The name under which the service sends a reason.
pub open spec fn error_code_name(c: ErrorCode) -> Seq<char> {
    match c {
        ErrorCode::Missing => "missing"@,
        ErrorCode::MissingField => "missing_field"@,
        ErrorCode::Invalid => "invalid"@,
        ErrorCode::AlreadyExists => "already_exists"@,
        ErrorCode::Unknown(s) => s@,
    }
}

/// The words that describe a reason.
pub open spec fn error_code_text(c: ErrorCode) -> Seq<char> {
    match c {
        ErrorCode::Missing => "resource does not exist"@,
        ErrorCode::MissingField => "required field on the resource has not been set"@,
        ErrorCode::Invalid => "the formatting of the field is invalid"@,
        ErrorCode::AlreadyExists => "another resource has the same value as this field"@,
        ErrorCode::Unknown(s) => s@,
    }
}

/// A reason as decoding leaves it: `Unknown` never holds the name of a known
/// reason.
pub open spec fn error_code_wf(c: ErrorCode) -> bool {
    match c {
        ErrorCode::Unknown(s) => known_error_code(s@) is None,
        _ => true,
    }
}

/// Two reasons are the same: the same variant, and for `Unknown` the same name.
pub open spec fn same_error_code(a: ErrorCode, b: ErrorCode) -> bool {
    match (a, b) {
        (ErrorCode::Unknown(x), ErrorCode::Unknown(y)) => x@ == y@,
        (ErrorCode::Unknown(_), _) => false,
        (_, ErrorCode::Unknown(_)) => false,
        _ => a == b,
    }
}

fn known_error_code_named(name: &str) -> (r: Option<ErrorCode>)
    ensures
        r == known_error_code(name@),
{
    if str_eq(name, "missing") {
        Some(ErrorCode::Missing)
    } else if str_eq(name, "missing_field") {
        Some(ErrorCode::MissingField)
    } else if str_eq(name, "invalid") {
        Some(ErrorCode::Invalid)
    } else if str_eq(name, "already_exists") {
        Some(ErrorCode::AlreadyExists)
    } else {
        None
    }
}

impl ErrorCode {
    /// The reason that the service names `name`; a name that the library
    /// does not know is kept in `Unknown`.
    pub fn from_name(name: &str) -> (r: ErrorCode)
        ensures
            match known_error_code(name@) {
                Some(k) => r == k,
                None => r is Unknown && r->Unknown_0@ == name@,
            },
            error_code_wf(r),
    {
        match known_error_code_named(name) {
            Some(k) => k,
            None => ErrorCode::Unknown(String::from_str(name)),
        }
    }

    /// The name under which the service sends this reason.
    pub fn name(&self) -> (r: String)
        ensures
            r@ == error_code_name(*self),
    {
        match self {
            ErrorCode::Missing => String::from_str("missing"),
            ErrorCode::MissingField => String::from_str("missing_field"),
            ErrorCode::Invalid => String::from_str("invalid"),
            ErrorCode::AlreadyExists => String::from_str("already_exists"),
            ErrorCode::Unknown(s) => s.clone(),
        }
    }

    /// Describes the reason in words.
    pub fn display(&self) -> (r: String)
        ensures
            r@ == error_code_text(*self),
    {
        match self {
            ErrorCode::Missing => String::from_str("resource does not exist"),
            ErrorCode::MissingField => String::from_str("required field on the resource has not been set"),
            ErrorCode::Invalid => String::from_str("the formatting of the field is invalid"),
            ErrorCode::AlreadyExists => String::from_str("another resource has the same value as this field"),
            ErrorCode::Unknown(s) => s.clone(),
        }
    }
}

impl FromJson for ErrorCode {
    /// A reason is read from a JSON string that names it.
    open spec fn decoded(v: JsonValue) -> Option<ErrorCode> {
        match v {
            JsonValue::Str(s) => match known_error_code(s@) {
                Some(k) => Some(k),
                None => Some(ErrorCode::Unknown(s)),
            },
            _ => None,
        }
    }

    fn from_json(v: &JsonValue) -> (r: Option<ErrorCode>) {
        match v {
            JsonValue::Str(s) => match known_error_code_named(s.as_str()) {
                Some(k) => Some(k),
                None => Some(ErrorCode::Unknown(s.clone())),
            },
            _ => None,
        }
    }
}
/// One error on a field of a resource, as a negative response describes it.
#[derive(Debug, Clone, PartialEq, Eq)]
pub struct ErrorContext {
    pub resource: String,
    pub field: String,
    pub code: ErrorCode,
}

impl FromJson for ErrorContext {
    open spec fn decoded(v: JsonValue) -> Option<ErrorContext> {
        match v {
            JsonValue::Object(m) => {
                let resource = string_spec(field_spec(m@, "resource"@));
                let field = string_spec(field_spec(m@, "field"@));
                let code = ErrorCode::decoded(field_spec(m@, "code"@));
                if resource is Some && field is Some && code is Some {
                    Some(ErrorContext {
                        resource: resource->Some_0,
                        field: field->Some_0,
                        code: code->Some_0,
                    })
                } else {
                    None
                }
            },
            _ => None,
        }
    }

    fn from_json(v: &JsonValue) -> (r: Option<ErrorContext>) {
        match v {
            JsonValue::Object(m) => {
                let resource = match string_field(m, "resource") {
                    Some(x) => x,
                    None => return None,
                };
                let field = match string_field(m, "field") {
                    Some(x) => x,
                    None => return None,
                };
                let code = match crate::json::record_field::<ErrorCode>(m, "code") {
                    Some(x) => x,
                    None => return None,
                };
                Some(ErrorContext { resource, field, code })
            },
            _ => None,
        }
    }
}

/// Whether `v` is a JSON string that holds the text `t`.
pub open spec fn holds_text(v: JsonValue, t: Seq<char>) -> bool {
    v is Str && v->Str_0@ == t
}

/// Whether `v` is the JSON object that describes `c` in an error body: its
/// `resource`, `field` and `code` members hold the context's texts.
pub open spec fn encodes_error_context(v: JsonValue, c: ErrorContext) -> bool {
    &&& v is Object
    &&& holds_text(field_spec(v->Object_0@, "resource"@), c.resource@)
    &&& holds_text(field_spec(v->Object_0@, "field"@), c.field@)
    &&& holds_text(field_spec(v->Object_0@, "code"@), error_code_name(c.code))
}

/// Whether `v` is the JSON array that describes the contexts of `l`, in order.
pub open spec fn encodes_error_contexts(v: JsonValue, l: Seq<ErrorContext>) -> bool {
    &&& v is Array
    &&& v->Array_0@.len() == l.len()
    &&& forall|i: int| 0 <= i < l.len() ==> encodes_error_context(#[trigger] v->Array_0@[i], l[i])
}

/// Two error contexts say the same: the same resource, field and reason.
pub open spec fn same_error_context(a: ErrorContext, b: ErrorContext) -> bool {
    &&& a.resource@ == b.resource@
    &&& a.field@ == b.field@
    &&& same_error_code(a.code, b.code)
}

/// The words that describe an error context.
pub open spec fn error_context_text(c: ErrorContext) -> Seq<char> {
    "Error found in "@ + c.resource@ + "."@ + c.field@ + ": "@ + error_code_text(c.code)
}

impl ErrorContext {
    /// The JSON object that describes this context in an error body.
    pub fn to_json(&self) -> (r: JsonValue)
        ensures
            encodes_error_context(r, *self),
    {
        let mut members: Vec<(String, JsonValue)> = Vec::new();
        members.push((String::from_str("code"), JsonValue::Str(self.code.name())));
        members.push((String::from_str("field"), JsonValue::Str(self.field.clone())));
        members.push((String::from_str("resource"), JsonValue::Str(self.resource.clone())));
        proof {
            reveal_strlit("code");
            reveal_strlit("field");
            reveal_strlit("resource");
            let m = members@;
            assert(m.drop_first().drop_first().drop_first() =~= Seq::<(String, JsonValue)>::empty());
            assert(field_spec(m, "code"@) == m[0].1);
            assert(m[0].0@.len() == 4 && m[1].0@.len() == 5 && m[2].0@.len() == 8);
            assert(m[0].0@ != "field"@ && m[0].0@ != "resource"@ && m[1].0@ != "resource"@);
            assert(m.drop_first()[0] == m[1]);
            assert(m.drop_first().drop_first()[0] == m[2]);
            assert(member_spec(m.drop_first(), "field"@) == Some(m[1].1));
            assert(field_spec(m, "field"@) == m[1].1);
            assert(member_spec(m.drop_first().drop_first(), "resource"@) == Some(m[2].1));
            assert(member_spec(m.drop_first(), "resource"@) == Some(m[2].1));
            assert(field_spec(m, "resource"@) == m[2].1);
        }
        JsonValue::Object(members)
    }

    /// Describes the context in words.
    pub fn display(&self) -> (r: String)
        ensures
            r@ == error_context_text(*self),
    {
        let mut s = String::from_str("Error found in ");
        s.append(self.resource.as_str());
        s.append(".");
        s.append(self.field.as_str());
        s.append(": ");
        s.append(self.code.display().as_str());
        s
    }
}

/// Writes a list of error contexts as the JSON array of an error body.
pub fn error_contexts_to_json(list: &Vec<ErrorContext>) -> (r: JsonValue)
    ensures
        encodes_error_contexts(r, list@),
{
    let mut items: Vec<JsonValue> = Vec::new();
    let mut i: usize = 0;
    while i < list.len()
        invariant
            i <= list@.len(),
            items@.len() == i,
            forall|j: int| 0 <= j < i ==> encodes_error_context(#[trigger] items@[j], list@[j]),
        decreases list.len() - i,
    {
        items.push(list[i].to_json());
        i = i + 1;
    }
    JsonValue::Array(items)
}

/// Encoding error contexts in the error-body form and decoding that form
/// again gives the same contexts, in the same order: the same resource,
/// field and reason each, a reason that the library does not know kept by
/// its name. It holds of contexts whose `Unknown` reasons hold no known
/// name, which is how decoding leaves them.
pub proof fn lemma_error_contexts_round_trip(list: Seq<ErrorContext>, body: JsonValue)
    requires
        forall|i: int| 0 <= i < list.len() ==> error_code_wf(#[trigger] list[i].code),
        encodes_error_contexts(body, list),
    ensures
        records_spec::<ErrorContext>(body) is Some,
        records_spec::<ErrorContext>(body)->Some_0.len() == list.len(),
        forall|i: int| 0 <= i < list.len() ==> same_error_context(
            #[trigger] records_spec::<ErrorContext>(body)->Some_0[i],
            list[i],
        ),
{
    let items = body->Array_0@;
    assert forall|i: int| 0 <= i < items.len() implies {
        &&& (#[trigger] ErrorContext::decoded(items[i])) is Some
        &&& same_error_context(ErrorContext::decoded(items[i])->Some_0, list[i])
    } by {
        reveal_strlit("missing");
        reveal_strlit("missing_field");
        reveal_strlit("invalid");
        reveal_strlit("already_exists");
        assert("missing"@.len() == 7);
        assert("missing_field"@.len() == 13);
        assert("invalid"@.len() == 7);
        assert("already_exists"@.len() == 14);
        assert(encodes_error_context(items[i], list[i]));
        assert(error_code_wf(list[i].code));
        let m = items[i]->Object_0@;
        let c = field_spec(m, "code"@);
        let code = list[i].code;
        assert(c is Str && c->Str_0@ == error_code_name(code));
        match code {
            ErrorCode::Unknown(u) => {
                assert(known_error_code(c->Str_0@) is None);
            },
            ErrorCode::Missing => {
                assert(c->Str_0@ != "missing_field"@);
            },
            ErrorCode::MissingField => {
                assert(c->Str_0@ != "missing"@);
            },
            ErrorCode::Invalid => {
                assert(c->Str_0@[0] != "missing"@[0]);
                assert(c->Str_0@ != "missing_field"@);
            },
            ErrorCode::AlreadyExists => {
                assert(c->Str_0@ != "missing"@);
                assert(c->Str_0@ != "missing_field"@);
                assert(c->Str_0@ != "invalid"@);
            },
        }
        assert(ErrorCode::decoded(c) is Some);
        assert(same_error_code(ErrorCode::decoded(c)->Some_0, code));
    }
}

/// When a request was successful.
pub const STATUS_OK: u32 = 200;

/// There was a problem with the data sent with the request.
pub const STATUS_BAD_REQUEST: u32 = 400;

/// Given to requests for which the user lacks the permissions.
pub const STATUS_FORBIDDEN: u32 = 403;

/// Given when a field or resource could not be processed.
pub const STATUS_UNPROCESSABLE_ENTITY: u32 = 422;

/// The status of a negative response.
#[derive(Debug, Clone, Copy, PartialEq, Eq, Structural)]
pub enum ErrorStatus {
    BadRequest,
    UnprocessableEntity,
    Forbidden,
    /// Any other status, with its code.
    Unknown(u32),
}

/// The class of a negative response's status `code`.
pub open spec fn error_status_spec(code: u32) -> ErrorStatus {
    if code == STATUS_BAD_REQUEST {
        ErrorStatus::BadRequest
    } else if code == STATUS_FORBIDDEN {
        ErrorStatus::Forbidden
    } else if code == STATUS_UNPROCESSABLE_ENTITY {
        ErrorStatus::UnprocessableEntity
    } else {
        ErrorStatus::Unknown(code)
    }
}

/// The status code of a class.
pub open spec fn status_code_spec(s: ErrorStatus) -> u32 {
    match s {
        ErrorStatus::BadRequest => STATUS_BAD_REQUEST,
        ErrorStatus::UnprocessableEntity => STATUS_UNPROCESSABLE_ENTITY,
        ErrorStatus::Forbidden => STATUS_FORBIDDEN,
        ErrorStatus::Unknown(c) => c,
    }
}

/// The name of a class.
pub open spec fn status_name_spec(s: ErrorStatus) -> Seq<char> {
    match s {
        ErrorStatus::BadRequest => "Bad Request"@,
        ErrorStatus::UnprocessableEntity => "Unprocessable Entity"@,
        ErrorStatus::Forbidden => "Forbidden Request"@,
        ErrorStatus::Unknown(_) => "Unknown"@,
    }
}

/// The words that describe a class: its code and its name.
pub open spec fn error_status_text(s: ErrorStatus) -> Seq<char> {
    "status "@ + decimal_text(status_code_spec(s) as nat) + ": "@ + status_name_spec(s)
}

impl ErrorStatus {
    /// The class of the status `code`: 400, 403 and 422 have a name of their
    /// own, every other code is `Unknown`.
    pub fn new(code: u32) -> (r: ErrorStatus)
        ensures
            r == error_status_spec(code),
    {
        if code == STATUS_BAD_REQUEST {
            ErrorStatus::BadRequest
        } else if code == STATUS_FORBIDDEN {
            ErrorStatus::Forbidden
        } else if code == STATUS_UNPROCESSABLE_ENTITY {
            ErrorStatus::UnprocessableEntity
        } else {
            ErrorStatus::Unknown(code)
        }
    }

    /// The status code of this class.
    pub fn code(&self) -> (r: u32)
        ensures
            r == status_code_spec(*self),
    {
        match self {
            ErrorStatus::BadRequest => STATUS_BAD_REQUEST,
            ErrorStatus::UnprocessableEntity => STATUS_UNPROCESSABLE_ENTITY,
            ErrorStatus::Forbidden => STATUS_FORBIDDEN,
            ErrorStatus::Unknown(c) => *c,
        }
    }

    /// Describes the class in words.
    pub fn display(&self) -> (r: String)
        ensures
            r@ == error_status_text(*self),
    {
        let name = match self {
            ErrorStatus::BadRequest => "Bad Request",
            ErrorStatus::UnprocessableEntity => "Unprocessable Entity",
            ErrorStatus::Forbidden => "Forbidden Request",
            ErrorStatus::Unknown(_) => "Unknown",
        };
        let mut s = String::from_str("status ");
        s.append(decimal_string(self.code() as u64).as_str());
        s.append(": ");
        s.append(name);
        s
    }
}

/// The error contexts that an error body's document describes: the records
/// of a JSON array of error contexts, or none where the document is no such
/// array.
pub open spec fn error_contexts_of_json(v: JsonValue) -> Seq<ErrorContext> {
    match records_spec::<ErrorContext>(v) {
        Some(l) => l,
        None => Seq::empty(),
    }
}

/// The error contexts that the body of a negative response holds: the body
/// read as UTF-8 text, the text as a JSON array of error contexts. Where
/// either step fails, or the text exceeds the parser's limits
/// (`parsable_json`), there are none.
pub open spec fn error_body_contexts(body: Seq<u8>) -> Seq<ErrorContext> {
    match utf8_text(body) {
        Some(t) => if parsable_text(t) {
            match parsed_json(t) {
                Some(v) => error_contexts_of_json(v),
                None => Seq::empty(),
            }
        } else {
            Seq::empty()
        },
        None => Seq::empty(),
    }
}

/// Reads the error contexts that an error body's document describes.
pub fn error_contexts_from_json(v: &JsonValue) -> (r: Vec<ErrorContext>)
    ensures
        r@ == error_contexts_of_json(*v),
{
    match records_from_json::<ErrorContext>(v) {
        Some(l) => l,
        None => Vec::new(),
    }
}

/// Reads the error contexts from the body of a negative response.
pub fn error_body(body: &[u8]) -> (r: Vec<ErrorContext>)
    ensures
        r@ == error_body_contexts(body@),
{
    match read_utf8(body) {
        Some(text) => if is_parsable_json(text.as_bytes()) {
            match parse_json(text) {
                Some(v) => error_contexts_from_json(&v),
                None => Vec::new(),
            }
        } else {
            Vec::new()
        },
        None => Vec::new(),
    }
}

/// A negative response: its status and the error contexts its body held.
#[derive(Debug)]
pub struct RequestError {
    /// The class of the response's status.
    pub code: ErrorStatus,
    /// The errors that the body described; empty where it described none
    /// that could be read.
    pub errors: Vec<ErrorContext>,
}

/// The words that describe a negative response.
pub open spec fn request_error_text(e: RequestError) -> Seq<char> {
    "HTTP Error: "@ + error_status_text(e.code) + ". Found "@ + decimal_text(e.errors@.len())
        + " error description(s)!"@
}

impl RequestError {
    /// The error for a negative response with status `code` and body `buffer`.
    /// It is always an error: a body that cannot be read gives no contexts.
    pub fn new<T>(code: u32, buffer: &[u8]) -> (r: Result<T, ClientError>)
        ensures
            match r {
                Err(ClientError::Http(e)) => {
                    &&& e.code == error_status_spec(code)
                    &&& e.errors@ == error_body_contexts(buffer@)
                },
                _ => false,
            },
    {
        Err(ClientError::Http(RequestError { code: ErrorStatus::new(code), errors: error_body(buffer) }))
    }

    /// Describes the error in words.
    pub fn display(&self) -> (r: String)
        ensures
            r@ == request_error_text(*self),
    {
        let mut s = String::from_str("HTTP Error: ");
        s.append(self.code.display().as_str());
        s.append(". Found ");
        s.append(decimal_string(self.errors.len() as u64).as_str());
        s.append(" error description(s)!");
        s
    }
}

/// A failure within the library or below it: the exchange could not be
/// made, or a positive response could not be read.
#[derive(Debug)]
pub struct InternalError {
    /// What went wrong.
    pub msg: String,
}

impl InternalError {
    /// The internal error with the message `msg`.
    pub fn new<T>(msg: &str) -> (r: Result<T, ClientError>)
        ensures
            match r {
                Err(ClientError::Internal(e)) => e.msg@ == msg@,
                _ => false,
            },
    {
        Err(ClientError::Internal(InternalError { msg: String::from_str(msg) }))
    }

    /// Describes the error in words.
    pub fn display(&self) -> (r: String)
        ensures
            r@ == "Internal Error: "@ + self.msg@,
    {
        let mut s = String::from_str("Internal Error: ");
        s.append(self.msg.as_str());
        s
    }
}

/// Every way in which a request can fail.
#[derive(Debug)]
pub enum ClientError {
    /// The service answered with a negative status.
    Http(RequestError),
    /// The exchange or the reading of its response failed.
    Internal(InternalError),
}

impl ClientError {
    /// Describes the error in words.
    pub fn display(&self) -> (r: String)
        ensures
            r@ == match *self {
                ClientError::Http(e) => request_error_text(e),
                ClientError::Internal(e) => "Internal Error: "@ + e.msg@,
            },
    {
        match self {
            ClientError::Http(e) => e.display(),
            ClientError::Internal(e) => e.display(),
        }
    }
}

/// Whether a response's status `code` is the positive one, 200.
pub fn check_status_code(code: u32) -> (r: bool)
    ensures
        r == (code == 200),
{
    code == STATUS_OK
}

} // verus!
