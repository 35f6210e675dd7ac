//! JSON documents as plain values, and the decoding rules that turn them
//! into the library's records.
//!
//! Text is parsed by `rustc_serialize`; what a record is made of, and which
//! documents give one, is decided here.
use crate::text::{parse_u64, str_eq, u64_of_text};
use rustc_serialize::json::Json;
use vstd::prelude::*;
use vstd::utf8::encode_utf8;

verus! {

#[verifier::external_type_specification]
#[verifier::external_body]
pub struct ExJson(Json);

/// A parsed JSON document.
///
/// Numbers keep the form in which the parser read them: an integer written
/// with a minus sign as `Int` (so `-0` is `Int(0)`), any other as `UInt`, anything with a fraction or an
/// exponent as `Float`, whose value the library never reads. The members of
/// an `Object` have distinct keys, in ascending order.
#[derive(Debug)]
pub enum JsonValue {
    Null,
    Bool(bool),
    Int(i64),
    UInt(u64),
    Float,
    Str(String),
    Array(Vec<JsonValue>),
    Object(Vec<(String, JsonValue)>),
}

/// How deep arrays and objects may nest in a text that is parsed. The parser
/// and the tree it builds take stack in proportion to the depth, so a deeper
/// text is refused before it is parsed; the records of this library nest
/// three deep.
pub const MAX_NESTING: u64 = 128;

/// Whether the rest `s` of a text keeps the nesting of arrays and objects
/// within `bound`, counting `[` and `{` up and `]` and `}` down outside
/// strings, from the state reached so far: the current `depth`, whether a
/// string is open, and whether its last byte was an escaping backslash.
/// The bytes that matter are ASCII, which never occur inside the encoding of
/// another character.
pub open spec fn nests_within(s: Seq<u8>, depth: nat, in_str: bool, escaped: bool, bound: nat) -> bool
    decreases s.len(),
{
    if s.len() == 0 {
        true
    } else {
        let c = s[0];
        let rest = s.drop_first();
        if in_str {
            if escaped {
                nests_within(rest, depth, true, false, bound)
            } else if c == 92 {
                nests_within(rest, depth, true, true, bound)
            } else if c == 34 {
                nests_within(rest, depth, false, false, bound)
            } else {
                nests_within(rest, depth, true, false, bound)
            }
        } else if c == 34 {
            nests_within(rest, depth, true, false, bound)
        } else if c == 91 || c == 123 {
            depth + 1 <= bound && nests_within(rest, depth + 1, false, false, bound)
        } else if c == 93 || c == 125 {
            nests_within(rest, if depth > 0 { (depth - 1) as nat } else { 0 }, false, false, bound)
        } else {
            nests_within(rest, depth, false, false, bound)
        }
    }
}

/// Whether the bytes of a text nest arrays and objects at most
/// `MAX_NESTING` deep.
pub open spec fn shallow_json(bytes: Seq<u8>) -> bool {
    nests_within(bytes, 0, false, false, MAX_NESTING as nat)
}

/// The longest object key, in bytes as written, that a text may hold: the
/// parser keeps the keys of all open objects in one buffer indexed by `u16`,
/// and `MAX_NESTING` keys of this length stay below 65 536 bytes.
pub const MAX_KEY_BYTES: u64 = 511;

/// The most digits that an exponent may have: the parser accumulates them
/// without an overflow check.
pub const MAX_EXPONENT_DIGITS: u64 = 9;

/// The longest text, in bytes, that may be parsed: the parser counts the
/// elements of an array in a `u32`.
pub const MAX_TEXT_BYTES: u64 = 4294967295;

/// Whether a JSON whitespace byte.
pub open spec fn is_json_space(c: u8) -> bool {
    c == 32 || c == 9 || c == 10 || c == 13
}

/// Whether the rest `s` of a text keeps its object keys and its exponents
/// short, from the state reached so far: whether a string is open, whether
/// its last byte was an escaping backslash, how many bytes it holds so far,
/// the length of the string just closed while only blanks followed it (a key
/// where a `:` comes next), and the digits of the exponent being read, if
/// one is. A key is counted in the bytes written between its quotes, which
/// are never fewer than the bytes it stands for.
pub open spec fn tokens_within(
    s: Seq<u8>,
    in_str: bool,
    escaped: bool,
    len: nat,
    pending: Option<nat>,
    exp: Option<nat>,
) -> bool
    decreases s.len(),
{
    if s.len() == 0 {
        true
    } else {
        let c = s[0];
        let rest = s.drop_first();
        if in_str {
            if escaped {
                tokens_within(rest, true, false, len + 1, None, None)
            } else if c == 92 {
                tokens_within(rest, true, true, len + 1, None, None)
            } else if c == 34 {
                tokens_within(rest, false, false, 0, Some(len), None)
            } else {
                tokens_within(rest, true, false, len + 1, None, None)
            }
        } else if is_json_space(c) {
            tokens_within(rest, false, false, 0, pending, None)
        } else if c == 58 {
            (pending is Some ==> pending->Some_0 <= MAX_KEY_BYTES) && tokens_within(rest, false, false, 0, None, None)
        } else if c == 34 {
            tokens_within(rest, true, false, 0, None, None)
        } else if c == 101 || c == 69 {
            tokens_within(rest, false, false, 0, None, Some(0))
        } else if exp is Some && (c == 43 || c == 45) {
            tokens_within(rest, false, false, 0, None, exp)
        } else if exp is Some && 48 <= c && c <= 57 {
            exp->Some_0 + 1 <= MAX_EXPONENT_DIGITS && tokens_within(rest, false, false, 0, None, Some(exp->Some_0 + 1))
        } else {
            tokens_within(rest, false, false, 0, None, None)
        }
    }
}

/// Whether the object keys and the exponents of a text are short.
pub open spec fn short_tokens(bytes: Seq<u8>) -> bool {
    tokens_within(bytes, false, false, 0, None, None)
}

/// Whether `rustc_serialize` can parse the bytes of a text within its
/// limits: the nesting, the keys, the exponents and the length all stay
/// within the bounds above.
pub open spec fn parsable_json(bytes: Seq<u8>) -> bool {
    &&& bytes.len() <= MAX_TEXT_BYTES
    &&& shallow_json(bytes)
    &&& short_tokens(bytes)
}

/// Whether `rustc_serialize` can parse a text within its limits.
pub open spec fn parsable_text(text: Seq<char>) -> bool {
    parsable_json(encode_utf8(text))
}

/// Checks that the object keys and the exponents of `bytes` are short.
pub fn has_short_tokens(bytes: &[u8]) -> (r: bool)
    ensures
        r == short_tokens(bytes@),
{
    let n = bytes.len();
    let mut i: usize = 0;
    let mut in_str = false;
    let mut escaped = false;
    let mut len: usize = 0;
    let mut pending: Option<usize> = None;
    let mut exp: Option<u64> = None;
    assert(bytes@.subrange(0, n as int) =~= bytes@);
    while i < n
        invariant
            i <= n,
            n == bytes@.len(),
            len <= i,
            pending is Some ==> pending->Some_0 <= i,
            exp is Some ==> exp->Some_0 <= MAX_EXPONENT_DIGITS,
            !in_str ==> !escaped && len == 0,
            short_tokens(bytes@) == tokens_within(
                bytes@.subrange(i as int, n as int),
                in_str,
                escaped,
                len as nat,
                match pending {
                    Some(l) => Some(l as nat),
                    None => None,
                },
                match exp {
                    Some(d) => Some(d as nat),
                    None => None,
                },
            ),
        decreases n - i,
    {
        let ghost rest = bytes@.subrange(i as int, n as int);
        assert(rest.drop_first() =~= bytes@.subrange(i + 1, n as int));
        let c = bytes[i];
        assert(rest[0] == c);
        if in_str {
            if escaped {
                escaped = false;
                len = len + 1;
            } else if c == 92 {
                escaped = true;
                len = len + 1;
            } else if c == 34 {
                in_str = false;
                pending = Some(len);
                len = 0;
            } else {
                len = len + 1;
            }
            if in_str {
                pending = None;
            }
            exp = None;
        } else if c == 32 || c == 9 || c == 10 || c == 13 {
            exp = None;
        } else if c == 58 {
            match pending {
                Some(l) => if l as u64 > MAX_KEY_BYTES {
                    return false;
                },
                None => {},
            }
            pending = None;
            exp = None;
        } else if c == 34 {
            in_str = true;
            pending = None;
            exp = None;
        } else if c == 101 || c == 69 {
            pending = None;
            exp = Some(0);
        } else if exp.is_some() && (c == 43 || c == 45) {
            pending = None;
        } else if exp.is_some() && 48 <= c && c <= 57 {
            let d = exp.unwrap();
            if d + 1 > MAX_EXPONENT_DIGITS {
                return false;
            }
            pending = None;
            exp = Some(d + 1);
        } else {
            pending = None;
            exp = None;
        }
        i = i + 1;
    }
    true
}

/// Checks that `rustc_serialize` can parse `bytes` within its limits.
pub fn is_parsable_json(bytes: &[u8]) -> (r: bool)
    ensures
        r == parsable_json(bytes@),
{
    bytes.len() as u64 <= MAX_TEXT_BYTES && is_shallow_json(bytes) && has_short_tokens(bytes)
}

/// Checks that `bytes` nest arrays and objects at most `MAX_NESTING` deep.
pub fn is_shallow_json(bytes: &[u8]) -> (r: bool)
    ensures
        r == shallow_json(bytes@),
{
    let n = bytes.len();
    let mut i: usize = 0;
    let mut depth: u64 = 0;
    let mut in_str = false;
    let mut escaped = false;
    assert(bytes@.subrange(0, n as int) =~= bytes@);
    while i < n
        invariant
            i <= n,
            n == bytes@.len(),
            depth <= MAX_NESTING,
            !in_str ==> !escaped,
            shallow_json(bytes@) == nests_within(
                bytes@.subrange(i as int, n as int),
                depth as nat,
                in_str,
                escaped,
                MAX_NESTING as nat,
            ),
        decreases n - i,
    {
        let ghost rest = bytes@.subrange(i as int, n as int);
        assert(rest.drop_first() =~= bytes@.subrange(i + 1, n as int));
        let c = bytes[i];
        assert(rest[0] == c);
        if in_str {
            if escaped {
                escaped = false;
            } else if c == 92 {
                escaped = true;
            } else if c == 34 {
                in_str = false;
            }
        } else if c == 34 {
            in_str = true;
        } else if c == 91 || c == 123 {
            if depth == MAX_NESTING {
                return false;
            }
            depth = depth + 1;
        } else if c == 93 || c == 125 {
            if depth > 0 {
                depth = depth - 1;
            }
        }
        i = i + 1;
    }
    true
}

/// The document that `rustc_serialize` reads from a text; `None` when the
/// text is not one JSON value.
pub uninterp spec fn parsed_json(text: Seq<char>) -> Option<JsonValue>;

/// Relies on `rustc_serialize::json::Json::from_str`: it reads a whole text
/// as one JSON value, and the value depends on the text alone. The parser
/// recurses once per level of nesting (as do the conversion and the drop of
/// the tree), keeps open keys in a buffer indexed by `u16`, reads exponents
/// without an overflow check and counts array elements in a `u32`; only
/// texts within those limits are admitted.
#[verifier::external_body]
pub(crate) fn parse_json(text: &str) -> (r: Option<JsonValue>)
    requires
        parsable_text(text@),
    ensures
        r == parsed_json(text@),
{
    Json::from_str(text).ok().map(from_outside_tree)
}

/// Moves a tree of `rustc_serialize::json::Json` into a `JsonValue`, node for
/// node (an object's members in the map's ascending key order).
#[verifier::external_body]
fn from_outside_tree(j: Json) -> JsonValue {
    match j {
        Json::Null => JsonValue::Null,
        Json::Boolean(b) => JsonValue::Bool(b),
        Json::I64(n) => JsonValue::Int(n),
        Json::U64(n) => JsonValue::UInt(n),
        Json::F64(_) => JsonValue::Float,
        Json::String(s) => JsonValue::Str(s),
        Json::Array(a) => JsonValue::Array(a.into_iter().map(from_outside_tree).collect()),
        Json::Object(o) => JsonValue::Object(o.into_iter().map(|(k, v)| (k, from_outside_tree(v))).collect()),
    }
}

/// The value under `key` among an object's members: the first member with
/// that key.
pub open spec fn member_spec(members: Seq<(String, JsonValue)>, key: Seq<char>) -> Option<JsonValue>
    decreases members.len(),
{
    if members.len() == 0 {
        None
    } else if members[0].0@ == key {
        Some(members[0].1)
    } else {
        member_spec(members.drop_first(), key)
    }
}

/// The value that a record's field is read from: the member under `key`, or
/// `Null` where the object has none (so that an optional field may be left out).
pub open spec fn field_spec(members: Seq<(String, JsonValue)>, key: Seq<char>) -> JsonValue {
    match member_spec(members, key) {
        Some(v) => v,
        None => JsonValue::Null,
    }
}

/// Finds the member under `key`.
pub fn member<'a>(members: &'a Vec<(String, JsonValue)>, key: &str) -> (r: Option<&'a JsonValue>)
    ensures
        match r {
            Some(v) => member_spec(members@, key@) == Some(*v),
            None => member_spec(members@, key@) is None,
        },
{
    let mut i: usize = 0;
    assert(members@.subrange(0, members@.len() as int) =~= members@);
    while i < members.len()
        invariant
            i <= members@.len(),
            member_spec(members@, key@) == member_spec(members@.subrange(i as int, members@.len() as int), key@),
        decreases members.len() - i,
    {
        let ghost rest = members@.subrange(i as int, members@.len() as int);
        assert(rest.drop_first() =~= members@.subrange(i + 1, members@.len() as int));
        if str_eq(members[i].0.as_str(), key) {
            return Some(&members[i].1);
        }
        i = i + 1;
    }
    None
}

/// Reads a `u64` as `rustc_serialize` decodes one: a non-negative integer,
/// or a string that holds one in decimal.
pub open spec fn u64_spec(v: JsonValue) -> Option<u64> {
    match v {
        JsonValue::Int(i) => if i >= 0 {
            Some(i as u64)
        } else {
            None
        },
        JsonValue::UInt(u) => Some(u),
        JsonValue::Str(s) => u64_of_text(s@),
        _ => None,
    }
}

/// Reads a string: only a JSON string gives one.
pub open spec fn string_spec(v: JsonValue) -> Option<String> {
    match v {
        JsonValue::Str(s) => Some(s),
        _ => None,
    }
}

/// Reads a `bool`: only `true` and `false` give one.
pub open spec fn bool_spec(v: JsonValue) -> Option<bool> {
    match v {
        JsonValue::Bool(b) => Some(b),
        _ => None,
    }
}

/// Reads an optional string: `Null` gives `None`, a string gives it.
pub open spec fn opt_string_spec(v: JsonValue) -> Option<Option<String>> {
    match v {
        JsonValue::Null => Some(None),
        JsonValue::Str(s) => Some(Some(s)),
        _ => None,
    }
}

/// Reads an optional `bool`: `Null` gives `None`, a boolean gives it.
pub open spec fn opt_bool_spec(v: JsonValue) -> Option<Option<bool>> {
    match v {
        JsonValue::Null => Some(None),
        JsonValue::Bool(b) => Some(Some(b)),
        _ => None,
    }
}

/// Decodes a `u64` field.
pub fn u64_field(members: &Vec<(String, JsonValue)>, key: &str) -> (r: Option<u64>)
    ensures
        r == u64_spec(field_spec(members@, key@)),
{
    match member(members, key) {
        Some(JsonValue::Int(i)) => if *i >= 0 {
            Some(*i as u64)
        } else {
            None
        },
        Some(JsonValue::UInt(u)) => Some(*u),
        Some(JsonValue::Str(s)) => parse_u64(s.as_str()),
        _ => None,
    }
}

/// Decodes a string field.
pub fn string_field(members: &Vec<(String, JsonValue)>, key: &str) -> (r: Option<String>)
    ensures
        r == string_spec(field_spec(members@, key@)),
{
    match member(members, key) {
        Some(JsonValue::Str(s)) => Some(s.clone()),
        _ => None,
    }
}

/// Decodes a `bool` field.
pub fn bool_field(members: &Vec<(String, JsonValue)>, key: &str) -> (r: Option<bool>)
    ensures
        r == bool_spec(field_spec(members@, key@)),
{
    match member(members, key) {
        Some(JsonValue::Bool(b)) => Some(*b),
        _ => None,
    }
}

/// Decodes an optional string field.
pub fn opt_string_field(members: &Vec<(String, JsonValue)>, key: &str) -> (r: Option<Option<String>>)
    ensures
        r == opt_string_spec(field_spec(members@, key@)),
{
    match member(members, key) {
        None => Some(None),
        Some(JsonValue::Null) => Some(None),
        Some(JsonValue::Str(s)) => Some(Some(s.clone())),
        _ => None,
    }
}

/// Decodes an optional `bool` field.
pub fn opt_bool_field(members: &Vec<(String, JsonValue)>, key: &str) -> (r: Option<Option<bool>>)
    ensures
        r == opt_bool_spec(field_spec(members@, key@)),
{
    match member(members, key) {
        None => Some(None),
        Some(JsonValue::Null) => Some(None),
        Some(JsonValue::Bool(b)) => Some(Some(*b)),
        _ => None,
    }
}

/// A record that a JSON value can decode into, field by field, as
/// `rustc_serialize` decodes a struct: the value must be an object, each
/// field is read from the member of its name, and a missing member reads as
/// `Null`.
pub trait FromJson: Sized {
    /// The record that `v` decodes into; `None` when it has another shape.
    spec fn decoded(v: JsonValue) -> Option<Self>;

    /// Decodes one record.
    fn from_json(v: &JsonValue) -> (r: Option<Self>)
        ensures
            r == Self::decoded(*v),
    ;
}

/// Reads an optional record: `Null` gives `None`, another value the record
/// it decodes into.
pub open spec fn opt_record_spec<R: FromJson>(v: JsonValue) -> Option<Option<R>> {
    match v {
        JsonValue::Null => Some(None),
        _ => match R::decoded(v) {
            Some(r) => Some(Some(r)),
            None => None,
        },
    }
}

/// Decodes a field that holds a record.
pub fn record_field<R: FromJson>(members: &Vec<(String, JsonValue)>, key: &str) -> (r: Option<R>)
    ensures
        r == R::decoded(field_spec(members@, key@)),
{
    match member(members, key) {
        Some(v) => R::from_json(v),
        None => R::from_json(&JsonValue::Null),
    }
}

/// Decodes a field that holds an optional record.
pub fn opt_record_field<R: FromJson>(members: &Vec<(String, JsonValue)>, key: &str) -> (r: Option<Option<R>>)
    ensures
        r == opt_record_spec::<R>(field_spec(members@, key@)),
{
    match member(members, key) {
        None => Some(None),
        Some(JsonValue::Null) => Some(None),
        Some(v) => match R::from_json(v) {
            Some(rec) => Some(Some(rec)),
            None => None,
        },
    }
}

/// The records that a JSON array decodes into, in the array's order; `None`
/// when `v` is no array or one of its elements does not decode.
pub open spec fn records_spec<R: FromJson>(v: JsonValue) -> Option<Seq<R>> {
    match v {
        JsonValue::Array(items) => if forall|i: int|
            0 <= i < items@.len() ==> (#[trigger] R::decoded(items@[i])) is Some {
            Some(Seq::new(items@.len(), |i: int| R::decoded(items@[i])->Some_0))
        } else {
            None
        },
        _ => None,
    }
}

/// Decodes a JSON array of records.
pub fn records_from_json<R: FromJson>(v: &JsonValue) -> (r: Option<Vec<R>>)
    ensures
        match r {
            Some(rs) => records_spec::<R>(*v) == Some(rs@),
            None => records_spec::<R>(*v) is None,
        },
{
    match v {
        JsonValue::Array(items) => {
            let mut out: Vec<R> = Vec::new();
            let mut i: usize = 0;
            while i < items.len()
                invariant
                    i <= items@.len(),
                    out@.len() == i,
                    *v == JsonValue::Array(*items),
                    forall|j: int| 0 <= j < i ==> #[trigger] R::decoded(items@[j]) == Some(out@[j]),
                decreases items.len() - i,
            {
                match R::from_json(&items[i]) {
                    Some(rec) => out.push(rec),
                    None => {
                        assert(R::decoded(items@[i as int]) is None);
                        return None;
                    },
                }
                i = i + 1;
            }
            assert(forall|j: int| 0 <= j < items@.len() ==> (#[trigger] R::decoded(items@[j])) is Some);
            assert(out@ =~= Seq::new(items@.len(), |i: int| R::decoded(items@[i])->Some_0));
            Some(out)
        },
        _ => None,
    }
}

} // verus!
