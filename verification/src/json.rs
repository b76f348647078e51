use vstd::prelude::*;

verus! {

/// A JSON value held as plain data that contracts can speak about.
///
/// Integral numbers are kept exactly: every JSON integer in the signed or
/// unsigned 64-bit range fits in the `Int` payload. A number outside that
/// range, or one written as a fraction or exponent, is marked
/// `NonIntegerNumber`; no field of the wire schema carries one.
#[derive(Debug, PartialEq, Eq)]
pub enum JsonValue {
    Null,
    Bool(bool),
    Int(i128),
    NonIntegerNumber,
    Str(String),
    Arr(Vec<JsonValue>),
    Obj(Vec<(String, JsonValue)>),
}

/// The first value bound to `key` among the fields at or after position `i`,
/// or `None` when no such field exists.
pub open spec fn lookup_from(fields: Seq<(String, JsonValue)>, i: int, key: Seq<char>) -> Option<
    JsonValue,
>
    decreases fields.len() - i,
{
    if i < 0 || i >= fields.len() {
        None
    } else if fields[i].0@ == key {
        Some(fields[i].1)
    } else {
        lookup_from(fields, i + 1, key)
    }
}

/// The value bound to `key` in an object, or `None` when `v` is no object or
/// the key is absent.
pub open spec fn json_get(v: JsonValue, key: Seq<char>) -> Option<JsonValue> {
    match v {
        JsonValue::Obj(fields) => lookup_from(fields@, 0, key),
        _ => None,
    }
}

/// Whether two strings hold the same characters.
pub fn str_eq(a: &String, b: &str) -> (r: bool)
    ensures
        r == (a@ == b@),
{
    let owned: String = b.to_owned();
    *a == owned
}

/// Finds the first field bound to `key` in an object; `None` on any other
/// value or when the key is absent.
pub fn get_field<'a>(v: &'a JsonValue, key: &str) -> (r: Option<&'a JsonValue>)
    ensures
        match r {
            Some(f) => json_get(*v, key@) == Some(*f),
            None => json_get(*v, key@) is None,
        },
{
    match v {
        JsonValue::Obj(fields) => {
            let n = fields.len();
            let mut i: usize = 0;
            while i < n
                invariant
                    0 <= i <= n,
                    n == fields@.len(),
                    (*v) is Obj && (*v)->Obj_0 == *fields,
                    lookup_from(fields@, 0, key@) == lookup_from(fields@, i as int, key@),
                decreases n - i,
            {
                if str_eq(&fields[i].0, key) {
                    proof {
                        assert(lookup_from(fields@, i as int, key@) == Some(fields@[i as int].1));
                    }
                    return Some(&fields[i].1);
                }
                i = i + 1;
            }
            None
        },
        _ => None,
    }
}

/// What a parsed `serde_json::Value` tree holds, as the library's own plain
/// JSON data.
pub uninterp spec fn json_model(v: serde_json::Value) -> JsonValue;

/// What `serde_json::from_str::<serde_json::Value>` yields on a given text:
/// `None` where the text is not well-formed JSON, otherwise the parsed value.
pub uninterp spec fn json_of(s: Seq<char>) -> Option<JsonValue>;

#[verifier::external_type_specification]
#[verifier::external_body]
pub struct ExSerdeJsonValue(serde_json::Value);

/// Relies on `serde_json::from_str::<serde_json::Value>`: whether the parse
/// succeeds, and the tree it yields, depend on the input text alone.
#[verifier::external_body]
pub(crate) fn parse_raw(s: &str) -> (r: Result<serde_json::Value, String>)
    ensures
        r is Ok <==> json_of(s@) is Some,
        r is Ok ==> json_of(s@) == Some(json_model(r->Ok_0)),
{
    match serde_json::from_str::<serde_json::Value>(s) {
        Ok(v) => Ok(v),
        Err(e) => Err(e.to_string()),
    }
}

/// Relies on `serde_json::Value`'s public variants and on
/// `serde_json::Number::{as_u64, as_i64}`: translates the parsed tree, node by
/// node, into the library's `JsonValue`.
#[verifier::external_body]
pub(crate) fn lower_value(v: serde_json::Value) -> (r: JsonValue)
    ensures
        r == json_model(v),
{
    match v {
        serde_json::Value::Null => JsonValue::Null,
        serde_json::Value::Bool(b) => JsonValue::Bool(b),
        serde_json::Value::Number(n) => match (n.as_u64(), n.as_i64()) {
            (Some(u), _) => JsonValue::Int(u as i128),
            (None, Some(i)) => JsonValue::Int(i as i128),
            (None, None) => JsonValue::NonIntegerNumber,
        },
        serde_json::Value::String(s) => JsonValue::Str(s),
        serde_json::Value::Array(a) => JsonValue::Arr(a.into_iter().map(lower_value).collect()),
        serde_json::Value::Object(m) => JsonValue::Obj(m.into_iter().map(|f| (f.0, lower_value(f.1))).collect()),
    }
}

/// Parses one frame's text into the library's JSON representation; the error
/// carries the parser's reason.
pub fn parse_json(s: &str) -> (r: Result<JsonValue, String>)
    ensures
        r is Ok <==> json_of(s@) is Some,
        r is Ok ==> Some(r->Ok_0) == json_of(s@),
{
    match parse_raw(s) {
        Ok(v) => Ok(lower_value(v)),
        Err(e) => Err(e),
    }
}

} // verus!
