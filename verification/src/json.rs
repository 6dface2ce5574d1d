//! The library's JSON value model, and the trusted boundary to the JSON
//! parser.
//!
//! A response body is parsed once into [`JsonValue`], a plain tree of
//! nulls, booleans, integers, strings, arrays and objects; everything the
//! decoder then does with the tree is verified against the spec functions
//! of this module.

use vstd::prelude::*;

verus! {

/// A parsed JSON document.
///
/// An object keeps its fields as a list of `(name, value)` pairs; a
/// number is kept as its `i64` value (the schemas this library decodes
/// carry no other numbers, and a number with no `i64` value parses as
/// `Null`).
#[derive(Debug)]
pub enum JsonValue {
    Null,
    Bool(bool),
    Int(i64),
    Str(String),
    Arr(Vec<JsonValue>),
    Obj(Vec<(String, JsonValue)>),
}

/// What parsing a body yields: `None` when the text is not well-formed
/// JSON, otherwise the parsed tree.  The value is fixed by the text
/// alone; [`parse_json`] is the one place that produces it.
pub uninterp spec fn json_parse(text: Seq<char>) -> Option<JsonValue>;

#[verifier::external_type_specification]
#[verifier::external_body]
pub struct ExValue(serde_json::Value);

/// Relies on `serde_json::from_str::<serde_json::Value>` for JSON syntax;
/// the parsed tree is rewritten into a [`JsonValue`] by `from_serde`, and
/// an error carries serde_json's own message.
#[verifier::external_body]
pub(crate) fn parse_json(text: &str) -> (r: Result<JsonValue, String>)
    ensures
        r matches Ok(v) ==> json_parse(text@) == Some(v),
        r is Err ==> json_parse(text@) is None,
{
    match serde_json::from_str::<serde_json::Value>(text) {
        Ok(v) => Ok(from_serde(v)),
        Err(e) => Err(format!("{}", e)),
    }
}

/// The rewriting half of [`parse_json`]: each `serde_json::Value` node
/// becomes the [`JsonValue`] node of the same shape, one for one.  A
/// number is read through `serde_json::Number::as_i64`; one with no `i64`
/// value (a float, or an integer out of range) becomes `Null`.
#[verifier::external_body]
fn from_serde(v: serde_json::Value) -> JsonValue {
    match v {
        serde_json::Value::Null => JsonValue::Null,
        serde_json::Value::Bool(b) => JsonValue::Bool(b),
        serde_json::Value::Number(n) => match n.as_i64() {
            Some(i) => JsonValue::Int(i),
            None => JsonValue::Null,
        },
        serde_json::Value::String(s) => JsonValue::Str(s),
        serde_json::Value::Array(a) => JsonValue::Arr(a.into_iter().map(from_serde).collect()),
        serde_json::Value::Object(m) => JsonValue::Obj(
            m.into_iter().map(|(k, x)| (k, from_serde(x))).collect(),
        ),
    }
}

/// The first value stored under `key`, if any.
pub open spec fn spec_lookup(fields: Seq<(String, JsonValue)>, key: Seq<char>) -> Option<JsonValue>
    decreases fields.len(),
{
    if fields.len() == 0 {
        None
    } else if fields[0].0@ == key {
        Some(fields[0].1)
    } else {
        spec_lookup(fields.drop_first(), key)
    }
}

/// Finds the first field named `key`.
pub fn lookup<'a>(fields: &'a Vec<(String, JsonValue)>, key: &str) -> (r: Option<&'a JsonValue>)
    ensures
        match r {
            Some(v) => spec_lookup(fields@, key@) == Some(*v),
            None => spec_lookup(fields@, key@) is None,
        },
{
    let mut i: usize = 0;
    proof {
        assert(fields@.skip(0) =~= fields@);
    }
    while i < fields.len()
        invariant
            i <= fields@.len(),
            spec_lookup(fields@, key@) == spec_lookup(fields@.skip(i as int), key@),
        decreases fields@.len() - i,
    {
        let found = crate::text::string_eq(&fields[i].0, key);
        proof {
            assert(fields@.skip(i as int)[0] == fields@[i as int]);
            assert(fields@.skip(i as int).drop_first() =~= fields@.skip(i + 1));
        }
        if found {
            return Some(&fields[i].1);
        }
        i = i + 1;
    }
    None
}

/// The fields of `v`, when `v` is an object.
pub open spec fn spec_obj_fields(v: JsonValue) -> Option<Seq<(String, JsonValue)>> {
    match v {
        JsonValue::Obj(fields) => Some(fields@),
        _ => None,
    }
}

/// Reads `v` as an object.
pub fn obj_fields(v: &JsonValue) -> (r: Option<&Vec<(String, JsonValue)>>)
    ensures
        match r {
            Some(fields) => spec_obj_fields(*v) == Some(fields@),
            None => spec_obj_fields(*v) is None,
        },
{
    match v {
        JsonValue::Obj(fields) => Some(fields),
        _ => None,
    }
}

/// The string stored under `key`, when there is one and it is a string.
pub open spec fn spec_get_string(fields: Seq<(String, JsonValue)>, key: Seq<char>) -> Option<
    String,
> {
    match spec_lookup(fields, key) {
        Some(JsonValue::Str(s)) => Some(s),
        _ => None,
    }
}

/// Reads a required string field.
pub fn get_string(fields: &Vec<(String, JsonValue)>, key: &str) -> (r: Option<String>)
    ensures
        r == spec_get_string(fields@, key@),
{
    match lookup(fields, key) {
        Some(JsonValue::Str(s)) => Some(s.clone()),
        _ => None,
    }
}

/// The integer stored under `key`, when there is one and it is a number.
pub open spec fn spec_get_int(fields: Seq<(String, JsonValue)>, key: Seq<char>) -> Option<i64> {
    match spec_lookup(fields, key) {
        Some(JsonValue::Int(i)) => Some(i),
        _ => None,
    }
}

/// Reads a required integer field.
pub fn get_int(fields: &Vec<(String, JsonValue)>, key: &str) -> (r: Option<i64>)
    ensures
        r == spec_get_int(fields@, key@),
{
    match lookup(fields, key) {
        Some(JsonValue::Int(i)) => Some(*i),
        _ => None,
    }
}

/// The integer under `key` as an `isize`, when it is a number in range.
pub open spec fn spec_get_isize(fields: Seq<(String, JsonValue)>, key: Seq<char>) -> Option<
    isize,
> {
    match spec_get_int(fields, key) {
        Some(i) => if isize::MIN <= i <= isize::MAX {
            Some(i as isize)
        } else {
            None
        },
        None => None,
    }
}

/// Reads a required integer field into an `isize`.
pub fn get_isize(fields: &Vec<(String, JsonValue)>, key: &str) -> (r: Option<isize>)
    ensures
        r == spec_get_isize(fields@, key@),
{
    match get_int(fields, key) {
        Some(i) => if isize::MIN as i64 <= i && i <= isize::MAX as i64 {
            Some(i as isize)
        } else {
            None
        },
        None => None,
    }
}

/// The integer under `key` as a `usize`, when it is a number in range.
pub open spec fn spec_get_usize(fields: Seq<(String, JsonValue)>, key: Seq<char>) -> Option<
    usize,
> {
    match spec_get_int(fields, key) {
        Some(i) => if 0 <= i <= usize::MAX {
            Some(i as usize)
        } else {
            None
        },
        None => None,
    }
}

/// Reads a required integer field into a `usize`.
pub fn get_usize(fields: &Vec<(String, JsonValue)>, key: &str) -> (r: Option<usize>)
    ensures
        r == spec_get_usize(fields@, key@),
{
    match get_int(fields, key) {
        Some(i) => if 0 <= i && (i as u64) <= (usize::MAX as u64) {
            Some(i as usize)
        } else {
            None
        },
        None => None,
    }
}

/// The boolean stored under `key`, when there is one.
pub open spec fn spec_get_bool(fields: Seq<(String, JsonValue)>, key: Seq<char>) -> Option<bool> {
    match spec_lookup(fields, key) {
        Some(JsonValue::Bool(b)) => Some(b),
        _ => None,
    }
}

/// Reads a required boolean field.
pub fn get_bool(fields: &Vec<(String, JsonValue)>, key: &str) -> (r: Option<bool>)
    ensures
        r == spec_get_bool(fields@, key@),
{
    match lookup(fields, key) {
        Some(JsonValue::Bool(b)) => Some(*b),
        _ => None,
    }
}

/// An optional string: a missing field or a null reads as `None`, a
/// string as `Some`, anything else is a type mismatch.
pub open spec fn spec_get_opt_string(fields: Seq<(String, JsonValue)>, key: Seq<char>) -> Option<
    Option<String>,
> {
    match spec_lookup(fields, key) {
        None => Some(None),
        Some(JsonValue::Null) => Some(None),
        Some(JsonValue::Str(s)) => Some(Some(s)),
        Some(_) => None,
    }
}

/// Reads an optional string field.
pub fn get_opt_string(fields: &Vec<(String, JsonValue)>, key: &str) -> (r: Option<Option<String>>)
    ensures
        r == spec_get_opt_string(fields@, key@),
{
    match lookup(fields, key) {
        None => Some(None),
        Some(JsonValue::Null) => Some(None),
        Some(JsonValue::Str(s)) => Some(Some(s.clone())),
        Some(_) => None,
    }
}

/// An optional in-range integer: a missing field or a null reads as
/// `None`, a number in range as `Some`, anything else is a mismatch.
pub open spec fn spec_get_opt_isize(fields: Seq<(String, JsonValue)>, key: Seq<char>) -> Option<
    Option<isize>,
> {
    match spec_lookup(fields, key) {
        None => Some(None),
        Some(JsonValue::Null) => Some(None),
        Some(JsonValue::Int(i)) => if isize::MIN <= i <= isize::MAX {
            Some(Some(i as isize))
        } else {
            None
        },
        Some(_) => None,
    }
}

/// Reads an optional integer field into an `isize`.
pub fn get_opt_isize(fields: &Vec<(String, JsonValue)>, key: &str) -> (r: Option<Option<isize>>)
    ensures
        r == spec_get_opt_isize(fields@, key@),
{
    match lookup(fields, key) {
        None => Some(None),
        Some(JsonValue::Null) => Some(None),
        Some(JsonValue::Int(i)) => if isize::MIN as i64 <= *i && *i <= isize::MAX as i64 {
            Some(Some(*i as isize))
        } else {
            None
        },
        Some(_) => None,
    }
}

/// The array stored under `key`, when there is one.
pub open spec fn spec_get_arr(fields: Seq<(String, JsonValue)>, key: Seq<char>) -> Option<
    Seq<JsonValue>,
> {
    match spec_lookup(fields, key) {
        Some(JsonValue::Arr(items)) => Some(items@),
        _ => None,
    }
}

/// Reads a required array field.
pub fn get_arr<'a>(fields: &'a Vec<(String, JsonValue)>, key: &str) -> (r: Option<
    &'a Vec<JsonValue>,
>)
    ensures
        match r {
            Some(items) => spec_get_arr(fields@, key@) == Some(items@),
            None => spec_get_arr(fields@, key@) is None,
        },
{
    match lookup(fields, key) {
        Some(JsonValue::Arr(items)) => Some(items),
        _ => None,
    }
}

/// Decodes every element of `items` with `f`, or fails if any element
/// fails: the strict all-or-nothing reading of a payload list.
pub open spec fn spec_decode_seq<T>(
    items: Seq<JsonValue>,
    f: spec_fn(JsonValue) -> Option<T>,
) -> Option<Seq<T>> {
    if forall|i: int| 0 <= i < items.len() ==> (#[trigger] f(items[i])) is Some {
        Some(Seq::new(items.len(), |i: int| f(items[i]).unwrap()))
    } else {
        None
    }
}

} // verus!
