//! The boundary with `serde_json`: the JSON value type of that crate is used
//! as is, and every operation the library performs on it goes through a
//! wrapper whose contract speaks of a one-level view of the value.

use vstd::prelude::*;
use serde_json::Value;

verus! {

#[verifier::external_type_specification]
#[verifier::external_body]
pub struct ExJsonValue(serde_json::Value);

#[verifier::external_type_specification]
#[verifier::external_body]
#[verifier::reject_recursive_types(K)]
#[verifier::reject_recursive_types(V)]
pub struct ExJsonMap<K, V>(serde_json::Map<K, V>);

/// A JSON object's entries, as `serde_json` holds them.
pub type JsonMap = serde_json::Map<String, Value>;

/// The number held by a JSON number value, as `serde_json` stores it:
/// a non-negative integer, a negative integer, or a finite float given by
/// its IEEE-754 bit pattern.
pub enum JsonNumber {
    PosInt(u64),
    NegInt(i64),
    Float(u64),
}

/// One level of a JSON value: its kind and its immediate contents.
/// Nested values stay `serde_json` values and have views of their own.
pub enum JsonView {
    Null,
    Bool(bool),
    Number(JsonNumber),
    String(Seq<char>),
    Array(Seq<Value>),
    Object(Map<Seq<char>, Value>),
}

/// What a `serde_json::Value` is, one level deep.
pub uninterp spec fn json_view(v: Value) -> JsonView;

/// The entries of a `serde_json::Map`.
pub uninterp spec fn object_view(m: JsonMap) -> Map<Seq<char>, Value>;

/// The compact JSON text that `serde_json::to_string` writes for a value.
pub uninterp spec fn json_text(v: Value) -> Seq<char>;

/// What `serde_json::from_str::<Value>` reads from a text: the value, or
/// `None` where the text is not one JSON value.
pub uninterp spec fn parsed_json(s: Seq<char>) -> Option<Value>;

// ---------------------------------------------------------------------------
// Views of common shapes
// ---------------------------------------------------------------------------

/// The number `serde_json` stores for a signed integer.
pub open spec fn int_number(n: int) -> JsonNumber {
    if n < 0 {
        JsonNumber::NegInt(n as i64)
    } else {
        JsonNumber::PosInt(n as u64)
    }
}

/// `v` is `null`.
pub open spec fn is_null(v: Value) -> bool {
    json_view(v) == JsonView::Null
}

/// `v` is the string `s`.
pub open spec fn is_text(v: Value, s: Seq<char>) -> bool {
    json_view(v) == JsonView::String(s)
}

/// `v` is the boolean `b`.
pub open spec fn is_flag(v: Value, b: bool) -> bool {
    json_view(v) == JsonView::Bool(b)
}

/// `v` is the integer `n`.
pub open spec fn is_int(v: Value, n: int) -> bool {
    json_view(v) == JsonView::Number(int_number(n))
}

/// `v` is the string `s`, or `null` where there is none.
pub open spec fn is_opt_text(v: Value, s: Option<Seq<char>>) -> bool {
    match s {
        Some(t) => is_text(v, t),
        None => is_null(v),
    }
}

/// `v` is a number.
pub open spec fn is_number(v: Value) -> bool {
    json_view(v) is Number
}

/// The entries of `v` if it is an object.
pub open spec fn entries(v: Value) -> Option<Map<Seq<char>, Value>> {
    match json_view(v) {
        JsonView::Object(m) => Some(m),
        _ => None,
    }
}

/// The elements of `v` if it is an array.
pub open spec fn elements(v: Value) -> Option<Seq<Value>> {
    match json_view(v) {
        JsonView::Array(s) => Some(s),
        _ => None,
    }
}

/// The characters of `v` if it is a string.
pub open spec fn text_of(v: Value) -> Option<Seq<char>> {
    match json_view(v) {
        JsonView::String(s) => Some(s),
        _ => None,
    }
}

/// `Value::get` with a key: the entry `k` of `v` if `v` is an object that
/// has one.
pub open spec fn member(v: Value, k: Seq<char>) -> Option<Value> {
    match json_view(v) {
        JsonView::Object(m) => if m.contains_key(k) {
            Some(m[k])
        } else {
            None
        },
        _ => None,
    }
}

/// The entry `k` of the map `m`, if any.
pub open spec fn entry(m: Map<Seq<char>, Value>, k: Seq<char>) -> Option<Value> {
    if m.contains_key(k) {
        Some(m[k])
    } else {
        None
    }
}

/// `Number::as_i64`.
pub open spec fn number_as_i64(n: JsonNumber) -> Option<i64> {
    match n {
        JsonNumber::PosInt(u) => if u <= i64::MAX {
            Some(u as i64)
        } else {
            None
        },
        JsonNumber::NegInt(i) => Some(i),
        JsonNumber::Float(_) => None,
    }
}

/// `Value::as_i64`.
pub open spec fn as_i64(v: Value) -> Option<i64> {
    match json_view(v) {
        JsonView::Number(n) => number_as_i64(n),
        _ => None,
    }
}

// ---------------------------------------------------------------------------
// Building values
// ---------------------------------------------------------------------------

/// `Value::Null`.
#[verifier::external_body]
pub(crate) fn json_null() -> (v: Value)
    ensures
        json_view(v) == JsonView::Null,
{
    Value::Null
}

/// `Value::Bool`.
#[verifier::external_body]
pub(crate) fn json_bool(b: bool) -> (v: Value)
    ensures
        json_view(v) == JsonView::Bool(b),
{
    Value::Bool(b)
}

/// `Value::from(i64)`: a number holding `n` as `serde_json` stores integers.
#[verifier::external_body]
pub(crate) fn json_int(n: i64) -> (v: Value)
    ensures
        json_view(v) == JsonView::Number(int_number(n as int)),
{
    Value::from(n)
}

/// `Value::String`.
#[verifier::external_body]
pub(crate) fn json_string(s: String) -> (v: Value)
    ensures
        json_view(v) == JsonView::String(s@),
{
    Value::String(s)
}

/// `Value::Array`.
#[verifier::external_body]
pub(crate) fn json_array(a: Vec<Value>) -> (v: Value)
    ensures
        json_view(v) == JsonView::Array(a@),
{
    Value::Array(a)
}

/// `Value::Object`.
#[verifier::external_body]
pub(crate) fn json_object(m: JsonMap) -> (v: Value)
    ensures
        json_view(v) == JsonView::Object(object_view(m)),
{
    Value::Object(m)
}

/// The float number `0.0`, read by `serde_json::from_str` from the text
/// `0.0` (a number with a fraction part is stored as a float; `0.0` has the
/// bit pattern 0).
#[verifier::external_body]
pub(crate) fn json_float_zero() -> (v: Value)
    ensures
        json_view(v) == JsonView::Number(JsonNumber::Float(0)),
{
    serde_json::from_str("0.0").unwrap()
}

/// `Value::clone`: an equal value.
#[verifier::external_body]
pub(crate) fn json_clone(v: &Value) -> (r: Value)
    ensures
        r == *v,
{
    v.clone()
}

// ---------------------------------------------------------------------------
// Maps
// ---------------------------------------------------------------------------

/// `Map::new`: an empty map.
#[verifier::external_body]
pub(crate) fn map_new() -> (m: JsonMap)
    ensures
        object_view(m).dom().is_empty(),
{
    serde_json::Map::new()
}

/// `Map::insert`: sets the entry of `k` to `v`, replacing any entry that
/// was there.
#[verifier::external_body]
pub(crate) fn map_insert(m: &mut JsonMap, k: String, v: Value)
    ensures
        object_view(*final(m)) == object_view(*old(m)).insert(k@, v),
{
    m.insert(k, v);
}

/// `Map::get`: the entry of `k`, if any.
#[verifier::external_body]
pub(crate) fn map_get<'a>(m: &'a JsonMap, k: &str) -> (r: Option<&'a Value>)
    ensures
        r is Some == object_view(*m).contains_key(k@),
        r matches Some(v) ==> *v == object_view(*m)[k@],
{
    m.get(k)
}

// ---------------------------------------------------------------------------
// Reading values
// ---------------------------------------------------------------------------

/// `Value::as_object`.
#[verifier::external_body]
pub(crate) fn as_object<'a>(v: &'a Value) -> (r: Option<&'a JsonMap>)
    ensures
        r is Some == json_view(*v) is Object,
        r matches Some(m) ==> json_view(*v) == JsonView::Object(object_view(*m)),
{
    v.as_object()
}

/// The map of an object value, taken out of it (`Value::Object(m) => m`).
#[verifier::external_body]
pub(crate) fn into_object(v: Value) -> (r: Option<JsonMap>)
    ensures
        r is Some == json_view(v) is Object,
        r matches Some(m) ==> json_view(v) == JsonView::Object(object_view(m)),
{
    match v {
        Value::Object(m) => Some(m),
        _ => None,
    }
}

/// `Value::as_array`.
#[verifier::external_body]
pub(crate) fn as_array<'a>(v: &'a Value) -> (r: Option<&'a Vec<Value>>)
    ensures
        r is Some == json_view(*v) is Array,
        r matches Some(a) ==> json_view(*v) == JsonView::Array(a@),
{
    v.as_array()
}

/// `Value::as_str`.
#[verifier::external_body]
pub(crate) fn as_str<'a>(v: &'a Value) -> (r: Option<&'a str>)
    ensures
        r is Some == json_view(*v) is String,
        r matches Some(s) ==> json_view(*v) == JsonView::String(s@),
{
    v.as_str()
}

/// `Value::as_bool`.
#[verifier::external_body]
pub(crate) fn as_bool(v: &Value) -> (r: Option<bool>)
    ensures
        r is Some == json_view(*v) is Bool,
        r matches Some(b) ==> json_view(*v) == JsonView::Bool(b),
{
    v.as_bool()
}

/// `Value::as_i64`.
#[verifier::external_body]
pub(crate) fn value_as_i64(v: &Value) -> (r: Option<i64>)
    ensures
        r == as_i64(*v),
{
    v.as_i64()
}

/// `Value::as_u64`: the integer of a non-negative integer number.
#[verifier::external_body]
pub(crate) fn value_as_u64(v: &Value) -> (r: Option<u64>)
    ensures
        r is Some == json_view(*v) matches JsonView::Number(JsonNumber::PosInt(_)),
        r matches Some(u) ==> json_view(*v) == JsonView::Number(JsonNumber::PosInt(u)),
{
    v.as_u64()
}

/// `Value::is_number`.
#[verifier::external_body]
pub(crate) fn value_is_number(v: &Value) -> (r: bool)
    ensures
        r == json_view(*v) is Number,
{
    v.is_number()
}

/// `Value::is_null`.
#[verifier::external_body]
pub(crate) fn value_is_null(v: &Value) -> (r: bool)
    ensures
        r == (json_view(*v) == JsonView::Null),
{
    v.is_null()
}

// ---------------------------------------------------------------------------
// Text
// ---------------------------------------------------------------------------

/// `serde_json::to_string`: the compact text of `v`. On a `Value` it
/// succeeds: it writes into a `Vec`, object keys are strings and a `Value`
/// holds no non-finite float. The `Err` arm carries the text of an error
/// that does not arise.
#[verifier::external_body]
pub(crate) fn to_json_text(v: &Value) -> (r: Result<String, String>)
    ensures
        r is Ok,
        r matches Ok(s) ==> s@ == json_text(*v),
{
    serde_json::to_string(v).map_err(|e| e.to_string())
}

/// `serde_json::from_str::<Value>`, with the error dropped.
#[verifier::external_body]
pub(crate) fn parse_json(s: &str) -> (r: Option<Value>)
    ensures
        r == parsed_json(s@),
{
    serde_json::from_str(s).ok()
}

// ---------------------------------------------------------------------------
// Verified helpers
// ---------------------------------------------------------------------------

/// A string value holding the characters of `s`.
pub fn json_str(s: &str) -> (v: Value)
    ensures
        is_text(v, s@),
{
    json_string(s.to_owned())
}

/// A string value for `Some`, `null` for `None`, as `json!` writes an
/// `Option<String>`.
pub fn json_opt_string(s: &Option<String>) -> (v: Value)
    ensures
        is_opt_text(v, opt_view(*s)),
{
    match s {
        Some(t) => json_string(t.clone()),
        None => json_null(),
    }
}

/// The characters of an optional string.
pub open spec fn opt_view(s: Option<String>) -> Option<Seq<char>> {
    match s {
        Some(t) => Some(t@),
        None => None,
    }
}

/// `Value::get` with a key.
pub fn get<'a>(v: &'a Value, k: &str) -> (r: Option<&'a Value>)
    ensures
        r matches Some(x) ==> member(*v, k@) == Some(*x),
        r is None ==> member(*v, k@) is None,
{
    match as_object(v) {
        Some(m) => map_get(m, k),
        None => None,
    }
}

/// A copy of the entry `k` of `m`, or `null` where there is none.
pub fn get_or_null(m: &JsonMap, k: &str) -> (r: Value)
    ensures
        entry(object_view(*m), k@) matches Some(x) ==> r == x,
        entry(object_view(*m), k@) is None ==> is_null(r),
{
    match map_get(m, k) {
        Some(x) => json_clone(x),
        None => json_null(),
    }
}

/// Sets the entry of the key `k` (a text) to `v`.
pub fn put(m: &mut JsonMap, k: &str, v: Value)
    ensures
        object_view(*final(m)) == object_view(*old(m)).insert(k@, v),
{
    map_insert(m, k.to_owned(), v);
}

} // verus!
