//! Reading typed fields out of JSON objects, with the rules by which serde's
//! derived decoders read a JSON object into a struct: a missing `Option`
//! field or a `null` one is `None`, a missing required field is an error,
//! and a value of the wrong kind is an error.

use vstd::prelude::*;
use serde_json::Value;
use crate::json::{
    as_array, as_bool, as_object, as_str, entries, entry, is_null, json_clone, json_view, map_get, number_as_i64,
    object_view, text_of, value_as_i64, value_as_u64, value_is_null, JsonMap, JsonNumber, JsonView,
};

verus! {

/// Why a JSON value could not be read as a record.
#[derive(Debug, Clone, PartialEq, Eq)]
pub enum DecodeError {
    /// The value is not a JSON object.
    NotAnObject,
    /// A required field is absent.
    MissingField(String),
    /// A field holds a value of the wrong kind or out of range.
    InvalidField(String),
    /// A field-specific rule refused the value; the text says why.
    Custom(String),
}

/// The number as an `i32`, as serde reads an `i32` from a JSON number.
pub open spec fn number_as_i32(n: JsonNumber) -> Option<i32> {
    match number_as_i64(n) {
        Some(x) => if i32::MIN <= x <= i32::MAX {
            Some(x as i32)
        } else {
            None
        },
        None => None,
    }
}

/// A required string field.
pub open spec fn dec_string(e: Option<Value>) -> Option<Seq<char>> {
    match e {
        Some(v) => text_of(v),
        None => None,
    }
}

/// An optional string field: `Some(None)` when absent or `null`.
pub open spec fn dec_opt_string(e: Option<Value>) -> Option<Option<Seq<char>>> {
    match e {
        None => Some(None),
        Some(v) => match json_view(v) {
            JsonView::Null => Some(None),
            JsonView::String(s) => Some(Some(s)),
            _ => None,
        },
    }
}

/// A required `i32` field.
pub open spec fn dec_i32(e: Option<Value>) -> Option<i32> {
    match e {
        Some(v) => match json_view(v) {
            JsonView::Number(n) => number_as_i32(n),
            _ => None,
        },
        None => None,
    }
}

/// An optional `i32` field.
pub open spec fn dec_opt_i32(e: Option<Value>) -> Option<Option<i32>> {
    match e {
        None => Some(None),
        Some(v) => match json_view(v) {
            JsonView::Null => Some(None),
            JsonView::Number(n) => match number_as_i32(n) {
                Some(x) => Some(Some(x)),
                None => None,
            },
            _ => None,
        },
    }
}

/// A required `usize` field.
pub open spec fn dec_usize(e: Option<Value>) -> Option<usize> {
    match e {
        Some(v) => match json_view(v) {
            JsonView::Number(JsonNumber::PosInt(u)) => if u <= usize::MAX {
                Some(u as usize)
            } else {
                None
            },
            _ => None,
        },
        None => None,
    }
}

/// A required boolean field.
pub open spec fn dec_bool(e: Option<Value>) -> Option<bool> {
    match e {
        Some(v) => match json_view(v) {
            JsonView::Bool(b) => Some(b),
            _ => None,
        },
        None => None,
    }
}

/// A boolean field that takes `default` when absent.
pub open spec fn dec_bool_or(e: Option<Value>, default: bool) -> Option<bool> {
    match e {
        None => Some(default),
        Some(v) => match json_view(v) {
            JsonView::Bool(b) => Some(b),
            _ => None,
        },
    }
}

/// An optional boolean field.
pub open spec fn dec_opt_bool(e: Option<Value>) -> Option<Option<bool>> {
    match e {
        None => Some(None),
        Some(v) => match json_view(v) {
            JsonView::Null => Some(None),
            JsonView::Bool(b) => Some(Some(b)),
            _ => None,
        },
    }
}

/// An optional field holding any JSON value: `Some(None)` when absent or
/// `null`.
pub open spec fn dec_opt_value(e: Option<Value>) -> Option<Option<Value>> {
    match e {
        None => Some(None),
        Some(v) => if is_null(v) {
            Some(None)
        } else {
            Some(Some(v))
        },
    }
}

/// The characters of an optional string.
pub open spec fn opt_chars(s: Option<String>) -> Option<Seq<char>> {
    match s {
        Some(t) => Some(t@),
        None => None,
    }
}

/// The entries of `v`, or an error if it is not an object.
pub fn object_of<'a>(v: &'a Value) -> (r: Result<&'a JsonMap, DecodeError>)
    ensures
        r is Ok == entries(*v) is Some,
        r matches Ok(m) ==> entries(*v) == Some(object_view(*m)),
        r matches Err(e) ==> e == DecodeError::NotAnObject,
{
    match as_object(v) {
        Some(m) => Ok(m),
        None => Err(DecodeError::NotAnObject),
    }
}

fn missing(k: &str) -> (e: DecodeError)
    ensures
        e matches DecodeError::MissingField(f) && f@ == k@,
{
    DecodeError::MissingField(k.to_owned())
}

fn invalid(k: &str) -> (e: DecodeError)
    ensures
        e matches DecodeError::InvalidField(f) && f@ == k@,
{
    DecodeError::InvalidField(k.to_owned())
}

/// A required string field of `m`.
pub fn read_string(m: &JsonMap, k: &str) -> (r: Result<String, DecodeError>)
    ensures
        r is Ok == dec_string(entry(object_view(*m), k@)) is Some,
        r matches Ok(s) ==> dec_string(entry(object_view(*m), k@)) == Some(s@),
{
    match map_get(m, k) {
        None => Err(missing(k)),
        Some(v) => match as_str(v) {
            Some(s) => Ok(s.to_owned()),
            None => Err(invalid(k)),
        },
    }
}

/// An optional string field of `m`.
pub fn read_opt_string(m: &JsonMap, k: &str) -> (r: Result<Option<String>, DecodeError>)
    ensures
        r is Ok == dec_opt_string(entry(object_view(*m), k@)) is Some,
        r matches Ok(s) ==> dec_opt_string(entry(object_view(*m), k@)) == Some(opt_chars(s)),
{
    match map_get(m, k) {
        None => Ok(None),
        Some(v) => {
            if value_is_null(v) {
                Ok(None)
            } else {
                match as_str(v) {
                    Some(s) => Ok(Some(s.to_owned())),
                    None => Err(invalid(k)),
                }
            }
        },
    }
}

/// The `i32` a number value holds, if it is a number in range.
pub fn value_as_i32(v: &Value) -> (r: Option<i32>)
    ensures
        r == (match json_view(*v) {
            JsonView::Number(n) => number_as_i32(n),
            _ => None,
        }),
{
    match value_as_i64(v) {
        Some(x) => {
            if -2147483648i64 <= x && x <= 2147483647i64 {
                Some(x as i32)
            } else {
                None
            }
        },
        None => None,
    }
}

/// A required `i32` field of `m`.
pub fn read_i32(m: &JsonMap, k: &str) -> (r: Result<i32, DecodeError>)
    ensures
        r is Ok == dec_i32(entry(object_view(*m), k@)) is Some,
        r matches Ok(x) ==> dec_i32(entry(object_view(*m), k@)) == Some(x),
{
    match map_get(m, k) {
        None => Err(missing(k)),
        Some(v) => match value_as_i32(v) {
            Some(x) => Ok(x),
            None => Err(invalid(k)),
        },
    }
}

/// An optional `i32` field of `m`.
pub fn read_opt_i32(m: &JsonMap, k: &str) -> (r: Result<Option<i32>, DecodeError>)
    ensures
        r is Ok == dec_opt_i32(entry(object_view(*m), k@)) is Some,
        r matches Ok(x) ==> dec_opt_i32(entry(object_view(*m), k@)) == Some(x),
{
    match map_get(m, k) {
        None => Ok(None),
        Some(v) => {
            if value_is_null(v) {
                Ok(None)
            } else {
                match value_as_i32(v) {
                    Some(x) => Ok(Some(x)),
                    None => Err(invalid(k)),
                }
            }
        },
    }
}

/// A required `usize` field of `m`.
pub fn read_usize(m: &JsonMap, k: &str) -> (r: Result<usize, DecodeError>)
    ensures
        r is Ok == dec_usize(entry(object_view(*m), k@)) is Some,
        r matches Ok(x) ==> dec_usize(entry(object_view(*m), k@)) == Some(x),
{
    match map_get(m, k) {
        None => Err(missing(k)),
        Some(v) => match value_as_u64(v) {
            Some(u) => {
                if u as u128 <= usize::MAX as u128 {
                    Ok(u as usize)
                } else {
                    Err(invalid(k))
                }
            },
            None => Err(invalid(k)),
        },
    }
}

/// A required boolean field of `m`.
pub fn read_bool(m: &JsonMap, k: &str) -> (r: Result<bool, DecodeError>)
    ensures
        r is Ok == dec_bool(entry(object_view(*m), k@)) is Some,
        r matches Ok(b) ==> dec_bool(entry(object_view(*m), k@)) == Some(b),
{
    match map_get(m, k) {
        None => Err(missing(k)),
        Some(v) => match as_bool(v) {
            Some(b) => Ok(b),
            None => Err(invalid(k)),
        },
    }
}

/// A boolean field of `m` that takes `default` when absent.
pub fn read_bool_or(m: &JsonMap, k: &str, default: bool) -> (r: Result<bool, DecodeError>)
    ensures
        r is Ok == dec_bool_or(entry(object_view(*m), k@), default) is Some,
        r matches Ok(b) ==> dec_bool_or(entry(object_view(*m), k@), default) == Some(b),
{
    match map_get(m, k) {
        None => Ok(default),
        Some(v) => match as_bool(v) {
            Some(b) => Ok(b),
            None => Err(invalid(k)),
        },
    }
}

/// An optional boolean field of `m`.
pub fn read_opt_bool(m: &JsonMap, k: &str) -> (r: Result<Option<bool>, DecodeError>)
    ensures
        r is Ok == dec_opt_bool(entry(object_view(*m), k@)) is Some,
        r matches Ok(b) ==> dec_opt_bool(entry(object_view(*m), k@)) == Some(b),
{
    match map_get(m, k) {
        None => Ok(None),
        Some(v) => {
            if value_is_null(v) {
                Ok(None)
            } else {
                match as_bool(v) {
                    Some(b) => Ok(Some(b)),
                    None => Err(invalid(k)),
                }
            }
        },
    }
}

/// An optional field of `m` holding any JSON value.
pub fn read_opt_value(m: &JsonMap, k: &str) -> (r: Option<Value>)
    ensures
        dec_opt_value(entry(object_view(*m), k@)) == Some(r),
{
    match map_get(m, k) {
        None => None,
        Some(v) => {
            if value_is_null(v) {
                None
            } else {
                Some(json_clone(v))
            }
        },
    }
}

/// An optional object field: `Some(None)` when absent or `null`, the
/// entries when it is an object.
pub open spec fn dec_opt_object(e: Option<Value>) -> Option<Option<Map<Seq<char>, Value>>> {
    match e {
        None => Some(None),
        Some(v) => match json_view(v) {
            JsonView::Null => Some(None),
            JsonView::Object(m) => Some(Some(m)),
            _ => None,
        },
    }
}

/// An optional object field of `m`.
pub fn read_opt_object<'a>(m: &'a JsonMap, k: &str) -> (r: Result<Option<&'a JsonMap>, DecodeError>)
    ensures
        r is Ok == dec_opt_object(entry(object_view(*m), k@)) is Some,
        r matches Ok(o) ==> dec_opt_object(entry(object_view(*m), k@)) == Some(
            match o {
                Some(x) => Some(object_view(*x)),
                None => None,
            },
        ),
{
    match map_get(m, k) {
        None => Ok(None),
        Some(v) => {
            if value_is_null(v) {
                Ok(None)
            } else {
                match as_object(v) {
                    Some(o) => Ok(Some(o)),
                    None => Err(invalid(k)),
                }
            }
        },
    }
}

/// A required object field: the entries when it is an object.
pub open spec fn dec_object(e: Option<Value>) -> Option<Map<Seq<char>, Value>> {
    match e {
        Some(v) => entries(v),
        None => None,
    }
}

/// A required object field of `m`.
pub fn read_object<'a>(m: &'a JsonMap, k: &str) -> (r: Result<&'a JsonMap, DecodeError>)
    ensures
        r is Ok == dec_object(entry(object_view(*m), k@)) is Some,
        r matches Ok(o) ==> dec_object(entry(object_view(*m), k@)) == Some(object_view(*o)),
{
    match map_get(m, k) {
        None => Err(missing(k)),
        Some(v) => match as_object(v) {
            Some(o) => Ok(o),
            None => Err(invalid(k)),
        },
    }
}

/// Whether every element is a string.
pub open spec fn all_texts(s: Seq<Value>) -> bool {
    forall|i: int| 0 <= i < s.len() ==> text_of(#[trigger] s[i]) is Some
}

/// The strings of an array value.
pub open spec fn texts_of(s: Seq<Value>) -> Seq<Seq<char>> {
    Seq::new(s.len(), |i: int| text_of(s[i])->0)
}

/// A list-of-strings field: `Some(None)` when absent (or `null` where
/// `null` is allowed), the strings when it is an array of strings.
pub open spec fn dec_string_list(e: Option<Value>, null_ok: bool) -> Option<Option<Seq<Seq<char>>>> {
    match e {
        None => Some(None),
        Some(v) => match json_view(v) {
            JsonView::Null => if null_ok {
                Some(None)
            } else {
                None
            },
            JsonView::Array(s) => if all_texts(s) {
                Some(Some(texts_of(s)))
            } else {
                None
            },
            _ => None,
        },
    }
}

/// The characters of each string.
pub open spec fn strings_view(v: Vec<String>) -> Seq<Seq<char>> {
    Seq::new(v@.len(), |i: int| v@[i]@)
}

/// A list-of-strings field of `m`; `null_ok` says whether `null` counts as
/// absent.
pub fn read_string_list(m: &JsonMap, k: &str, null_ok: bool) -> (r: Result<Option<Vec<String>>, DecodeError>)
    ensures
        r is Ok == dec_string_list(entry(object_view(*m), k@), null_ok) is Some,
        r matches Ok(o) ==> dec_string_list(entry(object_view(*m), k@), null_ok) == Some(
            match o {
                Some(l) => Some(strings_view(l)),
                None => None,
            },
        ),
{
    let v = match map_get(m, k) {
        None => return Ok(None),
        Some(v) => v,
    };
    if null_ok && value_is_null(v) {
        return Ok(None);
    }
    let a = match as_array(v) {
        Some(a) => a,
        None => return Err(invalid(k)),
    };
    let mut out: Vec<String> = Vec::new();
    let mut i: usize = 0;
    while i < a.len()
        invariant
            i <= a@.len(),
            out@.len() == i,
            entry(object_view(*m), k@) == Some(*v),
            json_view(*v) == JsonView::Array(a@),
            forall|j: int| 0 <= j < i ==> text_of(#[trigger] a@[j]) == Some(out@[j]@),
        decreases a@.len() - i,
    {
        match as_str(&a[i]) {
            Some(s) => out.push(s.to_owned()),
            None => return Err(invalid(k)),
        }
        i = i + 1;
    }
    assert(strings_view(out) =~= texts_of(a@));
    Ok(Some(out))
}

} // verus!
