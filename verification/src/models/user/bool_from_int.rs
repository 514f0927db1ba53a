//! Flags stored as the integers 0 and 1.

use vstd::prelude::*;
use serde_json::Value;
use crate::decode::DecodeError;
use crate::json::{as_i64, value_as_i64};

verus! {

/// A flag stored as an integer: 0 is `false`, 1 is `true`.
pub open spec fn int_flag(v: Value) -> Option<bool> {
    match as_i64(v) {
        Some(n) => if n == 0 {
            Some(false)
        } else if n == 1 {
            Some(true)
        } else {
            None
        },
        None => None,
    }
}

/// Reads a flag stored as the integer 0 or 1; any other integer, and
/// anything but an integer, is refused.
pub fn deserialize(v: &Value) -> (r: Result<bool, DecodeError>)
    ensures
        r is Ok == int_flag(*v) is Some,
        r matches Ok(b) ==> int_flag(*v) == Some(b),
        (as_i64(*v) is Some && int_flag(*v) is None) ==> (r matches Err(DecodeError::Custom(m)) && m@
            == "expected integer 0 or 1"@),
{
    match value_as_i64(v) {
        Some(n) => {
            if n == 0 {
                Ok(false)
            } else if n == 1 {
                Ok(true)
            } else {
                Err(DecodeError::Custom("expected integer 0 or 1".to_owned()))
            }
        },
        None => Err(DecodeError::InvalidField("email_verified".to_owned())),
    }
}

/// The integer a flag is stored as: 1 for `true`, 0 for `false`.
pub fn serialize(value: bool) -> (n: i64)
    ensures
        n == (if value { 1i64 } else { 0i64 }),
{
    if value {
        1
    } else {
        0
    }
}

} // verus!
