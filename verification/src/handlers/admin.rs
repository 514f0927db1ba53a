//! Administration endpoints: who the administrator is, the registration
//! allowlist, and the account summary.

use vstd::prelude::*;
use serde_json::Value;
use crate::decode::{
    dec_bool_or, dec_opt_bool, dec_string, object_of, read_bool_or, read_opt_bool, read_string,
    DecodeError,
};
use crate::error::{bad_request, is_bad_request, is_not_found, is_unauthorized, not_found, unauthorized, AppError};
use crate::json::{
    elements, entries, entry, is_flag, is_int, is_text, json_array, json_bool, json_int,
    json_object, json_string, map_new, object_view, put,
};
use crate::auth::{bearer_of, bearer_present, opt_str_view};
use crate::text::{contains_char, lowercase, to_lowercase, trim, trim_text};

verus! {

/// A request to add an address to the allowlist.
pub struct AllowlistRequest {
    pub email: String,
    pub enabled: Option<bool>,
}

/// A request to enable or disable an allowlisted address.
pub struct AllowlistPatch {
    pub enabled: bool,
}

impl AllowlistRequest {
    /// Reads the request from its JSON body.
    pub fn from_json(v: &Value) -> (r: Result<AllowlistRequest, DecodeError>)
        ensures
            r is Ok <==> (entries(*v) matches Some(m) && dec_string(entry(m, "email"@)) is Some
                && dec_opt_bool(entry(m, "enabled"@)) is Some),
            r matches Ok(x) ==> (entries(*v) matches Some(m) && dec_string(entry(m, "email"@)) == Some(
                x.email@,
            ) && dec_opt_bool(entry(m, "enabled"@)) == Some(x.enabled)),
    {
        let m = object_of(v)?;
        let email = read_string(m, "email")?;
        let enabled = read_opt_bool(m, "enabled")?;
        Ok(AllowlistRequest { email, enabled })
    }
}

impl AllowlistPatch {
    /// Reads the request from its JSON body; `enabled` is required.
    pub fn from_json(v: &Value) -> (r: Result<AllowlistPatch, DecodeError>)
        ensures
            r is Ok <==> (entries(*v) matches Some(m) && entry(m, "enabled"@) is Some && dec_bool_or(
                entry(m, "enabled"@),
                false,
            ) is Some),
            r matches Ok(x) ==> (entries(*v) matches Some(m) && dec_bool_or(entry(m, "enabled"@), false)
                == Some(x.enabled)),
    {
        let m = object_of(v)?;
        match crate::json::map_get(m, "enabled") {
            None => Err(DecodeError::MissingField("enabled".to_owned())),
            Some(_) => {
                let enabled = read_bool_or(m, "enabled", false)?;
                Ok(AllowlistPatch { enabled })
            },
        }
    }
}

/// An address as the allowlist keeps it: trimmed and lowercased.
pub open spec fn normalized(email: Seq<char>) -> Seq<char> {
    lowercase(trim(email))
}

/// An address is acceptable when, normalised, it is not empty and holds
/// an `@`.
pub open spec fn acceptable_email(email: Seq<char>) -> bool {
    normalized(email).len() > 0 && normalized(email).contains('@')
}

/// Normalises an address for the allowlist; refused with "Invalid email"
/// when the result is empty or lacks an `@`.
pub fn normalize_email(email: &str) -> (r: Result<String, AppError>)
    ensures
        r is Ok == acceptable_email(email@),
        r matches Ok(e) ==> e@ == normalized(email@),
        r matches Err(e) ==> is_bad_request(e, "Invalid email"@),
{
    let t = trim_text(email);
    let e = to_lowercase(t.as_str());
    if e.as_str().is_empty() || !contains_char(e.as_str(), '@') {
        return Err(bad_request("Invalid email"));
    }
    Ok(e)
}

/// The administrator's address from the `ADMIN_EMAIL` setting, trimmed and
/// lowercased; with none configured, administration is refused.
pub fn configured_admin(setting: &str) -> (r: Result<String, AppError>)
    ensures
        r is Ok == (normalized(setting@).len() > 0),
        r matches Ok(a) ==> a@ == normalized(setting@),
        r matches Err(e) ==> is_unauthorized(e, "Administrator access required"@),
{
    let t = trim_text(setting);
    let a = to_lowercase(t.as_str());
    if a.as_str().is_empty() {
        return Err(unauthorized("Administrator access required"));
    }
    Ok(a)
}

/// Whether a caller is the administrator: the request authenticated with
/// a bearer token (a session carried by the cookie alone is not enough),
/// and the caller's stored address, trimmed and lowercased, is `admin`.
pub open spec fn admin_granted(admin: Seq<char>, authorization: Option<Seq<char>>, current_email: Option<Seq<char>>) -> bool {
    &&& bearer_of(authorization) is Some
    &&& normalized(
        match current_email {
            Some(c) => c,
            None => ""@,
        },
    ) == admin
}

/// Grants administration to the caller whose request carried the
/// `Authorization` header value `authorization` (`None` where absent or not
/// text) and whose stored address is `current_email` (`None` when the
/// caller has no account); `admin` is the configured administrator address.
pub fn require_admin(admin: &str, authorization: Option<&str>, current_email: Option<&str>) -> (r: Result<(), AppError>)
    ensures
        r is Ok == admin_granted(admin@, opt_str_view(authorization), opt_str_view(current_email)),
        r matches Err(e) ==> is_unauthorized(e, "Administrator access required"@),
{
    if !bearer_present(authorization) {
        return Err(unauthorized("Administrator access required"));
    }
    let current: &str = match current_email {
        Some(c) => c,
        None => "",
    };
    proof {
        reveal_strlit("");
    }
    let t = trim_text(current);
    let c = to_lowercase(t.as_str());
    if c != admin.to_owned() {
        return Err(unauthorized("Administrator access required"));
    }
    Ok(())
}

/// A count, or 0 where the query found none.
pub open spec fn count_or_zero(n: Option<i64>) -> i64 {
    match n {
        Some(c) => c,
        None => 0,
    }
}

/// The account summary: user count, users with TOTP on, allowlist entries
/// and enabled allowlist entries (0 where a count is missing).
pub fn summary_json(users: Option<i64>, totp: Option<i64>, allowlist: Option<i64>, enabled: Option<i64>) -> (v: Value)
    ensures
        entries(v) matches Some(m) && m.dom() == set!["users"@, "totpEnabled"@, "allowlist"@, "allowlistEnabled"@]
            && is_int(m["users"@], count_or_zero(users) as int) && is_int(
            m["totpEnabled"@],
            count_or_zero(totp) as int,
        ) && is_int(m["allowlist"@], count_or_zero(allowlist) as int) && is_int(
            m["allowlistEnabled"@],
            count_or_zero(enabled) as int,
        ),
{
    proof {
        reveal_strlit("users");
        reveal_strlit("totpEnabled");
        reveal_strlit("allowlist");
        reveal_strlit("allowlistEnabled");
        assert("users"@.len() == 5);
        assert("totpEnabled"@.len() == 11);
        assert("allowlist"@.len() == 9);
        assert("allowlistEnabled"@.len() == 16);
    }
    let mut m = map_new();
    put(&mut m, "users", json_int(match users {
        Some(c) => c,
        None => 0,
    }));
    put(&mut m, "totpEnabled", json_int(match totp {
        Some(c) => c,
        None => 0,
    }));
    put(&mut m, "allowlist", json_int(match allowlist {
        Some(c) => c,
        None => 0,
    }));
    put(&mut m, "allowlistEnabled", json_int(match enabled {
        Some(c) => c,
        None => 0,
    }));
    assert(object_view(m).dom() =~= set!["users"@, "totpEnabled"@, "allowlist"@, "allowlistEnabled"@]);
    json_object(m)
}

/// The listing answer `{"data": rows}`.
pub fn data_json(rows: Vec<Value>) -> (v: Value)
    ensures
        entries(v) matches Some(m) && m.dom() == set!["data"@] && elements(m["data"@]) == Some(rows@),
{
    let mut m = map_new();
    put(&mut m, "data", json_array(rows));
    assert(object_view(m).dom() =~= set!["data"@]);
    json_object(m)
}

/// The stored `enabled` value of a new allowlist entry: 1 unless the
/// request disables it.
pub fn allowlist_enabled_flag(enabled: Option<bool>) -> (n: i64)
    ensures
        n == (match enabled {
            Some(false) => 0i64,
            _ => 1i64,
        }),
{
    match enabled {
        Some(false) => 0,
        _ => 1,
    }
}

/// `v` is the answer `{"email": email, "enabled": enabled}`.
pub open spec fn entry_answer(v: Value, email: Seq<char>, enabled: bool) -> bool {
    entries(v) matches Some(m) && m.dom() == set!["email"@, "enabled"@] && is_text(m["email"@], email)
        && is_flag(m["enabled"@], enabled)
}

fn entry_json(email: String, enabled: bool) -> (v: Value)
    ensures
        entry_answer(v, email@, enabled),
{
    proof {
        reveal_strlit("email");
        reveal_strlit("enabled");
        assert("email"@.len() == 5);
        assert("enabled"@.len() == 7);
    }
    let mut m = map_new();
    put(&mut m, "email", json_string(email));
    put(&mut m, "enabled", json_bool(enabled));
    assert(object_view(m).dom() =~= set!["email"@, "enabled"@]);
    json_object(m)
}

/// The answer to adding an allowlist entry: the address and whether the
/// stored flag is 1.
pub fn allowlist_entry_json(email: String, enabled: i64) -> (v: Value)
    ensures
        entry_answer(v, email@, enabled == 1),
{
    entry_json(email, enabled == 1)
}

/// The answer to enabling or disabling an allowlisted address, given how
/// many rows the update changed (`None` when the database did not say):
/// refused with "Allowlist email not found" when none changed.
pub fn patch_allowlist_outcome(email: String, enabled: bool, changes: Option<usize>) -> (r: Result<Value, AppError>)
    ensures
        r is Ok == (match changes {
            Some(n) => n != 0,
            None => false,
        }),
        r matches Ok(v) ==> entry_answer(v, email@, enabled),
        r matches Err(e) ==> is_not_found(e, "Allowlist email not found"@),
{
    let n = match changes {
        Some(n) => n,
        None => 0,
    };
    if n == 0 {
        return Err(not_found("Allowlist email not found"));
    }
    Ok(entry_json(email, enabled))
}

/// The stored flag for an enabled state: 1 or 0.
pub fn enabled_flag(enabled: bool) -> (n: i64)
    ensures
        n == (if enabled { 1i64 } else { 0i64 }),
{
    if enabled {
        1
    } else {
        0
    }
}

} // verus!
