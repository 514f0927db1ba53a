//! Account endpoints: profile, prelogin, registration, and changing the
//! master password or the e-mail address.

use vstd::prelude::*;
use serde_json::Value;
use crate::decode::{
    dec_opt_i32, dec_opt_string, dec_string, object_of, opt_chars, read_opt_i32, read_opt_string,
    read_string, DecodeError,
};
use crate::error::{
    bad_request, is_bad_request, is_unauthorized, unauthorized, AppError,
};
use crate::json::{
    as_i64, as_str, elements, entries, entry, get, is_flag, is_int, is_null, is_opt_text, is_text,
    json_array, json_bool, json_int, json_null, json_object, json_opt_string, json_str,
    json_string, map_new, member, object_view, put, text_of, value_as_i64, JsonMap,
};
use crate::models::user::{
    key_data_of, opt_key_data_of, opt_key_data_reads, read_opt_key_data, KeyData, PreloginResponse,
    RegisterRequest, User,
};
use crate::text::{
    contains_text, has_piece, lowercase, parse_bool, parse_bool_spec, to_lowercase, trim,
    trim_text,
};

verus! {

/// A request to change the master password.
pub struct ChangeMasterPasswordRequest {
    pub master_password_hash: String,
    pub new_master_password_hash: String,
    pub master_password_hint: Option<String>,
    pub user_symmetric_key: String,
    pub user_asymmetric_keys: Option<KeyData>,
    pub kdf: Option<i32>,
    pub kdf_iterations: Option<i32>,
}

/// A request to change the e-mail address.
pub struct ChangeEmailRequest {
    pub master_password_hash: String,
    pub new_master_password_hash: String,
    pub new_email: String,
    pub user_symmetric_key: String,
    pub kdf: Option<i32>,
    pub kdf_iterations: Option<i32>,
}

/// Every field of a master-password change request reads.
pub open spec fn change_password_reads(m: Map<Seq<char>, Value>) -> bool {
    &&& dec_string(entry(m, "masterPasswordHash"@)) is Some
    &&& dec_string(entry(m, "newMasterPasswordHash"@)) is Some
    &&& dec_opt_string(entry(m, "masterPasswordHint"@)) is Some
    &&& dec_string(entry(m, "userSymmetricKey"@)) is Some
    &&& opt_key_data_reads(entry(m, "userAsymmetricKeys"@))
    &&& dec_opt_i32(entry(m, "kdf"@)) is Some
    &&& dec_opt_i32(entry(m, "kdfIterations"@)) is Some
}

/// `x` holds the master-password change request `m`.
pub open spec fn change_password_of(x: ChangeMasterPasswordRequest, m: Map<Seq<char>, Value>) -> bool {
    &&& dec_string(entry(m, "masterPasswordHash"@)) == Some(x.master_password_hash@)
    &&& dec_string(entry(m, "newMasterPasswordHash"@)) == Some(x.new_master_password_hash@)
    &&& dec_opt_string(entry(m, "masterPasswordHint"@)) == Some(opt_chars(x.master_password_hint))
    &&& dec_string(entry(m, "userSymmetricKey"@)) == Some(x.user_symmetric_key@)
    &&& opt_key_data_of(x.user_asymmetric_keys, entry(m, "userAsymmetricKeys"@))
    &&& dec_opt_i32(entry(m, "kdf"@)) == Some(x.kdf)
    &&& dec_opt_i32(entry(m, "kdfIterations"@)) == Some(x.kdf_iterations)
}

impl ChangeMasterPasswordRequest {
    /// Reads the request from its JSON body (camel-case keys).
    pub fn from_json(v: &Value) -> (r: Result<ChangeMasterPasswordRequest, DecodeError>)
        ensures
            r is Ok <==> (entries(*v) matches Some(m) && change_password_reads(m)),
            r matches Ok(x) ==> change_password_of(x, entries(*v)->0),
    {
        let m = object_of(v)?;
        let master_password_hash = read_string(m, "masterPasswordHash")?;
        let new_master_password_hash = read_string(m, "newMasterPasswordHash")?;
        let master_password_hint = read_opt_string(m, "masterPasswordHint")?;
        let user_symmetric_key = read_string(m, "userSymmetricKey")?;
        let user_asymmetric_keys = read_opt_key_data(m, "userAsymmetricKeys")?;
        let kdf = read_opt_i32(m, "kdf")?;
        let kdf_iterations = read_opt_i32(m, "kdfIterations")?;
        Ok(ChangeMasterPasswordRequest {
            master_password_hash,
            new_master_password_hash,
            master_password_hint,
            user_symmetric_key,
            user_asymmetric_keys,
            kdf,
            kdf_iterations,
        })
    }
}

/// Every field of an e-mail change request reads.
pub open spec fn change_email_reads(m: Map<Seq<char>, Value>) -> bool {
    &&& dec_string(entry(m, "masterPasswordHash"@)) is Some
    &&& dec_string(entry(m, "newMasterPasswordHash"@)) is Some
    &&& dec_string(entry(m, "newEmail"@)) is Some
    &&& dec_string(entry(m, "userSymmetricKey"@)) is Some
    &&& dec_opt_i32(entry(m, "kdf"@)) is Some
    &&& dec_opt_i32(entry(m, "kdfIterations"@)) is Some
}

/// `x` holds the e-mail change request `m`.
pub open spec fn change_email_of(x: ChangeEmailRequest, m: Map<Seq<char>, Value>) -> bool {
    &&& dec_string(entry(m, "masterPasswordHash"@)) == Some(x.master_password_hash@)
    &&& dec_string(entry(m, "newMasterPasswordHash"@)) == Some(x.new_master_password_hash@)
    &&& dec_string(entry(m, "newEmail"@)) == Some(x.new_email@)
    &&& dec_string(entry(m, "userSymmetricKey"@)) == Some(x.user_symmetric_key@)
    &&& dec_opt_i32(entry(m, "kdf"@)) == Some(x.kdf)
    &&& dec_opt_i32(entry(m, "kdfIterations"@)) == Some(x.kdf_iterations)
}

impl ChangeEmailRequest {
    /// Reads the request from its JSON body (camel-case keys).
    pub fn from_json(v: &Value) -> (r: Result<ChangeEmailRequest, DecodeError>)
        ensures
            r is Ok <==> (entries(*v) matches Some(m) && change_email_reads(m)),
            r matches Ok(x) ==> change_email_of(x, entries(*v)->0),
    {
        let m = object_of(v)?;
        let master_password_hash = read_string(m, "masterPasswordHash")?;
        let new_master_password_hash = read_string(m, "newMasterPasswordHash")?;
        let new_email = read_string(m, "newEmail")?;
        let user_symmetric_key = read_string(m, "userSymmetricKey")?;
        let kdf = read_opt_i32(m, "kdf")?;
        let kdf_iterations = read_opt_i32(m, "kdfIterations")?;
        Ok(ChangeEmailRequest {
            master_password_hash,
            new_master_password_hash,
            new_email,
            user_symmetric_key,
            kdf,
            kdf_iterations,
        })
    }
}

// ---------------------------------------------------------------------------
// Profile
// ---------------------------------------------------------------------------

/// The lengths and leading characters of the keys of a profile answer,
/// which tell the keys apart.
pub proof fn lemma_profile_key_facts()
    ensures
        "id"@.len() == 2,
        "name"@.len() == 4,
        "email"@.len() == 5,
        "emailVerified"@.len() == 13,
        "emailVerified"@[0] == 'e',
        "premium"@.len() == 7,
        "premium"@[0] == 'p',
        "premiumFromOrganization"@.len() == 23,
        "masterPasswordHint"@.len() == 18,
        "culture"@.len() == 7,
        "culture"@[0] == 'c',
        "twoFactorEnabled"@.len() == 16,
        "key"@.len() == 3,
        "privateKey"@.len() == 10,
        "securityStamp"@.len() == 13,
        "securityStamp"@[0] == 's',
        "organizations"@.len() == 13,
        "organizations"@[0] == 'o',
        "object"@.len() == 6,
{
    reveal_strlit("id");
    reveal_strlit("name");
    reveal_strlit("email");
    reveal_strlit("emailVerified");
    reveal_strlit("premium");
    reveal_strlit("premiumFromOrganization");
    reveal_strlit("masterPasswordHint");
    reveal_strlit("culture");
    reveal_strlit("twoFactorEnabled");
    reveal_strlit("key");
    reveal_strlit("privateKey");
    reveal_strlit("securityStamp");
    reveal_strlit("organizations");
    reveal_strlit("object");
}

/// `v` is the profile answer for `user`.
pub open spec fn profile_answer(user: User, two_factor_enabled: bool, v: Value) -> bool {
    entries(v) matches Some(m) && {
        &&& m.dom() == set![
            "id"@,
            "name"@,
            "email"@,
            "emailVerified"@,
            "premium"@,
            "premiumFromOrganization"@,
            "masterPasswordHint"@,
            "culture"@,
            "twoFactorEnabled"@,
            "key"@,
            "privateKey"@,
            "securityStamp"@,
            "organizations"@,
            "object"@,
        ]
        &&& is_text(m["id"@], user.id@)
        &&& is_opt_text(m["name"@], opt_chars(user.name))
        &&& is_text(m["email"@], user.email@)
        &&& is_flag(m["emailVerified"@], user.email_verified)
        &&& is_flag(m["premium"@], true)
        &&& is_flag(m["premiumFromOrganization"@], false)
        &&& is_opt_text(m["masterPasswordHint"@], opt_chars(user.master_password_hint))
        &&& is_text(m["culture"@], "en-US"@)
        &&& is_flag(m["twoFactorEnabled"@], two_factor_enabled)
        &&& is_text(m["key"@], user.key@)
        &&& is_text(m["privateKey"@], user.private_key@)
        &&& is_text(m["securityStamp"@], user.security_stamp@)
        &&& elements(m["organizations"@]) == Some(Seq::<Value>::empty())
        &&& is_text(m["object"@], "profile"@)
    }
}

/// The profile answer for `user`: identity, keys and security stamp, with
/// premium always on and no organizations.
pub fn profile_json(user: &User, two_factor_enabled: bool) -> (v: Value)
    ensures
        profile_answer(*user, two_factor_enabled, v),
{
    proof {
        lemma_profile_key_facts();
    }
    let mut m = map_new();
    put(&mut m, "id", json_string(user.id.clone()));
    put(&mut m, "name", json_opt_string(&user.name));
    put(&mut m, "email", json_string(user.email.clone()));
    put(&mut m, "emailVerified", json_bool(user.email_verified));
    put(&mut m, "premium", json_bool(true));
    put(&mut m, "premiumFromOrganization", json_bool(false));
    put(&mut m, "masterPasswordHint", json_opt_string(&user.master_password_hint));
    put(&mut m, "culture", json_str("en-US"));
    put(&mut m, "twoFactorEnabled", json_bool(two_factor_enabled));
    put(&mut m, "key", json_string(user.key.clone()));
    put(&mut m, "privateKey", json_string(user.private_key.clone()));
    put(&mut m, "securityStamp", json_string(user.security_stamp.clone()));
    put(&mut m, "organizations", json_array(Vec::new()));
    put(&mut m, "object", json_str("profile"));
    assert(object_view(m).dom() =~= set![
        "id"@,
        "name"@,
        "email"@,
        "emailVerified"@,
        "premium"@,
        "premiumFromOrganization"@,
        "masterPasswordHint"@,
        "culture"@,
        "twoFactorEnabled"@,
        "key"@,
        "privateKey"@,
        "securityStamp"@,
        "organizations"@,
        "object"@,
    ]);
    json_object(m)
}

// ---------------------------------------------------------------------------
// Prelogin
// ---------------------------------------------------------------------------

/// The iteration count a prelogin answer gives when the account is
/// unknown.
pub open spec fn default_kdf_iterations() -> int {
    600_000
}

/// The `email` of a prelogin body, if it is a string.
pub open spec fn body_email(payload: Value) -> Option<Seq<char>> {
    match member(payload, "email"@) {
        Some(x) => text_of(x),
        None => None,
    }
}

/// The e-mail address a prelogin body names; refused with "Missing email"
/// when its `email` is not a string.
pub fn prelogin_email(payload: &Value) -> (r: Result<String, AppError>)
    ensures
        r is Ok == body_email(*payload) is Some,
        r matches Ok(e) ==> body_email(*payload) == Some(e@),
        r matches Err(e) ==> is_bad_request(e, "Missing email"@),
{
    match get(payload, "email") {
        Some(x) => match as_str(x) {
            Some(s) => Ok(s.to_owned()),
            None => Err(bad_request("Missing email")),
        },
        None => Err(bad_request("Missing email")),
    }
}

/// The prelogin answer for the stored iteration count of the account, if
/// any: PBKDF2 with that count, or with 600000 for unknown accounts.
pub fn prelogin_response(kdf_iterations: Option<i32>) -> (r: PreloginResponse)
    ensures
        r.kdf == 0,
        r.kdf_iterations == (match kdf_iterations {
            Some(n) => n as int,
            None => default_kdf_iterations(),
        }),
        r.kdf_memory is None,
        r.kdf_parallelism is None,
{
    PreloginResponse {
        kdf: 0,
        kdf_iterations: match kdf_iterations {
            Some(n) => n,
            None => 600_000,
        },
        kdf_memory: None,
        kdf_parallelism: None,
    }
}

/// The integer column `k` of an optional row, if it is one.
pub open spec fn row_int(row: Option<Value>, k: Seq<char>) -> Option<i64> {
    match row {
        Some(r) => match member(r, k) {
            Some(x) => as_i64(x),
            None => None,
        },
        None => None,
    }
}

fn row_int_of(row: Option<&Value>, k: &str) -> (r: Option<i64>)
    ensures
        r == row_int(
            match row {
                Some(x) => Some(*x),
                None => None,
            },
            k@,
        ),
{
    match row {
        Some(rv) => match get(rv, k) {
            Some(x) => value_as_i64(x),
            None => None,
        },
        None => None,
    }
}

/// `v` is the password prelogin answer for the settings `kdf` and
/// `iterations`.
pub open spec fn prelogin_password_answer(kdf: i64, iterations: i64, v: Value) -> bool {
    entries(v) matches Some(m) && {
        &&& m.dom() == set![
            "kdf"@,
            "kdfIterations"@,
            "kdfMemory"@,
            "kdfParallelism"@,
            "kdfSettings"@,
            "salt"@,
        ]
        &&& is_int(m["kdf"@], kdf as int)
        &&& is_int(m["kdfIterations"@], iterations as int)
        &&& is_null(m["kdfMemory"@])
        &&& is_null(m["kdfParallelism"@])
        &&& is_null(m["salt"@])
        &&& entries(m["kdfSettings"@]) matches Some(s) && s.dom() == set![
            "kdfType"@,
            "iterations"@,
            "memory"@,
            "parallelism"@,
        ] && is_int(s["kdfType"@], kdf as int) && is_int(s["iterations"@], iterations as int)
            && is_null(s["memory"@]) && is_null(s["parallelism"@])
    }
}

/// The password prelogin answer for the account row found for the
/// lowercased address (`None` when there is none): its `kdf_type` (0 when
/// absent) and `kdf_iterations` (600000 when absent), flat and under
/// `kdfSettings`.
pub fn prelogin_password_json(row: Option<&Value>) -> (v: Value)
    ensures
        prelogin_password_answer(
            match row_int(
                match row {
                    Some(x) => Some(*x),
                    None => None,
                },
                "kdf_type"@,
            ) {
                Some(n) => n,
                None => 0,
            },
            match row_int(
                match row {
                    Some(x) => Some(*x),
                    None => None,
                },
                "kdf_iterations"@,
            ) {
                Some(n) => n,
                None => 600_000,
            },
            v,
        ),
{
    proof {
        reveal_strlit("kdf");
        reveal_strlit("kdfIterations");
        reveal_strlit("kdfMemory");
        reveal_strlit("kdfParallelism");
        reveal_strlit("kdfSettings");
        reveal_strlit("salt");
        reveal_strlit("kdfType");
        reveal_strlit("iterations");
        reveal_strlit("memory");
        reveal_strlit("parallelism");
        assert("kdf"@.len() == 3);
        assert("kdfIterations"@.len() == 13);
        assert("kdfMemory"@.len() == 9);
        assert("kdfParallelism"@.len() == 14);
        assert("kdfSettings"@.len() == 11);
        assert("salt"@.len() == 4);
        assert("kdfType"@.len() == 7);
        assert("iterations"@.len() == 10);
        assert("memory"@.len() == 6);
        assert("parallelism"@.len() == 11);
    }
    let kdf = match row_int_of(row, "kdf_type") {
        Some(n) => n,
        None => 0,
    };
    let iterations = match row_int_of(row, "kdf_iterations") {
        Some(n) => n,
        None => 600_000,
    };
    let mut settings = map_new();
    put(&mut settings, "kdfType", json_int(kdf));
    put(&mut settings, "iterations", json_int(iterations));
    put(&mut settings, "memory", json_null());
    put(&mut settings, "parallelism", json_null());
    assert(object_view(settings).dom() =~= set!["kdfType"@, "iterations"@, "memory"@, "parallelism"@]);
    let mut m = map_new();
    put(&mut m, "kdf", json_int(kdf));
    put(&mut m, "kdfIterations", json_int(iterations));
    put(&mut m, "kdfMemory", json_null());
    put(&mut m, "kdfParallelism", json_null());
    put(&mut m, "kdfSettings", json_object(settings));
    put(&mut m, "salt", json_null());
    assert(object_view(m).dom() =~= set![
        "kdf"@,
        "kdfIterations"@,
        "kdfMemory"@,
        "kdfParallelism"@,
        "kdfSettings"@,
        "salt"@,
    ]);
    json_object(m)
}

/// The lowercased address a password prelogin looks up.
pub fn lookup_email(email: &str) -> (r: String)
    ensures
        r@ == lowercase(email@),
{
    to_lowercase(email)
}

// ---------------------------------------------------------------------------
// Registration
// ---------------------------------------------------------------------------

/// Sign-ups are on exactly when the `SIGNUPS_ALLOWED` setting reads as the
/// boolean `true`.
pub open spec fn signups_on(setting: Option<Seq<char>>) -> bool {
    match setting {
        Some(s) => parse_bool_spec(s) == Some(true),
        None => false,
    }
}

/// Whether sign-ups are on, given the `SIGNUPS_ALLOWED` setting (`None`
/// when it is not set).
pub fn signups_allowed(setting: Option<&str>) -> (r: bool)
    ensures
        r == signups_on(
            match setting {
                Some(s) => Some(s@),
                None => None,
            },
        ),
{
    match setting {
        Some(s) => match parse_bool(s) {
            Some(b) => b,
            None => false,
        },
        None => false,
    }
}

/// The refusal when sign-ups are off.
pub fn signups_disabled() -> (e: AppError)
    ensures
        is_unauthorized(e, "Signups are disabled"@),
{
    unauthorized("Signups are disabled")
}

/// The address a registration is checked against the allowlist with: the
/// requested address trimmed and lowercased.
pub fn registration_email(email: &str) -> (r: String)
    ensures
        r@ == lowercase(trim(email@)),
{
    let t = trim_text(email);
    to_lowercase(t.as_str())
}

/// Whether the allowlist lets an address register: an empty allowlist
/// lets every address register; a non-empty one only the addresses it
/// holds as enabled.
pub open spec fn allowlist_admits(count: Option<i64>, enabled: Option<i64>) -> bool {
    let n = match count {
        Some(c) => c,
        None => 0,
    };
    n <= 0 || enabled == Some(1i64)
}

/// Checks a registration against the allowlist, given the number of
/// allowlist entries and the `enabled` column of the entry for the address
/// (`None` when it has none; it is only consulted when the allowlist is not
/// empty).
pub fn check_allowlist(count: Option<i64>, enabled: Option<i64>) -> (r: Result<(), AppError>)
    ensures
        r is Ok == allowlist_admits(count, enabled),
        r matches Err(e) ==> is_unauthorized(e, "Email is not allowlisted"@),
{
    let n = match count {
        Some(c) => c,
        None => 0,
    };
    if n > 0 {
        match enabled {
            Some(1) => {},
            _ => return Err(unauthorized("Email is not allowlisted")),
        }
    }
    Ok(())
}

/// Whether the allowlist entry of the address has to be looked up: only
/// when the allowlist is not empty.
pub fn allowlist_lookup_needed(count: Option<i64>) -> (r: bool)
    ensures
        r == (match count {
            Some(c) => c > 0,
            None => false,
        }),
{
    match count {
        Some(c) => c > 0,
        None => false,
    }
}

/// The key-derivation type of optional settings.
pub open spec fn kdf_type_in(c: Option<crate::models::user::KdfConfig>) -> Option<i32> {
    match c {
        Some(k) => k.kdf_type,
        None => None,
    }
}

/// The iteration count of optional settings.
pub open spec fn iterations_in(c: Option<crate::models::user::KdfConfig>) -> Option<i32> {
    match c {
        Some(k) => k.iterations,
        None => None,
    }
}

/// The master password hash of a registration: the flat one, else the one
/// of the authentication part.
pub open spec fn registered_hash(p: RegisterRequest) -> Option<Seq<char>> {
    match p.master_password_hash {
        Some(h) => Some(h@),
        None => match p.master_password_authentication {
            Some(a) => Some(a.master_password_authentication_hash@),
            None => None,
        },
    }
}

/// The user key of a registration: the flat one, else the wrapped key of
/// the unlock part.
pub open spec fn registered_key(p: RegisterRequest) -> Option<Seq<char>> {
    match p.user_symmetric_key {
        Some(k) => Some(k@),
        None => match p.master_password_unlock {
            Some(u) => Some(u.master_key_wrapped_user_key@),
            None => None,
        },
    }
}

/// The key-derivation type of a registration: the flat one, else that of
/// the authentication part, else that of the unlock part, else 0.
pub open spec fn registered_kdf(p: RegisterRequest) -> i32 {
    match p.kdf {
        Some(k) => k,
        None => match kdf_type_in(
            match p.master_password_authentication {
                Some(a) => a.kdf,
                None => None,
            },
        ) {
            Some(k) => k,
            None => match kdf_type_in(
                match p.master_password_unlock {
                    Some(u) => u.kdf,
                    None => None,
                },
            ) {
        Some(k) => k,
                None => 0,
            },
        },
    }
}

/// The iteration count of a registration, resolved as the type is, with
/// 600000 as the last resort.
pub open spec fn registered_iterations(p: RegisterRequest) -> i32 {
    match p.kdf_iterations {
        Some(k) => k,
        None => match iterations_in(
            match p.master_password_authentication {
                Some(a) => a.kdf,
                None => None,
            },
        ) {
            Some(k) => k,
            None => match iterations_in(
                match p.master_password_unlock {
                    Some(u) => u.kdf,
                    None => None,
                },
            ) {
        Some(k) => k,
                None => 600_000,
            },
        },
    }
}

fn opt_kdf_type(c: &Option<crate::models::user::KdfConfig>) -> (r: Option<i32>)
    ensures
        r == kdf_type_in(*c),
{
    match c {
        Some(k) => k.kdf_type,
        None => None,
    }
}

fn opt_iterations(c: &Option<crate::models::user::KdfConfig>) -> (r: Option<i32>)
    ensures
        r == iterations_in(*c),
{
    match c {
        Some(k) => k.iterations,
        None => None,
    }
}

/// The account a registration creates, with the given id, security stamp
/// and creation time. Refused with "Missing masterPasswordHash", "Missing
/// user key" or "Missing userAsymmetricKeys", in that order, when the
/// request lacks one of these.
pub fn new_user(payload: RegisterRequest, id: String, security_stamp: String, now: String) -> (r: Result<User, AppError>)
    ensures
        registered_hash(payload) is None ==> (r matches Err(e) && is_bad_request(e, "Missing masterPasswordHash"@)),
        registered_hash(payload) is Some && registered_key(payload) is None ==> (r matches Err(e)
            && is_bad_request(e, "Missing user key"@)),
        registered_hash(payload) is Some && registered_key(payload) is Some
            && payload.user_asymmetric_keys is None ==> (r matches Err(e) && is_bad_request(
            e,
            "Missing userAsymmetricKeys"@,
        )),
        r is Ok <==> (registered_hash(payload) is Some && registered_key(payload) is Some
            && payload.user_asymmetric_keys is Some),
        r matches Ok(u) ==> {
            &&& u.id == id
            &&& u.name == payload.name
            &&& u.avatar_color is None
            &&& u.email@ == lowercase(payload.email@)
            &&& u.email_verified
            &&& Some(u.master_password_hash@) == registered_hash(payload)
            &&& u.master_password_hint == payload.master_password_hint
            &&& Some(u.key@) == registered_key(payload)
            &&& u.private_key == payload.user_asymmetric_keys->0.encrypted_private_key
            &&& u.public_key == payload.user_asymmetric_keys->0.public_key
            &&& u.kdf_type == registered_kdf(payload)
            &&& u.kdf_iterations == registered_iterations(payload)
            &&& u.security_stamp == security_stamp
            &&& u.created_at == now
            &&& u.updated_at == now
        },
{
    let auth_kdf = match &payload.master_password_authentication {
        Some(a) => opt_kdf_type(&a.kdf),
        None => None,
    };
    let unlock_kdf = match &payload.master_password_unlock {
        Some(u) => opt_kdf_type(&u.kdf),
        None => None,
    };
    let auth_iterations = match &payload.master_password_authentication {
        Some(a) => opt_iterations(&a.kdf),
        None => None,
    };
    let unlock_iterations = match &payload.master_password_unlock {
        Some(u) => opt_iterations(&u.kdf),
        None => None,
    };
    let master_password_hash = match payload.master_password_hash {
        Some(h) => h,
        None => match &payload.master_password_authentication {
            Some(a) => a.master_password_authentication_hash.clone(),
            None => return Err(bad_request("Missing masterPasswordHash")),
        },
    };
    let key = match payload.user_symmetric_key {
        Some(k) => k,
        None => match &payload.master_password_unlock {
            Some(u) => u.master_key_wrapped_user_key.clone(),
            None => return Err(bad_request("Missing user key")),
        },
    };
    let keys = match payload.user_asymmetric_keys {
        Some(k) => k,
        None => return Err(bad_request("Missing userAsymmetricKeys")),
    };
    let kdf_type = match payload.kdf {
        Some(k) => k,
        None => match auth_kdf {
            Some(k) => k,
            None => match unlock_kdf {
        Some(k) => k,
                None => 0,
            },
        },
    };
    let kdf_iterations = match payload.kdf_iterations {
        Some(k) => k,
        None => match auth_iterations {
            Some(k) => k,
            None => match unlock_iterations {
        Some(k) => k,
                None => 600_000,
            },
        },
    };
    let email = to_lowercase(payload.email.as_str());
    let created_at = now.clone();
    Ok(User {
        id,
        name: payload.name,
        avatar_color: None,
        email,
        email_verified: true,
        master_password_hash,
        master_password_hint: payload.master_password_hint,
        key,
        private_key: keys.encrypted_private_key,
        public_key: keys.public_key,
        kdf_type,
        kdf_iterations,
        security_stamp,
        created_at,
        updated_at: now,
    })
}

// ---------------------------------------------------------------------------
// Changing the master password or the e-mail address
// ---------------------------------------------------------------------------

/// Checks the fields a master-password change needs: both hashes and the
/// user key must be non-empty.
pub fn validate_change_master_password(p: &ChangeMasterPasswordRequest) -> (r: Result<(), AppError>)
    ensures
        r is Ok <==> (p.master_password_hash@.len() > 0 && p.new_master_password_hash@.len() > 0
            && p.user_symmetric_key@.len() > 0),
        (p.master_password_hash@.len() == 0 || p.new_master_password_hash@.len() == 0) ==> (r matches Err(
            e,
        ) && is_bad_request(e, "Missing masterPasswordHash"@)),
        (p.master_password_hash@.len() > 0 && p.new_master_password_hash@.len() > 0
            && p.user_symmetric_key@.len() == 0) ==> (r matches Err(e) && is_bad_request(
            e,
            "Missing userSymmetricKey"@,
        )),
{
    if p.master_password_hash.as_str().is_empty() || p.new_master_password_hash.as_str().is_empty() {
        return Err(bad_request("Missing masterPasswordHash"));
    }
    if p.user_symmetric_key.as_str().is_empty() {
        return Err(bad_request("Missing userSymmetricKey"));
    }
    Ok(())
}

/// The account `user` accepts the submitted master password hash `given`.
pub open spec fn password_accepted(user: User, given: Seq<char>) -> bool {
    user.master_password_hash@ == given
}

/// Checks a submitted master password hash against the account's, in
/// constant time; a mismatch is refused with "Invalid credentials".
pub fn verify_master_password(user: &User, given: &str) -> (r: Result<(), AppError>)
    ensures
        r is Ok <==> password_accepted(*user, given@),
        r matches Err(e) ==> is_unauthorized(e, "Invalid credentials"@),
{
    let same = constant_time_eq::constant_time_eq(user.master_password_hash.as_str().as_bytes(), given.as_bytes());
    proof {
        vstd::utf8::encode_utf8_decode_utf8(user.master_password_hash@);
        vstd::utf8::encode_utf8_decode_utf8(given@);
    }
    if !same {
        return Err(unauthorized("Invalid credentials"));
    }
    Ok(())
}

/// `u` is the account `user` after the master-password change `p`, with the
/// new security stamp `security_stamp`, at the time `now`.
pub open spec fn password_change_result(user: User, p: ChangeMasterPasswordRequest, security_stamp: String, now: String, u: User) -> bool {
    &&& u.id == user.id
    &&& u.name == user.name
    &&& u.avatar_color == user.avatar_color
    &&& u.email == user.email
    &&& u.email_verified == user.email_verified
    &&& u.master_password_hash == p.new_master_password_hash
    &&& u.master_password_hint == p.master_password_hint
    &&& u.key == p.user_symmetric_key
    &&& u.private_key == (match p.user_asymmetric_keys {
        Some(k) => k.encrypted_private_key,
        None => user.private_key,
    })
    &&& u.public_key == (match p.user_asymmetric_keys {
        Some(k) => k.public_key,
        None => user.public_key,
    })
    &&& u.kdf_type == (match p.kdf {
        Some(k) => k,
        None => user.kdf_type,
    })
    &&& u.kdf_iterations == (match p.kdf_iterations {
        Some(k) => k,
        None => user.kdf_iterations,
    })
    &&& u.security_stamp == security_stamp
    &&& u.created_at == user.created_at
    &&& u.updated_at == now
}

/// The account after a master-password change: the new hash, hint and user
/// key, the new key pair if one is given, the key-derivation settings where
/// given, a new security stamp (which invalidates tokens issued before)
/// and the update time.
pub fn apply_master_password_change(user: User, p: ChangeMasterPasswordRequest, security_stamp: String, now: String) -> (u: User)
    ensures
        password_change_result(user, p, security_stamp, now, u),
{
    let (private_key, public_key) = match p.user_asymmetric_keys {
        Some(k) => (k.encrypted_private_key, k.public_key),
        None => (user.private_key, user.public_key),
    };
    User {
        id: user.id,
        name: user.name,
        avatar_color: user.avatar_color,
        email: user.email,
        email_verified: user.email_verified,
        master_password_hash: p.new_master_password_hash,
        master_password_hint: p.master_password_hint,
        key: p.user_symmetric_key,
        private_key,
        public_key,
        kdf_type: match p.kdf {
            Some(k) => k,
            None => user.kdf_type,
        },
        kdf_iterations: match p.kdf_iterations {
            Some(k) => k,
            None => user.kdf_iterations,
        },
        security_stamp,
        created_at: user.created_at,
        updated_at: now,
    }
}

/// Checks the fields an e-mail change needs: both hashes, a new address
/// that is not blank, and the user key.
pub fn validate_change_email(p: &ChangeEmailRequest) -> (r: Result<(), AppError>)
    ensures
        r is Ok <==> (p.master_password_hash@.len() > 0 && p.new_master_password_hash@.len() > 0
            && trim(p.new_email@).len() > 0 && p.user_symmetric_key@.len() > 0),
        (p.master_password_hash@.len() == 0 || p.new_master_password_hash@.len() == 0) ==> (r matches Err(
            e,
        ) && is_bad_request(e, "Missing masterPasswordHash"@)),
        (p.master_password_hash@.len() > 0 && p.new_master_password_hash@.len() > 0 && trim(
            p.new_email@,
        ).len() == 0) ==> (r matches Err(e) && is_bad_request(e, "Missing newEmail"@)),
        (p.master_password_hash@.len() > 0 && p.new_master_password_hash@.len() > 0 && trim(
            p.new_email@,
        ).len() > 0 && p.user_symmetric_key@.len() == 0) ==> (r matches Err(e) && is_bad_request(
            e,
            "Missing userSymmetricKey"@,
        )),
{
    if p.master_password_hash.as_str().is_empty() || p.new_master_password_hash.as_str().is_empty() {
        return Err(bad_request("Missing masterPasswordHash"));
    }
    let t = trim_text(p.new_email.as_str());
    if t.as_str().is_empty() {
        return Err(bad_request("Missing newEmail"));
    }
    if p.user_symmetric_key.as_str().is_empty() {
        return Err(bad_request("Missing userSymmetricKey"));
    }
    Ok(())
}

/// `u` is the account `user` after the e-mail change `p`, with the new
/// security stamp `security_stamp`, at the time `now`.
pub open spec fn email_change_result(user: User, p: ChangeEmailRequest, security_stamp: String, now: String, u: User) -> bool {
    &&& u.id == user.id
    &&& u.name == user.name
    &&& u.avatar_color == user.avatar_color
    &&& u.email@ == lowercase(p.new_email@)
    &&& !u.email_verified
    &&& u.master_password_hash == p.new_master_password_hash
    &&& u.master_password_hint == user.master_password_hint
    &&& u.key == p.user_symmetric_key
    &&& u.private_key == user.private_key
    &&& u.public_key == user.public_key
    &&& u.kdf_type == (match p.kdf {
        Some(k) => k,
        None => user.kdf_type,
    })
    &&& u.kdf_iterations == (match p.kdf_iterations {
        Some(k) => k,
        None => user.kdf_iterations,
    })
    &&& u.security_stamp == security_stamp
    &&& u.created_at == user.created_at
    &&& u.updated_at == now
}

/// The account after an e-mail change: the lowercased new address, not yet
/// verified, the new hash and user key, the key-derivation settings where
/// given, a new security stamp and the update time.
pub fn apply_email_change(user: User, p: ChangeEmailRequest, security_stamp: String, now: String) -> (u: User)
    ensures
        email_change_result(user, p, security_stamp, now, u),
{
    let email = to_lowercase(p.new_email.as_str());
    User {
        id: user.id,
        name: user.name,
        avatar_color: user.avatar_color,
        email,
        email_verified: false,
        master_password_hash: p.new_master_password_hash,
        master_password_hint: user.master_password_hint,
        key: p.user_symmetric_key,
        private_key: user.private_key,
        public_key: user.public_key,
        kdf_type: match p.kdf {
            Some(k) => k,
            None => user.kdf_type,
        },
        kdf_iterations: match p.kdf_iterations {
            Some(k) => k,
            None => user.kdf_iterations,
        },
        security_stamp,
        created_at: user.created_at,
        updated_at: now,
    }
}

/// The answer when storing a changed address fails with the database's
/// message `message`: "Email already in use" when the message reports a
/// uniqueness violation, a database error otherwise.
pub fn email_update_error(message: &str) -> (e: AppError)
    ensures
        has_piece(message@, "UNIQUE"@) ==> is_bad_request(e, "Email already in use"@),
        !has_piece(message@, "UNIQUE"@) ==> e == AppError::Database,
{
    if contains_text(message, "UNIQUE") {
        bad_request("Email already in use")
    } else {
        AppError::Database
    }
}

/// The token a verification-mail request answers with; no mail is sent.
pub fn send_verification_email() -> (s: String)
    ensures
        s@ == "local-registration-token"@,
{
    "local-registration-token".to_owned()
}

/// The answer to a verification-link click: an empty object.
pub fn verification_email_clicked() -> (v: Value)
    ensures
        entries(v) matches Some(m) && m.dom().is_empty(),
{
    json_object(map_new())
}

} // verus!
