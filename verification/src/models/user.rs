//! Accounts: the stored user row and the registration and prelogin
//! messages.

pub mod bool_from_int;

use vstd::prelude::*;
use serde_json::Value;
use crate::decode::{
    dec_object, dec_opt_i32, dec_opt_object, dec_opt_string, dec_i32, dec_string, object_of,
    opt_chars, read_i32, read_object, read_opt_i32, read_opt_object, read_opt_string, read_string,
    DecodeError,
};
use crate::json::{
    entries, entry, int_number, is_int, is_null, json_int, json_null, json_object, json_view,
    map_get, map_new, object_view, put, JsonMap, JsonNumber, JsonView,
};
use self::bool_from_int::int_flag;

verus! {

/// A row of the `users` table.
pub struct User {
    pub id: String,
    pub name: Option<String>,
    pub avatar_color: Option<String>,
    pub email: String,
    pub email_verified: bool,
    pub master_password_hash: String,
    pub master_password_hint: Option<String>,
    pub key: String,
    pub private_key: String,
    pub public_key: String,
    pub kdf_type: i32,
    pub kdf_iterations: i32,
    pub security_stamp: String,
    pub created_at: String,
    pub updated_at: String,
}

/// Every column of a user row reads.
pub open spec fn user_row_reads(m: Map<Seq<char>, Value>) -> bool {
    &&& dec_string(entry(m, "id"@)) is Some
    &&& dec_opt_string(entry(m, "name"@)) is Some
    &&& dec_opt_string(entry(m, "avatar_color"@)) is Some
    &&& dec_string(entry(m, "email"@)) is Some
    &&& (entry(m, "email_verified"@) matches Some(f) && int_flag(f) is Some)
    &&& dec_string(entry(m, "master_password_hash"@)) is Some
    &&& dec_opt_string(entry(m, "master_password_hint"@)) is Some
    &&& dec_string(entry(m, "key"@)) is Some
    &&& dec_string(entry(m, "private_key"@)) is Some
    &&& dec_string(entry(m, "public_key"@)) is Some
    &&& dec_i32(entry(m, "kdf_type"@)) is Some
    &&& dec_i32(entry(m, "kdf_iterations"@)) is Some
    &&& dec_string(entry(m, "security_stamp"@)) is Some
    &&& dec_string(entry(m, "created_at"@)) is Some
    &&& dec_string(entry(m, "updated_at"@)) is Some
}

/// `u` holds the columns of the user row `m`.
pub open spec fn user_of_row(u: User, m: Map<Seq<char>, Value>) -> bool {
    &&& dec_string(entry(m, "id"@)) == Some(u.id@)
    &&& dec_opt_string(entry(m, "name"@)) == Some(opt_chars(u.name))
    &&& dec_opt_string(entry(m, "avatar_color"@)) == Some(opt_chars(u.avatar_color))
    &&& dec_string(entry(m, "email"@)) == Some(u.email@)
    &&& int_flag(m["email_verified"@]) == Some(u.email_verified)
    &&& dec_string(entry(m, "master_password_hash"@)) == Some(u.master_password_hash@)
    &&& dec_opt_string(entry(m, "master_password_hint"@)) == Some(opt_chars(u.master_password_hint))
    &&& dec_string(entry(m, "key"@)) == Some(u.key@)
    &&& dec_string(entry(m, "private_key"@)) == Some(u.private_key@)
    &&& dec_string(entry(m, "public_key"@)) == Some(u.public_key@)
    &&& dec_i32(entry(m, "kdf_type"@)) == Some(u.kdf_type)
    &&& dec_i32(entry(m, "kdf_iterations"@)) == Some(u.kdf_iterations)
    &&& dec_string(entry(m, "security_stamp"@)) == Some(u.security_stamp@)
    &&& dec_string(entry(m, "created_at"@)) == Some(u.created_at@)
    &&& dec_string(entry(m, "updated_at"@)) == Some(u.updated_at@)
}

impl User {
    /// Reads a row of the `users` table, given as a JSON object whose keys
    /// are the column names; `email_verified` is stored as 0 or 1.
    pub fn from_row(row: &Value) -> (r: Result<User, DecodeError>)
        ensures
            r is Ok <==> (entries(*row) matches Some(m) && user_row_reads(m)),
            r matches Ok(u) ==> user_of_row(u, entries(*row)->0),
    {
        let m = object_of(row)?;
        let id = read_string(m, "id")?;
        let name = read_opt_string(m, "name")?;
        let avatar_color = read_opt_string(m, "avatar_color")?;
        let email = read_string(m, "email")?;
        let email_verified = match map_get(m, "email_verified") {
            Some(f) => bool_from_int::deserialize(f)?,
            None => return Err(DecodeError::MissingField("email_verified".to_owned())),
        };
        let master_password_hash = read_string(m, "master_password_hash")?;
        let master_password_hint = read_opt_string(m, "master_password_hint")?;
        let key = read_string(m, "key")?;
        let private_key = read_string(m, "private_key")?;
        let public_key = read_string(m, "public_key")?;
        let kdf_type = read_i32(m, "kdf_type")?;
        let kdf_iterations = read_i32(m, "kdf_iterations")?;
        let security_stamp = read_string(m, "security_stamp")?;
        let created_at = read_string(m, "created_at")?;
        let updated_at = read_string(m, "updated_at")?;
        Ok(User {
            id,
            name,
            avatar_color,
            email,
            email_verified,
            master_password_hash,
            master_password_hint,
            key,
            private_key,
            public_key,
            kdf_type,
            kdf_iterations,
            security_stamp,
            created_at,
            updated_at,
        })
    }
}

/// The answer to a prelogin request.
pub struct PreloginResponse {
    pub kdf: i32,
    pub kdf_iterations: i32,
    pub kdf_memory: Option<i32>,
    pub kdf_parallelism: Option<i32>,
}

/// `v` is the integer `n`, or `null` where there is none.
pub open spec fn is_opt_int(v: Value, n: Option<i32>) -> bool {
    match n {
        Some(x) => is_int(v, x as int),
        None => is_null(v),
    }
}

fn json_opt_int(n: Option<i32>) -> (v: Value)
    ensures
        is_opt_int(v, n),
{
    match n {
        Some(x) => json_int(x as i64),
        None => json_null(),
    }
}

impl PreloginResponse {
    /// The JSON object sent for this answer, with the client's field names.
    pub fn to_json(&self) -> (v: Value)
        ensures
            entries(v) matches Some(m) && m.dom() == set![
                "kdf"@,
                "kdfIterations"@,
                "kdfMemory"@,
                "kdfParallelism"@,
            ] && is_int(m["kdf"@], self.kdf as int) && is_int(m["kdfIterations"@], self.kdf_iterations as int)
                && is_opt_int(m["kdfMemory"@], self.kdf_memory) && is_opt_int(
                m["kdfParallelism"@],
                self.kdf_parallelism,
            ),
    {
        proof {
            reveal_strlit("kdf");
            reveal_strlit("kdfIterations");
            reveal_strlit("kdfMemory");
            reveal_strlit("kdfParallelism");
            assert("kdf"@.len() == 3);
            assert("kdfIterations"@.len() == 13);
            assert("kdfMemory"@.len() == 9);
            assert("kdfParallelism"@.len() == 14);
        }
        let mut m = map_new();
        put(&mut m, "kdf", json_int(self.kdf as i64));
        put(&mut m, "kdfIterations", json_int(self.kdf_iterations as i64));
        put(&mut m, "kdfMemory", json_opt_int(self.kdf_memory));
        put(&mut m, "kdfParallelism", json_opt_int(self.kdf_parallelism));
        assert(object_view(m).dom() =~= set!["kdf"@, "kdfIterations"@, "kdfMemory"@, "kdfParallelism"@]);
        json_object(m)
    }
}

/// Key-derivation settings in a registration request.
pub struct KdfConfig {
    pub kdf_type: Option<i32>,
    pub iterations: Option<i32>,
}

/// A user's key pair in a request.
pub struct KeyData {
    pub public_key: String,
    pub encrypted_private_key: String,
}

/// The authentication part of a newer registration request.
pub struct MasterPasswordAuthentication {
    pub master_password_authentication_hash: String,
    pub kdf: Option<KdfConfig>,
}

/// The unlock part of a newer registration request.
pub struct MasterPasswordUnlock {
    pub master_key_wrapped_user_key: String,
    pub kdf: Option<KdfConfig>,
}

/// A registration request.
pub struct RegisterRequest {
    pub name: Option<String>,
    pub email: String,
    pub master_password_hash: Option<String>,
    pub master_password_hint: Option<String>,
    pub user_symmetric_key: Option<String>,
    pub user_asymmetric_keys: Option<KeyData>,
    pub kdf: Option<i32>,
    pub kdf_iterations: Option<i32>,
    pub master_password_authentication: Option<MasterPasswordAuthentication>,
    pub master_password_unlock: Option<MasterPasswordUnlock>,
}

/// The entries of an object read as key-derivation settings.
pub open spec fn kdf_config_reads(m: Map<Seq<char>, Value>) -> bool {
    dec_opt_i32(entry(m, "kdfType"@)) is Some && dec_opt_i32(entry(m, "iterations"@)) is Some
}

/// `k` holds the settings of the object `m`.
pub open spec fn kdf_config_of(k: KdfConfig, m: Map<Seq<char>, Value>) -> bool {
    dec_opt_i32(entry(m, "kdfType"@)) == Some(k.kdf_type) && dec_opt_i32(entry(m, "iterations"@))
        == Some(k.iterations)
}

/// An optional settings field reads: absent, `null`, or an object that
/// reads.
pub open spec fn opt_kdf_reads(e: Option<Value>) -> bool {
    match dec_opt_object(e) {
        Some(Some(o)) => kdf_config_reads(o),
        Some(None) => true,
        None => false,
    }
}

/// `k` holds the optional settings field `e`.
pub open spec fn opt_kdf_of(k: Option<KdfConfig>, e: Option<Value>) -> bool {
    match dec_opt_object(e) {
        Some(Some(o)) => k matches Some(c) && kdf_config_of(c, o),
        _ => k is None,
    }
}

impl KdfConfig {
    fn from_map(m: &JsonMap) -> (r: Result<KdfConfig, DecodeError>)
        ensures
            r is Ok == kdf_config_reads(object_view(*m)),
            r matches Ok(k) ==> kdf_config_of(k, object_view(*m)),
    {
        let kdf_type = read_opt_i32(m, "kdfType")?;
        let iterations = read_opt_i32(m, "iterations")?;
        Ok(KdfConfig { kdf_type, iterations })
    }

    fn from_opt_field(m: &JsonMap, k: &str) -> (r: Result<Option<KdfConfig>, DecodeError>)
        ensures
            r is Ok == opt_kdf_reads(entry(object_view(*m), k@)),
            r matches Ok(c) ==> opt_kdf_of(c, entry(object_view(*m), k@)),
    {
        match read_opt_object(m, k)? {
            Some(o) => Ok(Some(KdfConfig::from_map(o)?)),
            None => Ok(None),
        }
    }
}

/// The entries of an object read as a key pair.
pub open spec fn key_data_reads(m: Map<Seq<char>, Value>) -> bool {
    dec_string(entry(m, "publicKey"@)) is Some && dec_string(entry(m, "encryptedPrivateKey"@)) is Some
}

/// `k` holds the key pair of the object `m`.
pub open spec fn key_data_of(k: KeyData, m: Map<Seq<char>, Value>) -> bool {
    dec_string(entry(m, "publicKey"@)) == Some(k.public_key@) && dec_string(
        entry(m, "encryptedPrivateKey"@),
    ) == Some(k.encrypted_private_key@)
}

impl KeyData {
    /// Reads a key pair from the entries of a JSON object.
    pub fn from_map(m: &JsonMap) -> (r: Result<KeyData, DecodeError>)
        ensures
            r is Ok == key_data_reads(object_view(*m)),
            r matches Ok(k) ==> key_data_of(k, object_view(*m)),
    {
        let public_key = read_string(m, "publicKey")?;
        let encrypted_private_key = read_string(m, "encryptedPrivateKey")?;
        Ok(KeyData { public_key, encrypted_private_key })
    }
}

/// An optional key-pair field reads.
pub open spec fn opt_key_data_reads(e: Option<Value>) -> bool {
    match dec_opt_object(e) {
        Some(Some(o)) => key_data_reads(o),
        Some(None) => true,
        None => false,
    }
}

/// `k` holds the optional key-pair field `e`.
pub open spec fn opt_key_data_of(k: Option<KeyData>, e: Option<Value>) -> bool {
    match dec_opt_object(e) {
        Some(Some(o)) => k matches Some(c) && key_data_of(c, o),
        _ => k is None,
    }
}

/// Reads an optional key-pair field of `m`.
pub fn read_opt_key_data(m: &JsonMap, k: &str) -> (r: Result<Option<KeyData>, DecodeError>)
    ensures
        r is Ok == opt_key_data_reads(entry(object_view(*m), k@)),
        r matches Ok(c) ==> opt_key_data_of(c, entry(object_view(*m), k@)),
{
    match read_opt_object(m, k)? {
        Some(o) => Ok(Some(KeyData::from_map(o)?)),
        None => Ok(None),
    }
}

/// An optional authentication part reads.
pub open spec fn opt_auth_reads(e: Option<Value>) -> bool {
    match dec_opt_object(e) {
        Some(Some(o)) => dec_string(entry(o, "masterPasswordAuthenticationHash"@)) is Some
            && opt_kdf_reads(entry(o, "kdf"@)),
        Some(None) => true,
        None => false,
    }
}

/// `a` holds the optional authentication part `e`.
pub open spec fn opt_auth_of(a: Option<MasterPasswordAuthentication>, e: Option<Value>) -> bool {
    match dec_opt_object(e) {
        Some(Some(o)) => a matches Some(x) && dec_string(entry(o, "masterPasswordAuthenticationHash"@))
            == Some(x.master_password_authentication_hash@) && opt_kdf_of(x.kdf, entry(o, "kdf"@)),
        _ => a is None,
    }
}

/// An optional unlock part reads.
pub open spec fn opt_unlock_reads(e: Option<Value>) -> bool {
    match dec_opt_object(e) {
        Some(Some(o)) => dec_string(entry(o, "masterKeyWrappedUserKey"@)) is Some && opt_kdf_reads(
            entry(o, "kdf"@),
        ),
        Some(None) => true,
        None => false,
    }
}

/// `u` holds the optional unlock part `e`.
pub open spec fn opt_unlock_of(u: Option<MasterPasswordUnlock>, e: Option<Value>) -> bool {
    match dec_opt_object(e) {
        Some(Some(o)) => u matches Some(x) && dec_string(entry(o, "masterKeyWrappedUserKey"@)) == Some(
            x.master_key_wrapped_user_key@,
        ) && opt_kdf_of(x.kdf, entry(o, "kdf"@)),
        _ => u is None,
    }
}

/// Every field of a registration request reads.
pub open spec fn register_request_reads(m: Map<Seq<char>, Value>) -> bool {
    &&& dec_opt_string(entry(m, "name"@)) is Some
    &&& dec_string(entry(m, "email"@)) is Some
    &&& dec_opt_string(entry(m, "masterPasswordHash"@)) is Some
    &&& dec_opt_string(entry(m, "masterPasswordHint"@)) is Some
    &&& dec_opt_string(entry(m, "userSymmetricKey"@)) is Some
    &&& opt_key_data_reads(entry(m, "userAsymmetricKeys"@))
    &&& dec_opt_i32(entry(m, "kdf"@)) is Some
    &&& dec_opt_i32(entry(m, "kdfIterations"@)) is Some
    &&& opt_auth_reads(entry(m, "masterPasswordAuthentication"@))
    &&& opt_unlock_reads(entry(m, "masterPasswordUnlock"@))
}

/// `x` holds the registration request `m`.
pub open spec fn register_request_of(x: RegisterRequest, m: Map<Seq<char>, Value>) -> bool {
    &&& dec_opt_string(entry(m, "name"@)) == Some(opt_chars(x.name))
    &&& dec_string(entry(m, "email"@)) == Some(x.email@)
    &&& dec_opt_string(entry(m, "masterPasswordHash"@)) == Some(opt_chars(x.master_password_hash))
    &&& dec_opt_string(entry(m, "masterPasswordHint"@)) == Some(opt_chars(x.master_password_hint))
    &&& dec_opt_string(entry(m, "userSymmetricKey"@)) == Some(opt_chars(x.user_symmetric_key))
    &&& opt_key_data_of(x.user_asymmetric_keys, entry(m, "userAsymmetricKeys"@))
    &&& dec_opt_i32(entry(m, "kdf"@)) == Some(x.kdf)
    &&& dec_opt_i32(entry(m, "kdfIterations"@)) == Some(x.kdf_iterations)
    &&& opt_auth_of(x.master_password_authentication, entry(m, "masterPasswordAuthentication"@))
    &&& opt_unlock_of(x.master_password_unlock, entry(m, "masterPasswordUnlock"@))
}

impl RegisterRequest {
    /// Reads a registration request from its JSON body (camel-case keys).
    pub fn from_json(v: &Value) -> (r: Result<RegisterRequest, DecodeError>)
        ensures
            r is Ok <==> (entries(*v) matches Some(m) && register_request_reads(m)),
            r matches Ok(x) ==> register_request_of(x, entries(*v)->0),
    {
        let m = object_of(v)?;
        let name = read_opt_string(m, "name")?;
        let email = read_string(m, "email")?;
        let master_password_hash = read_opt_string(m, "masterPasswordHash")?;
        let master_password_hint = read_opt_string(m, "masterPasswordHint")?;
        let user_symmetric_key = read_opt_string(m, "userSymmetricKey")?;
        let user_asymmetric_keys = read_opt_key_data(m, "userAsymmetricKeys")?;
        let kdf = read_opt_i32(m, "kdf")?;
        let kdf_iterations = read_opt_i32(m, "kdfIterations")?;
        let master_password_authentication = match read_opt_object(m, "masterPasswordAuthentication")? {
            Some(o) => {
                let hash = read_string(o, "masterPasswordAuthenticationHash")?;
                let kdf = KdfConfig::from_opt_field(o, "kdf")?;
                Some(MasterPasswordAuthentication { master_password_authentication_hash: hash, kdf })
            },
            None => None,
        };
        let master_password_unlock = match read_opt_object(m, "masterPasswordUnlock")? {
            Some(o) => {
                let key = read_string(o, "masterKeyWrappedUserKey")?;
                let kdf = KdfConfig::from_opt_field(o, "kdf")?;
                Some(MasterPasswordUnlock { master_key_wrapped_user_key: key, kdf })
            },
            None => None,
        };
        Ok(RegisterRequest {
            name,
            email,
            master_password_hash,
            master_password_hint,
            user_symmetric_key,
            user_asymmetric_keys,
            kdf,
            kdf_iterations,
            master_password_authentication,
            master_password_unlock,
        })
    }
}

} // verus!
