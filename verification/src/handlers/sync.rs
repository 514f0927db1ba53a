//! The sync endpoint: the raw JSON answer, the decryption settings, the
//! profile and the assembled answer.

use vstd::prelude::*;
use serde_json::Value;
use crate::error::AppError;
use crate::json::{
    entries, is_flag, is_null, is_opt_text, is_text, is_int, json_bool, json_int, json_null,
    json_object, json_opt_string, json_str, json_string, map_new, object_view, put,
};
use crate::decode::opt_chars;
use crate::models::user::User;

verus! {

/// An answer whose body is ready-made JSON text.
pub struct RawJson(pub String);

/// `v` is the `{"kdfType", "iterations", "memory": null, "parallelism": null}`
/// settings of `user`.
pub open spec fn kdf_answer(v: Value, user: User) -> bool {
    entries(v) matches Some(k) && k.dom() == set!["kdfType"@, "iterations"@, "memory"@, "parallelism"@]
        && is_int(k["kdfType"@], user.kdf_type as int) && is_int(k["iterations"@], user.kdf_iterations as int)
        && is_null(k["memory"@]) && is_null(k["parallelism"@])
}

/// `v` is the decryption settings of `user`: under `masterPasswordUnlock`,
/// the key-derivation settings, the user key under both of its names, and
/// the address as salt.
pub open spec fn decryption_answer(v: Value, user: User) -> bool {
    entries(v) matches Some(m) && m.dom() == set!["masterPasswordUnlock"@] && unlock_answer(
        m["masterPasswordUnlock"@],
        user,
    )
}

/// `v` is the `masterPasswordUnlock` part of the decryption settings of
/// `user`.
pub open spec fn unlock_answer(v: Value, user: User) -> bool {
    entries(v) matches Some(u) && u.dom() == set![
        "kdf"@,
        "masterKeyEncryptedUserKey"@,
        "masterKeyWrappedUserKey"@,
        "salt"@,
    ] && kdf_answer(u["kdf"@], user) && is_text(u["masterKeyEncryptedUserKey"@], user.key@) && is_text(
        u["masterKeyWrappedUserKey"@],
        user.key@,
    ) && is_text(u["salt"@], user.email@)
}

/// The decryption settings a client needs to unlock `user`'s vault.
pub fn user_decryption_json(user: &User) -> (v: Value)
    ensures
        decryption_answer(v, *user),
{
    proof {
        reveal_strlit("kdfType");
        reveal_strlit("iterations");
        reveal_strlit("memory");
        reveal_strlit("parallelism");
        reveal_strlit("kdf");
        reveal_strlit("masterKeyEncryptedUserKey");
        reveal_strlit("masterKeyWrappedUserKey");
        reveal_strlit("salt");
        assert("kdfType"@.len() == 7);
        assert("iterations"@.len() == 10);
        assert("memory"@.len() == 6);
        assert("parallelism"@.len() == 11);
        assert("kdf"@.len() == 3);
        assert("masterKeyEncryptedUserKey"@.len() == 25);
        assert("masterKeyWrappedUserKey"@.len() == 23);
        assert("salt"@.len() == 4);
    }
    let mut k = map_new();
    put(&mut k, "kdfType", json_int(user.kdf_type as i64));
    put(&mut k, "iterations", json_int(user.kdf_iterations as i64));
    put(&mut k, "memory", json_null());
    put(&mut k, "parallelism", json_null());
    assert(object_view(k).dom() =~= set!["kdfType"@, "iterations"@, "memory"@, "parallelism"@]);
    let mut u = map_new();
    put(&mut u, "kdf", json_object(k));
    put(&mut u, "masterKeyEncryptedUserKey", json_string(user.key.clone()));
    put(&mut u, "masterKeyWrappedUserKey", json_string(user.key.clone()));
    put(&mut u, "salt", json_string(user.email.clone()));
    assert(object_view(u).dom() =~= set![
        "kdf"@,
        "masterKeyEncryptedUserKey"@,
        "masterKeyWrappedUserKey"@,
        "salt"@,
    ]);
    let mut m = map_new();
    put(&mut m, "masterPasswordUnlock", json_object(u));
    assert(object_view(m).dom() =~= set!["masterPasswordUnlock"@]);
    json_object(m)
}

/// The lengths and leading characters of the keys of a sync profile, which
/// tell the keys apart.
pub proof fn lemma_sync_profile_key_facts()
    ensures
        "id"@.len() == 2,
        "name"@.len() == 4,
        "avatarColor"@.len() == 11,
        "email"@.len() == 5,
        "masterPasswordHint"@.len() == 18,
        "securityStamp"@.len() == 13,
        "securityStamp"@[0] == 's',
        "object"@.len() == 6,
        "premium"@.len() == 7,
        "premiumFromOrganization"@.len() == 23,
        "emailVerified"@.len() == 13,
        "emailVerified"@[0] == 'e',
        "forcePasswordReset"@.len() == 18,
        "forcePasswordReset"@[0] == 'f',
        "masterPasswordHint"@[0] == 'm',
        "twoFactorEnabled"@.len() == 16,
        "twoFactorEnabled"@[0] == 't',
        "usesKeyConnector"@.len() == 16,
        "usesKeyConnector"@[0] == 'u',
        "creationDate"@.len() == 12,
        "key"@.len() == 3,
        "privateKey"@.len() == 10,
{
    reveal_strlit("id");
    reveal_strlit("name");
    reveal_strlit("avatarColor");
    reveal_strlit("email");
    reveal_strlit("masterPasswordHint");
    reveal_strlit("securityStamp");
    reveal_strlit("object");
    reveal_strlit("premium");
    reveal_strlit("premiumFromOrganization");
    reveal_strlit("emailVerified");
    reveal_strlit("forcePasswordReset");
    reveal_strlit("twoFactorEnabled");
    reveal_strlit("usesKeyConnector");
    reveal_strlit("creationDate");
    reveal_strlit("key");
    reveal_strlit("privateKey");
}

/// `v` is the sync profile of `user`.
pub open spec fn sync_profile_answer(v: Value, user: User, two_factor_enabled: bool, creation_date: Seq<char>) -> bool {
    entries(v) matches Some(m) && {
        &&& m.dom() == set![
            "id"@,
            "name"@,
            "avatarColor"@,
            "email"@,
            "masterPasswordHint"@,
            "securityStamp"@,
            "object"@,
            "premium"@,
            "premiumFromOrganization"@,
            "emailVerified"@,
            "forcePasswordReset"@,
            "twoFactorEnabled"@,
            "usesKeyConnector"@,
            "creationDate"@,
            "key"@,
            "privateKey"@,
        ]
        &&& is_text(m["id"@], user.id@)
        &&& is_opt_text(m["name"@], opt_chars(user.name))
        &&& is_opt_text(m["avatarColor"@], opt_chars(user.avatar_color))
        &&& is_text(m["email"@], user.email@)
        &&& is_opt_text(m["masterPasswordHint"@], opt_chars(user.master_password_hint))
        &&& is_text(m["securityStamp"@], user.security_stamp@)
        &&& is_text(m["object"@], "profile"@)
        &&& is_flag(m["premium"@], true)
        &&& is_flag(m["premiumFromOrganization"@], false)
        &&& is_flag(m["emailVerified"@], true)
        &&& is_flag(m["forcePasswordReset"@], false)
        &&& is_flag(m["twoFactorEnabled"@], two_factor_enabled)
        &&& is_flag(m["usesKeyConnector"@], false)
        &&& is_text(m["creationDate"@], creation_date)
        &&& is_text(m["key"@], user.key@)
        &&& is_text(m["privateKey"@], user.private_key@)
    }
}

/// The profile part of a sync answer: the account's identity and keys,
/// premium on, e-mail shown as verified, and the creation date as given.
pub fn sync_profile_json(user: &User, two_factor_enabled: bool, creation_date: String) -> (v: Value)
    ensures
        sync_profile_answer(v, *user, two_factor_enabled, creation_date@),
{
    proof {
        lemma_sync_profile_key_facts();
    }
    let mut m = map_new();
    put(&mut m, "id", json_string(user.id.clone()));
    put(&mut m, "name", json_opt_string(&user.name));
    put(&mut m, "avatarColor", json_opt_string(&user.avatar_color));
    put(&mut m, "email", json_string(user.email.clone()));
    put(&mut m, "masterPasswordHint", json_opt_string(&user.master_password_hint));
    put(&mut m, "securityStamp", json_string(user.security_stamp.clone()));
    put(&mut m, "object", json_str("profile"));
    put(&mut m, "premium", json_bool(true));
    put(&mut m, "premiumFromOrganization", json_bool(false));
    put(&mut m, "emailVerified", json_bool(true));
    put(&mut m, "forcePasswordReset", json_bool(false));
    put(&mut m, "twoFactorEnabled", json_bool(two_factor_enabled));
    put(&mut m, "usesKeyConnector", json_bool(false));
    put(&mut m, "creationDate", json_string(creation_date));
    put(&mut m, "key", json_string(user.key.clone()));
    put(&mut m, "privateKey", json_string(user.private_key.clone()));
    assert(object_view(m).dom() =~= set![
        "id"@,
        "name"@,
        "avatarColor"@,
        "email"@,
        "masterPasswordHint"@,
        "securityStamp"@,
        "object"@,
        "premium"@,
        "premiumFromOrganization"@,
        "emailVerified"@,
        "forcePasswordReset"@,
        "twoFactorEnabled"@,
        "usesKeyConnector"@,
        "creationDate"@,
        "key"@,
        "privateKey"@,
    ]);
    json_object(m)
}

/// The profile's creation date for a stored RFC 3339 timestamp: the same
/// instant and offset written with microseconds, `Z` for UTC (`None` when the
/// text is no RFC 3339 timestamp).
pub uninterp spec fn rfc3339_micros(text: Seq<char>) -> Option<Seq<char>>;

/// Parses `text` with `chrono::DateTime::parse_from_rfc3339` and writes the
/// parsed value back with `to_rfc3339_opts(SecondsFormat::Micros, true)`.
/// The two calls stand together because the parsed `DateTime` cannot be
/// named in a verified signature. Claimed: the result is `rfc3339_micros`
/// of the text, a function of the text alone (the parsed offset is kept, no
/// clock or time zone of the machine is read). Unsaid: what that text is.
#[verifier::external_body]
fn reformat_rfc3339(text: &str) -> (r: Option<String>)
    ensures
        rfc3339_micros(text@) == (match r {
            Some(s) => Some(s@),
            None => None,
        }),
{
    match chrono::DateTime::parse_from_rfc3339(text) {
        Ok(parsed) => Some(parsed.to_rfc3339_opts(chrono::SecondsFormat::Micros, true)),
        Err(_) => None,
    }
}

/// The creation date shown in a sync profile for the account's stored
/// `created_at`; a stored value that does not parse is an internal error.
pub fn sync_creation_date(created_at: &str) -> (r: Result<String, AppError>)
    ensures
        r is Ok == rfc3339_micros(created_at@) is Some,
        r matches Ok(s) ==> rfc3339_micros(created_at@) == Some(s@),
        r matches Err(e) ==> e == AppError::Internal,
{
    match reformat_rfc3339(created_at) {
        Some(s) => Ok(s),
        None => Err(AppError::Internal),
    }
}

/// The text of a sync answer made of the JSON texts of its parts.
pub open spec fn sync_text(
    profile: Seq<char>,
    folders: Seq<char>,
    ciphers: Seq<char>,
    sends: Seq<char>,
    user_decryption: Seq<char>,
) -> Seq<char> {
    "{\"profile\":"@ + profile + ",\"folders\":"@ + folders
        + ",\"collections\":[],\"policies\":[],\"ciphers\":"@ + ciphers + ",\"sends\":"@ + sends
        + ",\"domains\":null,\"userDecryption\":"@ + user_decryption + ",\"object\":\"sync\"}"@
}

/// Assembles the sync answer from the JSON texts of the profile, folders,
/// items, sends and decryption settings; collections and policies are
/// empty and domains `null`.
pub fn sync_body(profile: &str, folders: &str, ciphers: &str, sends: &str, user_decryption: &str) -> (r: RawJson)
    ensures
        r.0@ == sync_text(profile@, folders@, ciphers@, sends@, user_decryption@),
{
    let mut s = "{\"profile\":".to_owned();
    s.append(profile);
    s.append(",\"folders\":");
    s.append(folders);
    s.append(",\"collections\":[],\"policies\":[],\"ciphers\":");
    s.append(ciphers);
    s.append(",\"sends\":");
    s.append(sends);
    s.append(",\"domains\":null,\"userDecryption\":");
    s.append(user_decryption);
    s.append(",\"object\":\"sync\"}");
    RawJson(s)
}

} // verus!
