//! Properties of the library that span several of its functions.

use vstd::prelude::*;
use serde_json::Value;
use crate::auth::{bearer_of, cookie_token, stamp_accepted, stored_stamp, token_of, Claims};
use crate::handlers::accounts::{
    allowlist_admits, email_change_result, password_accepted, password_change_result,
    ChangeEmailRequest, ChangeMasterPasswordRequest,
};
use crate::handlers::sync::{decryption_answer, sync_profile_answer, sync_text};
use crate::models::cipher::{cipher_response, Cipher};
use crate::models::user::user_of_row;
use crate::auth::payload_gives;
use crate::handlers::accounts::{profile_answer, registered_hash, registered_iterations, registered_key, registered_kdf};
use crate::models::user::RegisterRequest;
use crate::models::import::{import_request_of, list_field, relationship_of, FolderRelationship, ImportRequest};
use crate::text::lowercase;
use crate::models::user::User;
use crate::handlers::admin::{admin_granted, normalized};
use crate::json::{
    as_i64, elements, entries, entry, int_number, is_int, is_number, json_view, member, text_of,
    JsonNumber, JsonView,
};
use crate::decode::opt_chars;
use crate::models::cipher::{
    byte_entry, cleaned_field, cleaned_fields, cleaned_history, cleaned_secure_note,
    cleaned_ssh_key, history_fixed, history_kept, kept_history, note_kept, ssh_key_kept,
};
use crate::models::user::bool_from_int::int_flag;
use crate::text::{is_white_space, trim, trim_end, trim_start};

verus! {

/// A flag written as an integer (1 or 0) reads back as the same flag.
pub proof fn law_int_flag_round_trip(b: bool, v: Value)
    requires
        json_view(v) == JsonView::Number(int_number(if b { 1int } else { 0int })),
    ensures
        int_flag(v) == Some(b),
{
}

/// An empty allowlist admits every address; a non-empty one admits exactly
/// the addresses whose entry is enabled.
pub proof fn law_allowlist_admission(count: i64, enabled: Option<i64>)
    ensures
        count <= 0 ==> allowlist_admits(Some(count), enabled),
        count > 0 ==> (allowlist_admits(Some(count), enabled) <==> enabled == Some(1i64)),
        allowlist_admits(None, enabled),
{
}

/// A bearer token in the `Authorization` header wins: the cookies of the
/// request are then not looked at.
pub proof fn law_bearer_token_wins(auth: Option<Seq<char>>, c1: Option<Seq<char>>, c2: Option<Seq<char>>)
    requires
        bearer_of(auth) is Some,
    ensures
        token_of(auth, c1) == token_of(auth, c2),
        token_of(auth, c1) == bearer_of(auth),
{
}

/// Administration is refused to every request without a bearer token in
/// its `Authorization` header, whoever the caller is: a session carried by
/// the `bw_access_token` cookie alone never passes the administrator check.
pub proof fn law_cookie_session_not_admin(
    admin: Seq<char>,
    auth: Option<Seq<char>>,
    current_email: Option<Seq<char>>,
)
    requires
        bearer_of(auth) is None,
    ensures
        !admin_granted(admin, auth, current_email),
{
}

/// Without a bearer token, the token is the `bw_access_token` cookie.
pub proof fn law_cookie_token_fallback(auth: Option<Seq<char>>, cookie: Option<Seq<char>>)
    requires
        bearer_of(auth) is None,
    ensures
        token_of(auth, cookie) == cookie_token(cookie),
{
}

/// A token accepted before a master-password change is refused after it:
/// once the account's row holds the changed account, whose stamp is the
/// fresh one the change was given, the stamp check turns the token away,
/// provided the fresh stamp differs from the one it replaces.
pub proof fn law_password_change_refuses_old_tokens(
    claims: Claims,
    user: User,
    p: ChangeMasterPasswordRequest,
    stamp: String,
    now: String,
    changed: User,
    old_row: Value,
    new_row: Value,
)
    requires
        stamp_accepted(claims, old_row),
        stored_stamp(old_row) == user.security_stamp@,
        password_change_result(user, p, stamp, now, changed),
        stored_stamp(new_row) == changed.security_stamp@,
        stamp@ != user.security_stamp@,
    ensures
        !stamp_accepted(claims, new_row),
{
}

/// A token accepted before an e-mail change is refused after it, on the
/// same terms as for a master-password change.
pub proof fn law_email_change_refuses_old_tokens(
    claims: Claims,
    user: User,
    p: ChangeEmailRequest,
    stamp: String,
    now: String,
    changed: User,
    old_row: Value,
    new_row: Value,
)
    requires
        stamp_accepted(claims, old_row),
        stored_stamp(old_row) == user.security_stamp@,
        email_change_result(user, p, stamp, now, changed),
        stored_stamp(new_row) == changed.security_stamp@,
        stamp@ != user.security_stamp@,
    ensures
        !stamp_accepted(claims, new_row),
{
}

proof fn lemma_trim_start_fixed(s: Seq<char>)
    ensures
        trim_start(trim_start(s)) == trim_start(s),
        trim_start(s).len() > 0 ==> !is_white_space(trim_start(s)[0]),
    decreases s.len(),
{
    if s.len() > 0 && is_white_space(s[0]) {
        lemma_trim_start_fixed(s.drop_first());
    }
}

proof fn lemma_trim_end_fixed(s: Seq<char>)
    ensures
        trim_end(trim_end(s)) == trim_end(s),
        trim_end(s).len() > 0 ==> !is_white_space(trim_end(s).last()),
    decreases s.len(),
{
    if s.len() > 0 && is_white_space(s.last()) {
        lemma_trim_end_fixed(s.drop_last());
    }
}

proof fn lemma_trim_end_keeps_start(s: Seq<char>)
    requires
        s.len() > 0 ==> !is_white_space(s[0]),
    ensures
        trim_end(s).len() > 0 ==> !is_white_space(trim_end(s)[0]),
        trim_end(s).len() > 0 ==> trim_end(s)[0] == s[0],
        trim_end(s).len() <= s.len(),
        trim_end(s) == s.take(trim_end(s).len() as int),
    decreases s.len(),
{
    if s.len() > 0 && is_white_space(s.last()) {
        let t = s.drop_last();
        if t.len() > 0 {
            assert(t[0] == s[0]);
        }
        lemma_trim_end_keeps_start(t);
        assert(t.take(trim_end(t).len() as int) =~= s.take(trim_end(t).len() as int));
    } else {
        assert(s.take(s.len() as int) == s);
    }
}

/// Trimming twice is trimming once.
pub proof fn law_trim_idempotent(s: Seq<char>)
    ensures
        trim(trim(s)) == trim(s),
{
    let a = trim_start(s);
    lemma_trim_start_fixed(s);
    lemma_trim_end_keeps_start(a);
    let t = trim_end(a);
    lemma_trim_end_fixed(a);
    assert(trim_start(t) == t);
    assert(trim(t) == trim_end(t));
}

/// Normalising an allowlist address is insensitive to surrounding
/// whitespace: an address and its trimmed form normalise alike.
pub proof fn law_normalized_ignores_outer_whitespace(s: Seq<char>)
    ensures
        normalized(trim(s)) == normalized(s),
{
    law_trim_idempotent(s);
}

/// Every custom field object a client gets has an integer `type` in
/// 0..=255.
pub proof fn law_cleaned_field_types_in_range(input: Option<Value>, out: Value, i: int)
    requires
        cleaned_fields(input, out),
        elements(out) matches Some(o) && 0 <= i < o.len() && entries(o[i]) is Some,
    ensures
        entries(elements(out)->0[i]) matches Some(m) && m.contains_key("type"@) && exists|n: int|
            0 <= n <= 255 && is_int(#[trigger] m["type"@], n),
{
    let o = elements(out)->0;
    match input {
        Some(v) => match json_view(v) {
            JsonView::Array(s) => {
                assert(cleaned_field(s[i], o[i]));
                match json_view(s[i]) {
                    JsonView::Object(fm) => {
                        let m = entries(o[i])->0;
                        let n: int = match byte_entry(fm, "type"@) {
                            Some(b) => b as int,
                            None => 1,
                        };
                        assert(is_int(m["type"@], n));
                    },
                    _ => {
                        assert(o[i] == s[i]);
                    },
                }
            },
            _ => {},
        },
        None => {},
    }
}

/// Every password-history entry a client gets is an object whose
/// `password` is a string, so cleaning the history again keeps it whole.
pub proof fn law_cleaned_history_entries_kept(input: Option<Value>, out: Value, i: int)
    requires
        cleaned_history(input, out),
        elements(out) matches Some(o) && 0 <= i < o.len(),
    ensures
        history_kept(elements(out)->0[i]),
{
    let o = elements(out)->0;
    match input {
        Some(v) => match json_view(v) {
            JsonView::Array(s) => {
                let k = kept_history(s);
                assert(history_fixed(k[i], o[i]));
                assert(history_kept(k[i])) by {
                    s.lemma_filter_pred(|e: Value| history_kept(e), i);
                }
                let m = entries(k[i])->0;
                if !m.contains_key("lastUsedDate"@) {
                    let om = entries(o[i])->0;
                    assert(om.remove("lastUsedDate"@) == m.remove("lastUsedDate"@));
                    assert(m.remove("lastUsedDate"@).contains_key("password"@));
                    assert(om.remove("lastUsedDate"@)["password"@] == m["password"@]);
                    assert(entry(om, "password"@) == entry(m, "password"@));
                }
            },
            _ => {},
        },
        None => {},
    }
}

/// A secure note a client gets always passes the note check, so cleaning
/// it again leaves it as it is.
pub proof fn law_cleaned_secure_note_kept(input: Option<Value>, out: Value)
    requires
        cleaned_secure_note(input, out),
    ensures
        note_kept(Some(out)),
{
    if !note_kept(input) {
        let om = entries(out)->0;
        assert(om.contains_key("type"@));
        assert(is_number(om["type"@]));
    }
}

/// An SSH key a client gets is either `null` or a complete key, which
/// cleaning again leaves as it is.
pub proof fn law_cleaned_ssh_key_stable(input: Option<Value>, out: Value, again: Value)
    requires
        cleaned_ssh_key(input, out),
        cleaned_ssh_key(Some(out), again),
        json_view(out) != JsonView::Null,
    ensures
        again == out,
{
}

/// The client view of an item carries the item's last update time as
/// `revisionDate` and its creation time as `creationDate`.
pub proof fn law_cipher_dates(c: Cipher, r: Value)
    requires
        cipher_response(c, r),
    ensures
        member(r, "revisionDate"@) matches Some(d) && text_of(d) == Some(c.updated_at@),
        member(r, "creationDate"@) matches Some(d) && text_of(d) == Some(c.created_at@),
{
}

/// In the sync answer each part stands right after its own key: the text
/// that follows `"profile":`, `"folders":`, `"ciphers":`, `"sends":` and
/// `"userDecryption":` is exactly the profile, folders, items, sends and
/// decryption settings given.
pub proof fn law_sync_parts_in_place(
    profile: Seq<char>,
    folders: Seq<char>,
    ciphers: Seq<char>,
    sends: Seq<char>,
    user_decryption: Seq<char>,
)
    ensures
        ({
            let t = sync_text(profile, folders, ciphers, sends, user_decryption);
            let k1 = "{\"profile\":"@;
            let k2 = ",\"folders\":"@;
            let k3 = ",\"collections\":[],\"policies\":[],\"ciphers\":"@;
            let k4 = ",\"sends\":"@;
            let k5 = ",\"domains\":null,\"userDecryption\":"@;
            let a1 = k1.len() as int;
            let a2 = a1 + profile.len() + k2.len();
            let a3 = a2 + folders.len() + k3.len();
            let a4 = a3 + ciphers.len() + k4.len();
            let a5 = a4 + sends.len() + k5.len();
            &&& t.subrange(0, a1) == k1
            &&& t.subrange(a1, a1 + profile.len()) == profile
            &&& t.subrange(a2 - k2.len(), a2) == k2
            &&& t.subrange(a2, a2 + folders.len()) == folders
            &&& t.subrange(a3 - k3.len(), a3) == k3
            &&& t.subrange(a3, a3 + ciphers.len()) == ciphers
            &&& t.subrange(a4 - k4.len(), a4) == k4
            &&& t.subrange(a4, a4 + sends.len()) == sends
            &&& t.subrange(a5 - k5.len(), a5) == k5
            &&& t.subrange(a5, a5 + user_decryption.len()) == user_decryption
        }),
{
    let t = sync_text(profile, folders, ciphers, sends, user_decryption);
    let k1 = "{\"profile\":"@;
    let k2 = ",\"folders\":"@;
    let k3 = ",\"collections\":[],\"policies\":[],\"ciphers\":"@;
    let k4 = ",\"sends\":"@;
    let k5 = ",\"domains\":null,\"userDecryption\":"@;
    let a1 = k1.len() as int;
    let a2 = a1 + profile.len() + k2.len();
    let a3 = a2 + folders.len() + k3.len();
    let a4 = a3 + ciphers.len() + k4.len();
    let a5 = a4 + sends.len() + k5.len();
    assert(t.subrange(0, a1) =~= k1);
    assert(t.subrange(a1, a1 + profile.len()) =~= profile);
    assert(t.subrange(a2 - k2.len(), a2) =~= k2);
    assert(t.subrange(a2, a2 + folders.len()) =~= folders);
    assert(t.subrange(a3 - k3.len(), a3) =~= k3);
    assert(t.subrange(a3, a3 + ciphers.len()) =~= ciphers);
    assert(t.subrange(a4 - k4.len(), a4) =~= k4);
    assert(t.subrange(a4, a4 + sends.len()) =~= sends);
    assert(t.subrange(a5 - k5.len(), a5) =~= k5);
    assert(t.subrange(a5, a5 + user_decryption.len()) =~= user_decryption);
}

/// After an e-mail change the account's address is the new one, lowercased
/// and unverified, and the password check accepts the new master password
/// hash (which the client computed with the new address) and no longer the
/// old one when they differ; the security stamp is the fresh one.
pub proof fn law_email_change_takes_new_credentials(
    user: User,
    p: ChangeEmailRequest,
    stamp: String,
    now: String,
    u: User,
)
    requires
        email_change_result(user, p, stamp, now, u),
    ensures
        u.email@ == lowercase(p.new_email@),
        !u.email_verified,
        password_accepted(u, p.new_master_password_hash@),
        p.new_master_password_hash@ != user.master_password_hash@ ==> !password_accepted(
            u,
            user.master_password_hash@,
        ),
        u.key@ == p.user_symmetric_key@,
        u.security_stamp@ == stamp@,
        u.id@ == user.id@,
{
}

/// After a master-password change the password check accepts the new hash
/// (and not the old one when they differ), and the key-derivation settings
/// the client derives that hash with are the ones the request gives, or the
/// account's own where it gives none, so prelogin keeps announcing the
/// settings the stored hash was made with.
pub proof fn law_password_change_keeps_unstated_kdf(
    user: User,
    p: ChangeMasterPasswordRequest,
    stamp: String,
    now: String,
    u: User,
)
    requires
        password_change_result(user, p, stamp, now, u),
    ensures
        password_accepted(u, p.new_master_password_hash@),
        p.new_master_password_hash@ != user.master_password_hash@ ==> !password_accepted(
            u,
            user.master_password_hash@,
        ),
        p.kdf_iterations is None ==> u.kdf_iterations == user.kdf_iterations,
        p.kdf_iterations matches Some(n) ==> u.kdf_iterations == n,
        p.kdf is None ==> u.kdf_type == user.kdf_type,
        p.kdf matches Some(k) ==> u.kdf_type == k,
        u.email@ == user.email@,
        u.key@ == p.user_symmetric_key@,
        u.security_stamp@ == stamp@,
{
}

/// `v` is an object whose member `k` is the non-negative integer `n`.
pub open spec fn index_member(v: Value, k: Seq<char>, n: usize) -> bool {
    member(v, k) matches Some(x) && json_view(x) == JsonView::Number(JsonNumber::PosInt(n as u64))
}

/// A folder relationship keeps its fields in place: its `key` (the item's
/// index) is the JSON `key` and its `value` (the folder's index) the JSON
/// `value`.
pub proof fn law_relationship_fields_in_place(x: FolderRelationship, v: Value)
    requires
        relationship_of(x, v),
    ensures
        index_member(v, "key"@, x.key),
        index_member(v, "value"@, x.value),
{
}

/// Every relationship of an import request sends the item at its JSON
/// `key` to the folder at its JSON `value`, in the order given.
pub proof fn law_import_relationships_in_place(x: ImportRequest, m: Map<Seq<char>, Value>)
    requires
        import_request_of(x, m),
    ensures
        list_field(entry(m, "folderRelationships"@)) matches Some(rs) && x.folder_relationships@.len()
            == rs.len() && forall|i: int|
            0 <= i < rs.len() ==> index_member(rs[i], "key"@, #[trigger] x.folder_relationships@[i].key)
                && index_member(rs[i], "value"@, x.folder_relationships@[i].value),
{
    let rs = list_field(entry(m, "folderRelationships"@))->0;
    assert forall|i: int| 0 <= i < rs.len() implies index_member(
        rs[i],
        "key"@,
        #[trigger] x.folder_relationships@[i].key,
    ) && index_member(rs[i], "value"@, x.folder_relationships@[i].value) by {
        law_relationship_fields_in_place(x.folder_relationships@[i], rs[i]);
    }
}

/// `v` is an object whose member `k` is the string `s`.
pub open spec fn text_member(v: Value, k: Seq<char>, s: Seq<char>) -> bool {
    member(v, k) matches Some(x) && text_of(x) == Some(s)
}

/// `v` is an object whose member `k` is the string of `s`, or, where `s`
/// is `None`, is `null` or absent.
pub open spec fn opt_text_member(v: Value, k: Seq<char>, s: Option<Seq<char>>) -> bool {
    match s {
        Some(t) => text_member(v, k, t),
        None => match member(v, k) {
            Some(x) => json_view(x) == JsonView::Null,
            None => true,
        },
    }
}

/// `v` is an object whose member `k` is the boolean `b`.
pub open spec fn flag_member(v: Value, k: Seq<char>, b: bool) -> bool {
    member(v, k) matches Some(x) && json_view(x) == JsonView::Bool(b)
}

/// `v` is an object whose member `k` is an integer that reads as `n`.
pub open spec fn int_member(v: Value, k: Seq<char>, n: i64) -> bool {
    member(v, k) matches Some(x) && as_i64(x) == Some(n)
}

/// The client view of an item shows each record field under its own name:
/// the id, the organisation and folder ids, the item type, the item key,
/// the favourite flag and the deletion and archive dates.
pub proof fn law_cipher_record_fields(c: Cipher, r: Value)
    requires
        cipher_response(c, r),
    ensures
        text_member(r, "id"@, c.id@),
        opt_text_member(r, "organizationId"@, opt_chars(c.organization_id)),
        opt_text_member(r, "folderId"@, opt_chars(c.folder_id)),
        int_member(r, "type"@, c.cipher_type as i64),
        opt_text_member(r, "key"@, opt_chars(c.key)),
        flag_member(r, "favorite"@, c.favorite),
        opt_text_member(r, "deletedDate"@, opt_chars(c.deleted_at)),
        opt_text_member(r, "archivedDate"@, opt_chars(c.archived_at)),
{
}

/// A user row is read column by column into the field of the same name.
pub proof fn law_user_row_fields(u: User, row: Value)
    requires
        entries(row) matches Some(m) && user_of_row(u, m),
    ensures
        text_member(row, "id"@, u.id@),
        opt_text_member(row, "name"@, opt_chars(u.name)),
        text_member(row, "email"@, u.email@),
        text_member(row, "master_password_hash"@, u.master_password_hash@),
        opt_text_member(row, "master_password_hint"@, opt_chars(u.master_password_hint)),
        text_member(row, "key"@, u.key@),
        text_member(row, "private_key"@, u.private_key@),
        text_member(row, "public_key"@, u.public_key@),
        int_member(row, "kdf_type"@, u.kdf_type as i64),
        int_member(row, "kdf_iterations"@, u.kdf_iterations as i64),
        text_member(row, "security_stamp"@, u.security_stamp@),
        text_member(row, "created_at"@, u.created_at@),
        text_member(row, "updated_at"@, u.updated_at@),
{
}

/// A token's claims are read member by member: the user id from `sub`, the
/// security stamp from `sstamp`, the device from `device` (absent or
/// `null` for none), the expiry from `exp`.
pub proof fn law_claims_fields(c: Claims, v: Value)
    requires
        payload_gives(v, c),
    ensures
        text_member(v, "sub"@, c.sub@),
        text_member(v, "sstamp"@, c.sstamp@),
        opt_text_member(v, "device"@, opt_chars(c.device)),
        text_member(v, "email"@, c.email@),
        member(v, "exp"@) matches Some(x) && json_view(x) == JsonView::Number(JsonNumber::PosInt(c.exp as u64)),
        member(v, "nbf"@) matches Some(x) && json_view(x) == JsonView::Number(JsonNumber::PosInt(c.nbf as u64)),
{
}

/// The profile answer shows the account's identity and keys under their
/// client names, and the authenticator state as given.
pub proof fn law_profile_fields(user: User, two_factor_enabled: bool, v: Value)
    requires
        profile_answer(user, two_factor_enabled, v),
    ensures
        text_member(v, "id"@, user.id@),
        text_member(v, "email"@, user.email@),
        flag_member(v, "emailVerified"@, user.email_verified),
        opt_text_member(v, "masterPasswordHint"@, opt_chars(user.master_password_hint)),
        flag_member(v, "twoFactorEnabled"@, two_factor_enabled),
        text_member(v, "key"@, user.key@),
        text_member(v, "privateKey"@, user.private_key@),
        text_member(v, "securityStamp"@, user.security_stamp@),
{
}

/// The sync profile shows the account's identity and keys under their
/// client names, the authenticator state and the creation date as given.
pub proof fn law_sync_profile_fields(user: User, two_factor_enabled: bool, creation_date: Seq<char>, v: Value)
    requires
        sync_profile_answer(v, user, two_factor_enabled, creation_date),
    ensures
        text_member(v, "id"@, user.id@),
        opt_text_member(v, "name"@, opt_chars(user.name)),
        opt_text_member(v, "avatarColor"@, opt_chars(user.avatar_color)),
        text_member(v, "email"@, user.email@),
        opt_text_member(v, "masterPasswordHint"@, opt_chars(user.master_password_hint)),
        text_member(v, "securityStamp"@, user.security_stamp@),
        flag_member(v, "twoFactorEnabled"@, two_factor_enabled),
        text_member(v, "creationDate"@, creation_date),
        text_member(v, "key"@, user.key@),
        text_member(v, "privateKey"@, user.private_key@),
{
}

/// The decryption settings unlock with the account's own user key, salted
/// with its address, and derive with its own key-derivation settings.
pub proof fn law_decryption_settings(user: User, v: Value)
    requires
        decryption_answer(v, user),
    ensures
        member(v, "masterPasswordUnlock"@) matches Some(u) && {
            &&& text_member(u, "masterKeyEncryptedUserKey"@, user.key@)
            &&& text_member(u, "masterKeyWrappedUserKey"@, user.key@)
            &&& text_member(u, "salt"@, user.email@)
            &&& member(u, "kdf"@) matches Some(k) && int_member(k, "kdfType"@, user.kdf_type as i64)
                && int_member(k, "iterations"@, user.kdf_iterations as i64)
        },
{
}

/// A registration takes the flat fields first and falls back on the
/// authentication and unlock parts: the hash from the flat field, else the
/// authentication part; the user key from the flat field, else the unlock
/// part; the key-derivation settings from the flat fields, else the
/// authentication part, else the unlock part, else PBKDF2 with 600000
/// iterations.
pub proof fn law_registration_fallbacks(p: RegisterRequest)
    ensures
        p.master_password_hash matches Some(h) ==> registered_hash(p) == Some(h@),
        p.master_password_hash is None ==> registered_hash(p) == (match p.master_password_authentication {
            Some(a) => Some(a.master_password_authentication_hash@),
            None => None::<Seq<char>>,
        }),
        p.user_symmetric_key matches Some(k) ==> registered_key(p) == Some(k@),
        p.user_symmetric_key is None ==> registered_key(p) == (match p.master_password_unlock {
            Some(u) => Some(u.master_key_wrapped_user_key@),
            None => None::<Seq<char>>,
        }),
        p.kdf matches Some(k) ==> registered_kdf(p) == k,
        p.kdf_iterations matches Some(n) ==> registered_iterations(p) == n,
        (p.kdf_iterations is None && p.master_password_authentication is None
            && p.master_password_unlock is None) ==> registered_iterations(p) == 600_000,
        (p.kdf is None && p.master_password_authentication is None && p.master_password_unlock is None)
            ==> registered_kdf(p) == 0,
        p.kdf_iterations is None ==> match p.master_password_authentication {
            Some(a) => match a.kdf {
                Some(k) => match k.iterations {
                    Some(n) => registered_iterations(p) == n,
                    None => true,
                },
                None => true,
            },
            None => true,
        },
{
}

/// A master-password change installs the key pair the request gives, or
/// keeps the account's where it gives none, and takes the request's hint.
pub proof fn law_password_change_key_pair(
    user: User,
    p: ChangeMasterPasswordRequest,
    stamp: String,
    now: String,
    u: User,
)
    requires
        password_change_result(user, p, stamp, now, u),
    ensures
        p.user_asymmetric_keys matches Some(k) ==> u.private_key@ == k.encrypted_private_key@
            && u.public_key@ == k.public_key@,
        p.user_asymmetric_keys is None ==> u.private_key@ == user.private_key@ && u.public_key@
            == user.public_key@,
        opt_chars(u.master_password_hint) == opt_chars(p.master_password_hint),
        u.id@ == user.id@,
        u.created_at@ == user.created_at@,
        u.updated_at@ == now@,
{
}

/// An e-mail change keeps the key pair and the hint, and the key-derivation
/// settings where the request gives none.
pub proof fn law_email_change_keeps_rest(
    user: User,
    p: ChangeEmailRequest,
    stamp: String,
    now: String,
    u: User,
)
    requires
        email_change_result(user, p, stamp, now, u),
    ensures
        u.private_key@ == user.private_key@,
        u.public_key@ == user.public_key@,
        opt_chars(u.master_password_hint) == opt_chars(user.master_password_hint),
        p.kdf_iterations is None ==> u.kdf_iterations == user.kdf_iterations,
        p.kdf_iterations matches Some(n) ==> u.kdf_iterations == n,
        p.kdf is None ==> u.kdf_type == user.kdf_type,
        u.created_at@ == user.created_at@,
        u.updated_at@ == now@,
{
}

} // verus!
