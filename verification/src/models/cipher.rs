//! Vault items ("ciphers"): the stored row, the in-memory record, and the
//! JSON object that clients receive for one, with the normalisations that
//! keep mobile clients from rejecting malformed item data.

use vstd::prelude::*;
use serde_json::Value;
use crate::decode::{
    dec_bool_or, dec_i32, dec_object, dec_opt_i32, dec_opt_string, dec_opt_value, dec_string,
    dec_string_list, object_of, opt_chars, read_bool_or, read_i32, read_object, read_opt_i32,
    read_opt_string, read_opt_value, read_string, read_string_list, strings_view, DecodeError,
};
use crate::json::{
    as_array, as_bool, as_object, as_str, elements, entries, entry, get, get_or_null, into_object,
    is_flag, is_int, is_null, is_number, is_opt_text, is_text, json_array, json_bool, json_clone,
    json_float_zero, json_int, json_null, json_object, json_opt_string, json_str, json_string,
    json_text, json_view, map_get, map_new, member, object_view, parse_json, parsed_json, put,
    text_of, to_json_text, value_as_i64, value_as_u64, value_is_number, JsonMap, JsonNumber,
    JsonView, as_i64,
};
use crate::text::{parse_i32, parse_i32_spec, parse_i64, parse_i64_spec};

verus! {

// ---------------------------------------------------------------------------
// Records
// ---------------------------------------------------------------------------

/// The item data kept in the `data` column of the `ciphers` table.
pub struct CipherData {
    pub name: String,
    pub notes: Option<String>,
    pub login: Option<Value>,
    pub card: Option<Value>,
    pub identity: Option<Value>,
    pub ssh_key: Option<Value>,
    pub secure_note: Option<Value>,
    pub fields: Option<Value>,
    pub password_history: Option<Value>,
    pub reprompt: Option<i32>,
}

/// A vault item as the handlers work with it.
pub struct Cipher {
    pub id: String,
    pub user_id: Option<String>,
    pub organization_id: Option<String>,
    /// 1 login, 2 secure note, 3 card, 4 identity, 5 SSH key.
    pub cipher_type: i32,
    pub data: Value,
    pub key: Option<String>,
    pub favorite: bool,
    pub folder_id: Option<String>,
    pub deleted_at: Option<String>,
    pub archived_at: Option<String>,
    pub created_at: String,
    pub updated_at: String,
    pub object: String,
    pub organization_use_totp: bool,
    pub edit: bool,
    pub view_password: bool,
    pub collection_ids: Option<Vec<String>>,
}

/// A row of the `ciphers` table.
pub struct CipherDBModel {
    pub id: String,
    pub user_id: String,
    pub organization_id: Option<String>,
    pub cipher_type: i32,
    /// The item data as JSON text.
    pub data: String,
    pub key: Option<String>,
    /// Zero when the item is not a favourite.
    pub favorite: i32,
    pub folder_id: Option<String>,
    pub deleted_at: Option<String>,
    pub archived_at: Option<String>,
    pub created_at: String,
    pub updated_at: String,
}

/// The item part of a create or update request.
pub struct CipherRequestData {
    pub cipher_type: i32,
    pub folder_id: Option<String>,
    pub organization_id: Option<String>,
    pub name: String,
    pub key: Option<String>,
    pub notes: Option<String>,
    pub favorite: bool,
    pub login: Option<Value>,
    pub card: Option<Value>,
    pub identity: Option<Value>,
    pub ssh_key: Option<Value>,
    pub secure_note: Option<Value>,
    pub fields: Option<Value>,
    pub password_history: Option<Value>,
    pub reprompt: Option<i32>,
    pub last_known_revision_date: Option<String>,
}

/// A create request whose item sits under `Cipher`.
pub struct CreateCipherRequest {
    pub cipher: CipherRequestData,
    pub collection_ids: Vec<String>,
}

/// A create request whose item fields sit at the top level.
pub struct CipherRequestFlat {
    pub cipher: CipherRequestData,
    pub collection_ids: Vec<String>,
}

/// The `object` tag a record gets when the stored data does not name one.
pub fn default_object() -> (s: String)
    ensures
        s@ == "cipher"@,
{
    "cipher".to_owned()
}

/// The value of the permission flags when the stored data does not name
/// them.
pub fn default_true() -> (b: bool)
    ensures
        b,
{
    true
}

// ---------------------------------------------------------------------------
// Reading stored values
// ---------------------------------------------------------------------------

/// Why a value could not be read as a flag.
#[derive(Debug, Clone, PartialEq, Eq)]
pub enum FlagError {
    /// An integer other than 0 or 1.
    InvalidValue(u64),
    /// Neither a boolean nor a non-negative integer.
    InvalidType,
}

/// A flag stored either as a boolean or as the integer 0 or 1.
pub open spec fn flag_of(v: Value) -> Result<bool, FlagError> {
    match json_view(v) {
        JsonView::Bool(b) => Ok(b),
        JsonView::Number(JsonNumber::PosInt(u)) => if u == 0 {
            Ok(false)
        } else if u == 1 {
            Ok(true)
        } else {
            Err(FlagError::InvalidValue(u))
        },
        _ => Err(FlagError::InvalidType),
    }
}

/// Reads a flag stored as a boolean or as the integer 0 or 1.
pub fn deserialize_bool_from_int(v: &Value) -> (r: Result<bool, FlagError>)
    ensures
        r == flag_of(*v),
{
    match as_bool(v) {
        Some(b) => Ok(b),
        None => match value_as_u64(v) {
            Some(u) => {
                if u == 0 {
                    Ok(false)
                } else if u == 1 {
                    Ok(true)
                } else {
                    Err(FlagError::InvalidValue(u))
                }
            },
            None => Err(FlagError::InvalidType),
        },
    }
}

/// The JSON text kept for the item data of a row: a string is kept as it
/// is, an object or array is written as JSON text; anything else is
/// refused.
pub open spec fn data_text_ok(v: Value) -> Option<Seq<char>> {
    match json_view(v) {
        JsonView::String(s) => Some(s),
        JsonView::Object(_) => Some(json_text(v)),
        JsonView::Array(_) => Some(json_text(v)),
        _ => None,
    }
}

/// Reads the item data of a row as JSON text: a string as it is, an
/// object or array written as compact JSON text; anything else is refused.
pub fn deserialize_json_text(v: &Value) -> (r: Result<String, DecodeError>)
    ensures
        r is Ok <==> (json_view(*v) is String || json_view(*v) is Object || json_view(*v) is Array),
        r matches Ok(s) ==> data_text_ok(*v) == Some(s@),
        r is Err ==> (r matches Err(DecodeError::Custom(m))
            && m@ == "cipher data must be a JSON string or object"@),
{
    match as_str(v) {
        Some(s) => Ok(s.to_owned()),
        None => {
            if as_object(v).is_some() || as_array(v).is_some() {
                match to_json_text(v) {
                    Ok(t) => Ok(t),
                    Err(e) => {
                        let mut msg = "invalid cipher data: ".to_owned();
                        msg.append(e.as_str());
                        proof {
                            reveal_strlit("invalid cipher data: ");
                        }
                        assert(msg@.take(21) == "invalid cipher data: "@);
                        Err(DecodeError::Custom(msg))
                    },
                }
            } else {
                Err(DecodeError::Custom("cipher data must be a JSON string or object".to_owned()))
            }
        },
    }
}

/// The favourite flag of a row: a boolean, an integer in `i32` range, or a
/// text that parses as one.
pub open spec fn favorite_of(v: Value) -> Option<i32> {
    match json_view(v) {
        JsonView::Bool(b) => Some(if b { 1i32 } else { 0i32 }),
        JsonView::Number(n) => match as_i64(v) {
            Some(x) => if i32::MIN <= x <= i32::MAX {
                Some(x as i32)
            } else {
                None
            },
            None => None,
        },
        JsonView::String(s) => parse_i32_spec(s),
        _ => None,
    }
}

/// Reads the favourite flag of a row.
pub fn deserialize_i32_from_bool_or_number(v: &Value) -> (r: Result<i32, DecodeError>)
    ensures
        r is Ok == favorite_of(*v) is Some,
        r matches Ok(x) ==> favorite_of(*v) == Some(x),
        r matches Err(DecodeError::Custom(m)) ==> m@ == (if json_view(*v) is Bool || json_view(*v) is Number
            || json_view(*v) is String {
            "cipher favorite must be an integer"@
        } else {
            "cipher favorite must be a boolean or integer"@
        }),
        r matches Err(e) ==> e is Custom,
{
    if let Some(b) = as_bool(v) {
        return Ok(if b { 1 } else { 0 });
    }
    if value_is_number(v) {
        return match value_as_i64(v) {
            Some(x) => {
                if -2147483648i64 <= x && x <= 2147483647i64 {
                    Ok(x as i32)
                } else {
                    Err(DecodeError::Custom("cipher favorite must be an integer".to_owned()))
                }
            },
            None => Err(DecodeError::Custom("cipher favorite must be an integer".to_owned())),
        };
    }
    if let Some(s) = as_str(v) {
        return match parse_i32(s) {
            Some(x) => Ok(x),
            None => Err(DecodeError::Custom("cipher favorite must be an integer".to_owned())),
        };
    }
    Err(DecodeError::Custom("cipher favorite must be a boolean or integer".to_owned()))
}

/// What a stored row holds when every column reads: the row as a
/// `CipherDBModel`'s fields.
pub open spec fn row_reads(m: Map<Seq<char>, Value>) -> bool {
    &&& dec_string(entry(m, "id"@)) is Some
    &&& dec_string(entry(m, "user_id"@)) is Some
    &&& dec_opt_string(entry(m, "organization_id"@)) is Some
    &&& dec_i32(entry(m, "type"@)) is Some
    &&& (entry(m, "data"@) matches Some(d) && data_text_ok(d) is Some)
    &&& dec_opt_string(entry(m, "key"@)) is Some
    &&& (entry(m, "favorite"@) matches Some(f) && favorite_of(f) is Some)
    &&& dec_opt_string(entry(m, "folder_id"@)) is Some
    &&& dec_opt_string(entry(m, "deleted_at"@)) is Some
    &&& dec_opt_string(entry(m, "archived_at"@)) is Some
    &&& dec_string(entry(m, "created_at"@)) is Some
    &&& dec_string(entry(m, "updated_at"@)) is Some
}

/// `model` holds the columns of the row `m`.
pub open spec fn model_of_row(model: CipherDBModel, m: Map<Seq<char>, Value>) -> bool {
    &&& dec_string(entry(m, "id"@)) == Some(model.id@)
    &&& dec_string(entry(m, "user_id"@)) == Some(model.user_id@)
    &&& dec_opt_string(entry(m, "organization_id"@)) == Some(opt_chars(model.organization_id))
    &&& dec_i32(entry(m, "type"@)) == Some(model.cipher_type)
    &&& data_text_ok(m["data"@]) == Some(model.data@)
    &&& dec_opt_string(entry(m, "key"@)) == Some(opt_chars(model.key))
    &&& favorite_of(m["favorite"@]) == Some(model.favorite)
    &&& dec_opt_string(entry(m, "folder_id"@)) == Some(opt_chars(model.folder_id))
    &&& dec_opt_string(entry(m, "deleted_at"@)) == Some(opt_chars(model.deleted_at))
    &&& dec_opt_string(entry(m, "archived_at"@)) == Some(opt_chars(model.archived_at))
    &&& dec_string(entry(m, "created_at"@)) == Some(model.created_at@)
    &&& dec_string(entry(m, "updated_at"@)) == Some(model.updated_at@)
}

impl CipherDBModel {
    /// Reads a row of the `ciphers` table, given as a JSON object whose keys
    /// are the column names. The item data may be JSON text or a JSON object
    /// or array; the favourite flag may be a boolean, an integer or a numeric
    /// text.
    pub fn from_row(row: &Value) -> (r: Result<CipherDBModel, DecodeError>)
        ensures
            r is Ok <==> (entries(*row) matches Some(m) && row_reads(m)),
            r matches Ok(model) ==> model_of_row(model, entries(*row)->0),
            entries(*row) is None ==> r == Err::<CipherDBModel, DecodeError>(DecodeError::NotAnObject),
    {
        let m = object_of(row)?;
        let id = read_string(m, "id")?;
        let user_id = read_string(m, "user_id")?;
        let organization_id = read_opt_string(m, "organization_id")?;
        let cipher_type = read_i32(m, "type")?;
        let data = match map_get(m, "data") {
            Some(d) => deserialize_json_text(d)?,
            None => return Err(DecodeError::MissingField("data".to_owned())),
        };
        let key = read_opt_string(m, "key")?;
        let favorite = match map_get(m, "favorite") {
            Some(f) => deserialize_i32_from_bool_or_number(f)?,
            None => return Err(DecodeError::MissingField("favorite".to_owned())),
        };
        let folder_id = read_opt_string(m, "folder_id")?;
        let deleted_at = read_opt_string(m, "deleted_at")?;
        let archived_at = read_opt_string(m, "archived_at")?;
        let created_at = read_string(m, "created_at")?;
        let updated_at = read_string(m, "updated_at")?;
        Ok(CipherDBModel {
            id,
            user_id,
            organization_id,
            cipher_type,
            data,
            key,
            favorite,
            folder_id,
            deleted_at,
            archived_at,
            created_at,
            updated_at,
        })
    }

    /// The record for this row: the data text read back as JSON (`null`
    /// where it is not JSON), the favourite flag set for any non-zero value,
    /// and the permission fields at their defaults.
    pub fn into(self) -> (c: Cipher)
        ensures
            c.id == self.id,
            c.user_id == Some(self.user_id),
            c.organization_id == self.organization_id,
            c.cipher_type == self.cipher_type,
            parsed_json(self.data@) matches Some(d) ==> c.data == d,
            parsed_json(self.data@) is None ==> is_null(c.data),
            c.key == self.key,
            c.favorite == (self.favorite != 0),
            c.folder_id == self.folder_id,
            c.deleted_at == self.deleted_at,
            c.archived_at == self.archived_at,
            c.created_at == self.created_at,
            c.updated_at == self.updated_at,
            c.object@ == "cipher"@,
            !c.organization_use_totp,
            c.edit,
            c.view_password,
            c.collection_ids is None,
    {
        let data = match parse_json(self.data.as_str()) {
            Some(d) => d,
            None => json_null(),
        };
        Cipher {
            id: self.id,
            user_id: Some(self.user_id),
            organization_id: self.organization_id,
            cipher_type: self.cipher_type,
            data,
            key: self.key,
            favorite: self.favorite != 0,
            folder_id: self.folder_id,
            deleted_at: self.deleted_at,
            archived_at: self.archived_at,
            created_at: self.created_at,
            updated_at: self.updated_at,
            object: default_object(),
            organization_use_totp: false,
            edit: default_true(),
            view_password: default_true(),
            collection_ids: None,
        }
    }
}

// ---------------------------------------------------------------------------
// Normalising item data for clients
// ---------------------------------------------------------------------------

/// `Some(v)` of a present reference.
pub open spec fn deref_opt(o: Option<&Value>) -> Option<Value> {
    match o {
        Some(v) => Some(*v),
        None => None,
    }
}

/// An integer given either as a number or as a decimal text.
pub open spec fn lenient_int(v: Value) -> Option<i64> {
    match as_i64(v) {
        Some(n) => Some(n),
        None => match text_of(v) {
            Some(s) => parse_i64_spec(s),
            None => None,
        },
    }
}

/// The integer read from the entry `k` of `m`, if it lies in 0..=255.
pub open spec fn byte_entry(m: Map<Seq<char>, Value>, k: Seq<char>) -> Option<i64> {
    match entry(m, k) {
        Some(x) => match lenient_int(x) {
            Some(n) => if 0 <= n <= 255 {
                Some(n)
            } else {
                None
            },
            None => None,
        },
        None => None,
    }
}

/// `out` is the object `m` with its entry `k` replaced by one that
/// satisfies `ok`.
pub open spec fn replaced(m: Map<Seq<char>, Value>, k: Seq<char>, out: Value, ok: spec_fn(Value) -> bool) -> bool {
    entries(out) matches Some(om) && om.contains_key(k) && om.remove(k) == m.remove(k) && ok(om[k])
}

/// A custom field as clients get it: an object has its `type` set to the
/// stored type when that is an integer in 0..=255 (a number or a numeric
/// text), to 1 otherwise; anything else is kept.
pub open spec fn cleaned_field(f: Value, out: Value) -> bool {
    match json_view(f) {
        JsonView::Object(m) => replaced(
            m,
            "type"@,
            out,
            |t: Value|
                is_int(
                    t,
                    match byte_entry(m, "type"@) {
                        Some(n) => n as int,
                        None => 1,
                    },
                ),
        ),
        _ => out == f,
    }
}

/// The custom fields as clients get them: each element of a stored array
/// cleaned, and an empty array where none is stored.
pub open spec fn cleaned_fields(input: Option<Value>, out: Value) -> bool {
    match input {
        Some(v) => match json_view(v) {
            JsonView::Array(s) => elements(out) matches Some(o) && o.len() == s.len() && forall|i: int|
                0 <= i < s.len() ==> cleaned_field(#[trigger] s[i], o[i]),
            _ => elements(out) == Some(Seq::<Value>::empty()),
        },
        None => elements(out) == Some(Seq::<Value>::empty()),
    }
}

/// An integer read from a number or a numeric text.
fn lenient_int_of(v: &Value) -> (r: Option<i64>)
    ensures
        r == lenient_int(*v),
{
    match value_as_i64(v) {
        Some(n) => Some(n),
        None => match as_str(v) {
            Some(s) => parse_i64(s),
            None => None,
        },
    }
}

/// The integer held at `k` in `m` when it lies in 0..=255.
fn byte_entry_of(m: &JsonMap, k: &str) -> (r: Option<i64>)
    ensures
        r == byte_entry(object_view(*m), k@),
{
    match map_get(m, k) {
        Some(x) => match lenient_int_of(x) {
            Some(n) => {
                if 0 <= n && n <= 255 {
                    Some(n)
                } else {
                    None
                }
            },
            None => None,
        },
        None => None,
    }
}

fn clean_field(f: &Value) -> (r: Value)
    ensures
        cleaned_field(*f, r),
{
    match into_object(json_clone(f)) {
        Some(mut m) => {
            let ghost m0 = object_view(m);
            let n = match byte_entry_of(&m, "type") {
                Some(n) => n,
                None => 1,
            };
            put(&mut m, "type", json_int(n));
            assert(object_view(m).remove("type"@) =~= m0.remove("type"@));
            json_object(m)
        },
        None => json_clone(f),
    }
}

/// Normalises the custom fields of an item.
pub fn clean_fields(value: Option<&Value>) -> (r: Value)
    ensures
        cleaned_fields(deref_opt(value), r),
{
    let fields = match value {
        Some(v) => as_array(v),
        None => None,
    };
    match fields {
        None => json_array(Vec::new()),
        Some(fields) => {
            let mut out: Vec<Value> = Vec::new();
            for i in 0..fields.len()
                invariant
                    out@.len() == i,
                    forall|j: int| 0 <= j < i ==> cleaned_field(#[trigger] fields@[j], out@[j]),
            {
                out.push(clean_field(&fields[i]));
            }
            json_array(out)
        },
    }
}

/// The date a password-history entry without one gets.
pub open spec fn epoch_date() -> Seq<char> {
    "1970-01-01T00:00:00.000000Z"@
}

/// A password-history entry is kept when it is an object whose `password`
/// is a string.
pub open spec fn history_kept(e: Value) -> bool {
    match json_view(e) {
        JsonView::Object(m) => entry(m, "password"@) matches Some(p) && json_view(p) is String,
        _ => false,
    }
}

/// A kept entry as clients get it: unchanged when it has a `lastUsedDate`,
/// otherwise with `lastUsedDate` set to the epoch.
pub open spec fn history_fixed(e: Value, out: Value) -> bool {
    match json_view(e) {
        JsonView::Object(m) => if m.contains_key("lastUsedDate"@) {
            out == e
        } else {
            replaced(m, "lastUsedDate"@, out, |d: Value| is_text(d, epoch_date()))
        },
        _ => false,
    }
}

/// The kept entries of a stored history, in order.
pub open spec fn kept_history(s: Seq<Value>) -> Seq<Value> {
    s.filter(|e: Value| history_kept(e))
}

/// The password history as clients get it: the kept entries, each fixed,
/// in order; an empty array where no array is stored.
pub open spec fn cleaned_history(input: Option<Value>, out: Value) -> bool {
    match input {
        Some(v) => match json_view(v) {
            JsonView::Array(s) => elements(out) matches Some(o) && o.len() == kept_history(s).len()
                && forall|i: int| 0 <= i < o.len() ==> history_fixed(#[trigger] kept_history(s)[i], o[i]),
            _ => elements(out) == Some(Seq::<Value>::empty()),
        },
        None => elements(out) == Some(Seq::<Value>::empty()),
    }
}

fn history_entry(e: &Value) -> (r: Option<Value>)
    ensures
        r is Some == history_kept(*e),
        r matches Some(o) ==> history_fixed(*e, o),
{
    let m = match as_object(e) {
        Some(m) => m,
        None => return None,
    };
    let is_text_password = match map_get(m, "password") {
        Some(p) => as_str(p).is_some(),
        None => false,
    };
    if !is_text_password {
        return None;
    }
    if map_get(m, "lastUsedDate").is_some() {
        return Some(json_clone(e));
    }
    let mut copy = json_clone(e);
    match into_object(copy) {
        Some(mut om) => {
            let ghost m0 = object_view(om);
            put(&mut om, "lastUsedDate", json_str("1970-01-01T00:00:00.000000Z"));
            assert(object_view(om).remove("lastUsedDate"@) =~= m0.remove("lastUsedDate"@));
            Some(json_object(om))
        },
        None => None,
    }
}

/// Normalises the password history of an item.
pub fn clean_password_history(value: Option<&Value>) -> (r: Value)
    ensures
        cleaned_history(deref_opt(value), r),
{
    let history = match value {
        Some(v) => as_array(v),
        None => None,
    };
    match history {
        None => json_array(Vec::new()),
        Some(history) => {
            let ghost s = history@;
            let mut out: Vec<Value> = Vec::new();
            let mut i: usize = 0;
            while i < history.len()
                invariant
                    i <= s.len(),
                    s == history@,
                    out@.len() == kept_history(s.take(i as int)).len(),
                    forall|j: int| 0 <= j < out@.len() ==> history_fixed(#[trigger] kept_history(s.take(i as int))[j], out@[j]),
                decreases s.len() - i,
            {
                let ghost before = kept_history(s.take(i as int));
                proof {
                    reveal(Seq::filter);
                }
                assert(s.take(i + 1).drop_last() == s.take(i as int));
                assert(s.take(i + 1).last() == s[i as int]);
                match history_entry(&history[i]) {
                    Some(o) => {
                        let ghost old_out = out@;
                        out.push(o);
                        let ghost after = kept_history(s.take(i + 1));
                        assert(after == before.push(s[i as int]));
                        assert forall|j: int| 0 <= j < out@.len() implies history_fixed(
                            #[trigger] after[j],
                            out@[j],
                        ) by {
                            if j < old_out.len() {
                                assert(after[j] == before[j]);
                                assert(out@[j] == old_out[j]);
                                assert(history_fixed(before[j], old_out[j]));
                            } else {
                                assert(j == old_out.len());
                                assert(after[j] == s[i as int]);
                                assert(out@[j] == o);
                                assert(history_fixed(s[i as int], o));
                            }
                        }
                    },
                    None => {
                        assert(kept_history(s.take(i + 1)) == before);
                    },
                }
                i = i + 1;
            }
            assert(s.take(s.len() as int) == s);
            json_array(out)
        },
    }
}

/// A login URI as clients get it: an object has its `match` set to the
/// stored match type when that is an integer in 0..=255 (a number or a
/// numeric text), to `null` otherwise; anything else is kept.
pub open spec fn cleaned_uri(u: Value, out: Value) -> bool {
    match json_view(u) {
        JsonView::Object(m) => replaced(
            m,
            "match"@,
            out,
            |x: Value|
                match byte_entry(m, "match"@) {
                    Some(n) => is_int(x, n as int),
                    None => is_null(x),
                },
        ),
        _ => out == u,
    }
}

/// The login data as clients get it: `null` when none is stored; an object
/// whose `uris` is an array has each URI cleaned; anything else is kept.
pub open spec fn cleaned_login(input: Option<Value>, out: Value) -> bool {
    match input {
        None => is_null(out),
        Some(v) => match json_view(v) {
            JsonView::Object(m) => match entry(m, "uris"@) {
                Some(uv) => match json_view(uv) {
                    JsonView::Array(us) => replaced(
                        m,
                        "uris"@,
                        out,
                        |x: Value|
                            elements(x) matches Some(us2) && us2.len() == us.len() && forall|i: int|
                                0 <= i < us.len() ==> cleaned_uri(#[trigger] us[i], us2[i]),
                    ),
                    _ => out == v,
                },
                None => out == v,
            },
            _ => out == v,
        },
    }
}

fn clean_uri(u: &Value) -> (r: Value)
    ensures
        cleaned_uri(*u, r),
{
    match into_object(json_clone(u)) {
        Some(mut m) => {
            let ghost m0 = object_view(m);
            let x = match byte_entry_of(&m, "match") {
                Some(n) => json_int(n),
                None => json_null(),
            };
            put(&mut m, "match", x);
            assert(object_view(m).remove("match"@) =~= m0.remove("match"@));
            json_object(m)
        },
        None => json_clone(u),
    }
}

/// Normalises the login data of an item.
pub fn clean_login(value: Option<&Value>) -> (r: Value)
    ensures
        cleaned_login(deref_opt(value), r),
{
    let v = match value {
        Some(v) => v,
        None => return json_null(),
    };
    let m = match as_object(v) {
        Some(m) => m,
        None => return json_clone(v),
    };
    let uris = match map_get(m, "uris") {
        Some(uv) => match as_array(uv) {
            Some(us) => us,
            None => return json_clone(v),
        },
        None => return json_clone(v),
    };
    let mut cleaned: Vec<Value> = Vec::new();
    let mut i: usize = 0;
    while i < uris.len()
        invariant
            i <= uris@.len(),
            cleaned@.len() == i,
            forall|j: int| 0 <= j < i ==> cleaned_uri(#[trigger] uris@[j], cleaned@[j]),
        decreases uris@.len() - i,
    {
        cleaned.push(clean_uri(&uris[i]));
        i = i + 1;
    }
    let mut om = match into_object(json_clone(v)) {
        Some(om) => om,
        None => return json_clone(v),
    };
    let ghost m0 = object_view(om);
    put(&mut om, "uris", json_array(cleaned));
    assert(object_view(om).remove("uris"@) =~= m0.remove("uris"@));
    json_object(om)
}

/// The first login URI: the `uri` of the first element of the `uris`
/// array, if there is one.
pub open spec fn first_uri(login: Value) -> Option<Value> {
    match member(login, "uris"@) {
        Some(u) => match elements(u) {
            Some(s) => if s.len() > 0 {
                member(s[0], "uri"@)
            } else {
                None
            },
            None => None,
        },
        None => None,
    }
}

/// The first login URI, or `null`.
pub fn login_uri(login: &Value) -> (r: Value)
    ensures
        first_uri(*login) matches Some(x) ==> r == x,
        first_uri(*login) is None ==> is_null(r),
{
    let uris = match get(login, "uris") {
        Some(u) => u,
        None => return json_null(),
    };
    let list = match as_array(uris) {
        Some(l) => l,
        None => return json_null(),
    };
    if list.len() == 0 {
        return json_null();
    }
    match get(&list[0], "uri") {
        Some(x) => json_clone(x),
        None => json_null(),
    }
}

/// A stored secure note is kept when it is an object whose `type` is a
/// number.
pub open spec fn note_kept(input: Option<Value>) -> bool {
    match input {
        Some(v) => entries(v) matches Some(m) && entry(m, "type"@) matches Some(t) && is_number(t),
        None => false,
    }
}

/// The secure-note data as clients get it: a kept note unchanged, otherwise
/// the object `{"type": 0}`.
pub open spec fn cleaned_secure_note(input: Option<Value>, out: Value) -> bool {
    if note_kept(input) {
        out == input->0
    } else {
        entries(out) matches Some(om) && om.dom() == set!["type"@] && is_int(om["type"@], 0)
    }
}

/// Normalises the secure-note data of an item.
pub fn clean_secure_note(value: Option<&Value>) -> (r: Value)
    ensures
        cleaned_secure_note(deref_opt(value), r),
{
    if let Some(v) = value {
        if let Some(m) = as_object(v) {
            if let Some(t) = map_get(m, "type") {
                if value_is_number(t) {
                    return json_clone(v);
                }
            }
        }
    }
    let mut om = map_new();
    put(&mut om, "type", json_int(0));
    assert(object_view(om).dom() =~= set!["type"@]);
    json_object(om)
}

/// The entry `k` of `m` is a non-empty string.
pub open spec fn has_text(m: Map<Seq<char>, Value>, k: Seq<char>) -> bool {
    entry(m, k) matches Some(x) && text_of(x) matches Some(s) && s.len() > 0
}

/// A stored SSH key is kept when it is an object with non-empty
/// `keyFingerprint`, `privateKey` and `publicKey` strings.
pub open spec fn ssh_key_kept(input: Option<Value>) -> bool {
    match input {
        Some(v) => entries(v) matches Some(m) && has_text(m, "keyFingerprint"@) && has_text(
            m,
            "privateKey"@,
        ) && has_text(m, "publicKey"@),
        None => false,
    }
}

/// The SSH-key data as clients get it: a kept key unchanged, otherwise
/// `null`.
pub open spec fn cleaned_ssh_key(input: Option<Value>, out: Value) -> bool {
    if ssh_key_kept(input) {
        out == input->0
    } else {
        is_null(out)
    }
}

fn nonempty_text_at(m: &JsonMap, k: &str) -> (r: bool)
    ensures
        r == has_text(object_view(*m), k@),
{
    match map_get(m, k) {
        Some(x) => match as_str(x) {
            Some(s) => !s.is_empty(),
            None => false,
        },
        None => false,
    }
}

/// Normalises the SSH-key data of an item.
pub fn clean_ssh_key(value: Option<&Value>) -> (r: Value)
    ensures
        cleaned_ssh_key(deref_opt(value), r),
{
    if let Some(v) = value {
        if let Some(m) = as_object(v) {
            if nonempty_text_at(m, "keyFingerprint") && nonempty_text_at(m, "privateKey")
                && nonempty_text_at(m, "publicKey") {
                return json_clone(v);
            }
        }
    }
    json_null()
}

// ---------------------------------------------------------------------------
// The client view of an item
// ---------------------------------------------------------------------------

/// `v` is `null`, or the array of the strings `ids`.
pub open spec fn is_id_list(v: Value, ids: Option<Vec<String>>) -> bool {
    match ids {
        None => is_null(v),
        Some(l) => elements(v) matches Some(s) && s.len() == l@.len() && forall|i: int|
            0 <= i < s.len() ==> is_text(#[trigger] s[i], l@[i]@),
    }
}

/// `v` is the object `{"delete": edit, "restore": edit}`.
pub open spec fn is_permissions(v: Value, edit: bool) -> bool {
    entries(v) matches Some(p) && p.dom() == set!["delete"@, "restore"@] && is_flag(p["delete"@], edit)
        && is_flag(p["restore"@], edit)
}

/// `out` is the stored value, or `null` where there is none.
pub open spec fn copied_or_null(e: Option<Value>, out: Value) -> bool {
    match e {
        Some(x) => out == x,
        None => is_null(out),
    }
}

/// `out` is the stored reprompt setting, or the float `0.0` where there is
/// none.
pub open spec fn reprompt_out(e: Option<Value>, out: Value) -> bool {
    match e {
        Some(x) => out == x,
        None => json_view(out) == JsonView::Number(JsonNumber::Float(0)),
    }
}

/// `out` is the first URI of `login`, or `null` where there is none.
pub open spec fn uri_out(login: Value, out: Value) -> bool {
    match first_uri(login) {
        Some(x) => out == x,
        None => is_null(out),
    }
}

/// The keys of the client view of an item.
pub open spec fn response_keys(has_user: bool) -> Set<Seq<char>> {
    let common = set![
        "object"@,
        "id"@,
        "organizationId"@,
        "folderId"@,
        "type"@,
        "key"@,
        "favorite"@,
        "edit"@,
        "permissions"@,
        "viewPassword"@,
        "organizationUseTotp"@,
        "collectionIds"@,
        "revisionDate"@,
        "creationDate"@,
        "deletedDate"@,
        "archivedDate"@,
        "name"@,
        "notes"@,
        "fields"@,
        "passwordHistory"@,
        "reprompt"@,
        "login"@,
        "secureNote"@,
        "card"@,
        "identity"@,
        "sshKey"@,
        "uri"@,
    ];
    if has_user {
        common.insert("userId"@)
    } else {
        common
    }
}

/// The entries of the client view that describe the record itself.
pub open spec fn record_entries(c: Cipher, m: Map<Seq<char>, Value>) -> bool {
    &&& is_text(m["object"@], "cipherDetails"@)
    &&& is_text(m["id"@], c.id@)
    &&& (c.user_id matches Some(u) ==> is_text(m["userId"@], u@))
    &&& is_opt_text(m["organizationId"@], opt_chars(c.organization_id))
    &&& is_opt_text(m["folderId"@], opt_chars(c.folder_id))
    &&& is_int(m["type"@], c.cipher_type as int)
    &&& is_opt_text(m["key"@], opt_chars(c.key))
    &&& is_flag(m["favorite"@], c.favorite)
    &&& is_flag(m["edit"@], c.edit)
    &&& is_permissions(m["permissions"@], c.edit)
    &&& is_flag(m["viewPassword"@], c.view_password)
    &&& is_flag(m["organizationUseTotp"@], c.organization_use_totp)
    &&& is_id_list(m["collectionIds"@], c.collection_ids)
    &&& is_text(m["revisionDate"@], c.updated_at@)
    &&& is_text(m["creationDate"@], c.created_at@)
    &&& is_opt_text(m["deletedDate"@], opt_chars(c.deleted_at))
    &&& is_opt_text(m["archivedDate"@], opt_chars(c.archived_at))
}

/// The entries of the client view that come from the item data.
pub open spec fn data_entries(c: Cipher, m: Map<Seq<char>, Value>) -> bool {
    match entries(c.data) {
        Some(d) => {
            &&& copied_or_null(entry(d, "name"@), m["name"@])
            &&& copied_or_null(entry(d, "notes"@), m["notes"@])
            &&& cleaned_fields(entry(d, "fields"@), m["fields"@])
            &&& cleaned_history(entry(d, "passwordHistory"@), m["passwordHistory"@])
            &&& reprompt_out(entry(d, "reprompt"@), m["reprompt"@])
            &&& if c.cipher_type == 1 {
                cleaned_login(entry(d, "login"@), m["login"@]) && uri_out(m["login"@], m["uri"@])
            } else {
                is_null(m["login"@]) && is_null(m["uri"@])
            }
            &&& if c.cipher_type == 2 {
                cleaned_secure_note(entry(d, "secureNote"@), m["secureNote"@])
            } else {
                is_null(m["secureNote"@])
            }
            &&& if c.cipher_type == 3 {
                copied_or_null(entry(d, "card"@), m["card"@])
            } else {
                is_null(m["card"@])
            }
            &&& if c.cipher_type == 4 {
                copied_or_null(entry(d, "identity"@), m["identity"@])
            } else {
                is_null(m["identity"@])
            }
            &&& if c.cipher_type == 5 {
                cleaned_ssh_key(entry(d, "sshKey"@), m["sshKey"@])
            } else {
                is_null(m["sshKey"@])
            }
        },
        None => {
            &&& is_null(m["name"@])
            &&& is_null(m["notes"@])
            &&& is_null(m["fields"@])
            &&& is_null(m["passwordHistory"@])
            &&& is_null(m["reprompt"@])
            &&& is_null(m["login"@])
            &&& is_null(m["secureNote"@])
            &&& is_null(m["card"@])
            &&& is_null(m["identity"@])
            &&& is_null(m["sshKey"@])
            &&& is_null(m["uri"@])
        },
    }
}

/// `r` is the client view of the item `c`.
pub open spec fn cipher_response(c: Cipher, r: Value) -> bool {
    entries(r) matches Some(m) && m.dom() == response_keys(c.user_id is Some) && record_entries(c, m)
        && data_entries(c, m)
}

/// The permission flags `{"delete": edit, "restore": edit}`.
fn permissions(edit: bool) -> (v: Value)
    ensures
        is_permissions(v, edit),
{
    let mut p = map_new();
    put(&mut p, "delete", json_bool(edit));
    put(&mut p, "restore", json_bool(edit));
    assert(object_view(p).dom() =~= set!["delete"@, "restore"@]);
    json_object(p)
}

/// The array of the strings `ids`, or `null`.
fn id_list(ids: &Option<Vec<String>>) -> (v: Value)
    ensures
        is_id_list(v, *ids),
{
    match ids {
        None => json_null(),
        Some(l) => {
            let mut out: Vec<Value> = Vec::new();
            let mut i: usize = 0;
            while i < l.len()
                invariant
                    i <= l@.len(),
                    out@.len() == i,
                    forall|j: int| 0 <= j < i ==> is_text(#[trigger] out@[j], l@[j]@),
                decreases l@.len() - i,
            {
                out.push(json_string(l[i].clone()));
                i = i + 1;
            }
            json_array(out)
        },
    }
}

/// The lengths and leading characters of the keys of the client view of
/// an item, which tell the keys apart.
pub proof fn lemma_response_key_facts()
    ensures
        "object"@.len() == 6,
        "object"@[0] == 'o',
        "id"@.len() == 2,
        "id"@[0] == 'i',
        "userId"@.len() == 6,
        "userId"@[0] == 'u',
        "organizationId"@.len() == 14,
        "organizationId"@[0] == 'o',
        "folderId"@.len() == 8,
        "folderId"@[0] == 'f',
        "type"@.len() == 4,
        "type"@[0] == 't',
        "key"@.len() == 3,
        "key"@[0] == 'k',
        "favorite"@.len() == 8,
        "favorite"@[0] == 'f',
        "edit"@.len() == 4,
        "edit"@[0] == 'e',
        "permissions"@.len() == 11,
        "permissions"@[0] == 'p',
        "viewPassword"@.len() == 12,
        "viewPassword"@[0] == 'v',
        "organizationUseTotp"@.len() == 19,
        "organizationUseTotp"@[0] == 'o',
        "collectionIds"@.len() == 13,
        "collectionIds"@[0] == 'c',
        "revisionDate"@.len() == 12,
        "revisionDate"@[0] == 'r',
        "creationDate"@.len() == 12,
        "creationDate"@[0] == 'c',
        "deletedDate"@.len() == 11,
        "deletedDate"@[0] == 'd',
        "archivedDate"@.len() == 12,
        "archivedDate"@[0] == 'a',
        "name"@.len() == 4,
        "name"@[0] == 'n',
        "notes"@.len() == 5,
        "notes"@[0] == 'n',
        "fields"@.len() == 6,
        "fields"@[0] == 'f',
        "passwordHistory"@.len() == 15,
        "passwordHistory"@[0] == 'p',
        "reprompt"@.len() == 8,
        "reprompt"@[0] == 'r',
        "login"@.len() == 5,
        "login"@[0] == 'l',
        "secureNote"@.len() == 10,
        "secureNote"@[0] == 's',
        "card"@.len() == 4,
        "card"@[0] == 'c',
        "identity"@.len() == 8,
        "identity"@[0] == 'i',
        "sshKey"@.len() == 6,
        "sshKey"@[0] == 's',
        "uri"@.len() == 3,
        "uri"@[0] == 'u',
        "folderId"@[1] == 'o',
        "favorite"@[1] == 'a',
{
    reveal_strlit("object");
    reveal_strlit("id");
    reveal_strlit("userId");
    reveal_strlit("organizationId");
    reveal_strlit("folderId");
    reveal_strlit("type");
    reveal_strlit("key");
    reveal_strlit("favorite");
    reveal_strlit("edit");
    reveal_strlit("permissions");
    reveal_strlit("viewPassword");
    reveal_strlit("organizationUseTotp");
    reveal_strlit("collectionIds");
    reveal_strlit("revisionDate");
    reveal_strlit("creationDate");
    reveal_strlit("deletedDate");
    reveal_strlit("archivedDate");
    reveal_strlit("name");
    reveal_strlit("notes");
    reveal_strlit("fields");
    reveal_strlit("passwordHistory");
    reveal_strlit("reprompt");
    reveal_strlit("login");
    reveal_strlit("secureNote");
    reveal_strlit("card");
    reveal_strlit("identity");
    reveal_strlit("sshKey");
    reveal_strlit("uri");
}

impl Cipher {
    fn record_part(&self) -> (m: JsonMap)
        ensures
            object_view(m).dom() == response_keys(self.user_id is Some).remove("name"@).remove("notes"@).remove(
                "fields"@,
            ).remove("passwordHistory"@).remove("reprompt"@).remove("login"@).remove("secureNote"@).remove(
                "card"@,
            ).remove("identity"@).remove("sshKey"@).remove("uri"@),
            record_entries(*self, object_view(m)),
    {
        proof {
            lemma_response_key_facts();
        }
        let mut m = map_new();
        put(&mut m, "object", json_str("cipherDetails"));
        put(&mut m, "id", json_string(self.id.clone()));
        if self.user_id.is_some() {
            put(&mut m, "userId", json_opt_string(&self.user_id));
        }
        put(&mut m, "organizationId", json_opt_string(&self.organization_id));
        put(&mut m, "folderId", json_opt_string(&self.folder_id));
        put(&mut m, "type", json_int(self.cipher_type as i64));
        put(&mut m, "key", json_opt_string(&self.key));
        put(&mut m, "favorite", json_bool(self.favorite));
        put(&mut m, "edit", json_bool(self.edit));
        put(&mut m, "permissions", permissions(self.edit));
        put(&mut m, "viewPassword", json_bool(self.view_password));
        put(&mut m, "organizationUseTotp", json_bool(self.organization_use_totp));
        put(&mut m, "collectionIds", id_list(&self.collection_ids));
        put(&mut m, "revisionDate", json_string(self.updated_at.clone()));
        put(&mut m, "creationDate", json_string(self.created_at.clone()));
        put(&mut m, "deletedDate", json_opt_string(&self.deleted_at));
        put(&mut m, "archivedDate", json_opt_string(&self.archived_at));
        assert(object_view(m).dom() =~= response_keys(self.user_id is Some).remove("name"@).remove(
            "notes"@,
        ).remove("fields"@).remove("passwordHistory"@).remove("reprompt"@).remove("login"@).remove(
            "secureNote"@,
        ).remove("card"@).remove("identity"@).remove("sshKey"@).remove("uri"@));
        m
    }

    /// The JSON object clients receive for this item: the record's
    /// metadata under the client's field names, and the item data with its
    /// custom fields, password history, login URIs, secure note and SSH key
    /// normalised; the data keys are `null` when the stored data is not an
    /// object.
    pub fn to_json(&self) -> (r: Value)
        ensures
            cipher_response(*self, r),
    {
        proof {
            lemma_response_key_facts();
        }
        let mut m = self.record_part();
        let ghost m0 = object_view(m);
        match as_object(&self.data) {
            Some(d) => {
                put(&mut m, "name", get_or_null(d, "name"));
                put(&mut m, "notes", get_or_null(d, "notes"));
                put(&mut m, "fields", clean_fields(map_get(d, "fields")));
                put(&mut m, "passwordHistory", clean_password_history(map_get(d, "passwordHistory")));
                let reprompt = match map_get(d, "reprompt") {
                    Some(x) => json_clone(x),
                    None => json_float_zero(),
                };
                put(&mut m, "reprompt", reprompt);
                let t = self.cipher_type;
                let login = if t == 1 {
                    clean_login(map_get(d, "login"))
                } else {
                    json_null()
                };
                let note = if t == 2 {
                    clean_secure_note(map_get(d, "secureNote"))
                } else {
                    json_null()
                };
                let card = if t == 3 {
                    get_or_null(d, "card")
                } else {
                    json_null()
                };
                let identity = if t == 4 {
                    get_or_null(d, "identity")
                } else {
                    json_null()
                };
                let uri = if t == 1 {
                    login_uri(&login)
                } else {
                    json_null()
                };
                let ssh = if t == 5 {
                    clean_ssh_key(map_get(d, "sshKey"))
                } else {
                    json_null()
                };
                put(&mut m, "login", login);
                put(&mut m, "secureNote", note);
                put(&mut m, "card", card);
                put(&mut m, "identity", identity);
                put(&mut m, "sshKey", ssh);
                put(&mut m, "uri", uri);
            },
            None => {
                put(&mut m, "name", json_null());
                put(&mut m, "notes", json_null());
                put(&mut m, "fields", json_null());
                put(&mut m, "passwordHistory", json_null());
                put(&mut m, "reprompt", json_null());
                put(&mut m, "login", json_null());
                put(&mut m, "secureNote", json_null());
                put(&mut m, "card", json_null());
                put(&mut m, "identity", json_null());
                put(&mut m, "sshKey", json_null());
                put(&mut m, "uri", json_null());
            },
        }
        assert(object_view(m).dom() =~= response_keys(self.user_id is Some));
        json_object(m)
    }
}

// ---------------------------------------------------------------------------
// Reading and writing item records
// ---------------------------------------------------------------------------

/// A flag field read by `deserialize_bool_from_int` that takes `default`
/// when absent.
pub open spec fn dec_flag_or(e: Option<Value>, default: bool) -> Option<bool> {
    match e {
        None => Some(default),
        Some(v) => match flag_of(v) {
            Ok(b) => Some(b),
            Err(_) => None,
        },
    }
}

fn read_flag_or(m: &JsonMap, k: &str, default: bool) -> (r: Result<bool, DecodeError>)
    ensures
        r is Ok == dec_flag_or(entry(object_view(*m), k@), default) is Some,
        r matches Ok(b) ==> dec_flag_or(entry(object_view(*m), k@), default) == Some(b),
{
    match map_get(m, k) {
        None => Ok(default),
        Some(v) => match deserialize_bool_from_int(v) {
            Ok(b) => Ok(b),
            Err(_) => Err(DecodeError::InvalidField(k.to_owned())),
        },
    }
}

/// Every field of an item record reads.
pub open spec fn cipher_reads(m: Map<Seq<char>, Value>) -> bool {
    &&& dec_string(entry(m, "id"@)) is Some
    &&& dec_opt_string(entry(m, "userId"@)) is Some
    &&& dec_opt_string(entry(m, "organizationId"@)) is Some
    &&& dec_i32(entry(m, "type"@)) is Some
    &&& m.contains_key("data"@)
    &&& dec_opt_string(entry(m, "key"@)) is Some
    &&& (entry(m, "favorite"@) matches Some(f) && flag_of(f) is Ok)
    &&& dec_opt_string(entry(m, "folderId"@)) is Some
    &&& dec_opt_string(entry(m, "deletedAt"@)) is Some
    &&& dec_opt_string(entry(m, "archivedAt"@)) is Some
    &&& dec_string(entry(m, "createdAt"@)) is Some
    &&& dec_string(entry(m, "updatedAt"@)) is Some
    &&& (entry(m, "object"@) is None || dec_string(entry(m, "object"@)) is Some)
    &&& dec_flag_or(entry(m, "organizationUseTotp"@), false) is Some
    &&& dec_flag_or(entry(m, "edit"@), true) is Some
    &&& dec_flag_or(entry(m, "viewPassword"@), true) is Some
    &&& dec_string_list(entry(m, "collectionIds"@), true) is Some
}

/// `c` holds the item record `m`.
pub open spec fn cipher_of(c: Cipher, m: Map<Seq<char>, Value>) -> bool {
    &&& dec_string(entry(m, "id"@)) == Some(c.id@)
    &&& dec_opt_string(entry(m, "userId"@)) == Some(opt_chars(c.user_id))
    &&& dec_opt_string(entry(m, "organizationId"@)) == Some(opt_chars(c.organization_id))
    &&& dec_i32(entry(m, "type"@)) == Some(c.cipher_type)
    &&& c.data == m["data"@]
    &&& dec_opt_string(entry(m, "key"@)) == Some(opt_chars(c.key))
    &&& flag_of(m["favorite"@]) == Ok::<bool, FlagError>(c.favorite)
    &&& dec_opt_string(entry(m, "folderId"@)) == Some(opt_chars(c.folder_id))
    &&& dec_opt_string(entry(m, "deletedAt"@)) == Some(opt_chars(c.deleted_at))
    &&& dec_opt_string(entry(m, "archivedAt"@)) == Some(opt_chars(c.archived_at))
    &&& dec_string(entry(m, "createdAt"@)) == Some(c.created_at@)
    &&& dec_string(entry(m, "updatedAt"@)) == Some(c.updated_at@)
    &&& c.object@ == (if m.contains_key("object"@) {
        dec_string(entry(m, "object"@))->0
    } else {
        "cipher"@
    })
    &&& dec_flag_or(entry(m, "organizationUseTotp"@), false) == Some(c.organization_use_totp)
    &&& dec_flag_or(entry(m, "edit"@), true) == Some(c.edit)
    &&& dec_flag_or(entry(m, "viewPassword"@), true) == Some(c.view_password)
    &&& dec_string_list(entry(m, "collectionIds"@), true) == Some(
        match c.collection_ids {
            Some(l) => Some(strings_view(l)),
            None => None,
        },
    )
}

impl Cipher {
    /// Reads an item record from JSON with the client's field names: flags
    /// may be booleans or 0/1, `object` defaults to "cipher", the
    /// permission flags default to on.
    pub fn from_json(v: &Value) -> (r: Result<Cipher, DecodeError>)
        ensures
            r is Ok <==> (entries(*v) matches Some(m) && cipher_reads(m)),
            r matches Ok(c) ==> cipher_of(c, entries(*v)->0),
    {
        let m = object_of(v)?;
        let id = read_string(m, "id")?;
        let user_id = read_opt_string(m, "userId")?;
        let organization_id = read_opt_string(m, "organizationId")?;
        let cipher_type = read_i32(m, "type")?;
        let data = match map_get(m, "data") {
            Some(d) => json_clone(d),
            None => return Err(DecodeError::MissingField("data".to_owned())),
        };
        let key = read_opt_string(m, "key")?;
        let favorite = match map_get(m, "favorite") {
            Some(f) => match deserialize_bool_from_int(f) {
                Ok(b) => b,
                Err(_) => return Err(DecodeError::InvalidField("favorite".to_owned())),
            },
            None => return Err(DecodeError::MissingField("favorite".to_owned())),
        };
        let folder_id = read_opt_string(m, "folderId")?;
        let deleted_at = read_opt_string(m, "deletedAt")?;
        let archived_at = read_opt_string(m, "archivedAt")?;
        let created_at = read_string(m, "createdAt")?;
        let updated_at = read_string(m, "updatedAt")?;
        let object = match map_get(m, "object") {
            Some(_) => read_string(m, "object")?,
            None => default_object(),
        };
        let organization_use_totp = read_flag_or(m, "organizationUseTotp", false)?;
        let edit = read_flag_or(m, "edit", default_true())?;
        let view_password = read_flag_or(m, "viewPassword", default_true())?;
        let collection_ids = read_string_list(m, "collectionIds", true)?;
        Ok(Cipher {
            id,
            user_id,
            organization_id,
            cipher_type,
            data,
            key,
            favorite,
            folder_id,
            deleted_at,
            archived_at,
            created_at,
            updated_at,
            object,
            organization_use_totp,
            edit,
            view_password,
            collection_ids,
        })
    }
}

/// `m` has the entry `k` holding `o` exactly when `o` is present.
pub open spec fn opt_entry(m: Map<Seq<char>, Value>, k: Seq<char>, o: Option<Value>) -> bool {
    match o {
        Some(v) => m.contains_key(k) && m[k] == v,
        None => !m.contains_key(k),
    }
}

/// The keys an item-data object may have.
pub open spec fn cipher_data_keys() -> Set<Seq<char>> {
    set![
        "name"@,
        "notes"@,
        "login"@,
        "card"@,
        "identity"@,
        "sshKey"@,
        "secureNote"@,
        "fields"@,
        "passwordHistory"@,
        "reprompt"@,
    ]
}

/// `v` is the JSON object of the item data `d`: the name, and each other
/// part only when present.
pub open spec fn cipher_data_answer(d: CipherData, v: Value) -> bool {
    entries(v) matches Some(m) && {
        &&& m.dom().subset_of(cipher_data_keys())
        &&& m.contains_key("name"@) && is_text(m["name"@], d.name@)
        &&& match d.notes {
            Some(n) => m.contains_key("notes"@) && is_text(m["notes"@], n@),
            None => !m.contains_key("notes"@),
        }
        &&& opt_entry(m, "login"@, d.login)
        &&& opt_entry(m, "card"@, d.card)
        &&& opt_entry(m, "identity"@, d.identity)
        &&& opt_entry(m, "sshKey"@, d.ssh_key)
        &&& opt_entry(m, "secureNote"@, d.secure_note)
        &&& opt_entry(m, "fields"@, d.fields)
        &&& opt_entry(m, "passwordHistory"@, d.password_history)
        &&& match d.reprompt {
            Some(r) => m.contains_key("reprompt"@) && is_int(m["reprompt"@], r as int),
            None => !m.contains_key("reprompt"@),
        }
    }
}

/// Every field of an item-data object reads.
pub open spec fn cipher_data_reads(m: Map<Seq<char>, Value>) -> bool {
    &&& dec_string(entry(m, "name"@)) is Some
    &&& dec_opt_string(entry(m, "notes"@)) is Some
    &&& dec_opt_i32(entry(m, "reprompt"@)) is Some
}

/// `d` holds the item-data object `m`.
pub open spec fn cipher_data_of(d: CipherData, m: Map<Seq<char>, Value>) -> bool {
    &&& dec_string(entry(m, "name"@)) == Some(d.name@)
    &&& dec_opt_string(entry(m, "notes"@)) == Some(opt_chars(d.notes))
    &&& dec_opt_value(entry(m, "login"@)) == Some(d.login)
    &&& dec_opt_value(entry(m, "card"@)) == Some(d.card)
    &&& dec_opt_value(entry(m, "identity"@)) == Some(d.identity)
    &&& dec_opt_value(entry(m, "sshKey"@)) == Some(d.ssh_key)
    &&& dec_opt_value(entry(m, "secureNote"@)) == Some(d.secure_note)
    &&& dec_opt_value(entry(m, "fields"@)) == Some(d.fields)
    &&& dec_opt_value(entry(m, "passwordHistory"@)) == Some(d.password_history)
    &&& dec_opt_i32(entry(m, "reprompt"@)) == Some(d.reprompt)
}

fn put_opt(m: &mut JsonMap, k: &str, o: &Option<Value>)
    ensures
        match *o {
            Some(v) => object_view(*final(m)) == object_view(*old(m)).insert(k@, v),
            None => object_view(*final(m)) == object_view(*old(m)),
        },
{
    if let Some(v) = o {
        put(m, k, json_clone(v));
    }
}

impl CipherData {
    /// The JSON object stored for this item data; absent parts are left
    /// out.
    pub fn to_json(&self) -> (v: Value)
        ensures
            cipher_data_answer(*self, v),
    {
        proof {
            lemma_response_key_facts();
        }
        let mut m = map_new();
        put(&mut m, "name", json_string(self.name.clone()));
        if let Some(n) = &self.notes {
            put(&mut m, "notes", json_string(n.clone()));
        }
        put_opt(&mut m, "login", &self.login);
        put_opt(&mut m, "card", &self.card);
        put_opt(&mut m, "identity", &self.identity);
        put_opt(&mut m, "sshKey", &self.ssh_key);
        put_opt(&mut m, "secureNote", &self.secure_note);
        put_opt(&mut m, "fields", &self.fields);
        put_opt(&mut m, "passwordHistory", &self.password_history);
        if let Some(r) = self.reprompt {
            put(&mut m, "reprompt", json_int(r as i64));
        }
        json_object(m)
    }

    /// Reads item data from its stored JSON object; `null` parts are
    /// absent.
    pub fn from_json(v: &Value) -> (r: Result<CipherData, DecodeError>)
        ensures
            r is Ok <==> (entries(*v) matches Some(m) && cipher_data_reads(m)),
            r matches Ok(d) ==> cipher_data_of(d, entries(*v)->0),
    {
        let m = object_of(v)?;
        let name = read_string(m, "name")?;
        let notes = read_opt_string(m, "notes")?;
        let login = read_opt_value(m, "login");
        let card = read_opt_value(m, "card");
        let identity = read_opt_value(m, "identity");
        let ssh_key = read_opt_value(m, "sshKey");
        let secure_note = read_opt_value(m, "secureNote");
        let fields = read_opt_value(m, "fields");
        let password_history = read_opt_value(m, "passwordHistory");
        let reprompt = read_opt_i32(m, "reprompt")?;
        Ok(CipherData {
            name,
            notes,
            login,
            card,
            identity,
            ssh_key,
            secure_note,
            fields,
            password_history,
            reprompt,
        })
    }
}

/// Every field of the item part of a request reads.
pub open spec fn request_data_reads(m: Map<Seq<char>, Value>) -> bool {
    &&& dec_i32(entry(m, "type"@)) is Some
    &&& dec_opt_string(entry(m, "folderId"@)) is Some
    &&& dec_opt_string(entry(m, "organizationId"@)) is Some
    &&& dec_string(entry(m, "name"@)) is Some
    &&& dec_opt_string(entry(m, "key"@)) is Some
    &&& dec_opt_string(entry(m, "notes"@)) is Some
    &&& dec_bool_or(entry(m, "favorite"@), false) is Some
    &&& dec_opt_i32(entry(m, "reprompt"@)) is Some
    &&& dec_opt_string(entry(m, "lastKnownRevisionDate"@)) is Some
}

/// `x` holds the item part `m` of a request.
pub open spec fn request_data_of(x: CipherRequestData, m: Map<Seq<char>, Value>) -> bool {
    &&& dec_i32(entry(m, "type"@)) == Some(x.cipher_type)
    &&& dec_opt_string(entry(m, "folderId"@)) == Some(opt_chars(x.folder_id))
    &&& dec_opt_string(entry(m, "organizationId"@)) == Some(opt_chars(x.organization_id))
    &&& dec_string(entry(m, "name"@)) == Some(x.name@)
    &&& dec_opt_string(entry(m, "key"@)) == Some(opt_chars(x.key))
    &&& dec_opt_string(entry(m, "notes"@)) == Some(opt_chars(x.notes))
    &&& dec_bool_or(entry(m, "favorite"@), false) == Some(x.favorite)
    &&& dec_opt_value(entry(m, "login"@)) == Some(x.login)
    &&& dec_opt_value(entry(m, "card"@)) == Some(x.card)
    &&& dec_opt_value(entry(m, "identity"@)) == Some(x.identity)
    &&& dec_opt_value(entry(m, "sshKey"@)) == Some(x.ssh_key)
    &&& dec_opt_value(entry(m, "secureNote"@)) == Some(x.secure_note)
    &&& dec_opt_value(entry(m, "fields"@)) == Some(x.fields)
    &&& dec_opt_value(entry(m, "passwordHistory"@)) == Some(x.password_history)
    &&& dec_opt_i32(entry(m, "reprompt"@)) == Some(x.reprompt)
    &&& dec_opt_string(entry(m, "lastKnownRevisionDate"@)) == Some(opt_chars(x.last_known_revision_date))
}

impl CipherRequestData {
    /// Reads the item part of a request from the entries of its object.
    pub fn from_map(m: &JsonMap) -> (r: Result<CipherRequestData, DecodeError>)
        ensures
            r is Ok == request_data_reads(object_view(*m)),
            r matches Ok(x) ==> request_data_of(x, object_view(*m)),
    {
        let cipher_type = read_i32(m, "type")?;
        let folder_id = read_opt_string(m, "folderId")?;
        let organization_id = read_opt_string(m, "organizationId")?;
        let name = read_string(m, "name")?;
        let key = read_opt_string(m, "key")?;
        let notes = read_opt_string(m, "notes")?;
        let favorite = read_bool_or(m, "favorite", false)?;
        let login = read_opt_value(m, "login");
        let card = read_opt_value(m, "card");
        let identity = read_opt_value(m, "identity");
        let ssh_key = read_opt_value(m, "sshKey");
        let secure_note = read_opt_value(m, "secureNote");
        let fields = read_opt_value(m, "fields");
        let password_history = read_opt_value(m, "passwordHistory");
        let reprompt = read_opt_i32(m, "reprompt")?;
        let last_known_revision_date = read_opt_string(m, "lastKnownRevisionDate")?;
        Ok(CipherRequestData {
            cipher_type,
            folder_id,
            organization_id,
            name,
            key,
            notes,
            favorite,
            login,
            card,
            identity,
            ssh_key,
            secure_note,
            fields,
            password_history,
            reprompt,
            last_known_revision_date,
        })
    }
}

/// The collection ids of a create request (empty when absent; `null` is
/// refused).
pub open spec fn collection_list(e: Option<Value>) -> Option<Seq<Seq<char>>> {
    match dec_string_list(e, false) {
        Some(Some(l)) => Some(l),
        Some(None) => Some(Seq::empty()),
        None => None,
    }
}

fn read_collection_list(m: &JsonMap, k: &str) -> (r: Result<Vec<String>, DecodeError>)
    ensures
        r is Ok == collection_list(entry(object_view(*m), k@)) is Some,
        r matches Ok(l) ==> collection_list(entry(object_view(*m), k@)) == Some(strings_view(l)),
{
    match read_string_list(m, k, false)? {
        Some(l) => Ok(l),
        None => {
            let l: Vec<String> = Vec::new();
            assert(strings_view(l) =~= Seq::<Seq<char>>::empty());
            Ok(l)
        },
    }
}

impl CreateCipherRequest {
    /// Reads a create request whose item sits under `Cipher` and whose
    /// collection ids sit under `CollectionIds`.
    pub fn from_json(v: &Value) -> (r: Result<CreateCipherRequest, DecodeError>)
        ensures
            r is Ok <==> (entries(*v) matches Some(m) && dec_object(entry(m, "Cipher"@)) matches Some(c)
                && request_data_reads(c) && collection_list(entry(m, "CollectionIds"@)) is Some),
            r matches Ok(x) ==> (entries(*v) matches Some(m) && dec_object(entry(m, "Cipher"@)) matches Some(c)
                && request_data_of(x.cipher, c) && collection_list(entry(m, "CollectionIds"@)) == Some(
                strings_view(x.collection_ids),
            )),
    {
        let m = object_of(v)?;
        let c = read_object(m, "Cipher")?;
        let cipher = CipherRequestData::from_map(c)?;
        let collection_ids = read_collection_list(m, "CollectionIds")?;
        Ok(CreateCipherRequest { cipher, collection_ids })
    }
}

impl CipherRequestFlat {
    /// Reads a create request whose item fields sit at the top level beside
    /// `collectionIds`.
    pub fn from_json(v: &Value) -> (r: Result<CipherRequestFlat, DecodeError>)
        ensures
            r is Ok <==> (entries(*v) matches Some(m) && request_data_reads(m) && collection_list(
                entry(m, "collectionIds"@),
            ) is Some),
            r matches Ok(x) ==> (entries(*v) matches Some(m) && request_data_of(x.cipher, m)
                && collection_list(entry(m, "collectionIds"@)) == Some(strings_view(x.collection_ids))),
    {
        let m = object_of(v)?;
        let cipher = CipherRequestData::from_map(m)?;
        let collection_ids = read_collection_list(m, "collectionIds")?;
        Ok(CipherRequestFlat { cipher, collection_ids })
    }
}

} // verus!
