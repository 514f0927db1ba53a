//! Vault imports: items, folders, and which folder each item goes to.

use vstd::prelude::*;
use serde_json::Value;
use crate::decode::{
    dec_bool_or, dec_i32, dec_opt_i32, dec_opt_string, dec_opt_value, dec_string, dec_usize,
    object_of, opt_chars, read_bool_or, read_i32, read_opt_i32, read_opt_string, read_opt_value,
    read_string, read_usize, DecodeError,
};
use crate::json::{as_array, elements, entries, entry, map_get, object_view, JsonMap};

verus! {

/// An item of an import.
pub struct ImportCipher {
    pub cipher_type: i32,
    pub folder_id: Option<String>,
    pub organization_id: Option<String>,
    pub name: String,
    pub key: Option<String>,
    pub notes: Option<String>,
    pub favorite: bool,
    pub login: Option<Value>,
    pub card: Option<Value>,
    pub identity: Option<Value>,
    pub ssh_key: Option<Value>,
    pub secure_note: Option<Value>,
    pub fields: Option<Value>,
    pub password_history: Option<Value>,
    pub reprompt: Option<i32>,
    pub last_known_revision_date: Option<String>,
    pub encrypted_for: Option<String>,
}

/// A folder of an import; the id is absent for folders the client has
/// just made up.
pub struct ImportFolder {
    pub id: Option<String>,
    pub name: String,
}

/// Item `key` of an import goes to folder `value` of the same import.
pub struct FolderRelationship {
    pub key: usize,
    pub value: usize,
}

/// An import request.
pub struct ImportRequest {
    pub ciphers: Vec<ImportCipher>,
    pub folders: Vec<ImportFolder>,
    pub folder_relationships: Vec<FolderRelationship>,
}

/// Every field of an imported item reads.
pub open spec fn import_cipher_reads(v: Value) -> bool {
    entries(v) matches Some(m) && {
        &&& dec_i32(entry(m, "type"@)) is Some
        &&& dec_opt_string(entry(m, "folderId"@)) is Some
        &&& dec_opt_string(entry(m, "organizationId"@)) is Some
        &&& dec_string(entry(m, "name"@)) is Some
        &&& dec_opt_string(entry(m, "key"@)) is Some
        &&& dec_opt_string(entry(m, "notes"@)) is Some
        &&& dec_bool_or(entry(m, "favorite"@), false) is Some
        &&& dec_opt_i32(entry(m, "reprompt"@)) is Some
        &&& dec_opt_string(entry(m, "lastKnownRevisionDate"@)) is Some
        &&& dec_opt_string(entry(m, "encryptedFor"@)) is Some
    }
}

/// `x` holds the imported item `v`.
pub open spec fn import_cipher_of(x: ImportCipher, v: Value) -> bool {
    entries(v) matches Some(m) && {
        &&& dec_i32(entry(m, "type"@)) == Some(x.cipher_type)
        &&& dec_opt_string(entry(m, "folderId"@)) == Some(opt_chars(x.folder_id))
        &&& dec_opt_string(entry(m, "organizationId"@)) == Some(opt_chars(x.organization_id))
        &&& dec_string(entry(m, "name"@)) == Some(x.name@)
        &&& dec_opt_string(entry(m, "key"@)) == Some(opt_chars(x.key))
        &&& dec_opt_string(entry(m, "notes"@)) == Some(opt_chars(x.notes))
        &&& dec_bool_or(entry(m, "favorite"@), false) == Some(x.favorite)
        &&& dec_opt_value(entry(m, "login"@)) == Some(x.login)
        &&& dec_opt_value(entry(m, "card"@)) == Some(x.card)
        &&& dec_opt_value(entry(m, "identity"@)) == Some(x.identity)
        &&& dec_opt_value(entry(m, "sshKey"@)) == Some(x.ssh_key)
        &&& dec_opt_value(entry(m, "secureNote"@)) == Some(x.secure_note)
        &&& dec_opt_value(entry(m, "fields"@)) == Some(x.fields)
        &&& dec_opt_value(entry(m, "passwordHistory"@)) == Some(x.password_history)
        &&& dec_opt_i32(entry(m, "reprompt"@)) == Some(x.reprompt)
        &&& dec_opt_string(entry(m, "lastKnownRevisionDate"@)) == Some(opt_chars(x.last_known_revision_date))
        &&& dec_opt_string(entry(m, "encryptedFor"@)) == Some(opt_chars(x.encrypted_for))
    }
}

/// Every field of an imported folder reads.
pub open spec fn import_folder_reads(v: Value) -> bool {
    entries(v) matches Some(m) && dec_opt_string(entry(m, "id"@)) is Some && dec_string(
        entry(m, "name"@),
    ) is Some
}

/// `x` holds the imported folder `v`.
pub open spec fn import_folder_of(x: ImportFolder, v: Value) -> bool {
    entries(v) matches Some(m) && dec_opt_string(entry(m, "id"@)) == Some(opt_chars(x.id)) && dec_string(
        entry(m, "name"@),
    ) == Some(x.name@)
}

/// Both indices of a relationship read.
pub open spec fn relationship_reads(v: Value) -> bool {
    entries(v) matches Some(m) && dec_usize(entry(m, "key"@)) is Some && dec_usize(entry(m, "value"@)) is Some
}

/// `x` holds the relationship `v`.
pub open spec fn relationship_of(x: FolderRelationship, v: Value) -> bool {
    entries(v) matches Some(m) && dec_usize(entry(m, "key"@)) == Some(x.key) && dec_usize(
        entry(m, "value"@),
    ) == Some(x.value)
}

/// The elements of a list field that defaults to empty when absent.
pub open spec fn list_field(e: Option<Value>) -> Option<Seq<Value>> {
    match e {
        None => Some(Seq::empty()),
        Some(v) => elements(v),
    }
}

/// Every imported item of the list reads.
pub open spec fn ciphers_read(cs: Seq<Value>) -> bool {
    forall|i: int| 0 <= i < cs.len() ==> import_cipher_reads(#[trigger] cs[i])
}

/// Every imported folder of the list reads.
pub open spec fn folders_read(fs: Seq<Value>) -> bool {
    forall|i: int| 0 <= i < fs.len() ==> import_folder_reads(#[trigger] fs[i])
}

/// Every relationship of the list reads.
pub open spec fn relationships_read(rs: Seq<Value>) -> bool {
    forall|i: int| 0 <= i < rs.len() ==> relationship_reads(#[trigger] rs[i])
}

/// Every part of an import request reads.
pub open spec fn import_request_reads(m: Map<Seq<char>, Value>) -> bool {
    &&& list_field(entry(m, "ciphers"@)) matches Some(cs) && ciphers_read(cs)
    &&& list_field(entry(m, "folders"@)) matches Some(fs) && folders_read(fs)
    &&& list_field(entry(m, "folderRelationships"@)) matches Some(rs) && relationships_read(rs)
}

/// `x` holds the import request `m`.
pub open spec fn import_request_of(x: ImportRequest, m: Map<Seq<char>, Value>) -> bool {
    &&& list_field(entry(m, "ciphers"@)) matches Some(cs) && x.ciphers@.len() == cs.len() && forall|i: int|
        0 <= i < cs.len() ==> import_cipher_of(#[trigger] x.ciphers@[i], cs[i])
    &&& list_field(entry(m, "folders"@)) matches Some(fs) && x.folders@.len() == fs.len() && forall|i: int|
        0 <= i < fs.len() ==> import_folder_of(#[trigger] x.folders@[i], fs[i])
    &&& list_field(entry(m, "folderRelationships"@)) matches Some(rs) && x.folder_relationships@.len()
        == rs.len() && forall|i: int|
        0 <= i < rs.len() ==> relationship_of(#[trigger] x.folder_relationships@[i], rs[i])
}

impl ImportCipher {
    /// Reads an imported item (camel-case keys; `favorite` is false when
    /// absent; `null` item parts are `None`).
    pub fn from_json(v: &Value) -> (r: Result<ImportCipher, DecodeError>)
        ensures
            r is Ok == import_cipher_reads(*v),
            r matches Ok(x) ==> import_cipher_of(x, *v),
    {
        let m = object_of(v)?;
        let cipher_type = read_i32(m, "type")?;
        let folder_id = read_opt_string(m, "folderId")?;
        let organization_id = read_opt_string(m, "organizationId")?;
        let name = read_string(m, "name")?;
        let key = read_opt_string(m, "key")?;
        let notes = read_opt_string(m, "notes")?;
        let favorite = read_bool_or(m, "favorite", false)?;
        let login = read_opt_value(m, "login");
        let card = read_opt_value(m, "card");
        let identity = read_opt_value(m, "identity");
        let ssh_key = read_opt_value(m, "sshKey");
        let secure_note = read_opt_value(m, "secureNote");
        let fields = read_opt_value(m, "fields");
        let password_history = read_opt_value(m, "passwordHistory");
        let reprompt = read_opt_i32(m, "reprompt")?;
        let last_known_revision_date = read_opt_string(m, "lastKnownRevisionDate")?;
        let encrypted_for = read_opt_string(m, "encryptedFor")?;
        Ok(ImportCipher {
            cipher_type,
            folder_id,
            organization_id,
            name,
            key,
            notes,
            favorite,
            login,
            card,
            identity,
            ssh_key,
            secure_note,
            fields,
            password_history,
            reprompt,
            last_known_revision_date,
            encrypted_for,
        })
    }
}

impl ImportFolder {
    /// Reads an imported folder.
    pub fn from_json(v: &Value) -> (r: Result<ImportFolder, DecodeError>)
        ensures
            r is Ok == import_folder_reads(*v),
            r matches Ok(x) ==> import_folder_of(x, *v),
    {
        let m = object_of(v)?;
        let id = read_opt_string(m, "id")?;
        let name = read_string(m, "name")?;
        Ok(ImportFolder { id, name })
    }
}

impl FolderRelationship {
    /// Reads an item-to-folder relationship.
    pub fn from_json(v: &Value) -> (r: Result<FolderRelationship, DecodeError>)
        ensures
            r is Ok == relationship_reads(*v),
            r matches Ok(x) ==> relationship_of(x, *v),
    {
        let m = object_of(v)?;
        let key = read_usize(m, "key")?;
        let value = read_usize(m, "value")?;
        Ok(FolderRelationship { key, value })
    }
}

fn list_of<'a>(m: &'a JsonMap, k: &str) -> (r: Result<Option<&'a Vec<Value>>, DecodeError>)
    ensures
        r is Ok == list_field(entry(object_view(*m), k@)) is Some,
        r matches Ok(None) ==> list_field(entry(object_view(*m), k@)) == Some(Seq::<Value>::empty()),
        r matches Ok(Some(a)) ==> list_field(entry(object_view(*m), k@)) == Some(a@),
{
    match map_get(m, k) {
        None => Ok(None),
        Some(v) => match as_array(v) {
            Some(a) => Ok(Some(a)),
            None => Err(DecodeError::InvalidField(k.to_owned())),
        },
    }
}

impl ImportRequest {
    /// Reads an import request; each list is empty when absent.
    pub fn from_json(v: &Value) -> (r: Result<ImportRequest, DecodeError>)
        ensures
            r is Ok <==> (entries(*v) matches Some(m) && import_request_reads(m)),
            r matches Ok(x) ==> import_request_of(x, entries(*v)->0),
    {
        let m = object_of(v)?;
        let mut ciphers: Vec<ImportCipher> = Vec::new();
        if let Some(a) = list_of(m, "ciphers")? {
            let mut i: usize = 0;
            while i < a.len()
                invariant
                    i <= a@.len(),
                    ciphers@.len() == i,
                    entries(*v) == Some(object_view(*m)),
                    list_field(entry(object_view(*m), "ciphers"@)) == Some(a@),
                    forall|j: int| 0 <= j < i ==> import_cipher_reads(#[trigger] a@[j]),
                    forall|j: int| 0 <= j < i ==> import_cipher_of(#[trigger] ciphers@[j], a@[j]),
                decreases a@.len() - i,
            {
                let c = match ImportCipher::from_json(&a[i]) {
                    Ok(x) => x,
                    Err(e) => {
                        assert(!import_cipher_reads(a@[i as int]));
                        assert(!import_request_reads(object_view(*m)));
                        return Err(e);
                    },
                };
                ciphers.push(c);
                i = i + 1;
            }
        }
        let mut folders: Vec<ImportFolder> = Vec::new();
        if let Some(a) = list_of(m, "folders")? {
            let mut i: usize = 0;
            while i < a.len()
                invariant
                    i <= a@.len(),
                    folders@.len() == i,
                    entries(*v) == Some(object_view(*m)),
                    list_field(entry(object_view(*m), "folders"@)) == Some(a@),
                    forall|j: int| 0 <= j < i ==> import_folder_reads(#[trigger] a@[j]),
                    forall|j: int| 0 <= j < i ==> import_folder_of(#[trigger] folders@[j], a@[j]),
                decreases a@.len() - i,
            {
                let f = match ImportFolder::from_json(&a[i]) {
                    Ok(x) => x,
                    Err(e) => {
                        assert(!import_folder_reads(a@[i as int]));
                        assert(!import_request_reads(object_view(*m)));
                        return Err(e);
                    },
                };
                folders.push(f);
                i = i + 1;
            }
        }
        let mut folder_relationships: Vec<FolderRelationship> = Vec::new();
        if let Some(a) = list_of(m, "folderRelationships")? {
            let mut i: usize = 0;
            while i < a.len()
                invariant
                    i <= a@.len(),
                    folder_relationships@.len() == i,
                    entries(*v) == Some(object_view(*m)),
                    list_field(entry(object_view(*m), "folderRelationships"@)) == Some(a@),
                    forall|j: int| 0 <= j < i ==> relationship_reads(#[trigger] a@[j]),
                    forall|j: int| 0 <= j < i ==> relationship_of(#[trigger] folder_relationships@[j], a@[j]),
                decreases a@.len() - i,
            {
                let f = match FolderRelationship::from_json(&a[i]) {
                    Ok(x) => x,
                    Err(e) => {
                        assert(!relationship_reads(a@[i as int]));
                        assert(!import_request_reads(object_view(*m)));
                        return Err(e);
                    },
                };
                folder_relationships.push(f);
                i = i + 1;
            }
        }
        Ok(ImportRequest { ciphers, folders, folder_relationships })
    }
}

} // verus!
