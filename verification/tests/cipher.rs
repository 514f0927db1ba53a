use serde_json::Value;
use warden_worker::models::cipher::{
    clean_fields, clean_login, clean_password_history, clean_secure_note, clean_ssh_key,
    default_object, default_true, deserialize_bool_from_int, deserialize_i32_from_bool_or_number,
    deserialize_json_text, login_uri, Cipher, CipherDBModel, FlagError,
};
use warden_worker::decode::DecodeError;
use warden_worker::models::import::ImportRequest;

fn json(text: &str) -> Value {
    serde_json::from_str(text).expect("test JSON")
}

fn sample_cipher(cipher_type: i32, data: Value, key: Option<String>) -> Cipher {
    Cipher {
        id: "cipher-id".to_string(),
        user_id: Some("user-id".to_string()),
        organization_id: None,
        cipher_type,
        data,
        key,
        favorite: false,
        folder_id: None,
        deleted_at: None,
        archived_at: None,
        created_at: "2026-01-01T00:00:00.000Z".to_string(),
        updated_at: "2026-01-01T00:00:00.000Z".to_string(),
        object: "cipher".to_string(),
        organization_use_totp: false,
        edit: true,
        view_password: true,
        collection_ids: None,
    }
}

#[test]
fn cipher_serialization_includes_permissions_delete() {
    let cipher = Cipher {
        id: "test-id".to_string(),
        user_id: Some("user-1".to_string()),
        organization_id: None,
        cipher_type: 1,
        data: json(r#"{"name": "Example", "notes": null, "login": { "username": "u", "password": "p" }}"#),
        key: None,
        favorite: false,
        folder_id: None,
        deleted_at: None,
        archived_at: None,
        created_at: "2026-01-01T00:00:00.000Z".to_string(),
        updated_at: "2026-01-01T00:00:00.000Z".to_string(),
        object: "cipher".to_string(),
        organization_use_totp: false,
        edit: true,
        view_password: true,
        collection_ids: None,
    };

    let value = cipher.to_json();

    let permissions = value
        .get("permissions")
        .and_then(Value::as_object)
        .expect("permissions object");

    assert_eq!(
        permissions.get("delete"),
        Some(&Value::Bool(true)),
        "permissions.delete must exist and be true when edit=true"
    );
    assert_eq!(
        permissions.get("restore"),
        Some(&Value::Bool(true)),
        "permissions.restore must exist and be true when edit=true"
    );
}

#[test]
fn cipher_db_model_accepts_object_data_and_boolean_favorite() {
    let row = json(
        r#"{
            "id": "cipher-id",
            "user_id": "user-id",
            "organization_id": null,
            "type": 1,
            "data": {"name": "Example", "login": {"username": "u"}},
            "key": null,
            "favorite": true,
            "folder_id": null,
            "deleted_at": null,
            "created_at": "2026-01-01T00:00:00.000Z",
            "updated_at": "2026-01-01T00:00:00.000Z"
        }"#,
    );

    let model: CipherDBModel = CipherDBModel::from_row(&row).expect("cipher row");
    let cipher: Cipher = model.into();
    assert_eq!(cipher.data["name"], "Example");
    assert!(cipher.favorite);
}

#[test]
fn cipher_db_model_accepts_json_text_and_integer_favorite() {
    let row = json(
        r#"{
            "id": "cipher-id",
            "user_id": "user-id",
            "organization_id": null,
            "type": 1,
            "data": "{\"name\":\"Example\",\"login\":null}",
            "key": null,
            "favorite": 0,
            "folder_id": null,
            "deleted_at": null,
            "created_at": "2026-01-01T00:00:00.000Z",
            "updated_at": "2026-01-01T00:00:00.000Z"
        }"#,
    );

    let model: CipherDBModel = CipherDBModel::from_row(&row).expect("cipher row");
    let cipher: Cipher = model.into();
    assert_eq!(cipher.data["name"], "Example");
    assert!(!cipher.favorite);
}

#[test]
fn cipher_serialization_normalizes_mobile_compatibility_fields() {
    let cipher = sample_cipher(
        1,
        json(
            r#"{
                "name": "Login",
                "login": {
                    "uris": [{"uri": "https://example.com", "match": "0"}]
                },
                "fields": [{"type": "2", "name": "field"}],
                "passwordHistory": [{"password": "old"}, {"password": null}]
            }"#,
        ),
        Some("encrypted-cipher-key".to_string()),
    );

    let value = cipher.to_json();
    assert_eq!(value["object"], "cipherDetails");
    assert_eq!(value["key"], "encrypted-cipher-key");
    assert_eq!(value["uri"], "https://example.com");
    assert_eq!(value["login"]["uris"][0]["match"], 0);
    assert_eq!(value["fields"][0]["type"], 2);
    assert_eq!(value["passwordHistory"].as_array().unwrap().len(), 1);
}

#[test]
fn cipher_serialization_protects_invalid_mobile_cipher_data() {
    let cipher = sample_cipher(2, json(r#"{"name": "Note", "secureNote": null}"#), None);

    let value = cipher.to_json();
    assert_eq!(value["secureNote"]["type"], 0);
}

#[test]
fn accepts_import_payload_with_generated_folder_ids() {
    let payload: ImportRequest = ImportRequest::from_json(&json(
        r#"{
            "ciphers": [{"type": 1, "name": "item", "login": null}],
            "folders": [{"name": "folder"}],
            "folderRelationships": [{"key": 0, "value": 0}]
        }"#,
    ))
    .expect("import payload should deserialize");

    assert!(payload.ciphers[0].encrypted_for.is_none());
    assert!(!payload.ciphers[0].favorite);
    assert!(payload.folders[0].id.is_none());
}

// ---------------------------------------------------------------------------
// Further cases
// ---------------------------------------------------------------------------

#[test]
fn response_has_every_key_and_record_values() {
    let mut cipher = sample_cipher(3, json(r#"{"name": "Card", "card": {"number": "1"}}"#), None);
    cipher.collection_ids = Some(vec!["c1".to_string(), "c2".to_string()]);
    cipher.folder_id = Some("folder".to_string());
    cipher.favorite = true;
    cipher.edit = false;
    let value = cipher.to_json();
    let m = value.as_object().unwrap();
    assert_eq!(m.len(), 28);
    assert_eq!(value["userId"], "user-id");
    assert_eq!(value["folderId"], "folder");
    assert_eq!(value["organizationId"], Value::Null);
    assert_eq!(value["type"], 3);
    assert_eq!(value["favorite"], true);
    assert_eq!(value["edit"], false);
    assert_eq!(value["permissions"]["delete"], false);
    assert_eq!(value["permissions"]["restore"], false);
    assert_eq!(value["collectionIds"], json(r#"["c1", "c2"]"#));
    assert_eq!(value["card"], json(r#"{"number": "1"}"#));
    assert_eq!(value["login"], Value::Null);
    assert_eq!(value["uri"], Value::Null);
    assert_eq!(value["revisionDate"], "2026-01-01T00:00:00.000Z");
    assert_eq!(value["fields"], json("[]"));
    assert_eq!(value["passwordHistory"], json("[]"));
    assert!(value["reprompt"].is_f64());
    assert_eq!(value["reprompt"].as_f64(), Some(0.0));
}

#[test]
fn response_without_user_has_no_user_key() {
    let mut cipher = sample_cipher(4, json(r#"{"identity": {"a": 1}, "reprompt": 1}"#), None);
    cipher.user_id = None;
    let value = cipher.to_json();
    assert_eq!(value.as_object().unwrap().len(), 27);
    assert!(value.get("userId").is_none());
    assert_eq!(value["identity"], json(r#"{"a": 1}"#));
    assert_eq!(value["reprompt"], 1);
    assert_eq!(value["name"], Value::Null);
}

#[test]
fn response_for_non_object_data_nulls_the_item_keys() {
    let cipher = sample_cipher(1, json(r#""not an object""#), None);
    let value = cipher.to_json();
    for k in ["name", "notes", "fields", "passwordHistory", "reprompt", "login", "secureNote", "card", "identity", "sshKey", "uri"] {
        assert_eq!(value[k], Value::Null, "{k}");
    }
}

#[test]
fn fields_type_defaults_and_ranges() {
    let fields = json(r#"[{"type": 300}, {"type": "x"}, {"name": "n"}, 5, {"type": -1}, {"type": 255}]"#);
    let out = clean_fields(Some(&fields));
    assert_eq!(out, json(r#"[{"type": 1}, {"type": 1}, {"name": "n", "type": 1}, 5, {"type": 1}, {"type": 255}]"#));
    assert_eq!(clean_fields(None), json("[]"));
    assert_eq!(clean_fields(Some(&json(r#"{"a": 1}"#))), json("[]"));
}

#[test]
fn password_history_keeps_string_passwords_and_dates_them() {
    let history = json(
        r#"[{"password": "a", "lastUsedDate": "2020"}, {"password": 1}, "x", {"password": "b"}]"#,
    );
    let out = clean_password_history(Some(&history));
    assert_eq!(
        out,
        json(r#"[{"password": "a", "lastUsedDate": "2020"}, {"password": "b", "lastUsedDate": "1970-01-01T00:00:00.000000Z"}]"#)
    );
    assert_eq!(clean_password_history(Some(&json("null"))), json("[]"));
}

#[test]
fn login_match_values_are_normalised() {
    let login = json(r#"{"uris": [{"uri": "a", "match": 3}, {"uri": "b", "match": "900"}, {"uri": "c"}, 7], "username": "u"}"#);
    let out = clean_login(Some(&login));
    assert_eq!(
        out,
        json(r#"{"uris": [{"uri": "a", "match": 3}, {"uri": "b", "match": null}, {"uri": "c", "match": null}, 7], "username": "u"}"#)
    );
    assert_eq!(login_uri(&out), json(r#""a""#));
    assert_eq!(clean_login(None), Value::Null);
    let plain = json(r#"{"username": "u"}"#);
    assert_eq!(clean_login(Some(&plain)), plain);
    assert_eq!(login_uri(&plain), Value::Null);
    assert_eq!(login_uri(&json(r#"{"uris": []}"#)), Value::Null);
}

#[test]
fn secure_note_and_ssh_key_guards() {
    let note = json(r#"{"type": 0}"#);
    assert_eq!(clean_secure_note(Some(&note)), note);
    assert_eq!(clean_secure_note(Some(&json(r#"{"type": "0"}"#))), json(r#"{"type": 0}"#));
    assert_eq!(clean_secure_note(None), json(r#"{"type": 0}"#));
    let key = json(r#"{"keyFingerprint": "f", "privateKey": "p", "publicKey": "q"}"#);
    assert_eq!(clean_ssh_key(Some(&key)), key);
    assert_eq!(
        clean_ssh_key(Some(&json(r#"{"keyFingerprint": "", "privateKey": "p", "publicKey": "q"}"#))),
        Value::Null
    );
    assert_eq!(clean_ssh_key(None), Value::Null);
    let cipher = sample_cipher(5, json(r#"{"sshKey": {"keyFingerprint": "f", "privateKey": "p", "publicKey": "q"}}"#), None);
    assert_eq!(cipher.to_json()["sshKey"], key);
}

#[test]
fn stored_flags_and_favourites() {
    assert_eq!(deserialize_bool_from_int(&json("true")), Ok(true));
    assert_eq!(deserialize_bool_from_int(&json("0")), Ok(false));
    assert_eq!(deserialize_bool_from_int(&json("1")), Ok(true));
    assert_eq!(deserialize_bool_from_int(&json("2")), Err(FlagError::InvalidValue(2)));
    assert_eq!(deserialize_bool_from_int(&json("-1")), Err(FlagError::InvalidType));
    assert_eq!(deserialize_bool_from_int(&json(r#""1""#)), Err(FlagError::InvalidType));
    assert_eq!(deserialize_i32_from_bool_or_number(&json("true")), Ok(1));
    assert_eq!(deserialize_i32_from_bool_or_number(&json("-7")), Ok(-7));
    assert_eq!(deserialize_i32_from_bool_or_number(&json(r#""42""#)), Ok(42));
    assert_eq!(
        deserialize_i32_from_bool_or_number(&json("3000000000")),
        Err(DecodeError::Custom("cipher favorite must be an integer".to_string()))
    );
    assert_eq!(
        deserialize_i32_from_bool_or_number(&json("null")),
        Err(DecodeError::Custom("cipher favorite must be a boolean or integer".to_string()))
    );
}

#[test]
fn data_text_reading() {
    assert_eq!(deserialize_json_text(&json(r#""{}""#)), Ok("{}".to_string()));
    assert_eq!(deserialize_json_text(&json(r#"{"a":[1,true]}"#)), Ok(r#"{"a":[1,true]}"#.to_string()));
    assert_eq!(deserialize_json_text(&json(r#"[ 1, "x" ]"#)), Ok(r#"[1,"x"]"#.to_string()));
    assert_eq!(
        deserialize_json_text(&json("null")),
        Err(DecodeError::Custom("cipher data must be a JSON string or object".to_string()))
    );
    assert_eq!(
        deserialize_json_text(&json("5")),
        Err(DecodeError::Custom("cipher data must be a JSON string or object".to_string()))
    );
}

#[test]
fn rows_that_do_not_read() {
    assert_eq!(CipherDBModel::from_row(&json("[]")).err(), Some(DecodeError::NotAnObject));
    let missing = json(r#"{"id": "a", "user_id": "u", "type": 1, "favorite": 1, "created_at": "c", "updated_at": "u"}"#);
    assert_eq!(CipherDBModel::from_row(&missing).err(), Some(DecodeError::MissingField("data".to_string())));
    let bad_type = json(r#"{"id": "a", "user_id": "u", "type": "1", "data": "{}", "favorite": 1, "created_at": "c", "updated_at": "u"}"#);
    assert_eq!(CipherDBModel::from_row(&bad_type).err(), Some(DecodeError::InvalidField("type".to_string())));
    let good = json(r#"{"id": "a", "user_id": "u", "type": 2, "data": "not json", "favorite": "5", "created_at": "c", "updated_at": "u", "archived_at": "z"}"#);
    let model = CipherDBModel::from_row(&good).unwrap();
    assert_eq!(model.archived_at.as_deref(), Some("z"));
    assert_eq!(model.favorite, 5);
    let cipher: Cipher = model.into();
    assert!(cipher.data.is_null());
    assert!(cipher.favorite);
    assert_eq!(cipher.user_id.as_deref(), Some("u"));
    assert_eq!(cipher.object, "cipher");
    assert!(cipher.edit && cipher.view_password && !cipher.organization_use_totp);
}

#[test]
fn defaults() {
    assert_eq!(default_object(), "cipher");
    assert!(default_true());
}

#[test]
fn import_lists_default_and_reject_bad_entries() {
    let empty = ImportRequest::from_json(&json("{}")).unwrap();
    assert!(empty.ciphers.is_empty() && empty.folders.is_empty() && empty.folder_relationships.is_empty());
    assert!(ImportRequest::from_json(&json(r#"{"ciphers": null}"#)).is_err());
    assert!(ImportRequest::from_json(&json(r#"{"folderRelationships": [{"key": -1, "value": 0}]}"#)).is_err());
    let full = ImportRequest::from_json(&json(
        r#"{"ciphers": [{"type": 2, "name": "n", "favorite": true, "secureNote": {"type": 0}, "reprompt": 1, "encryptedFor": "u"}]}"#,
    ))
    .unwrap();
    assert!(full.ciphers[0].favorite);
    assert_eq!(full.ciphers[0].cipher_type, 2);
    assert_eq!(full.ciphers[0].secure_note, Some(json(r#"{"type": 0}"#)));
    assert_eq!(full.ciphers[0].reprompt, Some(1));
    assert_eq!(full.ciphers[0].encrypted_for.as_deref(), Some("u"));
}
