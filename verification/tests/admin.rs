use serde_json::Value;
use warden_worker::error::AppError;
use warden_worker::handlers::admin::{
    allowlist_enabled_flag, allowlist_entry_json, configured_admin, data_json, enabled_flag,
    normalize_email, patch_allowlist_outcome, require_admin, summary_json, AllowlistPatch,
    AllowlistRequest,
};
use warden_worker::handlers::sync::{sync_body, sync_creation_date, sync_profile_json, user_decryption_json};
use warden_worker::models::user::User;

fn json(text: &str) -> Value {
    serde_json::from_str(text).expect("test JSON")
}

#[test]
fn email_normalisation() {
    assert_eq!(normalize_email("  User@Example.COM "), Ok("user@example.com".to_string()));
    assert_eq!(normalize_email("   "), Err(AppError::BadRequest("Invalid email".to_string())));
    assert_eq!(normalize_email("no-at-sign"), Err(AppError::BadRequest("Invalid email".to_string())));
}

#[test]
fn administrator_checks() {
    assert_eq!(configured_admin(" Admin@Example.com "), Ok("admin@example.com".to_string()));
    assert_eq!(
        configured_admin("  "),
        Err(AppError::Unauthorized("Administrator access required".to_string()))
    );
    let bearer = Some("Bearer abc.def.ghi");
    assert_eq!(require_admin("admin@example.com", bearer, Some(" ADMIN@example.com")), Ok(()));
    assert!(require_admin("admin@example.com", bearer, Some("other@example.com")).is_err());
    assert!(require_admin("admin@example.com", bearer, None).is_err());
    // A session carried by the cookie alone is refused administration.
    assert_eq!(
        require_admin("admin@example.com", None, Some("admin@example.com")),
        Err(AppError::Unauthorized("Administrator access required".to_string()))
    );
    assert!(require_admin("admin@example.com", Some("Basic abc"), Some("admin@example.com")).is_err());
}

#[test]
fn allowlist_answers() {
    assert_eq!(allowlist_enabled_flag(None), 1);
    assert_eq!(allowlist_enabled_flag(Some(true)), 1);
    assert_eq!(allowlist_enabled_flag(Some(false)), 0);
    assert_eq!(enabled_flag(false), 0);
    assert_eq!(allowlist_entry_json("a@b".to_string(), 1), json(r#"{"email": "a@b", "enabled": true}"#));
    assert_eq!(allowlist_entry_json("a@b".to_string(), 0), json(r#"{"email": "a@b", "enabled": false}"#));
    assert_eq!(
        patch_allowlist_outcome("a@b".to_string(), false, Some(1)),
        Ok(json(r#"{"email": "a@b", "enabled": false}"#))
    );
    assert_eq!(
        patch_allowlist_outcome("a@b".to_string(), true, Some(0)),
        Err(AppError::NotFound("Allowlist email not found".to_string()))
    );
    assert!(patch_allowlist_outcome("a@b".to_string(), true, None).is_err());
    let req = AllowlistRequest::from_json(&json(r#"{"email": "x@y"}"#)).unwrap();
    assert_eq!(req.enabled, None);
    assert!(AllowlistPatch::from_json(&json("{}")).is_err());
    assert!(AllowlistPatch::from_json(&json(r#"{"enabled": true}"#)).unwrap().enabled);
}

#[test]
fn summary_and_listing() {
    assert_eq!(
        summary_json(Some(3), None, Some(2), Some(1)),
        json(r#"{"users": 3, "totpEnabled": 0, "allowlist": 2, "allowlistEnabled": 1}"#)
    );
    assert_eq!(data_json(vec![json("1"), json("2")]), json(r#"{"data": [1, 2]}"#));
}

#[test]
fn sync_parts() {
    let user = User::from_row(&json(
        r#"{"id": "u1", "email": "ann@example.com", "email_verified": 0, "master_password_hash": "h",
            "key": "k", "private_key": "pk", "public_key": "pub", "kdf_type": 0, "kdf_iterations": 5,
            "security_stamp": "s", "created_at": "c", "updated_at": "u"}"#,
    ))
    .unwrap();
    assert_eq!(
        user_decryption_json(&user),
        json(r#"{"masterPasswordUnlock": {"kdf": {"kdfType": 0, "iterations": 5, "memory": null, "parallelism": null},
                 "masterKeyEncryptedUserKey": "k", "masterKeyWrappedUserKey": "k", "salt": "ann@example.com"}}"#)
    );
    let p = sync_profile_json(&user, false, "2026-01-01T00:00:00.000000Z".to_string());
    assert_eq!(p.as_object().unwrap().len(), 16);
    assert_eq!(p["emailVerified"], true);
    assert_eq!(p["creationDate"], "2026-01-01T00:00:00.000000Z");
    let body = sync_body("{}", "[]", "[1]", "[]", "{\"a\":1}");
    assert_eq!(
        body.0,
        r#"{"profile":{},"folders":[],"collections":[],"policies":[],"ciphers":[1],"sends":[],"domains":null,"userDecryption":{"a":1},"object":"sync"}"#
    );
    let parsed: Value = serde_json::from_str(&body.0).unwrap();
    assert_eq!(parsed["object"], "sync");
}

#[test]
fn sync_creation_dates() {
    assert_eq!(
        sync_creation_date("2026-01-01T00:00:00Z").unwrap(),
        "2026-01-01T00:00:00.000000Z"
    );
    assert_eq!(
        sync_creation_date("2026-03-04T05:06:07.5+08:00").unwrap(),
        "2026-03-04T05:06:07.500000+08:00"
    );
    assert_eq!(sync_creation_date("yesterday"), Err(AppError::Internal));
}
