use serde_json::Value;
use warden_worker::auth::{check_device, check_security_stamp, request_token, Claims};
use warden_worker::error::AppError;
use warden_worker::handlers::accounts::{
    allowlist_lookup_needed, signups_disabled, apply_email_change, apply_master_password_change, check_allowlist, email_update_error,
    lookup_email, new_user, prelogin_email, prelogin_password_json, prelogin_response,
    profile_json, registration_email, send_verification_email, signups_allowed,
    validate_change_email, validate_change_master_password, verification_email_clicked,
    verify_master_password, ChangeEmailRequest, ChangeMasterPasswordRequest,
};
use warden_worker::models::user::{bool_from_int, KeyData, RegisterRequest, User};
use warden_worker::routing::should_offload;

fn json(text: &str) -> Value {
    serde_json::from_str(text).expect("test JSON")
}

fn user() -> User {
    User::from_row(&json(
        r#"{"id": "u1", "name": "Ann", "avatar_color": null, "email": "ann@example.com", "email_verified": 1,
            "master_password_hash": "hash", "master_password_hint": null, "key": "k", "private_key": "pk",
            "public_key": "pub", "kdf_type": 0, "kdf_iterations": 600000, "security_stamp": "s1",
            "created_at": "2026-01-01T00:00:00Z", "updated_at": "2026-01-01T00:00:00Z"}"#,
    ))
    .expect("user row")
}

fn claims(sstamp: &str, device: Option<&str>) -> Claims {
    Claims {
        sub: "u1".to_string(),
        exp: 10,
        nbf: 0,
        sstamp: sstamp.to_string(),
        device: device.map(str::to_string),
        premium: true,
        name: "Ann".to_string(),
        email: "ann@example.com".to_string(),
        email_verified: true,
        amr: vec!["Application".to_string()],
    }
}

#[test]
fn user_rows() {
    let u = user();
    assert!(u.email_verified);
    assert_eq!(u.kdf_iterations, 600000);
    let bad = json(r#"{"id": "u1", "email": "e", "email_verified": 2}"#);
    assert!(User::from_row(&bad).is_err());
    assert_eq!(bool_from_int::serialize(true), 1);
    assert_eq!(bool_from_int::serialize(false), 0);
    assert_eq!(bool_from_int::deserialize(&json("0")), Ok(false));
    assert!(bool_from_int::deserialize(&json("7")).is_err());
}

#[test]
fn bearer_and_cookie_tokens() {
    assert_eq!(request_token(Some("Bearer abc"), None), Ok("abc".to_string()));
    assert_eq!(request_token(Some("Basic abc"), Some("x=1; bw_access_token = tok ;y=2")), Ok("tok".to_string()));
    assert_eq!(request_token(None, Some("bw_access_token=t=2")), Ok("t=2".to_string()));
    assert_eq!(
        request_token(Some("bearer abc"), Some("other=1")),
        Err(AppError::Unauthorized("Missing or invalid token".to_string()))
    );
    assert_eq!(
        request_token(None, None),
        Err(AppError::Unauthorized("Missing or invalid token".to_string()))
    );
    assert_eq!(request_token(Some("Bearer "), None), Ok("".to_string()));
}

#[test]
fn stamps_and_devices() {
    let row = json(r#"{"security_stamp": "s1"}"#);
    assert_eq!(check_security_stamp(&claims("s1", None), Some(&row)), Ok(()));
    assert_eq!(
        check_security_stamp(&claims("s0", None), Some(&row)),
        Err(AppError::Unauthorized("Invalid token".to_string()))
    );
    assert!(check_security_stamp(&claims("s1", None), None).is_err());
    assert_eq!(check_security_stamp(&claims("", None), Some(&json("{}"))), Ok(()));
    assert_eq!(check_device(&claims("s1", None), None), Ok(()));
    assert_eq!(check_device(&claims("s1", Some("d")), Some(1)), Ok(()));
    assert!(check_device(&claims("s1", Some("d")), None).is_err());
}

#[test]
fn profile_answer() {
    let v = profile_json(&user(), true);
    assert_eq!(v.as_object().unwrap().len(), 14);
    assert_eq!(v["id"], "u1");
    assert_eq!(v["twoFactorEnabled"], true);
    assert_eq!(v["culture"], "en-US");
    assert_eq!(v["masterPasswordHint"], Value::Null);
    assert_eq!(v["organizations"], json("[]"));
    assert_eq!(v["object"], "profile");
}

#[test]
fn prelogin() {
    assert_eq!(prelogin_email(&json(r#"{"email": "A@b"}"#)), Ok("A@b".to_string()));
    assert_eq!(
        prelogin_email(&json(r#"{"email": 5}"#)),
        Err(AppError::BadRequest("Missing email".to_string()))
    );
    assert!(prelogin_email(&json("[]")).is_err());
    let r = prelogin_response(None);
    assert_eq!((r.kdf, r.kdf_iterations, r.kdf_memory, r.kdf_parallelism), (0, 600000, None, None));
    assert_eq!(prelogin_response(Some(1000)).kdf_iterations, 1000);
    let j = r.to_json();
    assert_eq!(j, json(r#"{"kdf": 0, "kdfIterations": 600000, "kdfMemory": null, "kdfParallelism": null}"#));
    let p = prelogin_password_json(Some(&json(r#"{"kdf_type": 1, "kdf_iterations": 3}"#)));
    assert_eq!(
        p,
        json(r#"{"kdf": 1, "kdfIterations": 3, "kdfMemory": null, "kdfParallelism": null,
                 "kdfSettings": {"kdfType": 1, "iterations": 3, "memory": null, "parallelism": null}, "salt": null}"#)
    );
    let d = prelogin_password_json(None);
    assert_eq!(d["kdf"], 0);
    assert_eq!(d["kdfIterations"], 600000);
    assert_eq!(lookup_email("Ann@Example.COM"), "ann@example.com");
}

#[test]
fn registration_rules() {
    assert!(signups_allowed(Some("true")));
    assert!(!signups_allowed(Some("TRUE")));
    assert!(!signups_allowed(Some("false")));
    assert!(!signups_allowed(None));
    assert_eq!(registration_email("  Ann@Example.com \n"), "ann@example.com");
    assert_eq!(check_allowlist(Some(0), None), Ok(()));
    assert_eq!(check_allowlist(None, None), Ok(()));
    assert_eq!(check_allowlist(Some(2), Some(1)), Ok(()));
    assert_eq!(
        check_allowlist(Some(2), Some(0)),
        Err(AppError::Unauthorized("Email is not allowlisted".to_string()))
    );
    assert!(check_allowlist(Some(1), None).is_err());
    assert!(allowlist_lookup_needed(Some(3)));
    assert!(!allowlist_lookup_needed(Some(0)));
    assert!(!allowlist_lookup_needed(None));
    assert_eq!(
        signups_disabled(),
        AppError::Unauthorized("Signups are disabled".to_string())
    );
}

#[test]
fn new_accounts() {
    let flat = RegisterRequest::from_json(&json(
        r#"{"email": "Ann@Example.com", "masterPasswordHash": "h", "userSymmetricKey": "k",
            "userAsymmetricKeys": {"publicKey": "pub", "encryptedPrivateKey": "priv"}, "kdfIterations": 5}"#,
    ))
    .unwrap();
    let u = new_user(flat, "id".to_string(), "stamp".to_string(), "now".to_string()).unwrap();
    assert_eq!(u.email, "ann@example.com");
    assert_eq!((u.kdf_type, u.kdf_iterations), (0, 5));
    assert_eq!((u.private_key.as_str(), u.public_key.as_str()), ("priv", "pub"));
    assert!(u.email_verified);
    assert_eq!(u.created_at, "now");

    let nested = RegisterRequest::from_json(&json(
        r#"{"email": "a@b", "userAsymmetricKeys": {"publicKey": "pub", "encryptedPrivateKey": "priv"},
            "masterPasswordAuthentication": {"masterPasswordAuthenticationHash": "h2", "kdf": {"kdfType": null, "iterations": 7}},
            "masterPasswordUnlock": {"masterKeyWrappedUserKey": "wk", "kdf": {"kdfType": 1, "iterations": 9}}}"#,
    ))
    .unwrap();
    let u = new_user(nested, "id".to_string(), "s".to_string(), "t".to_string()).unwrap();
    assert_eq!(u.master_password_hash, "h2");
    assert_eq!(u.key, "wk");
    assert_eq!((u.kdf_type, u.kdf_iterations), (1, 7));

    let no_hash = RegisterRequest::from_json(&json(r#"{"email": "a@b"}"#)).unwrap();
    assert_eq!(
        new_user(no_hash, "i".to_string(), "s".to_string(), "t".to_string()).err(),
        Some(AppError::BadRequest("Missing masterPasswordHash".to_string()))
    );
    let no_key = RegisterRequest::from_json(&json(r#"{"email": "a@b", "masterPasswordHash": "h"}"#)).unwrap();
    assert_eq!(
        new_user(no_key, "i".to_string(), "s".to_string(), "t".to_string()).err(),
        Some(AppError::BadRequest("Missing user key".to_string()))
    );
    let no_pair =
        RegisterRequest::from_json(&json(r#"{"email": "a@b", "masterPasswordHash": "h", "userSymmetricKey": "k"}"#)).unwrap();
    assert_eq!(
        new_user(no_pair, "i".to_string(), "s".to_string(), "t".to_string()).err(),
        Some(AppError::BadRequest("Missing userAsymmetricKeys".to_string()))
    );
    assert!(RegisterRequest::from_json(&json(r#"{"email": 1}"#)).is_err());
}

#[test]
fn master_password_change() {
    let req = ChangeMasterPasswordRequest::from_json(&json(
        r#"{"masterPasswordHash": "hash", "newMasterPasswordHash": "new", "userSymmetricKey": "k2",
            "masterPasswordHint": "hint", "kdfIterations": 700000}"#,
    ))
    .unwrap();
    assert_eq!(validate_change_master_password(&req), Ok(()));
    let u = user();
    assert_eq!(verify_master_password(&u, "hash"), Ok(()));
    assert_eq!(
        verify_master_password(&u, "nope"),
        Err(AppError::Unauthorized("Invalid credentials".to_string()))
    );
    let changed = apply_master_password_change(u, req, "s2".to_string(), "later".to_string());
    assert_eq!(changed.master_password_hash, "new");
    assert_eq!(changed.key, "k2");
    assert_eq!(changed.master_password_hint.as_deref(), Some("hint"));
    assert_eq!(changed.private_key, "pk");
    assert_eq!((changed.kdf_type, changed.kdf_iterations), (0, 700000));
    assert_eq!(changed.security_stamp, "s2");
    assert_eq!(changed.updated_at, "later");

    let with_keys = ChangeMasterPasswordRequest {
        master_password_hash: "hash".to_string(),
        new_master_password_hash: "n".to_string(),
        master_password_hint: None,
        user_symmetric_key: "".to_string(),
        user_asymmetric_keys: Some(KeyData { public_key: "P".to_string(), encrypted_private_key: "E".to_string() }),
        kdf: Some(1),
        kdf_iterations: None,
    };
    assert_eq!(
        validate_change_master_password(&with_keys),
        Err(AppError::BadRequest("Missing userSymmetricKey".to_string()))
    );
    let changed = apply_master_password_change(user(), with_keys, "s".to_string(), "t".to_string());
    assert_eq!((changed.private_key.as_str(), changed.public_key.as_str(), changed.kdf_type), ("E", "P", 1));
    let empty = ChangeMasterPasswordRequest::from_json(&json(
        r#"{"masterPasswordHash": "", "newMasterPasswordHash": "n", "userSymmetricKey": "k"}"#,
    ))
    .unwrap();
    assert_eq!(
        validate_change_master_password(&empty),
        Err(AppError::BadRequest("Missing masterPasswordHash".to_string()))
    );
}

#[test]
fn email_change() {
    let req = ChangeEmailRequest::from_json(&json(
        r#"{"masterPasswordHash": "hash", "newMasterPasswordHash": "new", "newEmail": "New@Example.com",
            "userSymmetricKey": "k2"}"#,
    ))
    .unwrap();
    assert_eq!(validate_change_email(&req), Ok(()));
    let changed = apply_email_change(user(), req, "s3".to_string(), "t".to_string());
    assert_eq!(changed.email, "new@example.com");
    assert!(!changed.email_verified);
    assert_eq!(changed.security_stamp, "s3");
    let blank = ChangeEmailRequest {
        master_password_hash: "h".to_string(),
        new_master_password_hash: "n".to_string(),
        new_email: " \t ".to_string(),
        user_symmetric_key: "k".to_string(),
        kdf: None,
        kdf_iterations: None,
    };
    assert_eq!(validate_change_email(&blank), Err(AppError::BadRequest("Missing newEmail".to_string())));
    assert_eq!(
        email_update_error("D1_ERROR: UNIQUE constraint failed: users.email"),
        AppError::BadRequest("Email already in use".to_string())
    );
    assert_eq!(email_update_error("unique"), AppError::Database);
}

#[test]
fn verification_mail() {
    assert_eq!(send_verification_email(), "local-registration-token");
    assert_eq!(verification_email_clicked(), json("{}"));
}

#[test]
fn offloaded_requests() {
    assert!(should_offload("POST", "/identity/connect/token"));
    assert!(should_offload("POST", "/api/accounts/prelogin"));
    assert!(should_offload("POST", "/identity/accounts/register/finish"));
    assert!(!should_offload("GET", "/identity/connect/token"));
    assert!(!should_offload("POST", "/api/sync"));
}

#[test]
fn account_changes_refuse_old_tokens() {
    let old_row = json(r#"{"security_stamp": "s1"}"#);
    let token = claims("s1", None);
    assert_eq!(check_security_stamp(&token, Some(&old_row)), Ok(()));

    let req = ChangeMasterPasswordRequest::from_json(&json(
        r#"{"masterPasswordHash": "hash", "newMasterPasswordHash": "new", "userSymmetricKey": "k2"}"#,
    ))
    .unwrap();
    let changed = apply_master_password_change(user(), req, "s2".to_string(), "later".to_string());
    let mut new_row = Value::Object(Default::default());
    new_row["security_stamp"] = Value::String(changed.security_stamp);
    assert_eq!(
        check_security_stamp(&token, Some(&new_row)),
        Err(AppError::Unauthorized("Invalid token".to_string()))
    );

    let req = ChangeEmailRequest::from_json(&json(
        r#"{"masterPasswordHash": "hash", "newMasterPasswordHash": "new", "newEmail": "b@x.org",
            "userSymmetricKey": "k2"}"#,
    ))
    .unwrap();
    let changed = apply_email_change(user(), req, "s3".to_string(), "later".to_string());
    let mut new_row = Value::Object(Default::default());
    new_row["security_stamp"] = Value::String(changed.security_stamp);
    assert!(check_security_stamp(&token, Some(&new_row)).is_err());
}
