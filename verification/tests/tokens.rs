use jsonwebtoken::{encode, EncodingKey, Header};
use serde_json::Value;
use warden_worker::auth::{claims_from_payload, decode_claims, Claims};
use warden_worker::decode::DecodeError;
use warden_worker::error::AppError;

fn json(text: &str) -> Value {
    serde_json::from_str(text).expect("test JSON")
}

const PAYLOAD: &str = r#"{"sub": "u1", "exp": 4102444800, "nbf": 1700000000, "sstamp": "s1",
    "premium": true, "name": "Ann", "email": "ann@example.com", "email_verified": true,
    "amr": ["Application"], "extra": 7}"#;

fn token(payload: &Value, secret: &[u8]) -> String {
    encode(&Header::default(), payload, &EncodingKey::from_secret(secret)).expect("token")
}

fn invalid() -> AppError {
    AppError::Unauthorized("Invalid token".to_string())
}

#[test]
fn claims_read_from_payload() {
    let c = Claims::from_json(&json(PAYLOAD)).expect("claims");
    assert_eq!(c.sub, "u1");
    assert_eq!(c.exp, 4102444800);
    assert_eq!(c.nbf, 1700000000);
    assert_eq!(c.sstamp, "s1");
    assert_eq!(c.device, None);
    assert!(c.premium && c.email_verified);
    assert_eq!(c.amr, vec!["Application".to_string()]);

    let mut with_device = json(PAYLOAD);
    with_device["device"] = Value::String("d1".to_string());
    assert_eq!(Claims::from_json(&with_device).unwrap().device, Some("d1".to_string()));

    let mut no_amr = json(PAYLOAD);
    no_amr.as_object_mut().unwrap().remove("amr");
    assert_eq!(Claims::from_json(&no_amr).err(), Some(DecodeError::MissingField("amr".to_string())));
    let mut bad_exp = json(PAYLOAD);
    bad_exp["exp"] = json("-1");
    assert!(Claims::from_json(&bad_exp).is_err());
    assert_eq!(Claims::from_json(&json("[]")).err(), Some(DecodeError::NotAnObject));
}

#[test]
fn payloads_that_are_not_claims_are_refused() {
    assert_eq!(claims_from_payload(None).err(), Some(invalid()));
    assert_eq!(claims_from_payload(Some(json(r#"{"sub": "u1"}"#))).err(), Some(invalid()));
    assert_eq!(claims_from_payload(Some(json(PAYLOAD))).unwrap().sub, "u1");
}

#[test]
fn tokens_verify_under_the_secret() {
    let payload = json(PAYLOAD);
    let t = token(&payload, b"secret");
    let c = decode_claims(&t, b"secret").expect("valid token");
    assert_eq!(c.sub, "u1");
    assert_eq!(c.sstamp, "s1");
    assert_eq!(decode_claims(&t, b"other secret").err(), Some(invalid()));
    assert_eq!(decode_claims("not a token", b"secret").err(), Some(invalid()));

    let mut expired = json(PAYLOAD);
    expired["exp"] = json("1000");
    assert_eq!(decode_claims(&token(&expired, b"secret"), b"secret").err(), Some(invalid()));

    let mut not_claims = json(PAYLOAD);
    not_claims.as_object_mut().unwrap().remove("sstamp");
    assert_eq!(decode_claims(&token(&not_claims, b"secret"), b"secret").err(), Some(invalid()));
}
