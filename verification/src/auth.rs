//! Access tokens: where a request carries one, and the checks a decoded
//! token must pass against the stored account.

use vstd::prelude::*;
use serde_json::Value;
use crate::error::{is_unauthorized, unauthorized, AppError};
use crate::json::{as_str, entries, entry, get, member, text_of};
use crate::decode::{
    dec_bool, dec_opt_string, dec_string, dec_string_list, dec_usize, object_of, opt_chars,
    read_bool, read_opt_string, read_string, read_string_list, read_usize, strings_view,
    DecodeError,
};
use crate::text::{
    char_vec, chars_eq, find_char, first_index, split_chars, split_on, string_of, strip_prefix,
    sub_chars, trim, trim_chars,
};

verus! {

/// `constant_time_eq::constant_time_eq`: whether two byte strings are
/// equal (of equal length and equal at every index), compared without
/// early exit.
pub assume_specification[constant_time_eq::constant_time_eq](a: &[u8], b: &[u8]) -> (r: bool)
    ensures
        r == (a@ == b@),
;

/// The claims of an access token.
pub struct Claims {
    /// The user id.
    pub sub: String,
    /// Expiry, in seconds since the epoch.
    pub exp: usize,
    /// Start of validity, in seconds since the epoch.
    pub nbf: usize,
    /// The account's security stamp when the token was issued.
    pub sstamp: String,
    /// The device the token was issued to, if any.
    pub device: Option<String>,
    pub premium: bool,
    pub name: String,
    pub email: String,
    pub email_verified: bool,
    pub amr: Vec<String>,
}

/// Every field of a token's claims reads as serde reads `Claims`: the
/// texts, the two times as `usize`, the flags, the `amr` list of texts, and
/// `device` a text, `null` or absent. Other keys are ignored.
pub open spec fn claims_reads(m: Map<Seq<char>, Value>) -> bool {
    &&& dec_string(entry(m, "sub"@)) is Some
    &&& dec_usize(entry(m, "exp"@)) is Some
    &&& dec_usize(entry(m, "nbf"@)) is Some
    &&& dec_string(entry(m, "sstamp"@)) is Some
    &&& dec_opt_string(entry(m, "device"@)) is Some
    &&& dec_bool(entry(m, "premium"@)) is Some
    &&& dec_string(entry(m, "name"@)) is Some
    &&& dec_string(entry(m, "email"@)) is Some
    &&& dec_bool(entry(m, "email_verified"@)) is Some
    &&& dec_string_list(entry(m, "amr"@), false) matches Some(Some(_))
}

/// `c` holds the claims read from the entries `m`.
pub open spec fn claims_of(c: Claims, m: Map<Seq<char>, Value>) -> bool {
    &&& dec_string(entry(m, "sub"@)) == Some(c.sub@)
    &&& dec_usize(entry(m, "exp"@)) == Some(c.exp)
    &&& dec_usize(entry(m, "nbf"@)) == Some(c.nbf)
    &&& dec_string(entry(m, "sstamp"@)) == Some(c.sstamp@)
    &&& dec_opt_string(entry(m, "device"@)) == Some(opt_chars(c.device))
    &&& dec_bool(entry(m, "premium"@)) == Some(c.premium)
    &&& dec_string(entry(m, "name"@)) == Some(c.name@)
    &&& dec_string(entry(m, "email"@)) == Some(c.email@)
    &&& dec_bool(entry(m, "email_verified"@)) == Some(c.email_verified)
    &&& dec_string_list(entry(m, "amr"@), false) == Some(Some(strings_view(c.amr)))
}

/// A token payload `v` is a claims object that reads as `c`.
pub open spec fn payload_gives(v: Value, c: Claims) -> bool {
    entries(v) matches Some(m) && claims_reads(m) && claims_of(c, m)
}

impl Claims {
    /// Reads the claims of a token from its JSON payload.
    pub fn from_json(v: &Value) -> (r: Result<Claims, DecodeError>)
        ensures
            r is Ok <==> (entries(*v) matches Some(m) && claims_reads(m)),
            r matches Ok(c) ==> claims_of(c, entries(*v)->0),
    {
        let m = object_of(v)?;
        let sub = read_string(m, "sub")?;
        let exp = read_usize(m, "exp")?;
        let nbf = read_usize(m, "nbf")?;
        let sstamp = read_string(m, "sstamp")?;
        let device = read_opt_string(m, "device")?;
        let premium = read_bool(m, "premium")?;
        let name = read_string(m, "name")?;
        let email = read_string(m, "email")?;
        let email_verified = read_bool(m, "email_verified")?;
        let amr = match read_string_list(m, "amr", false)? {
            Some(l) => l,
            None => return Err(DecodeError::MissingField("amr".to_owned())),
        };
        Ok(Claims { sub, exp, nbf, sstamp, device, premium, name, email, email_verified, amr })
    }
}

/// The payload of the HS256 token `token` when its signature verifies under
/// the HMAC key `secret`: the JSON value of its claims part (`None` when
/// the token is malformed or the signature does not verify). It depends on
/// the token and the secret alone.
pub uninterp spec fn hs256_payload(token: Seq<char>, secret: Seq<u8>) -> Option<Value>;

/// `jsonwebtoken::decode::<Value>` with the HMAC key
/// `DecodingKey::from_secret(secret)` and `Validation::default()` (HS256;
/// `exp` required and not passed), keeping the decoded claims. Claimed:
/// when it succeeds, the claims are `hs256_payload` of the token and the
/// secret. Unsaid: when it succeeds; that also depends on the clock, which
/// decides whether `exp` has passed.
#[verifier::external_body]
fn decode_jwt_payload(token: &str, secret: &[u8]) -> (r: Option<Value>)
    ensures
        r matches Some(v) ==> hs256_payload(token@, secret@) == Some(v),
{
    jsonwebtoken::decode::<Value>(
        token,
        &jsonwebtoken::DecodingKey::from_secret(secret),
        &jsonwebtoken::Validation::default(),
    ).ok().map(|data| data.claims)
}

/// The claims of a token whose payload checked out as `payload` (`None`
/// when the token was refused): refused with "Invalid token" unless the
/// payload is a claims object.
pub fn claims_from_payload(payload: Option<Value>) -> (r: Result<Claims, AppError>)
    ensures
        r is Ok <==> (payload matches Some(v) && entries(v) matches Some(m) && claims_reads(m)),
        r matches Ok(c) ==> payload_gives(payload->0, c),
        r matches Err(e) ==> is_unauthorized(e, "Invalid token"@),
{
    match payload {
        Some(v) => match Claims::from_json(&v) {
            Ok(c) => Ok(c),
            Err(_) => Err(unauthorized("Invalid token")),
        },
        None => Err(unauthorized("Invalid token")),
    }
}

/// Checks an access token against the signing secret and reads its claims:
/// the token must verify under `secret` and be unexpired, and its payload
/// must be a claims object; otherwise it is refused with "Invalid token".
pub fn decode_claims(token: &str, secret: &[u8]) -> (r: Result<Claims, AppError>)
    ensures
        r matches Ok(c) ==> (hs256_payload(token@, secret@) matches Some(v) && payload_gives(v, c)),
        hs256_payload(token@, secret@) is None ==> r is Err,
        (hs256_payload(token@, secret@) matches Some(v) && !(entries(v) matches Some(m) && claims_reads(m)))
            ==> r is Err,
        r matches Err(e) ==> is_unauthorized(e, "Invalid token"@),
{
    let payload = decode_jwt_payload(token, secret);
    claims_from_payload(payload)
}

/// The token of an `Authorization: Bearer <token>` header value.
pub open spec fn bearer_of(auth: Option<Seq<char>>) -> Option<Seq<char>> {
    match auth {
        Some(a) => if a.len() >= 7 && a.take(7) == "Bearer "@ {
            Some(a.skip(7))
        } else {
            None
        },
        None => None,
    }
}

/// The access token of one `name=value` piece of a `Cookie` header: the
/// trimmed value when the trimmed name is `bw_access_token`.
pub open spec fn cookie_pair_token(part: Seq<char>) -> Option<Seq<char>> {
    let p = trim(part);
    match first_index(p, '=') {
        Some(i) => if trim(p.take(i)) == "bw_access_token"@ {
            Some(trim(p.skip(i + 1)))
        } else {
            None
        },
        None => None,
    }
}

/// The first access token among the pieces of a `Cookie` header.
pub open spec fn cookie_token_in(parts: Seq<Seq<char>>) -> Option<Seq<char>>
    decreases parts.len(),
{
    if parts.len() == 0 {
        None
    } else {
        match cookie_pair_token(parts[0]) {
            Some(t) => Some(t),
            None => cookie_token_in(parts.drop_first()),
        }
    }
}

/// The access token of a `Cookie` header value, split at `;`.
pub open spec fn cookie_token(cookie: Option<Seq<char>>) -> Option<Seq<char>> {
    match cookie {
        Some(c) => cookie_token_in(split_on(c, ';')),
        None => None,
    }
}

/// The access token of a request: the bearer token when the
/// `Authorization` header holds one, otherwise the `bw_access_token`
/// cookie.
pub open spec fn token_of(auth: Option<Seq<char>>, cookie: Option<Seq<char>>) -> Option<Seq<char>> {
    match bearer_of(auth) {
        Some(t) => Some(t),
        None => cookie_token(cookie),
    }
}

/// The characters of an optional text.
pub open spec fn opt_str_view(s: Option<&str>) -> Option<Seq<char>> {
    match s {
        Some(t) => Some(t@),
        None => None,
    }
}

#[verifier::rlimit(40)]
fn cookie_pair(part: &Vec<char>) -> (r: Option<String>)
    ensures
        r matches Some(t) ==> cookie_pair_token(part@) == Some(t@),
        r is None ==> cookie_pair_token(part@) is None,
{
    let p = trim_chars(part);
    match find_char(&p, '=') {
        Some(i) => {
            let k = trim_chars(&sub_chars(&p, 0, i));
            let name = char_vec("bw_access_token");
            assert(p@.subrange(0, i as int) == p@.take(i as int));
            if chars_eq(&k, &name) {
                let n = p.len();
                assert(i < n);
                let v = trim_chars(&sub_chars(&p, i + 1, n));
                assert(p@.subrange(i + 1, p@.len() as int) == p@.skip(i + 1));
                Some(string_of(&v, 0, v.len()))
            } else {
                None
            }
        },
        None => None,
    }
}

fn cookie_value(cookie: &str) -> (r: Option<String>)
    ensures
        r matches Some(t) ==> cookie_token(Some(cookie@)) == Some(t@),
        r is None ==> cookie_token(Some(cookie@)) is None,
{
    let v = char_vec(cookie);
    let parts = split_chars(&v, ';');
    let ghost all = split_on(v@, ';');
    let mut i: usize = 0;
    assert(all.skip(0) == all);
    while i < parts.len()
        invariant
            i <= parts@.len() == all.len(),
            all == split_on(cookie@, ';'),
            forall|j: int| 0 <= j < parts@.len() ==> (#[trigger] parts@[j])@ == all[j],
            cookie_token_in(all) == cookie_token_in(all.skip(i as int)),
        decreases parts@.len() - i,
    {
        assert(all.skip(i as int).drop_first() == all.skip(i + 1));
        assert(all.skip(i as int)[0] == all[i as int]);
        match cookie_pair(&parts[i]) {
            Some(t) => {
                return Some(t);
            },
            None => {},
        }
        i = i + 1;
    }
    None
}

/// Finds the access token of a request from its `Authorization` and
/// `Cookie` header values (`None` where a header is absent or not text).
pub fn request_token(authorization: Option<&str>, cookie: Option<&str>) -> (r: Result<String, AppError>)
    ensures
        r matches Ok(t) ==> token_of(opt_str_view(authorization), opt_str_view(cookie)) == Some(t@),
        r is Err <==> token_of(opt_str_view(authorization), opt_str_view(cookie)) is None,
        r matches Err(e) ==> is_unauthorized(e, "Missing or invalid token"@),
{
    if let Some(a) = authorization {
        if let Some(t) = strip_prefix(a, "Bearer ") {
            proof {
                reveal_strlit("Bearer ");
            }
            return Ok(t);
        }
        proof {
            reveal_strlit("Bearer ");
        }
    }
    match cookie {
        Some(c) => match cookie_value(c) {
            Some(t) => Ok(t),
            None => Err(unauthorized("Missing or invalid token")),
        },
        None => Err(unauthorized("Missing or invalid token")),
    }
}

/// Whether the `Authorization` header value (`None` where the header is
/// absent or not text) carries a bearer token.
pub fn bearer_present(authorization: Option<&str>) -> (r: bool)
    ensures
        r == bearer_of(opt_str_view(authorization)) is Some,
{
    proof {
        reveal_strlit("Bearer ");
    }
    match authorization {
        Some(a) => match strip_prefix(a, "Bearer ") {
            Some(_) => true,
            None => false,
        },
        None => false,
    }
}

/// The security stamp stored in a user row: its `security_stamp` text, or
/// the empty text where there is none.
pub open spec fn stored_stamp(row: Value) -> Seq<char> {
    match member(row, "security_stamp"@) {
        Some(x) => match text_of(x) {
            Some(s) => s,
            None => Seq::empty(),
        },
        None => Seq::empty(),
    }
}

/// The account row `row` accepts the security stamp of the claims `c`.
pub open spec fn stamp_accepted(c: Claims, row: Value) -> bool {
    c.sstamp@ == stored_stamp(row)
}

/// Checks a token's security stamp against the account's row (`None`
/// where no account has the token's user id): the token is refused unless
/// the account exists and its stamp equals the token's.
pub fn check_security_stamp(claims: &Claims, row: Option<&Value>) -> (r: Result<(), AppError>)
    ensures
        r is Ok <==> (row matches Some(rv) && stamp_accepted(*claims, *rv)),
        r matches Err(e) ==> is_unauthorized(e, "Invalid token"@),
{
    let row = match row {
        Some(rv) => rv,
        None => return Err(unauthorized("Invalid token")),
    };
    let current: &str = match get(row, "security_stamp") {
        Some(x) => match as_str(x) {
            Some(s) => s,
            None => "",
        },
        None => "",
    };
    proof {
        reveal_strlit("");
    }
    let ghost cur = current@;
    let same = constant_time_eq::constant_time_eq(claims.sstamp.as_str().as_bytes(), current.as_bytes());
    proof {
        vstd::utf8::encode_utf8_decode_utf8(claims.sstamp@);
        vstd::utf8::encode_utf8_decode_utf8(cur);
    }
    if !same {
        return Err(unauthorized("Invalid token"));
    }
    Ok(())
}

/// Checks that the device a token names is registered to its user
/// (`found` is the lookup of that device; it is not consulted when the
/// token names no device).
pub fn check_device(claims: &Claims, found: Option<i64>) -> (r: Result<(), AppError>)
    ensures
        r is Ok <==> (claims.device is None || found is Some),
        r matches Err(e) ==> is_unauthorized(e, "Invalid token"@),
{
    if claims.device.is_some() && found.is_none() {
        return Err(unauthorized("Invalid token"));
    }
    Ok(())
}

} // verus!
