//! The trusted boundary around the cryptographic primitives: the password
//! hash-and-verify function, the keyed digest of refresh secrets, the random
//! secret generator, and the signed-token codec. Each wrapper's contract is
//! what the rest of the library is proved against.

use vstd::prelude::*;

use crate::AppError;
use crate::model::{Claims, ClaimsView};
use argon2::{Argon2, PasswordVerifier};
use base64::{Engine as _, engine::general_purpose::URL_SAFE_NO_PAD};
use hmac::{Hmac, KeyInit, Mac};
use jsonwebtoken::{Algorithm, DecodingKey, EncodingKey, Header, Validation, decode, encode};
use sha2::Sha256;
use serde_json::Value;

verus! {

/// Whether `password` matches the password digest `phc_hash` (a PHC-format
/// string). The verdict of the memory-hard hash-and-verify primitive is a
/// function of these two values alone; this name stands for it.
pub uninterp spec fn password_matches(password: Seq<char>, phc_hash: Seq<char>) -> bool;

/// The keyed digest under which a refresh secret is stored: HMAC-SHA-256
/// under `key`, base64url-encoded. A function of the secret and the key
/// alone; this name stands for it.
pub uninterp spec fn digest_of(secret: Seq<char>, key: Seq<u8>) -> Seq<char>;

/// The claims carried by a signed compact token under a symmetric `key`:
/// `Some` exactly when the token's signature verifies under `key` and its
/// payload parses as a claims object, independent of any clock. A function
/// of the token text and the key alone; this name stands for it.
pub uninterp spec fn claims_of(token: Seq<char>, key: Seq<u8>) -> Option<ClaimsView>;

/// Relies on `argon2::Argon2::verify_password` (via `PasswordVerifier<str>`):
/// re-computes the hash with the salt and parameters carried by the PHC
/// string and compares in constant time. A malformed stored digest verifies
/// as a mismatch.
#[verifier::external_body]
pub fn verify_password(password: &String, phc_hash: &String) -> (r: bool)
    ensures
        r == password_matches(password@, phc_hash@),
{
    Argon2::default().verify_password(password.as_bytes(), phc_hash.as_str()).is_ok()
}

/// Relies on `hmac::Hmac::<sha2::Sha256>::new_from_slice` (which accepts a
/// key of any length), `Mac::update`/`finalize`, and base64url encoding of
/// the 32-byte tag, which yields 43 characters unpadded.
#[verifier::external_body]
pub fn hash_refresh_token(token: &String, secret: &[u8]) -> (r: Result<String, AppError>)
    ensures
        r is Ok,
        r matches Ok(d) ==> d@ == digest_of(token@, secret@),
        r matches Ok(d) ==> d@.len() == 43,
{
    let mut mac = Hmac::<Sha256>::new_from_slice(secret).map_err(|_| AppError::Internal)?;
    mac.update(token.as_bytes());
    Ok(URL_SAFE_NO_PAD.encode(mac.finalize().into_bytes()))
}

/// Relies on `getrandom::fill`: fills the whole buffer from the system's
/// random source or fails outright; 32 random bytes give at least 256 bits
/// of entropy, and base64url without padding turns them into 43 characters.
/// A failure of the random source surfaces as the opaque `Internal` error;
/// nothing can be promised about which value comes back on success.
#[verifier::external_body]
pub fn generate_refresh_token() -> (r: Result<String, AppError>)
    ensures
        match r {
            Ok(s) => s@.len() == 43,
            Err(e) => e == AppError::Internal,
        },
{
    let mut bytes = [0u8; 32];
    getrandom::fill(&mut bytes).map_err(|_| AppError::Internal)?;
    Ok(URL_SAFE_NO_PAD.encode(bytes))
}

/// Relies on `getrandom::fill` and `uuid::Builder::from_random_bytes`: a
/// version-4 UUID built from 16 random bytes, whose hyphenated text form is
/// 36 characters. The bytes are drawn here rather than through
/// `uuid::Uuid::new_v4`, which panics when the random source fails; a
/// failure surfaces as the opaque `Internal` error instead. Nothing can be
/// promised about the value on success.
#[verifier::external_body]
pub fn new_jti() -> (r: Result<String, AppError>)
    ensures
        match r {
            Ok(s) => s@.len() == 36,
            Err(e) => e == AppError::Internal,
        },
{
    let mut bytes = [0u8; 16];
    getrandom::fill(&mut bytes).map_err(|_| AppError::Internal)?;
    Ok(uuid::Builder::from_random_bytes(bytes).into_uuid().to_string())
}

/// Relies on `jsonwebtoken::encode` with the default header (HS256) and on
/// `serde_json` to frame the claims: the token it signs carries exactly the
/// claims handed in, so decoding under the same key gives them back. With a
/// secret key the call cannot fail — the key family matches the HS256
/// header, the HMAC signer accepts keys of any length and signs
/// infallibly, and serializing a string-keyed map cannot error — so success
/// is promised. (The crate's feature set fixes the process-wide signing
/// provider; nothing here installs another.)
#[verifier::external_body]
pub fn sign_claims(c: &Claims, key: &[u8]) -> (r: Result<String, AppError>)
    ensures
        r is Ok,
        r matches Ok(t) ==> claims_of(t@, key@) == Some(c@),
{
    let mut m = serde_json::Map::new();
    let mut p = |k: &str, x: Value| {
        m.insert(k.to_owned(), x);
    };
    p("sub", c.sub.into());
    p("username", c.username.clone().into());
    p("role", c.role.clone().into());
    p("iat", c.iat.into());
    p("exp", c.exp.into());
    p("iss", c.iss.clone().into());
    p("aud", c.aud.clone().into());
    p("jti", c.jti.clone().into());
    p("token_version", c.token_version.into());
    encode(&Header::default(), &m, &EncodingKey::from_secret(key)).map_err(|_| AppError::Internal)
}

/// Relies on `jsonwebtoken::decode` restricted to HS256, with every
/// clock-driven check disabled so the result depends on the token and the
/// key alone; expiry is the caller's to enforce. Returns the embedded
/// claims exactly when the signature verifies and the payload parses.
#[verifier::external_body]
pub fn decode_claims(token: &String, key: &[u8]) -> (r: Option<Claims>)
    ensures
        match r {
            Some(c) => claims_of(token@, key@) == Some(c@),
            None => claims_of(token@, key@) is None,
        },
{
    let mut v = Validation::new(Algorithm::HS256);
    v.validate_exp = false;
    v.validate_aud = false;
    v.required_spec_claims = std::collections::HashSet::new();
    let d = decode::<Value>(token, &DecodingKey::from_secret(key), &v).ok()?.claims;
    let s = |k: &str| Some(d.get(k)?.as_str()?.to_owned());
    let n = |k: &str| d.get(k)?.as_i64();
    Some(Claims {
        sub: d.get("sub")?.as_u64()?,
        username: s("username")?, role: s("role")?,
        iat: n("iat")?, exp: n("exp")?,
        iss: s("iss")?, aud: s("aud")?,
        jti: s("jti")?, token_version: n("token_version")?,
    })
}

} // verus!
