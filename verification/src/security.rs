//! Passwords and session tokens: password policy and hashing, random
//! bearer tokens, the digest under which tokens are stored, and whether a
//! stored session is still usable.
use crate::calendar::{stamp_passed, stamp_passed_spec};
use crate::codecs::{b64url_encode, base64_url_encode, sha256, sha256_digest};
use crate::error::{is_validation, validation, ApiError};
use crate::text::str_eq;
use argon2::password_hash::{PasswordHasher, PasswordVerifier};
use rand::RngCore;
use vstd::prelude::*;
use vstd::string::*;

verus! {

/// Days a new session lasts.
pub const LIFETIME_DAYS: i64 = 90;

/// Days after which a session ends however often it is used.
pub const HARD_CAP_DAYS: i64 = 365;

/// The longest password, in bytes, that Argon2 hashes.
pub const MAX_HASHED_PASSWORD_BYTES: u64 = 4294967295;

/// Passwords have at least this many bytes.
pub const MIN_PASSWORD_BYTES: usize = 12;

#[verifier::external_type_specification]
#[verifier::external_body]
pub struct ExPasswordHashError(argon2::password_hash::Error);

/// Hashes a password with `argon2::Argon2::default().hash_password` and a
/// fresh salt from `SaltString::generate(&mut OsRng)`, rendered as a PHC
/// string. The salt is random, so the result is not named; the contract
/// claims the PHC prefix of the default algorithm (Argon2id), which the
/// crate's `Display` of the hash writes first, and that the hash verifies
/// the password it was made from: verification recomputes the hash with the
/// salt and parameters the string carries. With the default parameters
/// and a generated salt the hasher refuses only passwords longer than
/// `argon2::MAX_PWD_LEN` (2^32 - 1) bytes; the contract claims success for
/// all others.
#[verifier::external_body]
fn argon2_hash(password: &str) -> (r: Result<String, argon2::password_hash::Error>)
    ensures
        r is Ok <==> password.spec_bytes().len() <= MAX_HASHED_PASSWORD_BYTES,
        r matches Ok(s) ==> (s@.len() >= 10 && s@.subrange(0, 10) == "$argon2id$"@),
        r matches Ok(s) ==> argon2_verdict(password.spec_bytes(), s@) == Some(true),
{
    let salt = argon2::password_hash::SaltString::generate(
        &mut argon2::password_hash::rand_core::OsRng,
    );
    match argon2::Argon2::default().hash_password(password.as_bytes(), &salt) {
        Ok(h) => Ok(h.to_string()),
        Err(e) => Err(e),
    }
}

/// The text of an Argon2 failure, as its `Display` writes it. Nothing is
/// claimed of it.
#[verifier::external_body]
fn hash_error_text(e: &argon2::password_hash::Error) -> (r: String) {
    e.to_string()
}

/// Hashes a password for storage (Argon2id, random salt, PHC string). The
/// stored hash verifies the password it was made from. Hashing succeeds for
/// every password of at most 2^32 - 1 bytes. A failure of the
/// hasher is an internal error whose message starts with
/// `"password hashing failed: "`, followed by the hasher's own words.
pub fn hash_password(password: &str) -> (r: Result<String, ApiError>)
    ensures
        r is Ok <==> password.spec_bytes().len() <= MAX_HASHED_PASSWORD_BYTES,
        r matches Ok(s) ==> (s@.len() >= 10 && s@.subrange(0, 10) == "$argon2id$"@),
        r matches Ok(s) ==> argon2_verdict(password.spec_bytes(), s@) == Some(true),
        r matches Err(e) ==> (e matches ApiError::Internal(m) && m@.len() >= 25 && m@.subrange(
            0,
            25,
        ) == "password hashing failed: "@),
{
    match argon2_hash(password) {
        Ok(s) => Ok(s),
        Err(e) => {
            let prefix = String::from_str("password hashing failed: ");
            let detail = hash_error_text(&e);
            let msg = prefix.concat(detail.as_str());
            proof {
                reveal_strlit("password hashing failed: ");
                assert(msg@.subrange(0, 25) =~= "password hashing failed: "@);
            }
            Err(ApiError::Internal(msg))
        },
    }
}

/// What `argon2::Argon2::default().verify_password` decides for a password
/// (its bytes) and a stored PHC hash string: `Some(true)` when they match,
/// `Some(false)` when they do not, and `None` when the hash cannot be read
/// or its parameters are refused.
pub uninterp spec fn argon2_verdict(password: Seq<u8>, hash: Seq<char>) -> Option<bool>;

/// Checks a password against a PHC hash with `argon2::PasswordHash::new`
/// and `PasswordVerifier::verify_password` of the default `Argon2`. The
/// hash carries its salt and parameters, so the verdict depends on the two
/// texts alone; the contract names it.
#[verifier::external_body]
fn argon2_verify(password: &str, hash: &str) -> (r: Option<bool>)
    ensures
        r == argon2_verdict(password.spec_bytes(), hash@),
{
    match argon2::password_hash::PasswordHash::new(hash) {
        Ok(parsed) => match argon2::Argon2::default().verify_password(password.as_bytes(), &parsed) {
            Ok(()) => Some(true),
            Err(argon2::password_hash::Error::Password) => Some(false),
            Err(_) => None,
        },
        Err(_) => None,
    }
}

/// Whether a password matches its stored hash. A hash that cannot be read
/// is an internal error.
pub fn verify_password(password: &str, hash: &str) -> (r: Result<bool, ApiError>)
    ensures
        match argon2_verdict(password.spec_bytes(), hash@) {
            Some(ok) => r == Ok::<bool, ApiError>(ok),
            None => r matches Err(e) && e matches ApiError::Internal(m) && m@
                == "stored password hash is unreadable"@,
        },
{
    match argon2_verify(password, hash) {
        Some(ok) => Ok(ok),
        None => Err(ApiError::Internal(String::from_str("stored password hash is unreadable"))),
    }
}

/// Refuses passwords shorter than 12 bytes; `field` names the request
/// field.
pub fn check_password_length(password: &str, field: &str) -> (r: Result<(), ApiError>)
    ensures
        r is Ok <==> password.spec_bytes().len() >= 12,
        r matches Err(e) ==> is_validation(e, field@, "min 12 chars"@),
{
    if password.as_bytes().len() < MIN_PASSWORD_BYTES {
        return Err(validation(field, "min 12 chars"));
    }
    Ok(())
}

/// The digest under which a session token is stored: SHA-256 of its bytes.
pub fn hash_token(token: &str) -> (r: Vec<u8>)
    ensures
        r@ == sha256(token.spec_bytes()),
        r@.len() == 32,
{
    sha256_digest(token.as_bytes())
}

/// 32 bytes from the thread-local generator of `rand` (`rand::rng()`,
/// `RngCore::fill_bytes`). Nothing is claimed of the bytes but their number.
#[verifier::external_body]
fn random_bytes_32() -> (r: Vec<u8>)
    ensures
        r@.len() == 32,
{
    let mut buf = [0u8;32];
    rand::rng().fill_bytes(&mut buf);
    buf.to_vec()
}

/// A new bearer token: 32 random bytes in URL-safe base64 without padding.
pub fn random_token() -> (r: String)
    ensures
        exists|b: Seq<u8>| b.len() == 32 && r@ == #[trigger] b64url_encode(b),
        r@.len() == 43,
{
    let bytes = random_bytes_32();
    let r = base64_url_encode(bytes.as_slice());
    assert(bytes@.len() == 32 && r@ == b64url_encode(bytes@));
    proof {
        crate::codecs::lemma_b64url_len(bytes@);
    }
    r
}

/// Whether a stored session can be used at the instant `now_secs`,
/// `now_nanos`: not revoked, and not expired, an expiry being passed when
/// it is at or before now. An expiry that does not read as an RFC 3339
/// timestamp does not end the session.
pub fn session_is_live(revoked: bool, expires_at: &str, now_secs: i64, now_nanos: u32) -> (r: bool)
    ensures
        r == (!revoked && stamp_passed_spec(
            expires_at@,
            (now_secs as int, now_nanos as int),
            true,
        ) != Some(true)),
{
    if revoked {
        return false;
    }
    match stamp_passed(expires_at, now_secs, now_nanos, true) {
        Some(true) => false,
        _ => true,
    }
}

/// Whether registration is open: unless the setting is `"false"` or
/// `"0"`.
pub fn registration_allowed(setting: Option<&str>) -> (r: bool)
    ensures
        r == (match setting {
            Some(v) => v@ != "false"@ && v@ != "0"@,
            None => true,
        }),
{
    match setting {
        Some(v) => !str_eq(v, "false") && !str_eq(v, "0"),
        None => true,
    }
}

} // verus!
