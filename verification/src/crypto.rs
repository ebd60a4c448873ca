//! Opaque tokens, keyed token hashes and password hashes.
use crate::encoding::{base64_url_encode, base64_url_no_pad, hex_encode, hex_lower};
use argon2::{PasswordHasher, PasswordVerifier};
use hmac::{KeyInit, Mac};
use rand::Rng;
use vstd::prelude::*;

verus! {

/// HMAC-SHA256 of `message` under `key`.
pub uninterp spec fn hmac_sha256(key: Seq<u8>, message: Seq<u8>) -> Seq<u8>;

/// `hmac::Hmac<sha2::Sha256>`: keyed with `new_from_slice`, fed the message
/// with `update`, read with `finalize`. HMAC takes keys of any length, so
/// keying never fails.
#[verifier::external_body]
fn hmac_sha256_tag(key: &[u8], message: &[u8]) -> (tag: Vec<u8>)
    ensures
        tag@ == hmac_sha256(key@, message@),
{
    let mut mac = <hmac::Hmac<sha2::Sha256> as KeyInit>::new_from_slice(key).expect("valid key");
    mac.update(message);
    mac.finalize().into_bytes().to_vec()
}

/// `rand::rng().fill_bytes` on a 32-byte buffer. Nothing is promised of
/// the bytes beyond their number.
#[verifier::external_body]
fn random_bytes_32() -> (bytes: Vec<u8>)
    ensures
        bytes@.len() == 32,
{
    let mut bytes: [u8; 32] = [0u8; 32];
    rand::rng().fill_bytes(&mut bytes);
    bytes.to_vec()
}

/// What `argon2::password_hash::phc::PasswordHash::new` reports for the
/// text: `None` where it reads it as a PHC password hash, else the
/// `Display` text of its error.
pub uninterp spec fn phc_parse_failure(phc: Seq<char>) -> Option<Seq<char>>;

/// `PasswordHash::new` reads the text as a PHC password hash.
pub open spec fn phc_parses(phc: Seq<char>) -> bool {
    phc_parse_failure(phc) is None
}

/// Whether `Argon2::default().verify_password` accepts the password against
/// the PHC hash text.
pub uninterp spec fn argon2_accepts(password: Seq<u8>, phc: Seq<char>) -> bool;

/// `Argon2::default().hash_password`, written out with `to_string`; on
/// failure the error's text. The salt is random, so only what holds of
/// every outcome is stated: a hash that is returned is readable PHC text
/// that verifies against the same password. Neither when hashing fails nor
/// the text of the error is stated.
#[verifier::external_body]
fn argon2_hash(password: &[u8]) -> (r: Result<String, String>)
    ensures
        r matches Ok(h) ==> phc_parses(h@) && argon2_accepts(password@, h@),
{
    let hasher = argon2::Argon2::default();
    hasher.hash_password(password).map(|h| h.to_string()).map_err(|e| e.to_string())
}

/// `PasswordHash::new` on the text: `None` when it parses, else the
/// error's text.
#[verifier::external_body]
fn phc_parse_error(phc: &str) -> (r: Option<String>)
    ensures
        match r {
            Some(m) => phc_parse_failure(phc@) == Some(m@),
            None => phc_parse_failure(phc@) is None,
        },
{
    argon2::password_hash::phc::PasswordHash::new(phc).err().map(|e| e.to_string())
}

/// `Argon2::default().verify_password` of the password against the PHC
/// hash text; any error counts as a refusal.
#[verifier::external_body]
fn argon2_verify(password: &[u8], phc: &str) -> (ok: bool)
    requires
        phc_parses(phc@),
    ensures
        ok == argon2_accepts(password@, phc@),
{
    let verifier = argon2::Argon2::default();
    verifier.verify_password(password, phc).is_ok()
}

/// The outcome of reading a stored password hash and checking a password
/// against it.
pub enum PasswordCheck {
    /// The stored text is not a PHC hash; the parser's description.
    Unreadable(String),
    Rejected,
    Accepted,
}

/// Hashes a password with Argon2 and a random salt. A hash that comes back
/// verifies against the same password.
pub fn hash_password_text(password: &str) -> (r: Result<String, String>)
    ensures
        r matches Ok(h) ==> phc_parses(h@) && argon2_accepts(vstd::utf8::encode_utf8(password@), h@),
{
    let bytes = password.as_bytes();
    argon2_hash(bytes)
}

/// Reads a stored PHC hash and checks a password against it.
pub fn check_password(password: &str, phc: &str) -> (r: PasswordCheck)
    ensures
        !phc_parses(phc@) <==> r is Unreadable,
        r matches PasswordCheck::Unreadable(m) ==> phc_parse_failure(phc@) == Some(m@),
        r is Accepted <==> phc_parses(phc@) && argon2_accepts(vstd::utf8::encode_utf8(password@), phc@),
{
    match phc_parse_error(phc) {
        Some(msg) => PasswordCheck::Unreadable(msg),
        None => {
            if argon2_verify(password.as_bytes(), phc) {
                PasswordCheck::Accepted
            } else {
                PasswordCheck::Rejected
            }
        },
    }
}

/// The stored form of a refresh token: lowercase hex of HMAC-SHA256 of the
/// token's UTF-8 bytes under the server's secret.
pub open spec fn token_digest(token: Seq<char>, secret: Seq<u8>) -> Seq<char> {
    hex_lower(hmac_sha256(secret, vstd::utf8::encode_utf8(token)))
}

/// An opaque token: 32 random bytes in URL-safe base64 without padding.
pub open spec fn is_opaque_token(t: Seq<char>) -> bool {
    exists|bytes: Seq<u8>| bytes.len() == 32 && t == #[trigger] base64_url_no_pad(bytes)
}

/// Creates opaque tokens and the keyed hashes under which they are stored.
pub struct TokenHandler {}

impl TokenHandler {
    /// A fresh opaque token: 32 random bytes in URL-safe base64.
    pub fn generate_token() -> (t: String)
        ensures
            is_opaque_token(t@),
    {
        let bytes = random_bytes_32();
        let t = base64_url_encode(bytes.as_slice());
        assert(bytes@.len() == 32 && t@ == base64_url_no_pad(bytes@));
        t
    }

    /// The keyed hash of a token, as stored: hex of HMAC-SHA256.
    pub fn hash_token(token: &str, secret: &[u8]) -> (h: String)
        ensures
            h@ == token_digest(token@, secret@),
    {
        let tag = hmac_sha256_tag(secret, token.as_bytes());
        hex_encode(tag.as_slice())
    }
}

} // verus!
