//! The key-stretching stage shared by both pipelines.
//!
//! The two secrets are concatenated (code first, no separator) and fed as
//! the password input to Argon2id with the library's default cost
//! parameters. The salt is not random: it is the unpadded standard base64
//! encoding of the password's own bytes, which makes the whole derivation a
//! deterministic function of the two inputs. The stage's output is the full
//! self-describing PHC hash string, as bytes; the formatters downstream
//! consume that text, not the digest inside it.

use argon2::password_hash::PasswordHasher;
use vstd::prelude::*;
use vstd::string::StringSliceAdditionalSpecFns;
use vstd::utf8::encode_utf8;

verus! {

/// The bytes of the PHC string that Argon2id (default parameters, version
/// 0x13) produces for the given password-hashing input `secret`, salted with
/// the base64 encoding of `salt_source`. A function of its two arguments
/// alone.
pub uninterp spec fn stretched_of(secret: Seq<u8>, salt_source: Seq<u8>) -> Seq<u8>;

/// The stretched secret for a (code, password) pair: the hashing input is
/// the code's bytes followed by the password's bytes, and the salt is drawn
/// from the password's bytes.
pub open spec fn stretched_of_pair(code: Seq<char>, password: Seq<char>) -> Seq<u8> {
    stretched_of(encode_utf8(code) + encode_utf8(password), encode_utf8(password))
}

/// Relies on password_hash's SaltString::encode_b64, which succeeds exactly
/// when its input's base64 encoding fits the 64-character salt limit, i.e.
/// on at most 48 bytes; and on argon2's Argon2::hash_password (through
/// Argon2::default), which, given that salt, fails only when the decoded
/// salt is shorter than 8 bytes or the hashing input is longer than
/// 0xFFFFFFFF bytes. The produced PHC string depends on the two inputs
/// alone, and its fixed header `$argon2id$v=19$m=19456,t=2,p=1$` (31 bytes)
/// followed by the salt (at least 4 characters) always exceeds 32 bytes.
/// Passwords of fewer than 3 bytes are kept out: their salt string would be
/// shorter than the 4 characters that borrowing a SaltString as a Salt
/// demands, which panics.
#[verifier::external_body]
pub(crate) fn stretch(code: &str, password: &str) -> (r: Option<Vec<u8>>)
    requires
        password@.len() >= 3,
    ensures
        r is Some ==> r.unwrap()@ == stretched_of(
            code.spec_bytes() + password.spec_bytes(),
            password.spec_bytes(),
        ),
        r is Some ==> r.unwrap()@.len() >= 32,
        password.spec_bytes().len() > 48 ==> r is None,
        (8 <= password.spec_bytes().len() <= 48 && code.spec_bytes().len()
            + password.spec_bytes().len() <= 0xFFFFFFFF) ==> r is Some,
{
    let salt = match argon2::password_hash::SaltString::encode_b64(password.as_bytes()) {
        Ok(s) => s,
        Err(_) => {
            return None;
        },
    };
    let secret = format!("{}{}", code, password);
    match argon2::Argon2::default().hash_password(secret.as_bytes(), &salt) {
        Ok(h) => Some(h.to_string().into_bytes()),
        Err(_) => None,
    }
}

} // verus!
