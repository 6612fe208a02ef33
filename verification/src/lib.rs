//! Deterministic derivation of key material from two user-supplied secrets.
//!
//! A "code" and a "password" are validated, combined, and stretched with a
//! memory-hard hash; the stretched secret is then formatted either as a
//! SHA3-256 hex digest (the raw key) or as the first 32 bytes interpreted as
//! a secp256k1 private key in Wallet Import Format (the curve key).

use vstd::prelude::*;

pub mod base58;
pub mod curvekey;
pub mod errors;
pub mod rawkey;
pub mod stretch;

use crate::base58::is_base58;
use crate::base58::lemma_base58_is_ascii;
use crate::curvekey::is_valid_scalar;
use crate::curvekey::wif_of;
use crate::errors::DeriveError;
use crate::rawkey::hex_of;
use crate::rawkey::is_hex_char;
use crate::rawkey::sha3_256_of;
use crate::stretch::stretched_of_pair;

verus! {

/// The outcome of input validation, in the order the checks run: the code
/// must have at least 16 characters, the password at least 8, and both must
/// decode as Base58.
pub open spec fn spec_validate(code: Seq<char>, password: Seq<char>) -> Result<
    (),
    DeriveError,
> {
    if code.len() < 16 {
        Err(DeriveError::CodeTooShort)
    } else if password.len() < 8 {
        Err(DeriveError::PasswordTooShort)
    } else if !is_base58(code) {
        Err(DeriveError::CodeNotBase58)
    } else if !is_base58(password) {
        Err(DeriveError::PasswordNotBase58)
    } else {
        Ok(())
    }
}

/// Both secrets pass validation.
pub open spec fn valid_inputs(code: Seq<char>, password: Seq<char>) -> bool {
    spec_validate(code, password) is Ok
}

/// Checks the two secrets, reporting the first failing check.
pub fn validate_inputs(code: &str, password: &str) -> (r: Result<(), DeriveError>)
    ensures
        r == spec_validate(code@, password@),
{
    if code.unicode_len() < 16 {
        return Err(DeriveError::CodeTooShort);
    }
    if password.unicode_len() < 8 {
        return Err(DeriveError::PasswordTooShort);
    }
    if !crate::base58::decodes_as_base58(code) {
        return Err(DeriveError::CodeNotBase58);
    }
    if !crate::base58::decodes_as_base58(password) {
        return Err(DeriveError::PasswordNotBase58);
    }
    Ok(())
}

/// A derivation result with its success string abstracted to its characters.
pub open spec fn result_chars(r: Result<String, DeriveError>) -> Result<Seq<char>, DeriveError> {
    match r {
        Ok(s) => Ok(s@),
        Err(e) => Err(e),
    }
}

/// The raw key for a validated pair: the hex form of the SHA3-256 digest of
/// the stretched secret's bytes.
pub open spec fn raw_key_of(code: Seq<char>, password: Seq<char>) -> Seq<char> {
    hex_of(sha3_256_of(stretched_of_pair(code, password)))
}

/// The first 32 bytes of the stretched secret: the candidate curve scalar.
pub open spec fn curve_scalar_of(code: Seq<char>, password: Seq<char>) -> Seq<u8> {
    stretched_of_pair(code, password).subrange(0, 32)
}

/// The curve key for a validated pair whose candidate scalar is valid.
pub open spec fn curve_key_of(code: Seq<char>, password: Seq<char>) -> Seq<char> {
    wif_of(curve_scalar_of(code, password))
}

/// The inputs on which the hashing primitive is owed success once
/// validation has passed: their combined length stays within the
/// primitive's 32-bit input limit. (A password longer than 48 characters is
/// refused by the salt encoding whatever the code's length; that case needs
/// no bound here.)
pub open spec fn within_hash_limit(code: Seq<char>, password: Seq<char>) -> bool {
    code.len() + password.len() <= 0xFFFFFFFF
}

/// The full outcome of raw-key derivation, for inputs within the hash
/// limit: the first failing validation check, else the salt encoding's
/// rejection of passwords longer than 48 characters, else the raw key.
pub open spec fn spec_derive_raw_key(code: Seq<char>, password: Seq<char>) -> Result<
    Seq<char>,
    DeriveError,
> {
    match spec_validate(code, password) {
        Err(e) => Err(e),
        Ok(_) => if password.len() > 48 {
            Err(DeriveError::HashingFailed)
        } else {
            Ok(raw_key_of(code, password))
        },
    }
}

/// The full outcome of curve-key derivation, for inputs within the hash
/// limit: as for the raw key, but an out-of-range candidate scalar is
/// rejected instead of being encoded.
pub open spec fn spec_derive_curve_key(code: Seq<char>, password: Seq<char>) -> Result<
    Seq<char>,
    DeriveError,
> {
    match spec_validate(code, password) {
        Err(e) => Err(e),
        Ok(_) => if password.len() > 48 {
            Err(DeriveError::HashingFailed)
        } else if !is_valid_scalar(curve_scalar_of(code, password)) {
            Err(DeriveError::InvalidScalar)
        } else {
            Ok(curve_key_of(code, password))
        },
    }
}

/// Derives the raw key: validates the two secrets, stretches them, and
/// emits the SHA3-256 digest of the stretched secret as 64 lowercase hex
/// characters.
pub fn derive_raw_key(code: &str, password: &str) -> (r: Result<String, DeriveError>)
    ensures
        within_hash_limit(code@, password@) ==> result_chars(r) == spec_derive_raw_key(
            code@,
            password@,
        ),
        spec_validate(code@, password@) matches Err(e) ==> r == Err::<String, DeriveError>(e),
        valid_inputs(code@, password@) && password@.len() > 48 ==> r == Err::<String, DeriveError>(
            DeriveError::HashingFailed,
        ),
        r matches Ok(s) ==> valid_inputs(code@, password@) && password@.len() <= 48 && s@
            == raw_key_of(code@, password@),
        r matches Ok(s) ==> s@.len() == 64 && (forall|i: int|
            0 <= i < s@.len() ==> is_hex_char(#[trigger] s@[i])),
        r matches Err(e) ==> e != DeriveError::InvalidScalar,
        r == Err::<String, DeriveError>(DeriveError::HashingFailed) ==> valid_inputs(
            code@,
            password@,
        ),
{
    match validate_inputs(code, password) {
        Err(e) => {
            return Err(e);
        },
        Ok(_) => {},
    }
    proof {
        lemma_base58_is_ascii(code@);
        lemma_base58_is_ascii(password@);
    }
    let stretched = match crate::stretch::stretch(code, password) {
        Some(v) => v,
        None => {
            return Err(DeriveError::HashingFailed);
        },
    };
    Ok(crate::rawkey::raw_key_from_stretched(stretched.as_slice()))
}

/// Derives the curve private key: validates the two secrets, stretches
/// them, and encodes the stretched secret's first 32 bytes as a mainnet,
/// compressed-key WIF string, rejecting scalars outside [1, order-1].
pub fn derive_curve_private_key(code: &str, password: &str) -> (r: Result<String, DeriveError>)
    ensures
        within_hash_limit(code@, password@) ==> result_chars(r) == spec_derive_curve_key(
            code@,
            password@,
        ),
        spec_validate(code@, password@) matches Err(e) ==> r == Err::<String, DeriveError>(e),
        valid_inputs(code@, password@) && password@.len() > 48 ==> r == Err::<String, DeriveError>(
            DeriveError::HashingFailed,
        ),
        r matches Ok(s) ==> valid_inputs(code@, password@) && password@.len() <= 48 && s@
            == curve_key_of(code@, password@) && is_valid_scalar(curve_scalar_of(code@, password@)),
        r == Err::<String, DeriveError>(DeriveError::InvalidScalar) ==> valid_inputs(
            code@,
            password@,
        ) && !is_valid_scalar(curve_scalar_of(code@, password@)),
        r == Err::<String, DeriveError>(DeriveError::HashingFailed) ==> valid_inputs(
            code@,
            password@,
        ),
{
    match validate_inputs(code, password) {
        Err(e) => {
            return Err(e);
        },
        Ok(_) => {},
    }
    proof {
        lemma_base58_is_ascii(code@);
        lemma_base58_is_ascii(password@);
    }
    let stretched = match crate::stretch::stretch(code, password) {
        Some(v) => v,
        None => {
            return Err(DeriveError::HashingFailed);
        },
    };
    crate::curvekey::curve_key_from_stretched(stretched.as_slice())
}

/// Law: raw-key derivation is deterministic. Two calls on one valid pair of
/// inputs within the hash limit report the same outcome, character for
/// character.
pub proof fn lemma_raw_key_deterministic(
    code: Seq<char>,
    password: Seq<char>,
    r1: Result<String, DeriveError>,
    r2: Result<String, DeriveError>,
)
    requires
        valid_inputs(code, password),
        within_hash_limit(code, password),
        result_chars(r1) == spec_derive_raw_key(code, password),
        result_chars(r2) == spec_derive_raw_key(code, password),
    ensures
        result_chars(r1) == result_chars(r2),
{
}

/// Law: curve-key derivation is deterministic. Two calls on one valid pair
/// of inputs within the hash limit report the same outcome, character for
/// character.
pub proof fn lemma_curve_key_deterministic(
    code: Seq<char>,
    password: Seq<char>,
    r1: Result<String, DeriveError>,
    r2: Result<String, DeriveError>,
)
    requires
        valid_inputs(code, password),
        within_hash_limit(code, password),
        result_chars(r1) == spec_derive_curve_key(code, password),
        result_chars(r2) == spec_derive_curve_key(code, password),
    ensures
        result_chars(r1) == result_chars(r2),
{
}

} // verus!
