//! The failure taxonomy of the derivation pipeline.

use vstd::prelude::*;

verus! {

/// Why a derivation call failed.
///
/// The first four variants report input validation failures, in the order the
/// checks run; `HashingFailed` reports a rejection by the key-stretching
/// primitive; `InvalidScalar` reports a stretched secret whose leading 32
/// bytes are not a valid secp256k1 private key.
#[derive(Clone, Copy, Debug, PartialEq, Eq, Structural)]
pub enum DeriveError {
    CodeTooShort,
    PasswordTooShort,
    CodeNotBase58,
    PasswordNotBase58,
    HashingFailed,
    InvalidScalar,
}

impl DeriveError {
    /// A human-readable description naming the precondition that failed.
    pub fn message(&self) -> (r: String)
        ensures
            r@ == match self {
                DeriveError::CodeTooShort => "Provided code must be at least 16 characters long"@,
                DeriveError::PasswordTooShort => "Password must be at least 8 characters long"@,
                DeriveError::CodeNotBase58 => "Provided code is not in Base58 format"@,
                DeriveError::PasswordNotBase58 => "Password is not in Base58 format"@,
                DeriveError::HashingFailed => "Key stretching rejected its inputs"@,
                DeriveError::InvalidScalar => (
                "Derived bytes are not a valid secp256k1 private key: zero or not below the curve order"@
                ),
            },
    {
        match self {
            DeriveError::CodeTooShort => String::from_str(
                "Provided code must be at least 16 characters long",
            ),
            DeriveError::PasswordTooShort => String::from_str(
                "Password must be at least 8 characters long",
            ),
            DeriveError::CodeNotBase58 => String::from_str("Provided code is not in Base58 format"),
            DeriveError::PasswordNotBase58 => String::from_str(
                "Password is not in Base58 format",
            ),
            DeriveError::HashingFailed => String::from_str("Key stretching rejected its inputs"),
            DeriveError::InvalidScalar => String::from_str(
                "Derived bytes are not a valid secp256k1 private key: zero or not below the curve order",
            ),
        }
    }
}

} // verus!
