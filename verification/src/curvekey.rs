//! The curve key formatter: the stretched secret's first 32 bytes read as a
//! big-endian secp256k1 scalar, rejected unless it lies strictly between 0
//! and the curve order, then encoded as a mainnet, compressed-key Wallet
//! Import Format string.

use vstd::prelude::*;

verus! {

/// The value of a byte string read as a big-endian unsigned integer.
pub open spec fn be_val(s: Seq<u8>) -> nat
    decreases s.len(),
{
    if s.len() == 0 {
        0
    } else {
        be_val(s.drop_last()) * 256 + s.last() as nat
    }
}

/// The order of the secp256k1 group: private keys are exactly the scalars
/// strictly between 0 and this value.
pub open spec fn secp256k1_order() -> nat {
    0xFFFFFFFFFFFFFFFFFFFFFFFFFFFFFFFEBAAEDCE6AF48A03BBFD25E8CD0364141nat
}

/// 32 bytes whose big-endian value is a valid secp256k1 private key.
pub open spec fn is_valid_scalar(s: Seq<u8>) -> bool {
    s.len() == 32 && 0 < be_val(s) < secp256k1_order()
}

/// Relies on secp256k1's SecretKey::from_slice (reached through bitcoin's
/// re-export): it succeeds exactly on 32-byte slices that
/// secp256k1_ec_seckey_verify accepts, i.e. whose big-endian value is
/// nonzero and below the curve order.
#[verifier::external_body]
pub(crate) fn scalar_in_range(key: &[u8]) -> (r: bool)
    requires
        key@.len() == 32,
    ensures
        r == is_valid_scalar(key@),
{
    bitcoin::secp256k1::SecretKey::from_slice(key).is_ok()
}

/// The Wallet Import Format string for a valid 32-byte private key, as a
/// compressed mainnet key: Base58Check over the version byte 0x80, the 32
/// key bytes and the compression flag byte 0x01. A function of the key
/// bytes alone.
pub uninterp spec fn wif_of(key: Seq<u8>) -> Seq<char>;

/// Relies on bitcoin's PrivateKey::to_wif, with the key built by
/// PrivateKey::new (compressed, mainnet) from secp256k1's
/// SecretKey::from_slice: the text depends on the 32 key bytes alone. The
/// precondition keeps out the slices on which from_slice fails.
#[verifier::external_body]
pub(crate) fn wif_encode(key: &[u8]) -> (r: String)
    requires
        is_valid_scalar(key@),
    ensures
        r@ == wif_of(key@),
{
    let sk = bitcoin::secp256k1::SecretKey::from_slice(key).unwrap();
    bitcoin::PrivateKey::new(sk, bitcoin::NetworkKind::Main).to_wif()
}

/// Formats a stretched secret as the curve key: its first 32 bytes must be
/// a valid secp256k1 scalar, and are then WIF-encoded; otherwise the scalar
/// is rejected.
pub fn curve_key_from_stretched(stretched: &[u8]) -> (r: Result<
    String,
    crate::errors::DeriveError,
>)
    requires
        stretched@.len() >= 32,
    ensures
        r is Ok <==> is_valid_scalar(stretched@.subrange(0, 32)),
        r matches Ok(s) ==> s@ == wif_of(stretched@.subrange(0, 32)),
        r matches Err(e) ==> e == crate::errors::DeriveError::InvalidScalar,
{
    let head = vstd::slice::slice_subrange(stretched, 0, 32);
    if scalar_in_range(head) {
        Ok(wif_encode(head))
    } else {
        Err(crate::errors::DeriveError::InvalidScalar)
    }
}

} // verus!
