use argon2::password_hash::{PasswordHasher, SaltString};
use argon2::Argon2;
use keyderive::errors::DeriveError;
use keyderive::{derive_curve_private_key, derive_raw_key, validate_inputs};
use sha3::{Digest, Sha3_256};

const CODE: &str = "AbcDEF123456789xyz";
const PASSWORD: &str = "Passw9rd";

fn is_lower_hex_64(s: &str) -> bool {
    s.len() == 64 && s.chars().all(|c| ('0'..='9').contains(&c) || ('a'..='f').contains(&c))
}

#[test]
fn end_to_end_both_pipelines_succeed() {
    let raw = derive_raw_key(CODE, PASSWORD).expect("raw key derivation should succeed");
    assert!(is_lower_hex_64(&raw));

    let wif = derive_curve_private_key(CODE, PASSWORD).expect("curve key derivation should succeed");
    let decoded = bs58::decode(&wif).into_vec().expect("WIF must be Base58");
    assert_eq!(decoded.len(), 38);
    assert_eq!(decoded[0], 0x80);
    assert_eq!(decoded[33], 0x01);
}

#[test]
fn repeated_calls_reproduce_identical_outputs() {
    let raw1 = derive_raw_key(CODE, PASSWORD).unwrap();
    let raw2 = derive_raw_key(CODE, PASSWORD).unwrap();
    assert_eq!(raw1, raw2);

    let wif1 = derive_curve_private_key(CODE, PASSWORD).unwrap();
    let wif2 = derive_curve_private_key(CODE, PASSWORD).unwrap();
    assert_eq!(wif1, wif2);
}

#[test]
fn raw_key_matches_direct_composition_of_primitives() {
    let salt = SaltString::encode_b64(PASSWORD.as_bytes()).unwrap();
    let concatenated = format!("{}{}", CODE, PASSWORD);
    let phc = Argon2::default()
        .hash_password(concatenated.as_bytes(), &salt)
        .unwrap()
        .to_string();
    let mut hasher = Sha3_256::new();
    hasher.update(phc.as_bytes());
    let expected = format!("{:x}", hasher.finalize());

    assert_eq!(derive_raw_key(CODE, PASSWORD).unwrap(), expected);
}

#[test]
fn curve_key_matches_direct_composition_of_primitives() {
    let salt = SaltString::encode_b64(PASSWORD.as_bytes()).unwrap();
    let concatenated = format!("{}{}", CODE, PASSWORD);
    let phc = Argon2::default()
        .hash_password(concatenated.as_bytes(), &salt)
        .unwrap()
        .to_string();
    let secret_key = bitcoin::secp256k1::SecretKey::from_slice(&phc.as_bytes()[..32]).unwrap();
    let expected = bitcoin::PrivateKey::new(secret_key, bitcoin::NetworkKind::Main).to_wif();

    assert_eq!(derive_curve_private_key(CODE, PASSWORD).unwrap(), expected);
}

#[test]
fn curve_key_parses_back_as_compressed_mainnet_key() {
    let wif = derive_curve_private_key(CODE, PASSWORD).unwrap();
    let key = bitcoin::PrivateKey::from_wif(&wif).expect("WIF must parse back");
    assert!(key.compressed);
    assert_eq!(key.network, bitcoin::NetworkKind::Main);
}

#[test]
fn short_code_reported_before_short_password() {
    let r = derive_raw_key("AbcDEF1234", "Pass");
    assert_eq!(r, Err(DeriveError::CodeTooShort));
    let r = derive_curve_private_key("AbcDEF1234", "Pass");
    assert_eq!(r, Err(DeriveError::CodeTooShort));
}

#[test]
fn short_password_with_long_code() {
    let r = derive_raw_key(CODE, "Passw9r");
    assert_eq!(r, Err(DeriveError::PasswordTooShort));
}

#[test]
fn non_base58_code_rejected() {
    let r = derive_raw_key("not-base58!!aaaa", PASSWORD);
    assert_eq!(r, Err(DeriveError::CodeNotBase58));
}

#[test]
fn excluded_alphabet_characters_rejected() {
    assert_eq!(
        validate_inputs("0OIl0OIl0OIl0OIl", PASSWORD),
        Err(DeriveError::CodeNotBase58)
    );
    assert_eq!(
        validate_inputs(CODE, "Passw0rd"),
        Err(DeriveError::PasswordNotBase58)
    );
}

#[test]
fn valid_inputs_pass_validation() {
    assert_eq!(validate_inputs(CODE, PASSWORD), Ok(()));
}

#[test]
fn exact_minimum_lengths_accepted() {
    let code16 = "AbcDEF123456789x";
    let password8 = "Passw9rd";
    assert_eq!(validate_inputs(code16, password8), Ok(()));
    assert!(derive_raw_key(code16, password8).is_ok());
}

#[test]
fn lengths_count_characters_not_bytes() {
    // Sixteen two-byte characters: long enough, but not Base58.
    let code = "\u{e0}".repeat(16);
    assert_eq!(validate_inputs(&code, PASSWORD), Err(DeriveError::CodeNotBase58));
}

#[test]
fn password_over_salt_limit_fails_hashing() {
    let long_password = "a".repeat(49);
    let r = derive_raw_key(CODE, &long_password);
    assert_eq!(r, Err(DeriveError::HashingFailed));
    let r = derive_curve_private_key(CODE, &long_password);
    assert_eq!(r, Err(DeriveError::HashingFailed));
}

#[test]
fn password_at_salt_limit_succeeds() {
    let password = "b".repeat(48);
    assert!(derive_raw_key(CODE, &password).is_ok());
}

#[test]
fn single_character_password_change_changes_raw_key() {
    let raw1 = derive_raw_key(CODE, "Passw9rd").unwrap();
    let raw2 = derive_raw_key(CODE, "Passw8rd").unwrap();
    assert_ne!(raw1, raw2);
}

#[test]
fn leading_password_change_changes_curve_key() {
    // The curve scalar reads the first 32 bytes of the PHC text: the fixed
    // Argon2 header plus the salt's leading character. Only a password
    // change that alters that leading base64 character (here: the first
    // password byte's high bits) can change the curve key.
    let wif1 = derive_curve_private_key(CODE, "Passw9rd").unwrap();
    let wif2 = derive_curve_private_key(CODE, "aassw9rd").unwrap();
    assert_ne!(wif1, wif2);
}

#[test]
fn mid_password_change_leaves_curve_key_unchanged() {
    // The counterpart of the test above: a change that stays beyond the
    // first 32 bytes of the PHC text cannot reach the curve scalar, even
    // though it changes the raw key.
    let wif1 = derive_curve_private_key(CODE, "Passw9rd").unwrap();
    let wif2 = derive_curve_private_key(CODE, "Passw8rd").unwrap();
    assert_eq!(wif1, wif2);
}

#[test]
fn error_messages_name_the_failed_precondition() {
    assert_eq!(
        DeriveError::CodeTooShort.message(),
        "Provided code must be at least 16 characters long"
    );
    assert_eq!(
        DeriveError::PasswordTooShort.message(),
        "Password must be at least 8 characters long"
    );
    assert!(DeriveError::CodeNotBase58.message().contains("Base58"));
    assert!(DeriveError::PasswordNotBase58.message().contains("Base58"));
    assert!(!DeriveError::HashingFailed.message().is_empty());
    assert!(DeriveError::InvalidScalar.message().contains("secp256k1"));
}
