use git_helper::credentials::{generate_encryption_key_hex, CredentialCipher, CredentialError};

const KEY: &str = "000102030405060708090a0b0c0d0e0f101112131415161718191a1b1c1d1e1f";

#[test]
fn sealed_secret_opens_to_the_same_text() {
    let cipher = CredentialCipher::from_hex_key(KEY).unwrap();
    let sealed = cipher.encrypt("ghp_secret-token").unwrap();
    assert_ne!(sealed, "ghp_secret-token");
    assert!(!sealed.trim().is_empty());
    assert_eq!(cipher.decrypt(&sealed).unwrap(), "ghp_secret-token");
}

#[test]
fn sealing_twice_uses_fresh_nonces() {
    let cipher = CredentialCipher::from_hex_key(KEY).unwrap();
    let a = cipher.encrypt("same").unwrap();
    let b = cipher.encrypt("same").unwrap();
    assert_ne!(a, b);
    assert_eq!(cipher.decrypt(&b).unwrap(), "same");
}

#[test]
fn key_with_surrounding_whitespace_is_accepted() {
    let padded = format!("  {}\n", KEY);
    assert!(CredentialCipher::from_hex_key(&padded).is_ok());
}

#[test]
fn invalid_hex_key_is_refused() {
    assert!(matches!(
        CredentialCipher::from_hex_key("zz"),
        Err(CredentialError::InvalidKeyHex)
    ));
    assert_eq!(
        CredentialError::InvalidKeyHex.message(),
        "invalid credentials encryption key hex"
    );
}

#[test]
fn short_key_is_refused() {
    assert!(matches!(
        CredentialCipher::from_hex_key("00112233"),
        Err(CredentialError::InvalidKeyLength)
    ));
    assert_eq!(
        CredentialError::InvalidKeyLength.message(),
        "credentials encryption key must be 32 bytes / 64 hex chars"
    );
}

#[test]
fn malformed_payloads_are_refused() {
    let cipher = CredentialCipher::from_hex_key(KEY).unwrap();
    assert_eq!(cipher.decrypt("not base64!"), Err(CredentialError::InvalidPayload));
    assert_eq!(cipher.decrypt("AAAA"), Err(CredentialError::PayloadTooShort));
    let other = CredentialCipher::from_hex_key(&"11".repeat(32)).unwrap();
    let sealed = other.encrypt("secret").unwrap();
    assert_eq!(cipher.decrypt(&sealed), Err(CredentialError::DecryptFailed));
}

#[test]
fn generated_key_loads() {
    let key = generate_encryption_key_hex();
    assert_eq!(key.len(), 64);
    assert!(CredentialCipher::from_hex_key(&key).is_ok());
}
