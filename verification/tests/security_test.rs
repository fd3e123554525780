use ft::security::{
    calculate_file_hash, decrypt, encrypt, encrypt_with_nonce, to_lower_hex, FileDigest,
    SecurityError,
};
use rand::{rngs::OsRng, TryRngCore};

type Result<T> = std::result::Result<T, SecurityError>;

fn generate_key() -> Result<[u8; 32]> {
    let mut key = [0u8; 32];
    OsRng
        .try_fill_bytes(&mut key)
        .map_err(|e| SecurityError::RngError(e.to_string()))?;
    Ok(key)
}

fn hex(s: &str) -> Vec<u8> {
    (0..s.len())
        .step_by(2)
        .map(|i| u8::from_str_radix(&s[i..i + 2], 16).unwrap())
        .collect()
}

#[test]
fn test_encrypt_decrypt() {
    let key = generate_key().expect("Failed to generate key");
    let data = b"Hello, world!";

    let encrypted = encrypt(data, &key).expect("Encryption failed");
    let decrypted = decrypt(&encrypted, &key).expect("Decryption failed");
    assert_eq!(data, &decrypted[..]);
}

#[test]
fn test_invalid_decrypt() {
    let key = generate_key().expect("Failed to generate key");
    let mut encrypted = encrypt(b"test", &key).expect("Encryption failed");
    encrypted[0] = encrypted[0].wrapping_add(1); // corrupt
    assert!(matches!(decrypt(&encrypted, &key), Err(SecurityError::DecryptionFailed)));
}

#[test]
fn test_too_short_data() {
    let key = [0u8; 32];
    assert!(matches!(decrypt(&[0u8; 11], &key), Err(SecurityError::InvalidDataLength)));
}

#[test]
fn encrypted_layout_is_nonce_ciphertext_tag() {
    let key = [7u8; 32];
    let encrypted = encrypt(b"Hello, world!", &key).unwrap();
    assert_eq!(encrypted.len(), 12 + 13 + 16);
    assert_ne!(&encrypted[12..25], b"Hello, world!");
}

#[test]
fn encryption_matches_known_vector_empty() {
    // AES-256-GCM, all-zero key and nonce, empty plaintext: only the tag.
    let key = [0u8; 32];
    let nonce = [0u8; 12];
    let encrypted = encrypt_with_nonce(b"", &key, &nonce).unwrap();
    let mut expected = vec![0u8; 12];
    expected.extend(hex("530f8afbc74536b9a963b4f1c4cb738b"));
    assert_eq!(encrypted, expected);
    assert_eq!(decrypt(&encrypted, &key).unwrap(), Vec::<u8>::new());
}

#[test]
fn encryption_matches_known_vector_block() {
    // AES-256-GCM, all-zero key and nonce, one all-zero block.
    let key = [0u8; 32];
    let nonce = [0u8; 12];
    let encrypted = encrypt_with_nonce(&[0u8; 16], &key, &nonce).unwrap();
    let mut expected = vec![0u8; 12];
    expected.extend(hex("cea7403d4d606b6e074ec5d3baf39d18"));
    expected.extend(hex("d0d1c8a799996bf0265b98b5d48ab919"));
    assert_eq!(encrypted, expected);
    assert_eq!(decrypt(&encrypted, &key).unwrap(), vec![0u8; 16]);
}

#[test]
fn nonce_leads_the_encryption() {
    let key = [1u8; 32];
    let nonce = [9u8; 12];
    let encrypted = encrypt_with_nonce(b"abc", &key, &nonce).unwrap();
    assert_eq!(&encrypted[..12], &nonce);
    assert_eq!(encrypted.len(), 12 + 3 + 16);
}

#[test]
fn wrong_key_fails_to_decrypt() {
    let encrypted = encrypt(b"secret", &[1u8; 32]).unwrap();
    assert!(matches!(decrypt(&encrypted, &[2u8; 32]), Err(SecurityError::DecryptionFailed)));
}

#[test]
fn nonce_only_fails_to_decrypt() {
    assert!(matches!(decrypt(&[0u8; 12], &[0u8; 32]), Err(SecurityError::DecryptionFailed)));
}

#[test]
fn sha256_hex_of_known_inputs() {
    assert_eq!(
        calculate_file_hash(b""),
        "e3b0c44298fc1c149afbf4c8996fb92427ae41e4649b934ca495991b7852b855"
    );
    assert_eq!(
        calculate_file_hash(b"abc"),
        "ba7816bf8f01cfea414140de5dae2223b00361a396177a9cb410ff61f20015ad"
    );
}

#[test]
fn lower_hex_writes_two_digits_per_byte() {
    assert_eq!(to_lower_hex(&[0x00, 0x0a, 0xff, 0x10]), "000aff10");
    assert_eq!(to_lower_hex(&[]), "");
}

#[test]
fn security_error_texts() {
    assert_eq!(SecurityError::RngError("x".to_string()).to_string(), "RNG error: x");
    assert_eq!(
        SecurityError::EncryptionFailed("aead::Error".to_string()).to_string(),
        "Encryption failed: aead::Error"
    );
    assert_eq!(SecurityError::DecryptionFailed.to_string(), "Decryption failed");
    assert_eq!(
        SecurityError::InvalidDataLength.to_string(),
        "Invalid data length for decryption"
    );
}

#[test]
fn digest_in_pieces_matches_digest_at_once() {
    let mut digest = FileDigest::new();
    digest.update(b"a");
    digest.update(b"");
    digest.update(b"bc");
    assert_eq!(digest.hex(), calculate_file_hash(b"abc"));
    assert_eq!(
        FileDigest::new().hex(),
        "e3b0c44298fc1c149afbf4c8996fb92427ae41e4649b934ca495991b7852b855"
    );
}

#[test]
fn decrypted_plaintext_is_28_bytes_shorter() {
    let key = [2u8; 32];
    for n in [0usize, 1, 16, 100] {
        let data = vec![5u8; n];
        let encrypted = encrypt(&data, &key).unwrap();
        let decrypted = decrypt(&encrypted, &key).unwrap();
        assert_eq!(decrypted.len() + 28, encrypted.len());
    }
    assert!(matches!(decrypt(&[0u8; 27], &key), Err(SecurityError::DecryptionFailed)));
}
