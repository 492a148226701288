use base64::Engine as _;

use wecom_cli::auth_error::AuthError;
use wecom_cli::crypto::{
    choose_save_key, decode_key, decrypt, decryption_candidates, encode_key, encrypt, encryption_key_path,
    generate_random_key, key_from_text, keyring_user_for, keyring_user_of, sign, NONCE_SIZE, TAG_SIZE,
};

#[test]
fn encrypt_decrypt_roundtrip() {
    let key = generate_random_key();
    let plaintext = b"hello, AES-256-GCM!";
    let encrypted = encrypt(&key, plaintext).unwrap();
    let decrypted = decrypt(&key, &encrypted).unwrap();
    assert_eq!(decrypted, plaintext);
}

#[test]
fn encrypt_decrypt_empty_plaintext() {
    let key = generate_random_key();
    let encrypted = encrypt(&key, b"").unwrap();
    let decrypted = decrypt(&key, &encrypted).unwrap();
    assert_eq!(decrypted, b"");
}

#[test]
fn encrypted_output_has_expected_length() {
    let key = generate_random_key();
    let plaintext = b"test data";
    let encrypted = encrypt(&key, plaintext).unwrap();
    assert_eq!(encrypted.len(), NONCE_SIZE + plaintext.len() + TAG_SIZE);
}

#[test]
fn decrypt_with_wrong_key_fails() {
    let key1 = generate_random_key();
    let key2 = generate_random_key();
    let encrypted = encrypt(&key1, b"secret").unwrap();
    assert!(decrypt(&key2, &encrypted).is_err());
}

#[test]
fn decrypt_too_short_data_fails() {
    let key = generate_random_key();
    assert!(decrypt(&key, &[0u8; 27]).is_err());
    assert!(decrypt(&key, &[]).is_err());
    assert!(decrypt(&key, &[0u8; 11]).is_err());
}

#[test]
fn decrypt_corrupted_data_fails() {
    let key = generate_random_key();
    let encrypted = encrypt(&key, b"important data").unwrap();
    let mut corrupted = encrypted.clone();
    let last = corrupted.len() - 1;
    corrupted[last] ^= 0xFF;
    assert!(decrypt(&key, &corrupted).is_err());
}

#[test]
fn each_encryption_produces_different_output() {
    let key = generate_random_key();
    let plaintext = b"same plaintext";
    let a = encrypt(&key, plaintext).unwrap();
    let b = encrypt(&key, plaintext).unwrap();
    assert_ne!(a, b);
    assert_eq!(decrypt(&key, &a).unwrap(), plaintext);
    assert_eq!(decrypt(&key, &b).unwrap(), plaintext);
}

#[test]
fn decrypt_error_texts() {
    let key = [7u8; 32];
    match decrypt(&key, &[0u8; 5]) {
        Err(AuthError::Crypto(m)) => assert_eq!(m, "数据解密失败（数据可能已损坏或被截断）"),
        other => panic!("unexpected {other:?}"),
    }
    match decrypt(&key, &[0u8; 40]) {
        Err(AuthError::Crypto(m)) => assert_eq!(m, "数据解密失败：aead::Error"),
        other => panic!("unexpected {other:?}"),
    }
}

#[test]
fn encode_decode_roundtrip() {
    let key = generate_random_key();
    let encoded = encode_key(&key);
    let decoded = decode_key(&encoded).unwrap();
    assert_eq!(key, decoded);
}

#[test]
fn decode_key_handles_edge_cases() {
    assert!(decode_key("not-valid-base64!!!").is_err());
    let short = base64::prelude::BASE64_STANDARD.encode([0u8; 16]);
    assert!(decode_key(&short).is_err());
    let key = generate_random_key();
    let encoded = format!("  {}  \n", encode_key(&key));
    let decoded = decode_key(encoded.trim()).unwrap();
    assert_eq!(key, decoded);
}

#[test]
fn decode_key_error_texts() {
    match decode_key(&base64::prelude::BASE64_STANDARD.encode([1u8; 16])) {
        Err(AuthError::Crypto(m)) => assert_eq!(m, "Invalid encryption key length"),
        other => panic!("unexpected {other:?}"),
    }
    match decode_key("***") {
        Err(AuthError::Crypto(m)) => assert!(m.starts_with("加密密钥无效，base64 decode error: "), "{m}"),
        other => panic!("unexpected {other:?}"),
    }
}

#[test]
fn key_text_is_trimmed_before_decoding() {
    let key = [3u8; 32];
    let text = format!("\u{3000}\t{}\n", encode_key(&key));
    assert_eq!(key_from_text(&text), Some(key));
    assert_eq!(key_from_text("garbage"), None);
}

#[test]
fn random_key_has_expected_properties() {
    let key = generate_random_key();
    assert_eq!(key.len(), 32);
    let another = generate_random_key();
    assert_ne!(key, another);
}

#[test]
fn keyring_user_for_deterministic_and_isolated() {
    let dir = "/tmp/wecom-sandbox-a";
    assert_eq!(keyring_user_for(dir), keyring_user_for(dir));
    let b = keyring_user_for("/tmp/wecom-sandbox-b");
    assert_ne!(keyring_user_for(dir), b);
}

#[test]
fn keyring_user_for_normalizes_and_formats() {
    let base = keyring_user_for("/tmp/wecom-sandbox-a");
    assert_eq!(base, keyring_user_for("/tmp/./wecom-sandbox-a"));
    assert_eq!(base, keyring_user_for("/tmp/wecom-sandbox-b/../wecom-sandbox-a"));
    let suffix = base.strip_prefix("encryption-key:").unwrap();
    assert_eq!(suffix.len(), 64);
    assert!(
        suffix.bytes().all(|b| b.is_ascii_hexdigit() && !b.is_ascii_uppercase()),
        "expected lowercase hex, got: {suffix}"
    );
}

#[test]
fn keyring_user_of_hashes_normalized_path() {
    // SHA-256 of "/" in lower-case hex.
    assert_eq!(
        keyring_user_of("/tmp/.."),
        "encryption-key:8a5edab282632443219e051e4ade2d1d5bbc671c781051bf1437897cbdfea0f1"
    );
}

#[test]
fn sign_is_hex_sha256_of_concatenation() {
    // SHA-256 of "abc".
    assert_eq!(sign("a", "b", "c", ""), "ba7816bf8f01cfea414140de5dae2223b00361a396177a9cb410ff61f20015ad");
}

#[test]
fn key_path_joins_dir() {
    assert_eq!(encryption_key_path("/cfg"), "/cfg/.encryption_key");
    assert_eq!(encryption_key_path("/cfg/"), "/cfg/.encryption_key");
}

#[test]
fn candidates_follow_key_order() {
    let file_key = [1u8; 32];
    let ring_key = [2u8; 32];
    let sealed = encrypt(&file_key, b"ledger").unwrap();
    let c = decryption_candidates(&sealed, Some(file_key), Some(ring_key), true);
    assert_eq!(c, vec![b"ledger".to_vec()]);
    let sealed_ring = encrypt(&ring_key, b"ring").unwrap();
    assert_eq!(decryption_candidates(&sealed_ring, Some(file_key), Some(ring_key), true), vec![b"ring".to_vec()]);
    assert!(decryption_candidates(&sealed_ring, Some(file_key), Some(ring_key), false).is_empty());
    assert!(decryption_candidates(&sealed_ring, None, None, true).is_empty());
}

#[test]
fn save_key_prefers_file_then_keyring() {
    let f = [1u8; 32];
    let k = [2u8; 32];
    assert_eq!(choose_save_key(Some(f), Some(k), true), f);
    assert_eq!(choose_save_key(None, Some(k), true), k);
    assert_ne!(choose_save_key(None, Some(k), false), k);
}

#[test]
fn key_text_is_standard_base64() {
    assert_eq!(encode_key(&[0u8; 32]), "AAAAAAAAAAAAAAAAAAAAAAAAAAAAAAAAAAAAAAAAAAA=");
    assert_eq!(decode_key("AAAAAAAAAAAAAAAAAAAAAAAAAAAAAAAAAAAAAAAAAAA=").unwrap(), [0u8; 32]);
}
