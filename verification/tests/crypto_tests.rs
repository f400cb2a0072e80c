use rsaudit::crypto::{decrypt_password, encrypt_password, encrypt_then_decrypt, make_cipher, CryptoError};

#[test]
fn round_trip_recovers_plaintext() {
    let cipher = make_cipher("master-secret");
    let (nonce, ciphertext) = encrypt_password(&cipher, "hunter2").unwrap();
    let plaintext = decrypt_password(&cipher, nonce, ciphertext).unwrap();
    assert_eq!(plaintext, "hunter2");
}

#[test]
fn round_trip_helper_recovers_plaintext() {
    let cipher = make_cipher("k");
    let recovered = encrypt_then_decrypt(&cipher, "a longer plaintext, with punctuation!").unwrap();
    assert_eq!(recovered, "a longer plaintext, with punctuation!");
}

#[test]
fn round_trip_empty_password() {
    let cipher = make_cipher("k");
    let (nonce, ciphertext) = encrypt_password(&cipher, "").unwrap();
    let plaintext = decrypt_password(&cipher, nonce, ciphertext).unwrap();
    assert_eq!(plaintext, "");
}

#[test]
fn ciphertext_is_plaintext_plus_tag() {
    let cipher = make_cipher("k");
    let (_, ciphertext) = encrypt_password(&cipher, "hunter2").unwrap();
    assert_eq!(ciphertext.len(), "hunter2".len() + 16);
    let (_, empty_ct) = encrypt_password(&cipher, "").unwrap();
    assert_eq!(empty_ct.len(), 16);
}

#[test]
fn nonce_is_fresh_per_call() {
    let cipher = make_cipher("k");
    let (n1, _) = encrypt_password(&cipher, "hunter2").unwrap();
    let (n2, _) = encrypt_password(&cipher, "hunter2").unwrap();
    assert_eq!(n1.len(), 12);
    assert_eq!(n2.len(), 12);
    assert_ne!(n1, n2);
}

#[test]
fn decrypt_with_different_key_fails() {
    let key_one = make_cipher("hunter2-key");
    let key_two = make_cipher("another-key");
    let (nonce, ciphertext) = encrypt_password(&key_one, "hunter2").unwrap();
    let r = decrypt_password(&key_two, nonce, ciphertext);
    assert_eq!(r, Err(CryptoError::DecryptFailed));
}

#[test]
fn tampered_ciphertext_fails() {
    let cipher = make_cipher("k");
    let (nonce, mut ciphertext) = encrypt_password(&cipher, "hunter2").unwrap();
    ciphertext[0] ^= 0x01;
    let r = decrypt_password(&cipher, nonce, ciphertext);
    assert_eq!(r, Err(CryptoError::DecryptFailed));
}

#[test]
fn tampered_nonce_fails() {
    let cipher = make_cipher("k");
    let (mut nonce, ciphertext) = encrypt_password(&cipher, "hunter2").unwrap();
    nonce[11] ^= 0x80;
    let r = decrypt_password(&cipher, nonce, ciphertext);
    assert_eq!(r, Err(CryptoError::DecryptFailed));
}

#[test]
fn truncated_ciphertext_fails() {
    let cipher = make_cipher("k");
    let (nonce, mut ciphertext) = encrypt_password(&cipher, "hunter2").unwrap();
    ciphertext.pop();
    let r = decrypt_password(&cipher, nonce, ciphertext);
    assert_eq!(r, Err(CryptoError::DecryptFailed));
}

#[test]
fn wrong_nonce_length_is_rejected() {
    let cipher = make_cipher("k");
    let (_, ciphertext) = encrypt_password(&cipher, "hunter2").unwrap();
    let r = decrypt_password(&cipher, vec![0u8; 11], ciphertext);
    assert_eq!(r, Err(CryptoError::NonceLength));
}

#[test]
fn same_secret_same_key() {
    let a = make_cipher("shared");
    let b = make_cipher("shared");
    let (nonce, ciphertext) = encrypt_password(&a, "pw").unwrap();
    assert_eq!(decrypt_password(&b, nonce, ciphertext).unwrap(), "pw");
}
