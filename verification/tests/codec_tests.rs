//! Tests of the password-based encryption codec.

use solana_wallet::codec::{decrypt, encrypt};
use solana_wallet::WalletError;

#[test]
fn round_trip_64_bytes() {
    let secret: Vec<u8> = (0u8..64).collect();
    let blob = encrypt(&secret, "p@ss1");
    let back = decrypt(&blob, "p@ss1").expect("decryption with the right password");
    assert_eq!(back, secret);
}

#[test]
fn round_trip_empty_secret() {
    let secret: Vec<u8> = Vec::new();
    let blob = encrypt(&secret, "password");
    assert_eq!(decrypt(&blob, "password").unwrap(), secret);
}

#[test]
fn round_trip_32_bytes() {
    let secret: Vec<u8> = vec![0xAB; 32];
    let blob = encrypt(&secret, "s3cret");
    assert_eq!(decrypt(&blob, "s3cret").unwrap(), secret);
}

#[test]
fn wrong_password_fails_with_authentication_error() {
    let secret: Vec<u8> = (0u8..64).collect();
    let blob = encrypt(&secret, "password-one");
    let r = decrypt(&blob, "password-two");
    assert_eq!(r, Err(WalletError::Authentication));
}

#[test]
fn two_encryptions_differ() {
    let secret: Vec<u8> = vec![7; 64];
    let blob1 = encrypt(&secret, "same-password");
    let blob2 = encrypt(&secret, "same-password");
    assert_ne!(blob1, blob2);
}

#[test]
fn blob_is_base64_with_expected_length() {
    let secret: Vec<u8> = vec![1; 64];
    let blob = encrypt(&secret, "pw");
    let raw = base64::Engine::decode(&base64::engine::general_purpose::STANDARD, &blob)
        .expect("blob is valid base64");
    // salt (16) + nonce (12) + ciphertext (64) + tag (16)
    assert_eq!(raw.len(), 16 + 12 + 64 + 16);
}

#[test]
fn not_base64_fails_with_authentication_error() {
    assert_eq!(
        decrypt("!!! not base64 !!!", "pw"),
        Err(WalletError::Authentication)
    );
}

#[test]
fn too_short_blob_fails_with_authentication_error() {
    let short = base64::Engine::encode(&base64::engine::general_purpose::STANDARD, [0u8; 20]);
    assert_eq!(decrypt(&short, "pw"), Err(WalletError::Authentication));
}

#[test]
fn tampered_blob_fails_with_authentication_error() {
    let secret: Vec<u8> = (100u8..164).collect();
    let blob = encrypt(&secret, "pw");
    let mut raw = base64::Engine::decode(&base64::engine::general_purpose::STANDARD, &blob)
        .expect("blob is valid base64");
    let last = raw.len() - 1;
    raw[last] ^= 0x01;
    let tampered = base64::Engine::encode(&base64::engine::general_purpose::STANDARD, &raw);
    assert_eq!(decrypt(&tampered, "pw"), Err(WalletError::Authentication));
}

#[test]
fn tampered_salt_fails_or_changes_nothing_secretly() {
    // Flipping a salt bit changes the derived key, so the tag must fail.
    let secret: Vec<u8> = vec![9; 64];
    let blob = encrypt(&secret, "pw");
    let mut raw = base64::Engine::decode(&base64::engine::general_purpose::STANDARD, &blob)
        .expect("blob is valid base64");
    raw[0] ^= 0x80;
    let tampered = base64::Engine::encode(&base64::engine::general_purpose::STANDARD, &raw);
    assert_eq!(decrypt(&tampered, "pw"), Err(WalletError::Authentication));
}
