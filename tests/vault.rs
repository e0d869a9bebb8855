use aes_gcm::aead::Aead;
use aes_gcm::KeyInit;
use base64::Engine;
use maildog::models::{ImapConfig, Timestamp};
use sha2::Digest;
use maildog::vault::{
    decrypt_password, derive_key, encrypt_password, new_passphrase, Keyring, PassphraseSource, VaultError,
};

fn epoch() -> Timestamp {
    Timestamp { unix_seconds: 0, nanosecond: 0, offset_seconds: 0 }
}

#[test]
fn encrypt_then_decrypt_returns_password() {
    let blob = encrypt_password("hunter2", "service passphrase");
    assert_eq!(decrypt_password(&blob, "service passphrase"), Ok("hunter2".to_string()));
}

#[test]
fn round_trip_of_empty_and_unicode_passwords() {
    for password in ["", "pässwörd ✓", "a much longer password with spaces and symbols !@#$%^&*()"] {
        let blob = encrypt_password(password, "k");
        assert_eq!(decrypt_password(&blob, "k"), Ok(password.to_string()));
    }
}

#[test]
fn blob_is_nonce_then_ciphertext_and_tag() {
    let blob = encrypt_password("hunter2", "k");
    assert_eq!(blob.len(), 12 + 7 + 16);
}

#[test]
fn two_encryptions_use_different_nonces() {
    let a = encrypt_password("same", "k");
    let b = encrypt_password("same", "k");
    assert_ne!(a[..12], b[..12]);
    assert_eq!(decrypt_password(&a, "k"), decrypt_password(&b, "k"));
}

#[test]
fn wrong_passphrase_is_an_error() {
    let blob = encrypt_password("hunter2", "right");
    assert_eq!(decrypt_password(&blob, "wrong"), Err(VaultError::DecryptionFailed));
}

#[test]
fn short_blob_is_rejected() {
    assert_eq!(decrypt_password(&[0u8; 11], "k"), Err(VaultError::EncryptedDataTooShort));
    assert_eq!(decrypt_password(&[], "k"), Err(VaultError::EncryptedDataTooShort));
}

#[test]
fn nonce_without_ciphertext_fails_closed() {
    assert_eq!(decrypt_password(&[0u8; 12], "k"), Err(VaultError::DecryptionFailed));
}

#[test]
fn tampered_blob_fails_closed() {
    let mut blob = encrypt_password("hunter2", "k");
    let last = blob.len() - 1;
    blob[last] ^= 1;
    assert_eq!(decrypt_password(&blob, "k"), Err(VaultError::DecryptionFailed));
    let mut blob = encrypt_password("hunter2", "k");
    blob[13] ^= 0x80;
    assert_eq!(decrypt_password(&blob, "k"), Err(VaultError::DecryptionFailed));
}

#[test]
fn plaintext_that_is_not_text_is_rejected() {
    let key = sha2::Sha256::digest("k".as_bytes());
    let cipher = aes_gcm::Aes256Gcm::new_from_slice(&key).unwrap();
    let nonce = [7u8; 12];
    let ct = cipher.encrypt(aes_gcm::Nonce::from_slice(&nonce), &[0xff, 0xfe][..]).unwrap();
    let mut blob = nonce.to_vec();
    blob.extend_from_slice(&ct);
    assert_eq!(decrypt_password(&blob, "k"), Err(VaultError::InvalidUtf8));
}

#[test]
fn blob_from_the_cipher_directly_decrypts() {
    let key = sha2::Sha256::digest("pass".as_bytes());
    let cipher = aes_gcm::Aes256Gcm::new_from_slice(&key).unwrap();
    let nonce = [1u8; 12];
    let ct = cipher.encrypt(aes_gcm::Nonce::from_slice(&nonce), "secret".as_bytes()).unwrap();
    let mut blob = nonce.to_vec();
    blob.extend_from_slice(&ct);
    assert_eq!(decrypt_password(&blob, "pass"), Ok("secret".to_string()));
}

#[test]
fn key_is_sha256_of_passphrase() {
    let key = derive_key("abc");
    let hex: String = key.iter().map(|b| format!("{:02x}", b)).collect();
    assert_eq!(hex, "ba7816bf8f01cfea414140de5dae2223b00361a396177a9cb410ff61f20015ad");
}

#[test]
fn vault_error_messages() {
    assert_eq!(VaultError::EncryptedDataTooShort.message(), "encrypted data too short");
    assert_eq!(VaultError::DecryptionFailed.message(), "decryption failed");
    assert_eq!(VaultError::InvalidUtf8.message(), "decrypted password is not valid UTF-8");
}

#[test]
fn config_decrypts_its_own_password() {
    let config = ImapConfig {
        id: 3,
        name: "work".to_string(),
        mail_host: "imap.example.com".to_string(),
        mail_port: 993,
        username: "me@example.com".to_string(),
        password_encrypted: ImapConfig::encrypt_password("s3cret", "pp"),
        use_tls: true,
        created_at: epoch(),
        updated_at: epoch(),
    };
    assert_eq!(config.decrypt_password("pp"), Ok("s3cret".to_string()));
    assert_eq!(config.decrypt_password("other"), Err(VaultError::DecryptionFailed));
}

#[test]
fn new_passphrase_is_base64_of_32_bytes() {
    let p = new_passphrase();
    assert_eq!(p.len(), 44);
    let bytes = base64::engine::general_purpose::STANDARD.decode(&p).unwrap();
    assert_eq!(bytes.len(), 32);
    assert_ne!(new_passphrase(), p);
}

#[test]
fn keyring_prefers_environment() {
    let (k, source) = Keyring::resolve(Some("from-env".to_string()), Some("from-store".to_string()));
    assert_eq!(k.get_passphrase(), "from-env");
    assert_eq!(source, PassphraseSource::Environment);
}

#[test]
fn keyring_falls_back_to_store() {
    let (k, source) = Keyring::resolve(None, Some("from-store".to_string()));
    assert_eq!(k.get_passphrase(), "from-store");
    assert_eq!(source, PassphraseSource::CredentialStore);
}

#[test]
fn keyring_generates_when_nothing_is_stored() {
    let (k, source) = Keyring::resolve(None, None);
    assert_eq!(source, PassphraseSource::Generated);
    assert_eq!(k.get_passphrase().len(), 44);
}

#[test]
fn keyring_holds_given_passphrase() {
    let k = Keyring::from_passphrase("abc".to_string());
    assert_eq!(k.get_passphrase(), "abc");
}
