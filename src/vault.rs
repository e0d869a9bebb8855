//! Credential vault: the service passphrase and the authenticated encryption
//! of mailbox passwords at rest.
//!
//! A stored password is the blob `nonce || ciphertext`, where the nonce is 12
//! random bytes and the ciphertext is AES-256-GCM (no associated data) under
//! the SHA-256 digest of the passphrase.

use vstd::prelude::*;
use vstd::string::*;
use vstd::utf8::*;
use crate::text::{owned, utf8_decode};

verus! {

broadcast use {encode_utf8_valid_utf8, encode_utf8_decode_utf8};

/// Length of the nonce that starts every encrypted blob.
pub const NONCE_LEN: usize = 12;

/// Length of the authentication tag that ends every ciphertext.
pub const TAG_LEN: usize = 16;

/// Longest plaintext that AES-GCM accepts, in bytes.
pub const MAX_PLAINTEXT_LEN: u64 = 68719476736;

/// What SHA-256 makes of the given bytes.
pub uninterp spec fn sha256_of(data: Seq<u8>) -> Seq<u8>;

/// What AES-256-GCM with no associated data makes of a plaintext: the
/// ciphertext followed by the tag.
pub uninterp spec fn aes256gcm_seal_of(key: Seq<u8>, nonce: Seq<u8>, plaintext: Seq<u8>) -> Seq<u8>;

/// What standard Base64 (with padding) makes of the given bytes.
pub uninterp spec fn base64_of(data: Seq<u8>) -> Seq<char>;

/// Relies on `sha2::Sha256::digest`: the 32-byte digest of `data`.
#[verifier::external_body]
fn sha256_digest(data: &[u8]) -> (r: Vec<u8>)
    ensures
        r@ == sha256_of(data@),
        r@.len() == 32,
{
    <sha2::Sha256 as sha2::Digest>::digest(data).to_vec()
}

/// Relies on `aes_gcm::Aes256Gcm` (`KeyInit::new`, `Aead::encrypt`): with no
/// associated data, encryption fails only on plaintexts longer than `P_MAX`
/// (2^36 bytes), and otherwise returns the ciphertext, as long as the
/// plaintext, followed by a 16-byte tag.
#[verifier::external_body]
fn aes256gcm_encrypt(key: &[u8], nonce: &[u8], plaintext: &[u8]) -> (r: Vec<u8>)
    requires
        key@.len() == 32,
        nonce@.len() == NONCE_LEN,
        plaintext@.len() <= MAX_PLAINTEXT_LEN,
    ensures
        r@ == aes256gcm_seal_of(key@, nonce@, plaintext@),
        r@.len() == plaintext@.len() + TAG_LEN,
{
    let cipher = <aes_gcm::Aes256Gcm as aes_gcm::KeyInit>::new(aes_gcm::Key::<aes_gcm::Aes256Gcm>::from_slice(key));
    let nonce = aes_gcm::Nonce::<aes_gcm::aes::cipher::consts::U12>::from_slice(nonce);
    aes_gcm::aead::Aead::encrypt(&cipher, nonce, plaintext).expect("plaintext within the AES-GCM limit")
}

/// Relies on `aes_gcm::Aes256Gcm` (`KeyInit::new`, `Aead::decrypt`): the tag
/// is recomputed over the ciphertext and only on a match is the CTR keystream
/// applied, so decryption succeeds exactly on what `encrypt` returns for some
/// plaintext under the same key and nonce, and then gives that plaintext back.
#[verifier::external_body]
fn aes256gcm_decrypt(key: &[u8], nonce: &[u8], ciphertext: &[u8]) -> (r: Option<Vec<u8>>)
    requires
        key@.len() == 32,
        nonce@.len() == NONCE_LEN,
    ensures
        forall|p: Seq<u8>|
            p.len() <= MAX_PLAINTEXT_LEN && #[trigger] aes256gcm_seal_of(key@, nonce@, p) == ciphertext@
                ==> r is Some && r->Some_0@ == p,
        r matches Some(p) ==> p@.len() + TAG_LEN == ciphertext@.len(),
        r matches Some(p) ==> (p@.len() <= MAX_PLAINTEXT_LEN ==> aes256gcm_seal_of(key@, nonce@, p@) == ciphertext@),
{
    let cipher = <aes_gcm::Aes256Gcm as aes_gcm::KeyInit>::new(aes_gcm::Key::<aes_gcm::Aes256Gcm>::from_slice(key));
    let nonce = aes_gcm::Nonce::<aes_gcm::aes::cipher::consts::U12>::from_slice(nonce);
    aes_gcm::aead::Aead::decrypt(&cipher, nonce, ciphertext).ok()
}

/// Relies on `rand::rngs::OsRng` (`RngCore::fill_bytes`): 12 bytes from the
/// operating system's generator.
#[verifier::external_body]
fn random_nonce() -> (r: Vec<u8>)
    ensures
        r@.len() == NONCE_LEN,
{
    let mut nonce = vec![0u8; 12];
    rand::RngCore::fill_bytes(&mut rand::rngs::OsRng, &mut nonce);
    nonce
}

/// Relies on `rand::thread_rng` (`Rng::gen::<[u8; 32]>`): 32 random bytes.
#[verifier::external_body]
fn random_secret() -> (r: Vec<u8>)
    ensures
        r@.len() == 32,
{
    rand::Rng::gen::<[u8; 32]>(&mut rand::thread_rng()).to_vec()
}

/// Relies on `base64::engine::general_purpose::STANDARD` (`Engine::encode`):
/// padded standard Base64, four characters for every started group of three
/// bytes; it panics only where that length overflows `usize`.
#[verifier::external_body]
fn base64_encode(data: &[u8]) -> (r: String)
    requires
        4 * ((data@.len() + 2) / 3) <= usize::MAX,
    ensures
        r@ == base64_of(data@),
        r@.len() == 4 * ((data@.len() + 2) / 3),
{
    base64::Engine::encode(&base64::engine::general_purpose::STANDARD, data)
}

/// The 256-bit key derived from a passphrase: the digest of its UTF-8 bytes.
pub open spec fn key_of(passphrase: Seq<char>) -> Seq<u8> {
    sha256_of(encode_utf8(passphrase))
}

/// Derives the encryption key of a passphrase.
pub fn derive_key(passphrase: &str) -> (r: Vec<u8>)
    ensures
        r@ == key_of(passphrase@),
        r@.len() == 32,
{
    sha256_digest(passphrase.as_bytes())
}

/// `ciphertext` is the sealing of `plaintext` under `key` and `nonce`.
pub open spec fn sealed(key: Seq<u8>, nonce: Seq<u8>, ciphertext: Seq<u8>, plaintext: Seq<u8>) -> bool {
    plaintext.len() <= MAX_PLAINTEXT_LEN && aes256gcm_seal_of(key, nonce, plaintext) == ciphertext
}

/// `blob` is an encryption of `password` under `passphrase`: some 12-byte
/// nonce followed by the sealing of the password's UTF-8 bytes.
pub open spec fn is_encryption_of(blob: Seq<u8>, password: Seq<char>, passphrase: Seq<char>) -> bool {
    exists|nonce: Seq<u8>|
        nonce.len() == NONCE_LEN && #[trigger] (nonce + aes256gcm_seal_of(key_of(passphrase), nonce, encode_utf8(password))) == blob
}

/// Why a stored password could not be recovered.
#[derive(Clone, Copy, Debug, PartialEq, Eq, Structural)]
pub enum VaultError {
    /// The blob is shorter than its nonce.
    EncryptedDataTooShort,
    /// The tag does not match: wrong passphrase or a damaged blob.
    DecryptionFailed,
    /// The decrypted bytes are not UTF-8 text.
    InvalidUtf8,
}

/// The description of a vault error.
pub open spec fn error_text(e: VaultError) -> Seq<char> {
    match e {
        VaultError::EncryptedDataTooShort => "encrypted data too short"@,
        VaultError::DecryptionFailed => "decryption failed"@,
        VaultError::InvalidUtf8 => "decrypted password is not valid UTF-8"@,
    }
}

impl VaultError {
    /// A human-readable description of the error.
    pub fn message(&self) -> (r: String)
        ensures
            r@ == error_text(*self),
    {
        match self {
            VaultError::EncryptedDataTooShort => owned("encrypted data too short"),
            VaultError::DecryptionFailed => owned("decryption failed"),
            VaultError::InvalidUtf8 => owned("decrypted password is not valid UTF-8"),
        }
    }
}

/// The nonce part of a blob of at least `NONCE_LEN` bytes.
pub open spec fn nonce_part(blob: Seq<u8>) -> Seq<u8> {
    blob.subrange(0, NONCE_LEN as int)
}

/// The ciphertext part of a blob of at least `NONCE_LEN` bytes.
pub open spec fn ciphertext_part(blob: Seq<u8>) -> Seq<u8> {
    blob.subrange(NONCE_LEN as int, blob.len() as int)
}

/// What decrypting `blob` under `passphrase` yields, stated exactly: the
/// outcome `r` is determined by the blob's length and by which plaintext, if
/// any, the ciphertext part seals under the derived key and the nonce part.
pub open spec fn decrypted(blob: Seq<u8>, passphrase: Seq<char>, r: Result<Seq<char>, VaultError>) -> bool {
    if blob.len() < NONCE_LEN {
        r == Err::<Seq<char>, VaultError>(VaultError::EncryptedDataTooShort)
    } else {
        let key = key_of(passphrase);
        let nonce = nonce_part(blob);
        let ct = ciphertext_part(blob);
        &&& (forall|s: Seq<char>| #[trigger] sealed(key, nonce, ct, encode_utf8(s)) ==> r == Ok::<Seq<char>, VaultError>(s))
        &&& match r {
            Ok(s) => sealed(key, nonce, ct, encode_utf8(s)),
            Err(VaultError::EncryptedDataTooShort) => false,
            Err(VaultError::DecryptionFailed) => forall|p: Seq<u8>| !#[trigger] sealed(key, nonce, ct, p),
            Err(VaultError::InvalidUtf8) => exists|p: Seq<u8>| #[trigger] sealed(key, nonce, ct, p) && !valid_utf8(p),
        }
    }
}

/// The view of a decryption result.
pub open spec fn text_result(r: Result<String, VaultError>) -> Result<Seq<char>, VaultError> {
    match r {
        Ok(s) => Ok(s@),
        Err(e) => Err(e),
    }
}

/// Encrypts a password under a passphrase with a fresh random nonce; the
/// result is `nonce || ciphertext`.
pub fn encrypt_password(password: &str, passphrase: &str) -> (r: Vec<u8>)
    requires
        encode_utf8(password@).len() <= MAX_PLAINTEXT_LEN,
    ensures
        is_encryption_of(r@, password@, passphrase@),
        r@.len() == NONCE_LEN + encode_utf8(password@).len() + TAG_LEN,
{
    let key = derive_key(passphrase);
    let nonce = random_nonce();
    let sealed_bytes = aes256gcm_encrypt(key.as_slice(), nonce.as_slice(), password.as_bytes());
    let mut blob: Vec<u8> = Vec::new();
    let mut i: usize = 0;
    while i < nonce.len()
        invariant
            i <= nonce@.len(),
            blob@ == nonce@.subrange(0, i as int),
        decreases nonce@.len() - i,
    {
        blob.push(nonce[i]);
        assert(blob@ =~= nonce@.subrange(0, i + 1));
        i = i + 1;
    }
    let mut j: usize = 0;
    while j < sealed_bytes.len()
        invariant
            j <= sealed_bytes@.len(),
            blob@ == nonce@ + sealed_bytes@.subrange(0, j as int),
        decreases sealed_bytes@.len() - j,
    {
        blob.push(sealed_bytes[j]);
        assert(blob@ =~= nonce@ + sealed_bytes@.subrange(0, j + 1));
        j = j + 1;
    }
    assert(sealed_bytes@.subrange(0, sealed_bytes@.len() as int) =~= sealed_bytes@);
    assert(is_encryption_of(blob@, password@, passphrase@)) by {
        assert((nonce@ + aes256gcm_seal_of(key_of(passphrase@), nonce@, encode_utf8(password@))) == blob@);
    }
    blob
}

/// Decrypts a `nonce || ciphertext` blob under a passphrase. Fails closed: a
/// blob shorter than its nonce, a tag that does not verify, or bytes that are
/// not text give an error, never a value.
pub fn decrypt_password(blob: &[u8], passphrase: &str) -> (r: Result<String, VaultError>)
    ensures
        decrypted(blob@, passphrase@, text_result(r)),
{
    if blob.len() < NONCE_LEN {
        return Err(VaultError::EncryptedDataTooShort);
    }
    let key = derive_key(passphrase);
    let (nonce, ct) = blob.split_at(NONCE_LEN);
    assert(nonce@ == nonce_part(blob@));
    assert(ct@ == ciphertext_part(blob@));
    let opened = aes256gcm_decrypt(key.as_slice(), nonce, ct);
    match opened {
        None => {
            assert forall|p: Seq<u8>| !#[trigger] sealed(key@, nonce@, ct@, p) by {
                if sealed(key@, nonce@, ct@, p) {
                    assert(aes256gcm_seal_of(key@, nonce@, p) == ct@);
                }
            }
            Err(VaultError::DecryptionFailed)
        },
        Some(plain) => {
            if plain.len() as u64 > MAX_PLAINTEXT_LEN {
                // No plaintext within the limit seals to `ct`: the wrapper would have returned it.
                assert forall|p: Seq<u8>| !#[trigger] sealed(key@, nonce@, ct@, p) by {
                    if sealed(key@, nonce@, ct@, p) {
                        assert(aes256gcm_seal_of(key@, nonce@, p) == ct@);
                    }
                }
                return Err(VaultError::DecryptionFailed);
            }
            assert(sealed(key@, nonce@, ct@, plain@));
            match utf8_decode(plain.as_slice()) {
                None => {
                    assert forall|s: Seq<char>| !#[trigger] sealed(key@, nonce@, ct@, encode_utf8(s)) by {
                        if sealed(key@, nonce@, ct@, encode_utf8(s)) {
                            assert(aes256gcm_seal_of(key@, nonce@, encode_utf8(s)) == ct@);
                        }
                    }
                    Err(VaultError::InvalidUtf8)
                },
                Some(text) => {
                    assert(encode_utf8(text@) == plain@) by {
                        vstd::utf8::decode_utf8_encode_utf8(plain@);
                    }
                    assert forall|s: Seq<char>| #[trigger] sealed(key@, nonce@, ct@, encode_utf8(s)) implies s == text@ by {
                        assert(aes256gcm_seal_of(key@, nonce@, encode_utf8(s)) == ct@);
                        assert(encode_utf8(s) == plain@);
                        assert(decode_utf8(encode_utf8(s)) == s);
                    }
                    Ok(text)
                },
            }
        },
    }
}

/// A password that was encrypted under a passphrase decrypts, under the same
/// passphrase, to that password.
pub proof fn lemma_decrypt_inverts_encrypt(
    password: Seq<char>,
    passphrase: Seq<char>,
    blob: Seq<u8>,
    r: Result<Seq<char>, VaultError>,
)
    requires
        encode_utf8(password).len() <= MAX_PLAINTEXT_LEN,
        is_encryption_of(blob, password, passphrase),
        decrypted(blob, passphrase, r),
    ensures
        r == Ok::<Seq<char>, VaultError>(password),
{
    let nonce = choose|nonce: Seq<u8>|
        nonce.len() == NONCE_LEN && #[trigger] (nonce + aes256gcm_seal_of(key_of(passphrase), nonce, encode_utf8(password))) == blob;
    let ct = aes256gcm_seal_of(key_of(passphrase), nonce, encode_utf8(password));
    assert(nonce_part(blob) =~= nonce);
    assert(ciphertext_part(blob) =~= ct);
    assert(sealed(key_of(passphrase), nonce, ct, encode_utf8(password)));
}

/// The outcome of a decryption is determined by the blob and the passphrase.
pub proof fn lemma_decrypted_unique(
    blob: Seq<u8>,
    passphrase: Seq<char>,
    r1: Result<Seq<char>, VaultError>,
    r2: Result<Seq<char>, VaultError>,
)
    requires
        decrypted(blob, passphrase, r1),
        decrypted(blob, passphrase, r2),
    ensures
        r1 == r2,
{
    if blob.len() >= NONCE_LEN {
        let key = key_of(passphrase);
        let nonce = nonce_part(blob);
        let ct = ciphertext_part(blob);
        match r1 {
            Ok(s) => {
                assert(sealed(key, nonce, ct, encode_utf8(s)));
            },
            Err(VaultError::InvalidUtf8) => {
                match r2 {
                    Ok(s) => {
                        assert(sealed(key, nonce, ct, encode_utf8(s)));
                    },
                    Err(VaultError::DecryptionFailed) => {
                        let p = choose|p: Seq<u8>| #[trigger] sealed(key, nonce, ct, p) && !valid_utf8(p);
                        assert(sealed(key, nonce, ct, p));
                    },
                    _ => {},
                }
            },
            Err(VaultError::DecryptionFailed) => {
                match r2 {
                    Ok(s) => {
                        assert(sealed(key, nonce, ct, encode_utf8(s)));
                    },
                    Err(VaultError::InvalidUtf8) => {
                        let p = choose|p: Seq<u8>| #[trigger] sealed(key, nonce, ct, p) && !valid_utf8(p);
                        assert(sealed(key, nonce, ct, p));
                    },
                    _ => {},
                }
            },
            _ => {},
        }
    }
}

/// The process-wide passphrase from which mailbox password keys are derived.
pub struct Keyring {
    passphrase: String,
}

impl View for Keyring {
    type V = Seq<char>;

    closed spec fn view(&self) -> Seq<char> {
        self.passphrase@
    }
}

/// Where the passphrase of a `Keyring` came from.
#[derive(Clone, Copy, Debug, PartialEq, Eq, Structural)]
pub enum PassphraseSource {
    /// Given by the environment.
    Environment,
    /// Read from the operating system's credential store.
    CredentialStore,
    /// Freshly generated; it should be saved to the credential store.
    Generated,
}

impl Keyring {
    /// A keyring holding the given passphrase.
    pub fn from_passphrase(passphrase: String) -> (r: Keyring)
        ensures
            r@ == passphrase@,
    {
        Keyring { passphrase }
    }

    /// A copy of the passphrase.
    pub fn get_passphrase(&self) -> (r: String)
        ensures
            r@ == self@,
    {
        self.passphrase.clone()
    }

    /// Chooses the passphrase at start-up: the environment's if given, else
    /// the credential store's, else a new one made of 32 random bytes in
    /// Base64.
    pub fn resolve(from_env: Option<String>, from_store: Option<String>) -> (r: (Keyring, PassphraseSource))
        ensures
            from_env matches Some(e) ==> r.0@ == e@ && r.1 == PassphraseSource::Environment,
            from_env is None && from_store is Some ==> r.0@ == from_store->Some_0@ && r.1
                == PassphraseSource::CredentialStore,
            from_env is None && from_store is None ==> r.1 == PassphraseSource::Generated
                && exists|secret: Seq<u8>| secret.len() == 32 && #[trigger] base64_of(secret) == r.0@,
    {
        match from_env {
            Some(e) => (Keyring::from_passphrase(e), PassphraseSource::Environment),
            None => match from_store {
                Some(s) => (Keyring::from_passphrase(s), PassphraseSource::CredentialStore),
                None => (Keyring::from_passphrase(new_passphrase()), PassphraseSource::Generated),
            },
        }
    }
}

/// A new passphrase: 32 random bytes in standard Base64 (44 characters).
pub fn new_passphrase() -> (r: String)
    ensures
        exists|secret: Seq<u8>| secret.len() == 32 && #[trigger] base64_of(secret) == r@,
        r@.len() == 44,
{
    let secret = random_secret();
    base64_encode(secret.as_slice())
}

} // verus!
