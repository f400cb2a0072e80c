use vstd::prelude::*;
use vstd::string::StringSliceAdditionalSpecFns;
use aes_gcm::aead::{Aead, OsRng};
use aes_gcm::{AeadCore, Aes256Gcm, Key, KeyInit, Nonce};
use sha2::{Digest, Sha256};

verus! {

/// A decryption failure: tampered input, wrong key, or malformed input.
/// Decryption fails closed; there is no fallback to an unencrypted path.
#[derive(Clone, Copy, Debug, PartialEq, Eq, Structural)]
pub enum CryptoError {
    /// The plaintext exceeds the cipher's length limit.
    EncryptFailed,
    /// The stored nonce does not have the cipher's 96-bit nonce length.
    NonceLength,
    /// Authentication of the ciphertext failed, or the recovered plaintext
    /// was not valid text.
    DecryptFailed,
}

/// The SHA-256 digest of a byte sequence.
pub uninterp spec fn sha256_of(data: Seq<u8>) -> Seq<u8>;

/// What authenticated decryption under AES-256-GCM recovers from a key, a
/// 96-bit nonce and a ciphertext: the plaintext as text, or `None` when the
/// tag does not authenticate or the plaintext is not valid UTF-8.
pub uninterp spec fn aead_open(key: Seq<u8>, nonce: Seq<u8>, ciphertext: Seq<u8>) -> Option<
    Seq<char>,
>;

/// An AEAD cipher keyed by a 256-bit key derived from an operator secret.
/// The key lives only in memory; it is never persisted.
pub struct Cipher {
    key: Vec<u8>,
}

impl Cipher {
    /// The derived key this cipher encrypts and decrypts under.
    pub closed spec fn key_view(&self) -> Seq<u8> {
        self.key@
    }

    /// The key has the cipher's exact 256-bit length.
    pub closed spec fn wf(&self) -> bool {
        self.key@.len() == 32
    }
}

/// Derive a cipher from an operator-supplied master secret: one-way and
/// deterministic, so the same secret always yields the same key.
///
/// Relies on sha2::Sha256 for the 256-bit derivation and on
/// aes_gcm::Aes256Gcm accepting any 32-byte key.
#[verifier::external_body]
pub fn make_cipher(master_key: &str) -> (c: Cipher)
    ensures
        c.wf(),
        c.key_view() == sha256_of(master_key.spec_bytes()),
{
    let mut hasher = Sha256::new();
    hasher.update(master_key.as_bytes());
    let digest = hasher.finalize();
    Cipher { key: digest.to_vec() }
}

/// Authenticated encryption of a password under this cipher's key, with a
/// fresh random 96-bit nonce drawn from the operating system on every call.
/// The nonce is not secret and is returned for storage beside the ciphertext.
///
/// Relies on aes_gcm::Aes256Gcm::encrypt: decrypting the returned pair under
/// the same key recovers exactly the plaintext, the ciphertext is the
/// plaintext's length plus the appended 128-bit authentication tag, and
/// encryption is refused only for plaintexts longer than the cipher's length
/// limit.
#[verifier::external_body]
pub fn encrypt_password(cipher: &Cipher, password: &str) -> (r: Result<
    (Vec<u8>, Vec<u8>),
    CryptoError,
>)
    requires
        cipher.wf(),
    ensures
        (r matches Ok(pair) ==> pair.0@.len() == 12 && pair.1@.len() == password.spec_bytes().len()
            + 16 && aead_open(cipher.key_view(), pair.0@, pair.1@) == Some(password@)),
        password.spec_bytes().len() <= 0x1000000000 ==> r is Ok,
{
    let key = Key::<Aes256Gcm>::from_slice(cipher.key.as_slice());
    let aead = Aes256Gcm::new(key);
    let nonce = Aes256Gcm::generate_nonce(&mut OsRng);
    match aead.encrypt(&nonce, password.as_bytes()) {
        Ok(ciphertext) => Ok((nonce.to_vec(), ciphertext)),
        Err(_) => Err(CryptoError::EncryptFailed),
    }
}

/// Relies on aes_gcm::Aes256Gcm::decrypt: authenticated decryption is a
/// deterministic function of key, nonce and ciphertext alone, and yields no
/// plaintext on any tag mismatch. A plaintext that is not valid UTF-8 is
/// treated as a failure as well.
#[verifier::external_body]
fn aead_open_exec(cipher: &Cipher, nonce: &Vec<u8>, ciphertext: &Vec<u8>) -> (r: Option<String>)
    requires
        cipher.wf(),
        nonce@.len() == 12,
    ensures
        r matches Some(p) ==> aead_open(cipher.key_view(), nonce@, ciphertext@) == Some(p@),
        r is None ==> aead_open(cipher.key_view(), nonce@, ciphertext@) is None,
{
    let key = Key::<Aes256Gcm>::from_slice(cipher.key.as_slice());
    let aead = Aes256Gcm::new(key);
    let n = Nonce::from_slice(nonce.as_slice());
    match aead.decrypt(n, ciphertext.as_slice()) {
        Ok(plaintext) => String::from_utf8(plaintext).ok(),
        Err(_) => None,
    }
}

/// Decrypt a stored password. Fails closed: a nonce of the wrong length, a
/// tampered ciphertext or nonce, or a wrong key all yield an explicit error
/// and never partial or garbage plaintext.
pub fn decrypt_password(cipher: &Cipher, nonce: Vec<u8>, ciphertext: Vec<u8>) -> (r: Result<
    String,
    CryptoError,
>)
    requires
        cipher.wf(),
    ensures
        (r matches Ok(p) ==> nonce@.len() == 12 && aead_open(cipher.key_view(), nonce@, ciphertext@)
            == Some(p@)),
        nonce@.len() == 12 && aead_open(cipher.key_view(), nonce@, ciphertext@) is Some ==> r
            is Ok,
        nonce@.len() != 12 ==> r == Err::<String, CryptoError>(CryptoError::NonceLength),
        nonce@.len() == 12 && aead_open(cipher.key_view(), nonce@, ciphertext@) is None ==> r
            == Err::<String, CryptoError>(CryptoError::DecryptFailed),
{
    if nonce.len() != 12 {
        return Err(CryptoError::NonceLength);
    }
    match aead_open_exec(cipher, &nonce, &ciphertext) {
        Some(p) => Ok(p),
        None => Err(CryptoError::DecryptFailed),
    }
}

/// Round trip: encrypting a password and decrypting the resulting pair under
/// the same cipher recovers exactly the plaintext. The result is `Err` only
/// when encryption itself was refused.
pub fn encrypt_then_decrypt(cipher: &Cipher, password: &str) -> (r: Result<String, CryptoError>)
    requires
        cipher.wf(),
    ensures
        r matches Ok(p) ==> p@ == password@,
        password.spec_bytes().len() <= 0x1000000000 ==> (r matches Ok(p) && p@ == password@),
{
    match encrypt_password(cipher, password) {
        Ok((nonce, ciphertext)) => {
            match decrypt_password(cipher, nonce, ciphertext) {
                Ok(p) => Ok(p),
                Err(e) => {
                    proof {
                        assert(false);
                    }
                    Err(e)
                },
            }
        },
        Err(e) => Err(e),
    }
}

} // verus!
