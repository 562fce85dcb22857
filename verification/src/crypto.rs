//! Authenticated encryption of one credential under AES-256-GCM, and the
//! operating-system randomness behind fresh salts and nonces.

use aes_gcm::aead::{Aead, KeyInit};
use rand::RngCore;
use vstd::prelude::*;

use crate::errors::CoreError;
use crate::kdf::KEY_SIZE;

verus! {

/// Length in bytes of every AES-GCM nonce.
pub const NONCE_SIZE: usize = 12;

/// The ciphertext (authentication tag included) that AES-256-GCM produces
/// from the given key and nonce and the UTF-8 bytes of the given plaintext.
/// A function of its arguments alone.
pub uninterp spec fn cipher_of(key: Seq<u8>, nonce: Seq<u8>, plaintext: Seq<char>) -> Seq<u8>;

/// Relies on `aes_gcm::Aes256Gcm::encrypt`: with a 32-byte key and a 12-byte
/// nonce the ciphertext is a function of key, nonce and plaintext alone, and
/// encryption of a message far below the mode's length limit cannot fail.
#[verifier::external_body]
pub(crate) fn aead_seal(key: &Vec<u8>, nonce: &Vec<u8>, plaintext: &str) -> (r: Result<
    Vec<u8>,
    CoreError,
>)
    requires
        key@.len() == KEY_SIZE,
        nonce@.len() == NONCE_SIZE,
        plaintext@.len() <= 0xFFFF_FFFF,
    ensures
        r is Ok,
        r matches Ok(c) ==> c@ == cipher_of(key@, nonce@, plaintext@),
{
    let cipher = aes_gcm::Aes256Gcm::new_from_slice(key).map_err(|_| CoreError::VaultIO)?;
    let nonce = aes_gcm::Nonce::from_slice(nonce);
    cipher.encrypt(nonce, plaintext.as_bytes()).map_err(|_| CoreError::VaultIO)
}

/// Relies on `aes_gcm::Aes256Gcm::decrypt`: a ciphertext produced under the
/// same key and nonce decrypts to exactly the plaintext it was produced
/// from, and the tag check rejects any ciphertext that is not a genuine
/// encryption under that key and nonce. The rejection path is reported as
/// `DecryptionFailed`, identically whether the cause is tampering,
/// corruption, or a key derived on a different machine.
#[verifier::external_body]
pub(crate) fn aead_open(key: &Vec<u8>, nonce: &Vec<u8>, ciphertext: &Vec<u8>) -> (r: Result<
    String,
    CoreError,
>)
    requires
        key@.len() == KEY_SIZE,
        nonce@.len() == NONCE_SIZE,
    ensures
        r matches Ok(s) ==> exists|pt: Seq<char>|
            ciphertext@ == cipher_of(key@, nonce@, pt) && s@ == pt,
        r matches Ok(s) ==> forall|pt: Seq<char>|
            ciphertext@ == cipher_of(key@, nonce@, pt) ==> s@ == pt,
        r matches Err(e) ==> e == CoreError::DecryptionFailed && (forall|pt: Seq<char>|
            ciphertext@ != cipher_of(key@, nonce@, pt)),
{
    let cipher = aes_gcm::Aes256Gcm::new_from_slice(key)
        .map_err(|_| CoreError::DecryptionFailed)?;
    let nonce = aes_gcm::Nonce::from_slice(nonce);
    let plain = cipher
        .decrypt(nonce, ciphertext.as_slice())
        .map_err(|_| CoreError::DecryptionFailed)?;
    String::from_utf8(plain).map_err(|_| CoreError::DecryptionFailed)
}

/// Relies on `rand::rngs::OsRng::try_fill_bytes`: on success the buffer
/// holds bytes drawn from the operating system's randomness source. The
/// values depend on that source; nothing is promised of them, only the
/// length.
#[verifier::external_body]
pub(crate) fn os_random_bytes(len: usize) -> (r: Result<Vec<u8>, CoreError>)
    ensures
        r matches Ok(b) ==> b@.len() == len,
        r matches Err(e) ==> e == CoreError::VaultIO,
{
    let mut buf = vec![0u8; len];
    rand::rngs::OsRng.try_fill_bytes(&mut buf).map_err(|_| CoreError::VaultIO)?;
    Ok(buf)
}

} // verus!
