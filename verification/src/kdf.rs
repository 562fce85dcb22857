//! Key derivation: Argon2id stretch of (machine identity, salt) into a
//! 256-bit key.
//!
//! The cost parameters are fixed once and never changed: they are part of
//! the on-disk format, since changing them would invalidate every existing
//! vault record. The deliberate CPU/memory cost throttles offline attacks
//! against an exfiltrated vault file; derivation requires code execution on
//! the exact host.

use vstd::prelude::*;

use crate::errors::CoreError;
use crate::identity::MachineIdentity;

verus! {

/// Length in bytes of every per-record salt.
pub const SALT_SIZE: usize = 32;

/// Length in bytes of every derived encryption key.
pub const KEY_SIZE: usize = 32;

/// The 256-bit key that Argon2id, with this library's fixed cost parameters,
/// derives from the given identity bytes and salt. A function of its
/// arguments alone: the same identity and salt yield the same key on every
/// machine and in every process.
pub uninterp spec fn derived_key_of(identity: Seq<u8>, salt: Seq<u8>) -> Seq<u8>;

/// Relies on `argon2::Argon2::hash_password_into` (Argon2id, version 0x13,
/// memory cost 32768, 3 iterations, parallelism 4): the output is a function
/// of password and salt alone, and for a password of at most 0xFFFF bytes, a
/// 32-byte salt and a 32-byte output buffer its input validation accepts and
/// it fills the buffer and returns `Ok`.
#[verifier::external_body]
fn argon2id_stretch(identity: &Vec<u8>, salt: &Vec<u8>) -> (r: Result<Vec<u8>, CoreError>)
    requires
        0 < identity@.len() <= 0xFFFF,
        salt@.len() == SALT_SIZE,
    ensures
        r is Ok,
        r matches Ok(k) ==> k@ == derived_key_of(identity@, salt@) && k@.len() == KEY_SIZE,
{
    let params = argon2::Params::new(32768, 3, 4, None)
        .map_err(|_| CoreError::KeyDerivationFailed)?;
    let argon2 = argon2::Argon2::new(argon2::Algorithm::Argon2id, argon2::Version::V0x13, params);
    let mut key = vec![0u8; KEY_SIZE];
    argon2
        .hash_password_into(identity, salt, &mut key)
        .map_err(|_| CoreError::KeyDerivationFailed)?;
    Ok(key)
}

/// Derives the per-record encryption key from the machine identity and the
/// record's salt.
pub fn derive_key(identity: &MachineIdentity, salt: &Vec<u8>) -> (r: Result<Vec<u8>, CoreError>)
    requires
        identity.wf(),
        salt@.len() == SALT_SIZE,
    ensures
        r is Ok,
        r matches Ok(k) ==> k@ == derived_key_of(identity@, salt@) && k@.len() == KEY_SIZE,
{
    argon2id_stretch(identity.as_bytes(), salt)
}

} // verus!
