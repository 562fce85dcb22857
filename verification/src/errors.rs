//! Error taxonomy of the credential-and-session core.
//!
//! Every fallible operation of the library reports one of these variants;
//! the command layer reports them and aborts, committing no partial state.

use vstd::prelude::*;

verus! {

/// Errors surfaced by the vault, the key derivation, the session-token
/// lifecycle and the request executor.
#[derive(Clone, Copy, Debug, PartialEq, Eq, Structural)]
pub enum CoreError {
    /// No machine-identity source is reachable (fatal, environment-level).
    IdentityUnavailable,
    /// The key-derivation function rejected its parameters or failed to
    /// allocate (fatal, environment-level).
    KeyDerivationFailed,
    /// The durable store failed (fatal for the current command only).
    VaultIO,
    /// No credential record exists for the requested id.
    NotFound,
    /// The authenticated decryption check failed: the vault moved host, was
    /// corrupted, or was tampered with. Never falls back to plaintext.
    DecryptionFailed,
    /// The remote rejected the stored credentials (terminal; the user must
    /// reconfigure).
    AuthenticationFailed,
    /// A transient network failure; the command is safe to retry.
    TransportError,
    /// Any other non-success HTTP status, surfaced verbatim.
    RequestFailed(u16),
}

impl CoreError {
    /// A short, stable description of the error for the command layer.
    pub fn describe(&self) -> (r: &'static str)
        ensures
            r@.len() > 0,
    {
        proof {
            reveal_strlit("no machine identity source is reachable");
            reveal_strlit("key derivation failed");
            reveal_strlit("credential storage failed");
            reveal_strlit("no stored credentials; run setup first");
            reveal_strlit("decryption failed: vault moved host, corrupted, or tampered with");
            reveal_strlit("authentication failed: invalid credentials");
            reveal_strlit("transient network failure; retry the command");
            reveal_strlit("request failed with a non-success status");
        }
        match self {
            CoreError::IdentityUnavailable => "no machine identity source is reachable",
            CoreError::KeyDerivationFailed => "key derivation failed",
            CoreError::VaultIO => "credential storage failed",
            CoreError::NotFound => "no stored credentials; run setup first",
            CoreError::DecryptionFailed => "decryption failed: vault moved host, corrupted, or tampered with",
            CoreError::AuthenticationFailed => "authentication failed: invalid credentials",
            CoreError::TransportError => "transient network failure; retry the command",
            CoreError::RequestFailed(_) => "request failed with a non-success status",
        }
    }
}

} // verus!
