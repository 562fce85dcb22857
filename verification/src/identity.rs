//! Machine identity: the host-stable byte string that anchors all key
//! derivation.
//!
//! The identity is deterministic across process runs on the same host and
//! need not be secret: its purpose is to bind decryption to the originating
//! machine, not to add entropy. Reading the platform's identity source (a
//! machine-id file or a hardware UUID) is I/O and happens outside the
//! library; the caller hands the bytes in, and an empty reading means no
//! source was reachable.

use vstd::prelude::*;

use crate::errors::CoreError;

verus! {

/// A non-empty, host-stable byte string used as KDF input. Never persisted;
/// recomputed from the platform source on every vault operation.
#[derive(Debug)]
pub struct MachineIdentity {
    bytes: Vec<u8>,
}

impl View for MachineIdentity {
    type V = Seq<u8>;

    closed spec fn view(&self) -> Seq<u8> {
        self.bytes@
    }
}

impl MachineIdentity {
    /// The identity bytes are usable as KDF input: non-empty and within the
    /// length the key-derivation function accepts.
    pub open spec fn wf(&self) -> bool {
        0 < self@.len() <= 0xFFFF
    }

    /// Wraps the bytes read from the platform's identity source.
    ///
    /// Fails with `IdentityUnavailable` exactly when the reading is empty
    /// (no source was reachable) or implausibly long for an identity string.
    pub fn new(bytes: Vec<u8>) -> (r: Result<MachineIdentity, CoreError>)
        ensures
            r is Ok <==> 0 < bytes@.len() <= 0xFFFF,
            r matches Ok(m) ==> m@ == bytes@ && m.wf(),
            r is Err ==> r == Err::<MachineIdentity, CoreError>(CoreError::IdentityUnavailable),
    {
        if bytes.len() == 0 || bytes.len() > 0xFFFF {
            Err(CoreError::IdentityUnavailable)
        } else {
            Ok(MachineIdentity { bytes })
        }
    }

    /// The identity bytes, for handing to the key-derivation function.
    pub fn as_bytes(&self) -> (r: &Vec<u8>)
        ensures
            r@ == self@,
    {
        &self.bytes
    }
}

} // verus!
