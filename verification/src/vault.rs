//! The credential vault: encrypts, decrypts and holds one password per user
//! id, keyed per-record by a fresh salt and nonce.
//!
//! Each record carries the AES-256-GCM ciphertext of the password under a
//! key derived from the machine identity and the record's own salt, so a
//! vault copied to another machine is useless without that machine's
//! identity. `store_credentials` is an upsert keyed by id: at most one live
//! record per id. Durable persistence of the records is the caller's
//! concern; the vault itself is the in-memory model of the credential table
//! and every operation on it is verified.

use vstd::prelude::*;

use crate::crypto::{aead_open, aead_seal, cipher_of, os_random_bytes, NONCE_SIZE};
use crate::errors::CoreError;
use crate::helpers::current_timestamp;
use crate::identity::MachineIdentity;
use crate::kdf::{derive_key, derived_key_of, SALT_SIZE};

verus! {

/// One row of the credential table.
#[derive(Debug)]
pub struct CredentialRecord {
    /// User id; at most one live record exists per id.
    pub id: String,
    /// AES-256-GCM ciphertext of the password, authentication tag included.
    pub encrypted_data: Vec<u8>,
    /// The 12-byte nonce this record was sealed under; fresh on every store.
    pub nonce: Vec<u8>,
    /// The 32-byte salt its key was derived from; fresh on every store.
    pub salt: Vec<u8>,
    /// Informational timestamp of the store that wrote the record.
    pub created_at: u64,
}

impl CredentialRecord {
    /// Salt and nonce have the lengths the on-disk format fixes.
    pub open spec fn wf(&self) -> bool {
        self.nonce@.len() == NONCE_SIZE && self.salt@.len() == SALT_SIZE
    }

    /// The record is a sealing of `secret` under `identity`: its ciphertext
    /// is exactly the encryption of `secret` under the key that `identity`
    /// and the record's salt derive, with the record's nonce.
    pub open spec fn seals(&self, identity: Seq<u8>, secret: Seq<char>) -> bool {
        self.encrypted_data@ == cipher_of(
            derived_key_of(identity, self.salt@),
            self.nonce@,
            secret,
        )
    }

    /// The AEAD tag check passes under `identity`: the ciphertext is a
    /// genuine encryption under the key that `identity` and the record's
    /// salt derive.
    pub open spec fn authentic(&self, identity: Seq<u8>) -> bool {
        exists|secret: Seq<char>| self.seals(identity, secret)
    }
}

/// Number of records carrying the given id.
pub open spec fn count_id(records: Seq<CredentialRecord>, id: Seq<char>) -> nat
    decreases records.len(),
{
    if records.len() == 0 {
        0
    } else {
        count_id(records.drop_last(), id) + if records.last().id@ == id {
            1nat
        } else {
            0nat
        }
    }
}

/// The credential vault: the in-memory model of the credential table.
#[derive(Debug)]
pub struct AuthStorage {
    records: Vec<CredentialRecord>,
}

impl View for AuthStorage {
    type V = Seq<CredentialRecord>;

    closed spec fn view(&self) -> Seq<CredentialRecord> {
        self.records@
    }
}

impl AuthStorage {
    /// Ids are pairwise distinct and every record is well-formed.
    pub open spec fn wf(&self) -> bool {
        &&& forall|i: int, j: int|
            0 <= i < j < self@.len() ==> (#[trigger] self@[i]).id@ != (#[trigger] self@[j]).id@
        &&& forall|i: int| 0 <= i < self@.len() ==> (#[trigger] self@[i]).wf()
    }

    /// An empty vault.
    pub fn new() -> (r: AuthStorage)
        ensures
            r.wf(),
            r@.len() == 0,
    {
        AuthStorage { records: Vec::new() }
    }

    /// Rebuilds a vault from records read back from durable storage,
    /// validating what well-formedness demands: salt and nonce lengths as
    /// the on-disk format fixes them, and at most one record per id. A
    /// reading that violates either is rejected as `VaultIO`.
    pub fn from_records(records: Vec<CredentialRecord>) -> (r: Result<AuthStorage, CoreError>)
        ensures
            r matches Ok(v) ==> v.wf() && v@ == records@,
            r is Ok <==> ((forall|i: int|
                0 <= i < records@.len() ==> (#[trigger] records@[i]).wf()) && (forall|i: int, j: int|
                0 <= i < j < records@.len() ==> (#[trigger] records@[i]).id@
                    != (#[trigger] records@[j]).id@)),
            r matches Err(e) ==> e == CoreError::VaultIO,
    {
        let n = records.len();
        let mut i: usize = 0;
        while i < n
            invariant
                n == records@.len(),
                i <= n,
                forall|k: int| 0 <= k < i ==> (#[trigger] records@[k]).wf(),
                forall|k: int, j: int|
                    0 <= k < j < i ==> (#[trigger] records@[k]).id@ != (#[trigger] records@[j]).id@,
            decreases n - i,
        {
            if records[i].nonce.len() != NONCE_SIZE || records[i].salt.len() != SALT_SIZE {
                return Err(CoreError::VaultIO);
            }
            let mut j: usize = 0;
            while j < i
                invariant
                    n == records@.len(),
                    i < n,
                    j <= i,
                    forall|k: int| 0 <= k < j ==> (#[trigger] records@[k]).id@
                        != records@[i as int].id@,
                decreases i - j,
            {
                if records[j].id == records[i].id {
                    return Err(CoreError::VaultIO);
                }
                j = j + 1;
            }
            i = i + 1;
        }
        Ok(AuthStorage { records })
    }

    /// How many records the vault holds.
    pub fn len(&self) -> (n: usize)
        ensures
            n == self@.len(),
    {
        self.records.len()
    }

    /// Index of the record with the given id, if one exists.
    fn find_index(&self, id: &str) -> (r: Option<usize>)
        ensures
            r matches Some(i) ==> i < self@.len() && self@[i as int].id@ == id@,
            r is None ==> forall|i: int| 0 <= i < self@.len() ==> (#[trigger] self@[i]).id@ != id@,
    {
        let target = String::from_str(id);
        let mut i: usize = 0;
        while i < self.records.len()
            invariant
                i <= self@.len(),
                target@ == id@,
                forall|j: int| 0 <= j < i ==> (#[trigger] self@[j]).id@ != id@,
            decreases self@.len() - i,
        {
            if self.records[i].id == target {
                return Some(i);
            }
            i = i + 1;
        }
        None
    }

    /// Record with the given id, if one exists.
    pub fn find_record(&self, id: &str) -> (r: Option<&CredentialRecord>)
        ensures
            r matches Some(rec) ==> exists|i: int|
                0 <= i < self@.len() && *rec == (#[trigger] self@[i]) && self@[i].id@ == id@,
            r is None ==> forall|i: int| 0 <= i < self@.len() ==> (#[trigger] self@[i]).id@ != id@,
    {
        match self.find_index(id) {
            Some(i) => Some(&self.records[i]),
            None => None,
        }
    }

    /// Generates a fresh random salt and nonce, derives the per-record key,
    /// seals `password` and upserts the record for `id`, replacing any prior
    /// record for that id (delete-then-insert). Fails only with `VaultIO`,
    /// when the operating system's randomness source does, leaving the vault
    /// unchanged.
    pub fn store_credentials(&mut self, id: &str, password: &str, identity: &MachineIdentity)
        -> (r: Result<(), CoreError>)
        requires
            old(self).wf(),
            identity.wf(),
            password@.len() <= 0xFFFF_FFFF,
        ensures
            final(self).wf(),
            r matches Err(e) ==> e == CoreError::VaultIO && *final(self) == *old(self),
            r is Ok ==> exists|i: int|
                0 <= i < final(self)@.len() && (#[trigger] final(self)@[i]).id@ == id@
                    && final(self)@[i].seals(identity@, password@),
            r is Ok ==> forall|j: int|
                0 <= j < final(self)@.len() && (#[trigger] final(self)@[j]).id@ != id@
                    ==> exists|k: int| 0 <= k < old(self)@.len() && old(self)@[k] == final(self)@[j],
            r is Ok ==> forall|k: int|
                0 <= k < old(self)@.len() && (#[trigger] old(self)@[k]).id@ != id@
                    ==> exists|j: int| 0 <= j < final(self)@.len() && final(self)@[j] == old(self)@[k],
    {
        let salt = os_random_bytes(SALT_SIZE)?;
        let nonce = os_random_bytes(NONCE_SIZE)?;
        let key = derive_key(identity, &salt)?;
        let encrypted_data = aead_seal(&key, &nonce, password)?;
        let record = CredentialRecord {
            id: String::from_str(id),
            encrypted_data,
            nonce,
            salt,
            created_at: current_timestamp(),
        };
        proof {
            assert(record.seals(identity@, password@));
        }
        let ghost pre = self@;
        let found = self.find_index(id);
        let ghost at: int = match found {
            Some(i) => i as int,
            None => pre.len() as int,
        };
        match found {
            Some(i) => {
                self.records[i] = record;
            },
            None => {
                self.records.push(record);
            },
        }
        proof {
            assert(self@[at] == record);
            assert(self@[at].id@ == id@);
            assert forall|j: int| 0 <= j < self@.len() && (#[trigger] self@[j]).id@ != id@
                implies exists|k: int| 0 <= k < pre.len() && pre[k] == self@[j] by {
                assert(j != at);
                assert(pre[j] == self@[j]);
            }
            assert forall|k: int| 0 <= k < pre.len() && (#[trigger] pre[k]).id@ != id@
                implies exists|j: int| 0 <= j < self@.len() && self@[j] == pre[k] by {
                assert(k != at);
                assert(self@[k] == pre[k]);
            }
            assert forall|a: int, b: int| 0 <= a < b < self@.len()
                implies (#[trigger] self@[a]).id@ != (#[trigger] self@[b]).id@ by {
                if a != at && b != at {
                    assert(self@[a] == pre[a] && self@[b] == pre[b]);
                } else if a == at {
                    assert(self@[b] == pre[b]);
                    assert(self@[b].id@ != id@);
                } else {
                    assert(self@[a] == pre[a]);
                    assert(self@[a].id@ != id@);
                }
            }
        }
        Ok(())
    }

    /// Re-derives the key from the current machine identity and the stored
    /// salt, then decrypts and authenticates. Returns the sealed password
    /// exactly; fails with `NotFound` when no record exists for `id`, and
    /// with `DecryptionFailed` when the tag check fails — identically
    /// whether the cause is tampering, corruption, or running on a different
    /// machine than the one that wrote the record.
    pub fn get_credentials(&self, id: &str, identity: &MachineIdentity) -> (r: Result<
        String,
        CoreError,
    >)
        requires
            self.wf(),
            identity.wf(),
        ensures
            r is Ok <==> exists|i: int|
                0 <= i < self@.len() && (#[trigger] self@[i]).id@ == id@
                    && self@[i].authentic(identity@),
            r matches Ok(p) ==> exists|i: int|
                0 <= i < self@.len() && (#[trigger] self@[i]).id@ == id@
                    && self@[i].seals(identity@, p@),
            forall|i: int, pt: Seq<char>|
                0 <= i < self@.len() && self@[i].id@ == id@
                    && #[trigger] self@[i].seals(identity@, pt)
                    ==> (r matches Ok(p) && p@ == pt),
            r matches Err(e) ==> (
                (e == CoreError::NotFound && (forall|i: int|
                    0 <= i < self@.len() ==> (#[trigger] self@[i]).id@ != id@))
                || (e == CoreError::DecryptionFailed && exists|i: int|
                    0 <= i < self@.len() && (#[trigger] self@[i]).id@ == id@
                        && !self@[i].authentic(identity@))),
    {
        let i = match self.find_index(id) {
            Some(i) => i,
            None => {
                return Err(CoreError::NotFound);
            },
        };
        let record = &self.records[i];
        let key = derive_key(identity, &record.salt)?;
        let r = aead_open(&key, &record.nonce, &record.encrypted_data);
        proof {
            assert forall|j: int| 0 <= j < self@.len() && (#[trigger] self@[j]).id@ == id@
                implies j == i by {
                if j != i {
                    assert(self@[j].id@ != self@[i as int].id@);
                }
            }
        }
        match r {
            Ok(p) => {
                proof {
                    let pt = choose|pt: Seq<char>|
                        self@[i as int].encrypted_data@ == cipher_of(
                            key@,
                            self@[i as int].nonce@,
                            pt,
                        ) && p@ == pt;
                    assert(self@[i as int].seals(identity@, p@));
                    assert(self@[i as int].authentic(identity@));
                }
                Ok(p)
            },
            Err(_) => {
                proof {
                    assert forall|pt: Seq<char>| !self@[i as int].seals(identity@, pt) by {
                        assert(self@[i as int].encrypted_data@ != cipher_of(
                            key@,
                            self@[i as int].nonce@,
                            pt,
                        ));
                    }
                    assert(!self@[i as int].authentic(identity@));
                }
                Err(CoreError::DecryptionFailed)
            },
        }
    }

    /// Retrieves the stored password for `id` and compares it to
    /// `candidate`, returning the boolean outcome and never the plaintext
    /// itself; errors are those of `get_credentials`.
    pub fn verify_credentials(&self, id: &str, candidate: &str, identity: &MachineIdentity)
        -> (r: Result<bool, CoreError>)
        requires
            self.wf(),
            identity.wf(),
        ensures
            r is Ok <==> exists|i: int|
                0 <= i < self@.len() && (#[trigger] self@[i]).id@ == id@
                    && self@[i].authentic(identity@),
            r matches Ok(b) ==> exists|i: int|
                0 <= i < self@.len() && (#[trigger] self@[i]).id@ == id@
                    && (b <==> self@[i].seals(identity@, candidate@)),
            r matches Err(e) ==> (
                (e == CoreError::NotFound && (forall|i: int|
                    0 <= i < self@.len() ==> (#[trigger] self@[i]).id@ != id@))
                || (e == CoreError::DecryptionFailed && exists|i: int|
                    0 <= i < self@.len() && (#[trigger] self@[i]).id@ == id@
                        && !self@[i].authentic(identity@))),
    {
        let stored = self.get_credentials(id, identity)?;
        let candidate_string = String::from_str(candidate);
        Ok(stored == candidate_string)
    }
}

/// Round trip: once a secret stands stored for an id — the state
/// `store_credentials` ensures on success — the unique record for that id
/// both authenticates under the same machine identity and seals exactly that
/// secret, so `get_credentials` on the same host is bound by its contract to
/// return `Ok` with the stored secret and nothing else.
pub proof fn lemma_round_trip(
    v: AuthStorage,
    identity: Seq<u8>,
    id: Seq<char>,
    secret: Seq<char>,
)
    requires
        v.wf(),
        exists|i: int|
            0 <= i < v@.len() && (#[trigger] v@[i]).id@ == id && v@[i].seals(identity, secret),
    ensures
        exists|i: int|
            0 <= i < v@.len() && (#[trigger] v@[i]).id@ == id && v@[i].authentic(identity),
        forall|i: int|
            0 <= i < v@.len() && (#[trigger] v@[i]).id@ == id ==> v@[i].seals(identity, secret),
{
    let w = choose|i: int|
        0 <= i < v@.len() && (#[trigger] v@[i]).id@ == id && v@[i].seals(identity, secret);
    assert(v@[w].authentic(identity));
    assert forall|i: int| 0 <= i < v@.len() && (#[trigger] v@[i]).id@ == id
        implies v@[i].seals(identity, secret) by {
        if i != w {
            assert(v@[i].id@ != v@[w].id@);
        }
    }
}

/// Upsert uniqueness: a well-formed vault holds exactly one record for an id
/// it stores at all, so after `store("alice", pw1)` then `store("alice",
/// pw2)` exactly one record for `"alice"` remains, and it seals `pw2`.
pub proof fn lemma_upsert_unique(v: AuthStorage, identity: Seq<u8>, id: Seq<char>, pw2: Seq<char>)
    requires
        v.wf(),
        exists|i: int|
            0 <= i < v@.len() && (#[trigger] v@[i]).id@ == id && v@[i].seals(identity, pw2),
    ensures
        count_id(v@, id) == 1,
        forall|i: int|
            0 <= i < v@.len() && (#[trigger] v@[i]).id@ == id ==> v@[i].seals(identity, pw2),
{
    lemma_round_trip(v, identity, id, pw2);
    let w = choose|i: int| 0 <= i < v@.len() && (#[trigger] v@[i]).id@ == id;
    lemma_count_id_unique(v@, id, w);
}

/// In a sequence of records with pairwise-distinct ids, an id that occurs at
/// some index occurs exactly once.
proof fn lemma_count_id_unique(records: Seq<CredentialRecord>, id: Seq<char>, w: int)
    requires
        forall|i: int, j: int|
            0 <= i < j < records.len()
                ==> (#[trigger] records[i]).id@ != (#[trigger] records[j]).id@,
        0 <= w < records.len(),
        records[w].id@ == id,
    ensures
        count_id(records, id) == 1,
    decreases records.len(),
{
    if w == records.len() - 1 {
        lemma_count_id_absent(records.drop_last(), id);
    } else {
        assert(records.last().id@ != records[w].id@);
        lemma_count_id_unique(records.drop_last(), id, w);
    }
}

/// In a sequence of records none of which carries the id, the id occurs zero
/// times.
proof fn lemma_count_id_absent(records: Seq<CredentialRecord>, id: Seq<char>)
    requires
        forall|i: int| 0 <= i < records.len() ==> (#[trigger] records[i]).id@ != id,
    ensures
        count_id(records, id) == 0,
    decreases records.len(),
{
    if records.len() > 0 {
        lemma_count_id_absent(records.drop_last(), id);
    }
}

/// Cross-machine isolation: a record sealed under one machine identity
/// authenticates under a different identity only if its single ciphertext is
/// simultaneously a genuine encryption under both derived keys — the
/// collision event the AEAD tag check is there to rule out. In every other
/// case the record is not authentic under the second identity, and
/// `get_credentials` is bound by its contract to fail with
/// `DecryptionFailed`.
pub proof fn lemma_cross_machine_isolation(
    rec: CredentialRecord,
    writer_identity: Seq<u8>,
    reader_identity: Seq<u8>,
    secret: Seq<char>,
)
    requires
        rec.seals(writer_identity, secret),
        rec.authentic(reader_identity),
    ensures
        exists|other: Seq<char>|
            cipher_of(derived_key_of(reader_identity, rec.salt@), rec.nonce@, other)
                == cipher_of(derived_key_of(writer_identity, rec.salt@), rec.nonce@, secret),
{
    let other = choose|pt: Seq<char>| rec.seals(reader_identity, pt);
    assert(cipher_of(derived_key_of(reader_identity, rec.salt@), rec.nonce@, other)
        == rec.encrypted_data@);
}

} // verus!
