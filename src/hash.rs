//! The lifecycle of a fixed-digest hash handle.
//!
//! The handle's owner makes each native call; a `HashSession` is consulted
//! before the call (may it be made, with which sizes) and told its status
//! afterwards. Its view records what the native state has been fed since it
//! was last initialised, and which message the last completed digest was of.
use vstd::prelude::*;
use crate::algorithm::HashAlgorithm;
use crate::status::{BUFFER_E, len_result, native_len, status_result};

verus! {

/// Where a hash handle stands: initialised (or re-initialised), fed at least
/// once since, or just finalized.
#[derive(Clone, Copy, Debug, PartialEq, Eq, Structural)]
pub enum HashPhase {
    Initialized,
    Updated,
    Finalized,
}

/// The abstract state of a hash handle.
pub struct HashModel {
    pub alg: HashAlgorithm,
    pub phase: HashPhase,
    /// Bytes fed to the native state since it was last initialised or
    /// finalized.
    pub pending: Seq<u8>,
    /// The message whose digest the last successful finalize wrote.
    pub digested: Option<Seq<u8>>,
}

impl HashModel {
    /// A freshly initialised handle.
    pub open spec fn started(alg: HashAlgorithm, digested: Option<Seq<u8>>) -> HashModel {
        HashModel { alg, phase: HashPhase::Initialized, pending: Seq::empty(), digested }
    }

    /// The handle after `data` has been fed to it.
    pub open spec fn fed(self, data: Seq<u8>) -> HashModel {
        HashModel { phase: HashPhase::Updated, pending: self.pending + data, ..self }
    }

    /// The handle after a digest was written. The native state resets
    /// itself on finalization, so the next message starts empty.
    pub open spec fn finished(self) -> HashModel {
        HashModel {
            phase: HashPhase::Finalized,
            pending: Seq::empty(),
            digested: Some(self.pending),
            ..self
        }
    }
}

/// What `finalize` decides for an output buffer of `len` bytes: only a
/// buffer of exactly the digest size is accepted.
pub open spec fn finalize_check(alg: HashAlgorithm, len: usize) -> Result<(), i32> {
    if len == alg.digest_size() {
        Ok(())
    } else {
        Err(BUFFER_E)
    }
}

/// The decision state of one hash handle.
pub struct HashSession {
    alg: HashAlgorithm,
    phase: HashPhase,
    pending: Ghost<Seq<u8>>,
    digested: Ghost<Option<Seq<u8>>>,
}

impl View for HashSession {
    type V = HashModel;

    closed spec fn view(&self) -> HashModel {
        HashModel {
            alg: self.alg,
            phase: self.phase,
            pending: self.pending@,
            digested: self.digested@,
        }
    }
}

impl HashSession {
    /// Takes the status of the native initialisation of a new handle: the
    /// session when it succeeded, the status as the error otherwise.
    pub fn start(alg: HashAlgorithm, rc: i32) -> (r: Result<HashSession, i32>)
        ensures
            rc == 0 <==> r is Ok,
            rc != 0 ==> r == Err::<HashSession, i32>(rc),
            r matches Ok(s) ==> s@ == HashModel::started(alg, None),
    {
        if rc != 0 {
            return Err(rc);
        }
        Ok(HashSession {
            alg,
            phase: HashPhase::Initialized,
            pending: Ghost(Seq::empty()),
            digested: Ghost(None),
        })
    }

    /// The algorithm this handle computes.
    pub fn algorithm(&self) -> (r: HashAlgorithm)
        ensures
            r == self@.alg,
    {
        self.alg
    }

    /// Where this handle stands.
    pub fn phase(&self) -> (r: HashPhase)
        ensures
            r == self@.phase,
    {
        self.phase
    }

    /// Takes the status of a native re-initialisation: on success the handle
    /// starts a new message; on failure it is left as it was.
    pub fn restart(&mut self, rc: i32) -> (r: Result<(), i32>)
        ensures
            r == status_result(rc),
            rc == 0 ==> final(self)@ == HashModel::started(old(self)@.alg, old(self)@.digested),
            rc != 0 ==> final(self)@ == old(self)@,
    {
        if rc != 0 {
            return Err(rc);
        }
        self.phase = HashPhase::Initialized;
        self.pending = Ghost(Seq::empty());
        Ok(())
    }

    /// Decides whether `data` may be fed to the native state, and with which
    /// length.
    pub fn prepare_update(&self, data: &[u8]) -> (r: Result<u32, i32>)
        ensures
            r == len_result(data@.len() as usize),
    {
        native_len(data.len())
    }

    /// Takes the status of the native update that was fed `data`.
    pub fn complete_update(&mut self, data: &[u8], rc: i32) -> (r: Result<(), i32>)
        ensures
            r == status_result(rc),
            rc == 0 ==> final(self)@ == old(self)@.fed(data@),
            rc != 0 ==> final(self)@ == old(self)@,
    {
        if rc != 0 {
            return Err(rc);
        }
        self.phase = HashPhase::Updated;
        self.pending = Ghost(self.pending@ + data@);
        Ok(())
    }

    /// Decides whether the digest may be written to `hash`. A buffer of any
    /// length but the digest size is refused with the length-mismatch error,
    /// before any native call; the buffer is only read here.
    pub fn prepare_finalize(&self, hash: &[u8]) -> (r: Result<(), i32>)
        ensures
            r == finalize_check(self@.alg, hash@.len() as usize),
            hash@.len() != self@.alg.digest_size() ==> r == Err::<(), i32>(BUFFER_E),
    {
        if hash.len() == self.alg.digest_size() {
            Ok(())
        } else {
            Err(BUFFER_E)
        }
    }

    /// Takes the status of the native finalization.
    pub fn complete_finalize(&mut self, rc: i32) -> (r: Result<(), i32>)
        ensures
            r == status_result(rc),
            rc == 0 ==> final(self)@ == old(self)@.finished(),
            rc != 0 ==> final(self)@ == old(self)@,
    {
        if rc != 0 {
            return Err(rc);
        }
        self.phase = HashPhase::Finalized;
        self.digested = Ghost(Some(self.pending@));
        self.pending = Ghost(Seq::empty());
        Ok(())
    }
}

/// A handle that is finalized right after it was initialised, with nothing
/// fed, writes the digest of the empty message, into a buffer of exactly the
/// digest size.
pub proof fn fresh_handle_digests_empty_message(alg: HashAlgorithm, earlier: Option<Seq<u8>>)
    ensures
        HashModel::started(alg, earlier).finished().digested == Some(Seq::<u8>::empty()),
        finalize_check(alg, alg.digest_size()) == Ok::<(), i32>(()),
{
}

/// Feeding `a` and then `b` leaves a handle exactly as feeding `a + b` in one
/// update does, so the digest that follows is of the same message.
pub proof fn split_update_matches_whole(m: HashModel, a: Seq<u8>, b: Seq<u8>)
    ensures
        m.fed(a).fed(b) == m.fed(a + b),
        m.fed(a).fed(b).finished().digested == Some(m.pending + a + b),
{
    assert(m.pending + a + b =~= m.pending + (a + b));
}

/// Every output buffer whose length is not the digest size is refused with
/// the length-mismatch error, for every algorithm.
pub proof fn wrong_length_is_refused(alg: HashAlgorithm, len: usize)
    requires
        len != alg.digest_size(),
    ensures
        finalize_check(alg, len) == Err::<(), i32>(BUFFER_E),
{
}

} // verus!
