//! CMAC-AES: the one-shot generate and verify calls, and the lifecycle of an
//! incremental CMAC handle, which finalizing consumes.
use vstd::prelude::*;
use crate::status::{BUFFER_E, NATIVE_LEN_MAX, len_result, native_len, status_result, verify_result};

verus! {

/// The lengths handed to a one-shot native CMAC call.
#[derive(Clone, Copy, Debug, PartialEq, Eq, Structural)]
pub struct CmacSizes {
    pub key: u32,
    pub data: u32,
    pub tag: u32,
}

/// What a one-shot generate or verify decides for a key, a message and a tag
/// of the given lengths: all three are handed over as 32-bit words, or the
/// call is refused with the length-mismatch error.
pub open spec fn one_shot_check(key_len: usize, data_len: usize, tag_len: usize) -> Result<
    CmacSizes,
    i32,
> {
    if key_len <= NATIVE_LEN_MAX && data_len <= NATIVE_LEN_MAX && tag_len <= NATIVE_LEN_MAX {
        Ok(CmacSizes { key: key_len as u32, data: data_len as u32, tag: tag_len as u32 })
    } else {
        Err(BUFFER_E)
    }
}

/// Decides the lengths of a one-shot generate (`tag` is the output buffer)
/// or verify (`tag` is the tag to check).
pub fn one_shot_sizes(key: &[u8], data: &[u8], tag: &[u8]) -> (r: Result<CmacSizes, i32>)
    ensures
        r == one_shot_check(key@.len() as usize, data@.len() as usize, tag@.len() as usize),
{
    let key_len = native_len(key.len())?;
    let data_len = native_len(data.len())?;
    let tag_len = native_len(tag.len())?;
    Ok(CmacSizes { key: key_len, data: data_len, tag: tag_len })
}

/// Where an incremental CMAC handle stands. `Finalized` is terminal: the
/// handle's owner gives it up once the tag is written.
#[derive(Clone, Copy, Debug, PartialEq, Eq, Structural)]
pub enum CmacPhase {
    Initialized,
    Updated,
    Finalized,
}

/// The abstract state of an incremental CMAC handle.
pub struct CmacModel {
    pub phase: CmacPhase,
    /// The key the handle was initialised with.
    pub key: Seq<u8>,
    /// The message fed so far; once finalized, the message the tag is of.
    pub pending: Seq<u8>,
}

impl CmacModel {
    /// A handle freshly initialised with `key`.
    pub open spec fn started(key: Seq<u8>) -> CmacModel {
        CmacModel { phase: CmacPhase::Initialized, key, pending: Seq::empty() }
    }

    /// The handle after `data` has been fed to it.
    pub open spec fn fed(self, data: Seq<u8>) -> CmacModel {
        CmacModel { phase: CmacPhase::Updated, pending: self.pending + data, ..self }
    }

    /// The handle after the tag was written.
    pub open spec fn finished(self) -> CmacModel {
        CmacModel { phase: CmacPhase::Finalized, ..self }
    }
}

/// The decision state of one incremental CMAC handle.
pub struct CmacSession {
    phase: CmacPhase,
    key: Ghost<Seq<u8>>,
    pending: Ghost<Seq<u8>>,
}

impl View for CmacSession {
    type V = CmacModel;

    closed spec fn view(&self) -> CmacModel {
        CmacModel { phase: self.phase, key: self.key@, pending: self.pending@ }
    }
}

impl CmacSession {
    /// Takes the status of the native initialisation of a handle with `key`.
    pub fn start(key: &[u8], rc: i32) -> (r: Result<CmacSession, i32>)
        ensures
            rc == 0 <==> r is Ok,
            rc != 0 ==> r == Err::<CmacSession, i32>(rc),
            r matches Ok(s) ==> s@ == CmacModel::started(key@),
    {
        if rc != 0 {
            return Err(rc);
        }
        Ok(CmacSession { phase: CmacPhase::Initialized, key: Ghost(key@), pending: Ghost(Seq::empty()) })
    }

    /// Where this handle stands.
    pub fn phase(&self) -> (r: CmacPhase)
        ensures
            r == self@.phase,
    {
        self.phase
    }

    /// Decides whether `data` may be fed to the native state, and with which
    /// length.
    pub fn prepare_update(&self, data: &[u8]) -> (r: Result<u32, i32>)
        ensures
            r == len_result(data@.len() as usize),
    {
        native_len(data.len())
    }

    /// Takes the status of the native update that was fed `data`.
    pub fn complete_update(&mut self, data: &[u8], rc: i32) -> (r: Result<(), i32>)
        ensures
            r == status_result(rc),
            rc == 0 ==> final(self)@ == old(self)@.fed(data@),
            rc != 0 ==> final(self)@ == old(self)@,
    {
        if rc != 0 {
            return Err(rc);
        }
        self.phase = CmacPhase::Updated;
        self.pending = Ghost(self.pending@ + data@);
        Ok(())
    }

    /// Decides the length of the output buffer handed to the native
    /// finalization, which itself checks it against the tag sizes it allows.
    pub fn prepare_finalize(&self, dout: &[u8]) -> (r: Result<u32, i32>)
        ensures
            r == len_result(dout@.len() as usize),
    {
        native_len(dout.len())
    }

    /// Takes the status of the native finalization.
    pub fn complete_finalize(&mut self, rc: i32) -> (r: Result<(), i32>)
        ensures
            r == status_result(rc),
            rc == 0 ==> final(self)@ == old(self)@.finished(),
            rc != 0 ==> final(self)@ == old(self)@,
    {
        if rc != 0 {
            return Err(rc);
        }
        self.phase = CmacPhase::Finalized;
        Ok(())
    }
}

/// Feeding `a` and then `b` leaves a handle exactly as feeding `a + b` in one
/// update does.
pub proof fn split_update_matches_whole(m: CmacModel, a: Seq<u8>, b: Seq<u8>)
    ensures
        m.fed(a).fed(b) == m.fed(a + b),
{
    assert(m.pending + a + b =~= m.pending + (a + b));
}

/// After a generate that succeeded, a verification that the native library
/// completed gives a verdict and never an error: valid when the tag matched,
/// invalid (a mismatch such as a flipped bit) otherwise. Only a negative
/// status is an error.
pub proof fn completed_verification_is_a_verdict(generate_rc: i32, verify_rc: i32)
    requires
        generate_rc == 0,
    ensures
        status_result(generate_rc) == Ok::<(), i32>(()),
        verify_rc == 0 ==> verify_result(verify_rc) == Ok::<bool, i32>(true),
        verify_rc > 0 ==> verify_result(verify_rc) == Ok::<bool, i32>(false),
        verify_rc < 0 ==> verify_result(verify_rc) == Err::<bool, i32>(verify_rc),
{
}

} // verus!
