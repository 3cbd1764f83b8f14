//! The lifecycle of an extendable-output (SHAKE) handle.
//!
//! Such a handle is used in one of two ways: fed with `update` and finished
//! with one `finalize` of any length, or given its whole input with `absorb`
//! and then squeezed a block at a time, as often as needed.
use vstd::prelude::*;
use crate::algorithm::XofAlgorithm;
use crate::status::{BUFFER_E, NATIVE_LEN_MAX, len_result, native_len, status_result};

verus! {

/// Where an XOF handle stands.
#[derive(Clone, Copy, Debug, PartialEq, Eq, Structural)]
pub enum XofPhase {
    Initialized,
    Updated,
    Finalized,
    Absorbed,
}

/// The abstract state of an XOF handle.
pub struct XofModel {
    pub alg: XofAlgorithm,
    pub phase: XofPhase,
    /// Bytes fed with `update` since the state was last initialised or
    /// finalized.
    pub pending: Seq<u8>,
    /// The message whose output the last successful finalize wrote.
    pub digested: Option<Seq<u8>>,
    /// The message taken in by the last successful absorb, if squeezing may
    /// follow.
    pub sponge: Option<Seq<u8>>,
    /// How many blocks have been squeezed out since that absorb.
    pub squeezed: nat,
}

impl XofModel {
    /// A freshly initialised handle.
    pub open spec fn started(alg: XofAlgorithm, digested: Option<Seq<u8>>) -> XofModel {
        XofModel {
            alg,
            phase: XofPhase::Initialized,
            pending: Seq::empty(),
            digested,
            sponge: None,
            squeezed: 0,
        }
    }

    /// The handle after `data` has been fed to it.
    pub open spec fn fed(self, data: Seq<u8>) -> XofModel {
        XofModel { phase: XofPhase::Updated, pending: self.pending + data, ..self }
    }

    /// The handle after its output was written. The native state resets
    /// itself on finalization.
    pub open spec fn finished(self) -> XofModel {
        XofModel {
            phase: XofPhase::Finalized,
            pending: Seq::empty(),
            digested: Some(self.pending),
            sponge: None,
            squeezed: 0,
            ..self
        }
    }

    /// The handle after `data` was absorbed: the sponge takes what was fed
    /// before together with `data`, and squeezing starts at the first block.
    pub open spec fn absorbed(self, data: Seq<u8>) -> XofModel {
        XofModel {
            phase: XofPhase::Absorbed,
            pending: Seq::empty(),
            sponge: Some(self.pending + data),
            squeezed: 0,
            ..self
        }
    }

    /// The handle after `n` more blocks were squeezed out.
    pub open spec fn squeezed_by(self, n: nat) -> XofModel {
        XofModel { squeezed: self.squeezed + n, ..self }
    }

    /// The positions, in the sponge's output stream, of the blocks that a
    /// squeeze of `n` blocks writes, in the order they are written.
    pub open spec fn written(self, n: nat) -> Seq<nat> {
        Seq::new(n, |i: int| (self.squeezed + i) as nat)
    }
}

/// What `squeeze_blocks` decides for an output buffer of `len` bytes: the
/// number of whole blocks to squeeze, or the length-mismatch error when the
/// length is not a multiple of the block size or does not fit the native
/// interface.
pub open spec fn squeeze_check(alg: XofAlgorithm, len: usize) -> Result<u32, i32> {
    if len > NATIVE_LEN_MAX || len % alg.block_size() != 0 {
        Err(BUFFER_E)
    } else {
        Ok((len / alg.block_size()) as u32)
    }
}

/// The decision state of one XOF handle.
pub struct XofSession {
    alg: XofAlgorithm,
    phase: XofPhase,
    pending: Ghost<Seq<u8>>,
    digested: Ghost<Option<Seq<u8>>>,
    sponge: Ghost<Option<Seq<u8>>>,
    squeezed: Ghost<nat>,
}

impl View for XofSession {
    type V = XofModel;

    closed spec fn view(&self) -> XofModel {
        XofModel {
            alg: self.alg,
            phase: self.phase,
            pending: self.pending@,
            digested: self.digested@,
            sponge: self.sponge@,
            squeezed: self.squeezed@,
        }
    }
}

impl XofSession {
    /// Takes the status of the native initialisation of a new handle.
    pub fn start(alg: XofAlgorithm, rc: i32) -> (r: Result<XofSession, i32>)
        ensures
            rc == 0 <==> r is Ok,
            rc != 0 ==> r == Err::<XofSession, i32>(rc),
            r matches Ok(s) ==> s@ == XofModel::started(alg, None),
    {
        if rc != 0 {
            return Err(rc);
        }
        Ok(XofSession {
            alg,
            phase: XofPhase::Initialized,
            pending: Ghost(Seq::empty()),
            digested: Ghost(None),
            sponge: Ghost(None),
            squeezed: Ghost(0),
        })
    }

    /// The algorithm this handle computes.
    pub fn algorithm(&self) -> (r: XofAlgorithm)
        ensures
            r == self@.alg,
    {
        self.alg
    }

    /// Where this handle stands.
    pub fn phase(&self) -> (r: XofPhase)
        ensures
            r == self@.phase,
    {
        self.phase
    }

    /// Takes the status of a native re-initialisation.
    pub fn restart(&mut self, rc: i32) -> (r: Result<(), i32>)
        ensures
            r == status_result(rc),
            rc == 0 ==> final(self)@ == XofModel::started(old(self)@.alg, old(self)@.digested),
            rc != 0 ==> final(self)@ == old(self)@,
    {
        if rc != 0 {
            return Err(rc);
        }
        self.phase = XofPhase::Initialized;
        self.pending = Ghost(Seq::empty());
        self.sponge = Ghost(None);
        self.squeezed = Ghost(0);
        Ok(())
    }

    /// Decides whether `data` may be fed or absorbed, and with which length.
    pub fn prepare_input(&self, data: &[u8]) -> (r: Result<u32, i32>)
        ensures
            r == len_result(data@.len() as usize),
    {
        native_len(data.len())
    }

    /// Takes the status of the native update that was fed `data`.
    pub fn complete_update(&mut self, data: &[u8], rc: i32) -> (r: Result<(), i32>)
        ensures
            r == status_result(rc),
            rc == 0 ==> final(self)@ == old(self)@.fed(data@),
            rc != 0 ==> final(self)@ == old(self)@,
    {
        if rc != 0 {
            return Err(rc);
        }
        self.phase = XofPhase::Updated;
        self.pending = Ghost(self.pending@ + data@);
        Ok(())
    }

    /// Decides whether output of `hash.len()` bytes may be written: any
    /// length that the native interface can take.
    pub fn prepare_finalize(&self, hash: &[u8]) -> (r: Result<u32, i32>)
        ensures
            r == len_result(hash@.len() as usize),
    {
        native_len(hash.len())
    }

    /// Takes the status of the native finalization.
    pub fn complete_finalize(&mut self, rc: i32) -> (r: Result<(), i32>)
        ensures
            r == status_result(rc),
            rc == 0 ==> final(self)@ == old(self)@.finished(),
            rc != 0 ==> final(self)@ == old(self)@,
    {
        if rc != 0 {
            return Err(rc);
        }
        self.phase = XofPhase::Finalized;
        self.digested = Ghost(Some(self.pending@));
        self.pending = Ghost(Seq::empty());
        self.sponge = Ghost(None);
        self.squeezed = Ghost(0);
        Ok(())
    }

    /// Takes the status of the native absorb of `data`.
    pub fn complete_absorb(&mut self, data: &[u8], rc: i32) -> (r: Result<(), i32>)
        ensures
            r == status_result(rc),
            rc == 0 ==> final(self)@ == old(self)@.absorbed(data@),
            rc != 0 ==> final(self)@ == old(self)@,
    {
        if rc != 0 {
            return Err(rc);
        }
        self.phase = XofPhase::Absorbed;
        self.sponge = Ghost(Some(self.pending@ + data@));
        self.pending = Ghost(Seq::empty());
        self.squeezed = Ghost(0);
        Ok(())
    }

    /// Decides how many blocks to squeeze into `dout`: its length must be a
    /// whole number of blocks, else the length-mismatch error comes before
    /// any native call.
    pub fn prepare_squeeze(&self, dout: &[u8]) -> (r: Result<u32, i32>)
        ensures
            r == squeeze_check(self@.alg, dout@.len() as usize),
            r is Ok ==> r->Ok_0 as int * self@.alg.block_size() == dout@.len(),
    {
        let len = dout.len();
        let block = self.alg.block_size();
        if len > NATIVE_LEN_MAX || len % block != 0 {
            return Err(BUFFER_E);
        }
        let n = len / block;
        assert(n * block == len) by (nonlinear_arith)
            requires
                block > 0,
                len % block == 0,
                n == len / block,
        ;
        Ok(n as u32)
    }

    /// Takes the status of the native squeeze of `blocks` blocks.
    pub fn complete_squeeze(&mut self, blocks: u32, rc: i32) -> (r: Result<(), i32>)
        ensures
            r == status_result(rc),
            rc == 0 ==> final(self)@ == old(self)@.squeezed_by(blocks as nat),
            rc != 0 ==> final(self)@ == old(self)@,
    {
        if rc != 0 {
            return Err(rc);
        }
        self.squeezed = Ghost(self.squeezed@ + blocks as nat);
        Ok(())
    }
}

/// A handle that is finalized right after it was initialised, with nothing
/// fed, writes the output for the empty message.
pub proof fn fresh_handle_outputs_empty_message(alg: XofAlgorithm, earlier: Option<Seq<u8>>)
    ensures
        XofModel::started(alg, earlier).finished().digested == Some(Seq::<u8>::empty()),
{
}

/// Feeding `a` and then `b` leaves a handle exactly as feeding `a + b` in one
/// update does; so does feeding `a` and then absorbing `b`, against absorbing
/// `a + b` at once.
pub proof fn split_update_matches_whole(m: XofModel, a: Seq<u8>, b: Seq<u8>)
    ensures
        m.fed(a).fed(b) == m.fed(a + b),
        m.fed(a).absorbed(b).sponge == m.absorbed(a + b).sponge,
{
    assert(m.pending + a + b =~= m.pending + (a + b));
}

/// Squeezing one block twice takes the same blocks of the output stream, in
/// the same order, and leaves the handle in the same state, as squeezing two
/// blocks at once; a buffer of one or of two blocks is accepted as such.
pub proof fn two_single_squeezes_match_one_double(m: XofModel)
    ensures
        squeeze_check(m.alg, m.alg.block_size()) == Ok::<u32, i32>(1),
        squeeze_check(m.alg, (2 * m.alg.block_size()) as usize) == Ok::<u32, i32>(2),
        m.squeezed_by(1).squeezed_by(1) == m.squeezed_by(2),
        m.written(1) + m.squeezed_by(1).written(1) == m.written(2),
{
    assert(m.written(1) + m.squeezed_by(1).written(1) =~= m.written(2));
}

} // verus!
