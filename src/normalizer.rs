//! Gathering of input samples into the blocks that are brought to the
//! native rate, or their pass-through when the input is already there.

use vstd::prelude::*;
use crate::rate::{resampling, resampling_for, RateError, Resampling, TARGET_RATE};

verus! {

/// What one input sample gives.
#[derive(Debug)]
pub enum Intake<T> {
    /// The input runs at the native rate: the sample itself, to be filtered now.
    Forward(T),
    /// The sample was stored; the current block is not full yet.
    Buffered,
    /// The sample completed a block: all of its samples, oldest first.
    /// The spectrum of this block is to be expanded to the native rate.
    Block(Vec<T>),
}

/// At the native rate a normalizer starts in pass-through mode, in which
/// `accept` gives each sample back unchanged, at once, and stores nothing.
pub proof fn lemma_native_rate_passes_through()
    ensures
        resampling_for(TARGET_RATE) == Ok::<Resampling, RateError>(Resampling::PassThrough),
{
}

/// The front end of a session: passes samples through, or gathers them into
/// 100 ms blocks of input.
pub struct RateNormalizer<T> {
    mode: Resampling,
    block: Vec<T>,
}

impl<T> RateNormalizer<T> {
    pub closed spec fn mode_spec(&self) -> Resampling {
        self.mode
    }

    /// The samples of the current, incomplete block, oldest first.
    pub closed spec fn pending_spec(&self) -> Seq<T> {
        self.block@
    }

    pub closed spec fn wf(&self) -> bool {
        &&& self.mode.wf()
        &&& match self.mode {
            Resampling::PassThrough => self.block@.len() == 0,
            Resampling::Blocks { len } => self.block@.len() < len,
        }
    }

    /// A normalizer for input at `rate`, with no sample stored; `Err` exactly
    /// when `rate` cannot start a session.
    pub fn new(rate: u32) -> (r: Result<RateNormalizer<T>, RateError>)
        ensures
            match (r, resampling_for(rate)) {
                (Ok(n), Ok(m)) => n.wf() && n.mode_spec() == m && n.pending_spec().len() == 0,
                (Err(e), Err(f)) => e == f,
                _ => false,
            },
    {
        match resampling(rate) {
            Ok(mode) => Ok(RateNormalizer { mode, block: Vec::new() }),
            Err(e) => Err(e),
        }
    }

    /// How the input is brought to the native rate.
    pub fn mode(&self) -> (r: Resampling)
        ensures
            r == self.mode_spec(),
    {
        self.mode
    }

    /// Number of samples stored towards the current block.
    pub fn pending(&self) -> (r: usize)
        ensures
            r == self.pending_spec().len(),
    {
        self.block.len()
    }

    /// Takes one input sample. At the native rate it comes straight back, with
    /// nothing stored. Otherwise it is stored, and the block is handed out,
    /// and the store emptied, when it reaches its length; a partial block is
    /// never handed out.
    pub fn accept(&mut self, x: T) -> (r: Intake<T>)
        requires
            old(self).wf(),
        ensures
            final(self).wf(),
            final(self).mode_spec() == old(self).mode_spec(),
            match old(self).mode_spec() {
                Resampling::PassThrough => r == Intake::Forward(x) && final(self).pending_spec()
                    == old(self).pending_spec(),
                Resampling::Blocks { len } => {
                    let filled = old(self).pending_spec().push(x);
                    if filled.len() == len {
                        &&& r matches Intake::Block(b) && b@ == filled
                        &&& final(self).pending_spec().len() == 0
                    } else {
                        &&& r is Buffered
                        &&& final(self).pending_spec() == filled
                    }
                },
            },
    {
        match self.mode {
            Resampling::PassThrough => Intake::Forward(x),
            Resampling::Blocks { len } => {
                self.block.push(x);
                if self.block.len() == len {
                    let mut full: Vec<T> = Vec::with_capacity(len);
                    std::mem::swap(&mut full, &mut self.block);
                    Intake::Block(full)
                } else {
                    Intake::Buffered
                }
            },
        }
    }
}

} // verus!
