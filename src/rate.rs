//! Input rate validation and the block size used to bring a stream to the
//! meter's native rate.

use vstd::prelude::*;

verus! {

/// The rate that the K-weighting coefficients are tuned for, in Hz.
pub const TARGET_RATE: u32 = 48000;

/// Samples in 100 ms at the native rate: the length of one resampled block.
pub const BLOCK_LEN: usize = 4800;

/// Why a session cannot be started at a given input rate.
#[derive(Debug, Clone, Copy, PartialEq, Eq, Structural)]
pub enum RateError {
    /// The rate is above the native rate; the meter does not downsample.
    TooHigh,
    /// The rate is under 10 Hz, so that 100 ms of input holds no sample.
    TooLow,
}

/// How the input stream is brought to the native rate.
#[derive(Debug, Clone, Copy, PartialEq, Eq, Structural)]
pub enum Resampling {
    /// The input already runs at the native rate: each sample goes on as it is.
    PassThrough,
    /// The input is gathered into blocks of `len` samples (100 ms of input,
    /// rounded down), each of which becomes one block of `BLOCK_LEN` samples.
    Blocks { len: usize },
}

/// Samples in 100 ms of input at `rate`, rounded down.
pub open spec fn block_len_for(rate: u32) -> nat {
    (rate / 10) as nat
}

/// The resampling that a session at `rate` uses, or why it cannot start.
pub open spec fn resampling_for(rate: u32) -> Result<Resampling, RateError> {
    if rate > TARGET_RATE {
        Err(RateError::TooHigh)
    } else if rate == TARGET_RATE {
        Ok(Resampling::PassThrough)
    } else if rate < 10 {
        Err(RateError::TooLow)
    } else {
        Ok(Resampling::Blocks { len: block_len_for(rate) as usize })
    }
}

impl Resampling {
    /// A block length that the spectral expansion can take.
    pub open spec fn wf(self) -> bool {
        match self {
            Resampling::PassThrough => true,
            Resampling::Blocks { len } => 1 <= len < BLOCK_LEN,
        }
    }
}

/// Validates an input rate and chooses how it is brought to the native rate.
pub fn resampling(rate: u32) -> (r: Result<Resampling, RateError>)
    ensures
        r == resampling_for(rate),
        r matches Ok(m) ==> m.wf(),
{
    if rate > TARGET_RATE {
        Err(RateError::TooHigh)
    } else if rate == TARGET_RATE {
        Ok(Resampling::PassThrough)
    } else if rate < 10 {
        Err(RateError::TooLow)
    } else {
        Ok(Resampling::Blocks { len: (rate / 10) as usize })
    }
}

} // verus!
