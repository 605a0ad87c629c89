//! Loudness measurement engine: the sample-rate bookkeeping, spectral
//! block layout, analysis-window accounting and session control that sit
//! around the K-weighting filter of an ITU-R BS.1770 style meter.
//!
//! The library is generic over the sample type, so every rule about which
//! sample goes where, and when a reading is due, is proved independently of
//! the floating-point arithmetic that the meter performs on the samples.

pub mod rate;
pub mod spectrum;
pub mod normalizer;
pub mod window;
pub mod session;

pub use rate::{block_len_for, resampling, resampling_for, RateError, Resampling, BLOCK_LEN, TARGET_RATE};
pub use spectrum::{expand_spectrum, expanded, zeros};
pub use normalizer::{lemma_native_rate_passes_through, Intake, RateNormalizer};
pub use window::{completes_window, fill_after, latest, lemma_window_step, LoudnessWindow, HOP_LEN, WINDOW_LEN};
pub use session::{lemma_closed_source_stops, phase_after, step, transition, Action, Event, Phase};
