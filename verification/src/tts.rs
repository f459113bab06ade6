//! Vocabulary of the text-to-speech seam.
use vstd::prelude::*;

verus! {

/// Raw audio a speech engine produced.
#[derive(Debug, Clone, PartialEq, Eq)]
pub struct AudioClip {
    /// Raw sample bytes, in the engine's encoding.
    pub samples: Vec<u8>,
    /// Sample rate of `samples` in Hz.
    pub sample_rate_hz: u32,
}

/// Why a speech engine could not synthesize an utterance.
#[derive(Debug, Clone, PartialEq, Eq)]
pub enum TtsError {
    /// Synthesis failed or missed its latency budget.
    SynthesisFailed { reason: String },
    /// The engine is not in a usable state.
    Unavailable { reason: String },
}

} // verus!
