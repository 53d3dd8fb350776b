//! Library-wide defaults.
use vstd::prelude::*;

verus! {

/// Default audio sample rate
pub const DEFAULT_AUDIO_SAMPLING_RATE: u32 = 44100;

/// gif max frames
pub const GIF_MAX_FRAMES: u64 = 300;

} // verus!
