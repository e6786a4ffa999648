//! Global constants: task rates, the audio sample rate, and the fixed-point
//! scale that every normalized quantity in the crate uses.
use vstd::prelude::*;

verus! {

/// Period of the control-rate task, in milliseconds.
pub const CONTROL_RATE_IN_MS: u32 = 30;

/// Period of the display task, in milliseconds.
pub const LCD_REFRESH_RATE_IN_MS: u32 = 20;

/// Sample rate of the audio codec, in samples per second.
pub const AUDIO_SAMPLE_RATE: u32 = 48_000;

/// Fixed-point representation of 1.0. A normalized control value, a gain or
/// an audio sample `x` stands for the real number `x / FIXED_ONE`.
pub const FIXED_ONE: i64 = 10_000;

} // verus!
