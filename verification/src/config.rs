//! Audio format constants shared by the oscillator math, the filter math
//! and the chunk pipeline, and the fixed-point scale used throughout.
//!
//! All signal values, levels and coefficients are Q16.16 fixed point: the
//! integer `ONE` stands for the real number 1.0. Oscillator phase is a
//! 32-bit binary angle: the full `u32` range stands for one period, so
//! phase wrap-around is exact modular arithmetic.
use vstd::prelude::*;

verus! {

/// Fixed-point unit: the Q16.16 representation of 1.0.
pub const ONE: i64 = 65536;

/// Samples generated per second.
pub const SAMPLE_RATE: u32 = 41_000;

/// Samples per chunk handed to the streaming sink.
pub const CHUNK_SAMPLES: usize = 256;

/// Interleaved output channels (stereo).
pub const NUM_CHANNEL: usize = 2;

/// One quarter of a period in binary-angle phase units (2^30).
pub const PHASE_QUARTER: u32 = 1073741824;

/// One full period in binary-angle phase units (2^32).
pub const FULL_TURN: u64 = 4294967296;

} // verus!
