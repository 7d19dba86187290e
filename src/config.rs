//! Capacities and rates fixed for the lifetime of the engine.

use vstd::prelude::*;

verus! {

/// Audio sample rate in Hz, fixed for the lifetime of the process.
pub const SAMPLE_RATE: u32 = 48_000;

/// Number of samples in one cycle of an oscillator wavetable.
pub const OSC_WAVE_TABLE_SIZE: usize = 1024;

/// Number of samples in one cycle of an LFO wavetable.
pub const LFO_WAVE_TABLE_SIZE: usize = 128;

/// Number of voices in the engine's pool.
pub const POLYPHONY: usize = 10;

/// Number of LFOs per voice.
pub const N_LFO: usize = 4;

/// Number of envelopes per voice.
pub const N_ENV: usize = 5;

/// Number of oscillators per voice.
pub const N_OSC: usize = 3;

} // verus!
