//! The decision logic of a polyphonic wavetable synthesizer engine: the voice
//! pool and each voice's lifecycle, the modulation matrix and how its routes
//! resolve onto a voice's parameters, the envelope's phase machine, MIDI event
//! dispatch, and the positions of the chorus's delay buffer. The sample
//! arithmetic that these decisions drive is carried out by the caller.

pub mod common;
pub mod config;
pub mod effects;
pub mod engine;
pub mod mod_matrix;
pub mod sequencer;
pub mod voice;
