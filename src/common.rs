//! Identifiers shared across the engine: MIDI notes, the sources and
//! destinations of modulation, and the flat numbering of a voice's modulation slots.

use vstd::prelude::*;

use crate::config::{N_ENV, N_LFO, N_OSC};

verus! {

/// A MIDI note number.
pub type MidiNote = u8;

/// Where an oscillator's output goes inside its voice.
#[derive(Debug, Clone, Copy, PartialEq, Eq, Structural, Hash)]
pub enum OscTarget {
    Filter1,
    Filter2,
    Filter1_2,
    Effects,
    DirectOut,
}

/// A signal that a modulation route reads from a voice's data table.
#[derive(Debug, Clone, Copy, PartialEq, Eq, Structural, Hash)]
pub enum ModMatrixSrc {
    Velocity,
    Env(usize),
    Lfo(usize),
    Gate,
    Macro1,
    Macro2,
    Macro3,
    Macro4,
    ModWheel,
    PitchWheel,
}

impl ModMatrixSrc {
    /// The source exists on a voice: envelope and LFO indices are in range.
    pub open spec fn valid(self) -> bool {
        match self {
            ModMatrixSrc::Env(i) => i < N_ENV,
            ModMatrixSrc::Lfo(i) => i < N_LFO,
            _ => true,
        }
    }

    pub fn is_valid(&self) -> (r: bool)
        ensures
            r == self.valid(),
    {
        match self {
            ModMatrixSrc::Env(i) => *i < N_ENV,
            ModMatrixSrc::Lfo(i) => *i < N_LFO,
            _ => true,
        }
    }
}

/// A modulatable parameter of an oscillator.
#[derive(Debug, Clone, Copy, PartialEq, Eq, Structural, Hash)]
pub enum OscParam {
    Level,
    Tune,
}

/// A modulatable parameter of an envelope.
#[derive(Debug, Clone, Copy, PartialEq, Eq, Structural, Hash)]
pub enum EnvParam {
    Atk,
    Dcy,
    Sus,
    Rel,
}

/// A modulatable parameter of an LFO.
#[derive(Debug, Clone, Copy, PartialEq, Eq, Structural, Hash)]
pub enum LfoParam {
    Speed,
}

/// One of the two low-pass filters of a voice.
#[derive(Debug, Clone, Copy, PartialEq, Eq, Structural, Hash)]
pub enum LowPass {
    LP1,
    LP2,
}

/// A modulatable parameter of a low-pass filter.
#[derive(Debug, Clone, Copy, PartialEq, Eq, Structural, Hash)]
pub enum LowPassParam {
    Cutoff,
    Res,
    Mix,
}

/// A parameter of a voice that a modulation route or a controller writes.
#[derive(Debug, Clone, Copy, PartialEq, Eq, Structural, Hash)]
pub enum ModMatrixDest {
    /// Reserved: modulating the amount of another route. Never routable.
    ModMatrixEntryModAmt(usize),
    Osc { osc: usize, param: OscParam },
    Env { env: usize, param: EnvParam },
    Lfo { lfo: usize, param: LfoParam },
    LowPass { low_pass: LowPass, param: LowPassParam },
    SynthVolume,
}

/// Number of distinct parameters of a voice that modulation can address.
pub const N_MOD_SLOTS: usize = 2 * N_OSC + 4 * N_ENV + N_LFO + 2 * 3 + 1;

pub open spec fn osc_param_index(p: OscParam) -> nat {
    match p {
        OscParam::Level => 0,
        OscParam::Tune => 1,
    }
}

pub open spec fn env_param_index(p: EnvParam) -> nat {
    match p {
        EnvParam::Atk => 0,
        EnvParam::Dcy => 1,
        EnvParam::Sus => 2,
        EnvParam::Rel => 3,
    }
}

pub open spec fn low_pass_index(lp: LowPass) -> nat {
    match lp {
        LowPass::LP1 => 0,
        LowPass::LP2 => 1,
    }
}

pub open spec fn low_pass_param_index(p: LowPassParam) -> nat {
    match p {
        LowPassParam::Cutoff => 0,
        LowPassParam::Res => 1,
        LowPassParam::Mix => 2,
    }
}

impl ModMatrixDest {
    /// The destination names a parameter that exists on a voice.
    pub open spec fn routable(self) -> bool {
        match self {
            ModMatrixDest::ModMatrixEntryModAmt(_) => false,
            ModMatrixDest::Osc { osc, .. } => osc < N_OSC,
            ModMatrixDest::Env { env, .. } => env < N_ENV,
            ModMatrixDest::Lfo { lfo, .. } => lfo < N_LFO,
            ModMatrixDest::LowPass { .. } => true,
            ModMatrixDest::SynthVolume => true,
        }
    }

    /// The position of the parameter in a flat table of a voice's modulation slots:
    /// oscillators first, then envelopes, LFOs, filters and the voice level.
    pub open spec fn slot(self) -> int {
        match self {
            ModMatrixDest::ModMatrixEntryModAmt(_) => 0,
            ModMatrixDest::Osc { osc, param } => 2 * osc + osc_param_index(param),
            ModMatrixDest::Env { env, param } => 2 * N_OSC + 4 * env + env_param_index(param),
            ModMatrixDest::Lfo { lfo, .. } => 2 * N_OSC + 4 * N_ENV + lfo,
            ModMatrixDest::LowPass { low_pass, param } => 2 * N_OSC + 4 * N_ENV + N_LFO + 3
                * low_pass_index(low_pass) + low_pass_param_index(param),
            ModMatrixDest::SynthVolume => N_MOD_SLOTS - 1,
        }
    }

    pub fn is_routable(&self) -> (r: bool)
        ensures
            r == self.routable(),
    {
        match self {
            ModMatrixDest::ModMatrixEntryModAmt(_) => false,
            ModMatrixDest::Osc { osc, .. } => *osc < N_OSC,
            ModMatrixDest::Env { env, .. } => *env < N_ENV,
            ModMatrixDest::Lfo { lfo, .. } => *lfo < N_LFO,
            ModMatrixDest::LowPass { .. } => true,
            ModMatrixDest::SynthVolume => true,
        }
    }

    pub fn slot_index(&self) -> (r: usize)
        requires
            self.routable(),
        ensures
            r == self.slot(),
            r < N_MOD_SLOTS,
    {
        match self {
            ModMatrixDest::ModMatrixEntryModAmt(_) => 0,
            ModMatrixDest::Osc { osc, param } => {
                let p: usize = match param {
                    OscParam::Level => 0,
                    OscParam::Tune => 1,
                };
                2 * *osc + p
            },
            ModMatrixDest::Env { env, param } => {
                let p: usize = match param {
                    EnvParam::Atk => 0,
                    EnvParam::Dcy => 1,
                    EnvParam::Sus => 2,
                    EnvParam::Rel => 3,
                };
                2 * N_OSC + 4 * *env + p
            },
            ModMatrixDest::Lfo { lfo, .. } => 2 * N_OSC + 4 * N_ENV + *lfo,
            ModMatrixDest::LowPass { low_pass, param } => {
                let l: usize = match low_pass {
                    LowPass::LP1 => 0,
                    LowPass::LP2 => 1,
                };
                let p: usize = match param {
                    LowPassParam::Cutoff => 0,
                    LowPassParam::Res => 1,
                    LowPassParam::Mix => 2,
                };
                2 * N_OSC + 4 * N_ENV + N_LFO + 3 * l + p
            },
            ModMatrixDest::SynthVolume => N_MOD_SLOTS - 1,
        }
    }
}

/// Distinct routable destinations occupy distinct slots, so a write to one
/// destination's slot never touches another's.
pub proof fn lemma_slot_injective(a: ModMatrixDest, b: ModMatrixDest)
    requires
        a.routable(),
        b.routable(),
        a.slot() == b.slot(),
    ensures
        a == b,
{
}

} // verus!
