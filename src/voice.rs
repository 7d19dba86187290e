//! The envelope's phase machine and the lifecycle of a voice: idle, pressed,
//! released, and freed once its master envelope has decayed.

use vstd::prelude::*;

use crate::common::MidiNote;

verus! {

/// The phase of an ADSR envelope.
#[derive(Debug, Clone, Copy, PartialEq, Eq, Structural, Hash)]
pub enum EnvPhase {
    Unpressed,
    Attack,
    Decay,
    Sustain,
    Release,
}

/// Position of a phase in the order an envelope runs through them.
pub open spec fn phase_rank(p: EnvPhase) -> nat {
    match p {
        EnvPhase::Unpressed => 0,
        EnvPhase::Attack => 1,
        EnvPhase::Decay => 2,
        EnvPhase::Sustain => 3,
        EnvPhase::Release => 4,
    }
}

impl EnvPhase {
    /// The key that drives the envelope is held down.
    pub open spec fn is_pressed(self) -> bool {
        !(self is Unpressed) && !(self is Release)
    }

    pub fn pressed(&self) -> (r: bool)
        ensures
            r == self.is_pressed(),
    {
        match self {
            EnvPhase::Unpressed => false,
            EnvPhase::Release => false,
            _ => true,
        }
    }

    /// The phase after one step of the envelope, given where the stepped level
    /// stands: above the peak of 1, below the sustain level, or at or below 0.
    /// Attack ends above the peak, decay ends below the sustain level, and a
    /// level at the floor puts any other phase into release.
    pub fn next(self, above_peak: bool, below_sustain: bool, at_floor: bool) -> (r: EnvPhase)
        ensures
            self is Attack && above_peak ==> r is Decay,
            self is Decay && below_sustain ==> r is Sustain,
            !(self is Attack && above_peak) && !(self is Decay && below_sustain) ==> r == (if at_floor {
                EnvPhase::Release
            } else {
                self
            }),
            phase_rank(r) >= phase_rank(self),
    {
        match self {
            EnvPhase::Attack if above_peak => EnvPhase::Decay,
            EnvPhase::Decay if below_sustain => EnvPhase::Sustain,
            _ => if at_floor {
                EnvPhase::Release
            } else {
                self
            },
        }
    }
}

/// The note-slot state of one voice: which note it sounds, and whether its master
/// envelope is still held and still audible. The sample arithmetic of the voice
/// stands beside it; this is what decides when the voice is in use.
#[derive(Debug, Clone, Copy, PartialEq, Eq, Structural)]
pub struct VoiceState {
    /// The note this voice was pressed with, until its sound has died away.
    pub playing: Option<MidiNote>,
    /// The velocity of the last press.
    pub velocity: Option<u8>,
    /// The master envelope is pressed.
    pub env_held: bool,
    /// The master envelope's last output was at or below 0.
    pub env_silent: bool,
}

impl VoiceState {
    /// A voice that was never pressed.
    pub open spec fn initial() -> VoiceState {
        VoiceState { playing: None, velocity: None, env_held: false, env_silent: true }
    }

    /// Nothing sounds and nothing will until the next press: the voice can skip
    /// all computation and output silence.
    pub open spec fn idle(self) -> bool {
        self.playing is None && !self.env_held && self.env_silent
    }

    pub open spec fn after_press(self, note: MidiNote, velocity: u8) -> VoiceState {
        VoiceState {
            playing: Some(note),
            velocity: Some(velocity),
            env_held: true,
            env_silent: true,
        }
    }

    pub open spec fn after_release(self) -> VoiceState {
        VoiceState { env_held: false, ..self }
    }

    /// The voice frees itself once its master envelope is let go and has decayed to 0.
    pub open spec fn frees(env_held: bool, env_silent: bool) -> bool {
        !env_held && env_silent
    }

    pub open spec fn after_settle(self, env_held: bool, env_silent: bool) -> VoiceState {
        VoiceState {
            playing: if Self::frees(env_held, env_silent) {
                None
            } else {
                self.playing
            },
            env_held,
            env_silent,
            ..self
        }
    }

    pub fn new() -> (r: VoiceState)
        ensures
            r == VoiceState::initial(),
    {
        VoiceState { playing: None, velocity: None, env_held: false, env_silent: true }
    }

    pub fn is_idle(&self) -> (r: bool)
        ensures
            r == self.idle(),
    {
        self.playing.is_none() && !self.env_held && self.env_silent
    }

    /// Starts `note`: the envelopes restart from 0 in their attack.
    pub fn press(&mut self, note: MidiNote, velocity: u8)
        ensures
            *final(self) == old(self).after_press(note, velocity),
    {
        self.playing = Some(note);
        self.velocity = Some(velocity);
        self.env_held = true;
        self.env_silent = true;
    }

    /// Lets go of the key. The voice keeps its note until the release has faded.
    pub fn release(&mut self)
        ensures
            *final(self) == old(self).after_release(),
    {
        self.env_held = false;
    }

    /// Records the master envelope's state after a step, and frees the voice when
    /// that envelope is let go and silent. Returns whether the voice was freed, in
    /// which case its sample is silence and its modules are reset.
    pub fn settle(&mut self, env_held: bool, env_silent: bool) -> (freed: bool)
        ensures
            *final(self) == old(self).after_settle(env_held, env_silent),
            freed == VoiceState::frees(env_held, env_silent),
    {
        self.env_held = env_held;
        self.env_silent = env_silent;
        let freed = !env_held && env_silent;
        if freed {
            self.playing = None;
        }
        freed
    }
}

/// A voice that was never pressed is idle, whatever the modulation routes say:
/// its state does not depend on them.
pub proof fn lemma_fresh_voice_idle()
    ensures
        VoiceState::initial().idle(),
{
}

/// A pressed and then released voice is freed by the step after which its master
/// envelope is silent: it drops its note and is idle.
pub proof fn lemma_free_on_decay(v: VoiceState, note: MidiNote, velocity: u8)
    ensures
        ({
            let freed = v.after_press(note, velocity).after_release().after_settle(false, true);
            &&& freed.playing is None
            &&& freed.idle()
        }),
{
}

/// A pressed and then released voice keeps its note through a step after which
/// its master envelope is still audible.
pub proof fn lemma_release_keeps_note(v: VoiceState, note: MidiNote, velocity: u8)
    ensures
        v.after_press(note, velocity).after_release().after_settle(false, false).playing == Some(
            note,
        ),
{
}

} // verus!
