//! The voice pool: note assignment without stealing, release, the controller
//! routing table, and the dispatch of MIDI events.

use vstd::prelude::*;

use crate::common::{MidiNote, ModMatrixDest};
use crate::voice::VoiceState;

verus! {

/// Number of entries in the controller routing table.
pub const MIDI_TABLE_SIZE: usize = 255;

/// A decoded MIDI event, as the MIDI source delivers it.
#[derive(Debug, Clone, Copy, PartialEq, Eq, Structural)]
pub enum MidiEvent {
    NoteOn { channel: u8, note: MidiNote, velocity: u8 },
    NoteOff { channel: u8, note: MidiNote, velocity: u8 },
    ControlChange { controller: u8, value: u8 },
    /// The two 7-bit data bytes of a pitch-bend message.
    PitchBend { lsb: u8, msb: u8 },
    /// Any event the engine does not act on.
    Other,
}

/// What the engine did with an event, for the caller to carry out on the sound.
#[derive(Debug, Clone, Copy, PartialEq, Eq, Structural)]
pub enum EngineAction {
    /// The voice at this index was pressed with the note.
    Pressed { voice: usize, note: MidiNote, velocity: u8 },
    /// No voice was free: the note was dropped.
    Dropped,
    /// The voice at this index was released.
    Released { voice: usize },
    /// The controller is routed to `dest`; `value` is its new 7-bit position.
    Modulate { dest: ModMatrixDest, value: u8 },
    /// Bend every voice by `amount`, in [-8192, 8191].
    Bend { amount: i16 },
    /// Nothing to do.
    Ignored,
}

/// Why the engine could not be built or edited.
#[derive(Debug, Clone, Copy, PartialEq, Eq, Structural)]
pub enum EngineError {
    ZeroPolyphony,
    ControllerOutOfRange,
    InvalidDestination,
}

/// The signed bend of a 14-bit pitch-bend message: 0 at the centre.
pub open spec fn bend_of(lsb: u8, msb: u8) -> int {
    (msb % 128) as int * 128 + (lsb % 128) as int - 8192
}

/// Decodes the data bytes of a pitch-bend message. Only the low 7 bits of each
/// byte carry data.
pub fn pitch_bend_value(lsb: u8, msb: u8) -> (r: i16)
    ensures
        r as int == bend_of(lsb, msb),
        -8192 <= r <= 8191,
{
    let hi: i16 = (msb % 128) as i16;
    let lo: i16 = (lsb % 128) as i16;
    hi * 128 + lo - 8192
}

/// The first voice that is not playing a note, if any.
pub open spec fn first_free(voices: Seq<VoiceState>, i: int) -> bool {
    &&& 0 <= i < voices.len()
    &&& voices[i].playing is None
    &&& forall|j: int| 0 <= j < i ==> (#[trigger] voices[j]).playing is Some
}

/// The first voice that is playing `note`, if any.
pub open spec fn first_playing(voices: Seq<VoiceState>, note: MidiNote, i: int) -> bool {
    &&& 0 <= i < voices.len()
    &&& voices[i].playing == Some(note)
    &&& forall|j: int| 0 <= j < i ==> (#[trigger] voices[j]).playing != Some(note)
}

/// The fixed pool of voices and the table that routes MIDI controllers to
/// parameters. Notes go to the first free voice; when none is free the note is
/// dropped, never stolen.
pub struct Engine {
    voices: Vec<VoiceState>,
    midi_table: Vec<Option<ModMatrixDest>>,
}

impl Engine {
    pub closed spec fn voices(&self) -> Seq<VoiceState> {
        self.voices@
    }

    pub closed spec fn midi_table(&self) -> Seq<Option<ModMatrixDest>> {
        self.midi_table@
    }

    pub open spec fn wf(&self) -> bool {
        &&& self.voices().len() > 0
        &&& self.midi_table().len() == MIDI_TABLE_SIZE
        &&& forall|c: int|
            0 <= c < MIDI_TABLE_SIZE && (#[trigger] self.midi_table()[c]) is Some
                ==> self.midi_table()[c]->0.routable()
    }

    /// An engine with `polyphony` voices, none pressed, and no controller routed.
    /// A pool without voices is a configuration error.
    pub fn new(polyphony: usize) -> (r: Result<Engine, EngineError>)
        ensures
            polyphony == 0 <==> r == Err::<Engine, EngineError>(EngineError::ZeroPolyphony),
            polyphony > 0 <==> r is Ok,
            r is Ok ==> {
                let e = r->Ok_0;
                &&& e.wf()
                &&& e.voices().len() == polyphony
                &&& forall|i: int|
                    0 <= i < polyphony ==> #[trigger] e.voices()[i] == VoiceState::initial()
                &&& forall|c: int| 0 <= c < MIDI_TABLE_SIZE ==> (#[trigger] e.midi_table()[c]) is None
            },
    {
        if polyphony == 0 {
            return Err(EngineError::ZeroPolyphony);
        }
        let mut voices: Vec<VoiceState> = Vec::new();
        let mut i: usize = 0;
        while i < polyphony
            invariant
                i <= polyphony,
                voices@.len() == i,
                forall|j: int| 0 <= j < i ==> #[trigger] voices@[j] == VoiceState::initial(),
            decreases polyphony - i,
        {
            voices.push(VoiceState::new());
            i += 1;
        }
        let mut midi_table: Vec<Option<ModMatrixDest>> = Vec::new();
        let mut c: usize = 0;
        while c < MIDI_TABLE_SIZE
            invariant
                c <= MIDI_TABLE_SIZE,
                midi_table@.len() == c,
                forall|j: int| 0 <= j < c ==> (#[trigger] midi_table@[j]) is None,
            decreases MIDI_TABLE_SIZE - c,
        {
            midi_table.push(None);
            c += 1;
        }
        Ok(Engine { voices, midi_table })
    }

    /// Number of voices.
    pub fn polyphony(&self) -> (r: usize)
        ensures
            r == self.voices().len(),
    {
        self.voices.len()
    }

    /// The state of voice `i`.
    pub fn voice(&self, i: usize) -> (r: &VoiceState)
        requires
            i < self.voices().len(),
        ensures
            *r == self.voices()[i as int],
    {
        &self.voices[i]
    }

    /// The destination controller `controller` is routed to.
    pub fn cc_route(&self, controller: u8) -> (r: Option<ModMatrixDest>)
        requires
            self.wf(),
        ensures
            controller < MIDI_TABLE_SIZE ==> r == self.midi_table()[controller as int],
            controller >= MIDI_TABLE_SIZE ==> r is None,
    {
        if (controller as usize) < self.midi_table.len() {
            self.midi_table[controller as usize]
        } else {
            None
        }
    }

    /// Routes controller `controller` to `dest`, or unroutes it with `None`. Refused,
    /// with nothing changed, for a controller outside the table or a destination
    /// that a voice does not have.
    pub fn set_cc_route(&mut self, controller: u8, dest: Option<ModMatrixDest>) -> (r: Result<
        (),
        EngineError,
    >)
        requires
            old(self).wf(),
        ensures
            final(self).wf(),
            final(self).voices() == old(self).voices(),
            controller >= MIDI_TABLE_SIZE ==> r == Err::<(), EngineError>(
                EngineError::ControllerOutOfRange,
            ),
            controller < MIDI_TABLE_SIZE && dest is Some && !dest->0.routable() ==> r == Err::<
                (),
                EngineError,
            >(EngineError::InvalidDestination),
            r is Ok <==> controller < MIDI_TABLE_SIZE && (dest is Some ==> dest->0.routable()),
            r is Ok ==> final(self).midi_table() == old(self).midi_table().update(
                controller as int,
                dest,
            ),
            r is Err ==> final(self).midi_table() == old(self).midi_table(),
    {
        if controller as usize >= self.midi_table.len() {
            return Err(EngineError::ControllerOutOfRange);
        }
        if let Some(d) = &dest {
            if !d.is_routable() {
                return Err(EngineError::InvalidDestination);
            }
        }
        self.midi_table.set(controller as usize, dest);
        Ok(())
    }

    /// Presses the first voice that is not playing a note, and returns its index.
    /// When every voice is playing, the note is dropped and nothing changes.
    pub fn play(&mut self, note: MidiNote, velocity: u8) -> (r: Option<usize>)
        requires
            old(self).wf(),
        ensures
            final(self).wf(),
            final(self).midi_table() == old(self).midi_table(),
            match r {
                Some(i) => {
                    &&& first_free(old(self).voices(), i as int)
                    &&& final(self).voices() == old(self).voices().update(
                        i as int,
                        old(self).voices()[i as int].after_press(note, velocity),
                    )
                },
                None => {
                    &&& forall|j: int|
                        0 <= j < old(self).voices().len() ==> (#[trigger] old(
                            self,
                        ).voices()[j]).playing is Some
                    &&& final(self).voices() == old(self).voices()
                },
            },
    {
        let mut i: usize = 0;
        while i < self.voices.len()
            invariant
                i <= self.voices@.len(),
                *self == *old(self),
                self.wf(),
                forall|j: int| 0 <= j < i ==> (#[trigger] self.voices@[j]).playing is Some,
            decreases self.voices@.len() - i,
        {
            if self.voices[i].playing.is_none() {
                let mut v = self.voices[i];
                v.press(note, velocity);
                self.voices.set(i, v);
                return Some(i);
            }
            i += 1;
        }
        None
    }

    /// Releases the first voice that is playing `note`, and returns its index.
    pub fn stop(&mut self, note: MidiNote) -> (r: Option<usize>)
        requires
            old(self).wf(),
        ensures
            final(self).wf(),
            final(self).midi_table() == old(self).midi_table(),
            match r {
                Some(i) => {
                    &&& first_playing(old(self).voices(), note, i as int)
                    &&& final(self).voices() == old(self).voices().update(
                        i as int,
                        old(self).voices()[i as int].after_release(),
                    )
                },
                None => {
                    &&& forall|j: int|
                        0 <= j < old(self).voices().len() ==> (#[trigger] old(
                            self,
                        ).voices()[j]).playing != Some(note)
                    &&& final(self).voices() == old(self).voices()
                },
            },
    {
        let mut i: usize = 0;
        while i < self.voices.len()
            invariant
                i <= self.voices@.len(),
                *self == *old(self),
                self.wf(),
                forall|j: int| 0 <= j < i ==> (#[trigger] self.voices@[j]).playing != Some(note),
            decreases self.voices@.len() - i,
        {
            if self.voices[i].playing == Some(note) {
                let mut v = self.voices[i];
                v.release();
                self.voices.set(i, v);
                return Some(i);
            }
            i += 1;
        }
        None
    }

    /// Voice `i` needs no computation this sample.
    pub fn is_idle(&self, i: usize) -> (r: bool)
        requires
            i < self.voices().len(),
        ensures
            r == self.voices()[i as int].idle(),
    {
        self.voices[i].is_idle()
    }

    /// Records the state of voice `i`'s master envelope after a step; returns
    /// whether that freed the voice.
    pub fn settle(&mut self, i: usize, env_held: bool, env_silent: bool) -> (freed: bool)
        requires
            old(self).wf(),
            i < old(self).voices().len(),
        ensures
            final(self).wf(),
            final(self).midi_table() == old(self).midi_table(),
            final(self).voices() == old(self).voices().update(
                i as int,
                old(self).voices()[i as int].after_settle(env_held, env_silent),
            ),
            freed == VoiceState::frees(env_held, env_silent),
    {
        let mut v = self.voices[i];
        let freed = v.settle(env_held, env_silent);
        self.voices.set(i, v);
        freed
    }

    /// Consumes one MIDI event: a note-on plays, a note-off stops, a routed
    /// controller modulates its destination, and a pitch bend bends every voice.
    pub fn midi_input(&mut self, event: MidiEvent) -> (r: EngineAction)
        requires
            old(self).wf(),
        ensures
            final(self).wf(),
            final(self).midi_table() == old(self).midi_table(),
            match event {
                MidiEvent::NoteOn { note, velocity, .. } => match r {
                    EngineAction::Pressed { voice, note: n, velocity: v } => {
                        &&& n == note
                        &&& v == velocity
                        &&& first_free(old(self).voices(), voice as int)
                        &&& final(self).voices() == old(self).voices().update(
                            voice as int,
                            old(self).voices()[voice as int].after_press(note, velocity),
                        )
                    },
                    EngineAction::Dropped => {
                        &&& forall|j: int|
                            0 <= j < old(self).voices().len() ==> (#[trigger] old(
                                self,
                            ).voices()[j]).playing is Some
                        &&& final(self).voices() == old(self).voices()
                    },
                    _ => false,
                },
                MidiEvent::NoteOff { note, .. } => match r {
                    EngineAction::Released { voice } => {
                        &&& first_playing(old(self).voices(), note, voice as int)
                        &&& final(self).voices() == old(self).voices().update(
                            voice as int,
                            old(self).voices()[voice as int].after_release(),
                        )
                    },
                    EngineAction::Ignored => {
                        &&& forall|j: int|
                            0 <= j < old(self).voices().len() ==> (#[trigger] old(
                                self,
                            ).voices()[j]).playing != Some(note)
                        &&& final(self).voices() == old(self).voices()
                    },
                    _ => false,
                },
                MidiEvent::ControlChange { controller, value } => {
                    &&& final(self).voices() == old(self).voices()
                    &&& (controller < MIDI_TABLE_SIZE && old(self).midi_table()[controller as int] is Some)
                        ==> r == (EngineAction::Modulate {
                        dest: old(self).midi_table()[controller as int]->0,
                        value,
                    })
                    &&& !(controller < MIDI_TABLE_SIZE && old(
                        self,
                    ).midi_table()[controller as int] is Some) ==> r == EngineAction::Ignored
                },
                MidiEvent::PitchBend { lsb, msb } => {
                    &&& final(self).voices() == old(self).voices()
                    &&& r matches EngineAction::Bend { amount } && amount as int == bend_of(lsb, msb)
                },
                MidiEvent::Other => {
                    &&& final(self).voices() == old(self).voices()
                    &&& r == EngineAction::Ignored
                },
            },
    {
        match event {
            MidiEvent::NoteOn { note, velocity, .. } => match self.play(note, velocity) {
                Some(voice) => EngineAction::Pressed { voice, note, velocity },
                None => EngineAction::Dropped,
            },
            MidiEvent::NoteOff { note, .. } => match self.stop(note) {
                Some(voice) => EngineAction::Released { voice },
                None => EngineAction::Ignored,
            },
            MidiEvent::ControlChange { controller, value } => match self.cc_route(controller) {
                Some(dest) => EngineAction::Modulate { dest, value },
                None => EngineAction::Ignored,
            },
            MidiEvent::PitchBend { lsb, msb } => EngineAction::Bend {
                amount: pitch_bend_value(lsb, msb),
            },
            MidiEvent::Other => EngineAction::Ignored,
        }
    }
}

} // verus!
