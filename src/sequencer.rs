//! The step sequencer: sequences of steps that hold recorded MIDI messages, a
//! record head and a play head, and the transport controls that move them.

use vstd::prelude::*;

use crate::common::MidiNote;
use crate::engine::MidiEvent;

verus! {

pub type MidiControlCode = u8;

pub type MidiInt = u8;

/// Number of steps in a new sequence.
pub const DEFAULT_STEPS: usize = 16;

/// Number of sequences a new sequencer holds.
pub const DEFAULT_SEQUENCES: usize = 4;

/// Tempo of a new sequencer, in beats per minute.
pub const DEFAULT_BPM: u16 = 120;

/// Controller that moves the record head one step back.
pub const CC_STEP_BACK: u8 = 115;

/// Controller that moves the record head one step on.
pub const CC_STEP_ON: u8 = 116;

/// Controller that stops playing and recording.
pub const CC_STOP: u8 = 117;

/// Controller that starts playing.
pub const CC_PLAY: u8 = 118;

/// Controller that starts recording.
pub const CC_RECORD: u8 = 119;

/// Whether the step sequencer is recording or playing.
#[derive(Debug, Clone, Copy, Default, PartialEq, Eq, Structural)]
pub struct StepperState {
    pub recording: bool,
    pub playing: bool,
}

/// A position in the sequencer: a sequence, and a step within it.
#[derive(Debug, Clone, Copy, PartialEq, Eq, Structural)]
pub struct SequenceIndex {
    sequence: usize,
    step: usize,
}

impl SequenceIndex {
    pub closed spec fn sequence(&self) -> nat {
        self.sequence as nat
    }

    pub closed spec fn step(&self) -> nat {
        self.step as nat
    }

    /// The index of the sequence.
    pub fn get_sequence(&self) -> (r: usize)
        ensures
            r == self.sequence(),
    {
        self.sequence
    }

    /// Moves to `sequence`, keeping the step.
    pub fn set_sequence(&mut self, sequence: usize)
        ensures
            final(self).sequence() == sequence,
            final(self).step() == old(self).step(),
    {
        self.sequence = sequence;
    }

    /// Moves to the start of the next sequence.
    pub fn next_sequence(&mut self)
        requires
            old(self).sequence() < usize::MAX,
        ensures
            final(self).sequence() == old(self).sequence() + 1,
            final(self).step() == 0,
    {
        self.sequence = self.sequence + 1;
        self.step = 0;
    }

    /// Moves to the start of the previous sequence.
    pub fn prev_sequence(&mut self)
        requires
            old(self).sequence() > 0,
        ensures
            final(self).sequence() == old(self).sequence() - 1,
            final(self).step() == 0,
    {
        self.sequence = self.sequence - 1;
        self.step = 0;
    }
}

impl Default for SequenceIndex {
    /// The first step of the first sequence.
    fn default() -> (r: SequenceIndex)
        ensures
            r.sequence() == 0,
            r.step() == 0,
    {
        SequenceIndex { sequence: 0, step: 0 }
    }
}

/// A command recorded in a step.
#[derive(Debug, Clone, Copy, PartialEq, Eq, Structural, Hash)]
pub enum StepCmd {
    Play { note: MidiNote, vel: u8 },
    Stop { note: MidiNote },
    CC { code: MidiControlCode, value: MidiInt },
}

/// A recorded message: the channel it arrived on, and its command.
pub type StepMessage = (u8, StepCmd);

/// Two messages address the same thing: the same channel, the same kind of
/// command, and the same note or controller.
pub open spec fn same_slot(a: StepMessage, b: StepMessage) -> bool {
    a.0 == b.0 && match (a.1, b.1) {
        (StepCmd::Play { note: n1, .. }, StepCmd::Play { note: n2, .. }) => n1 == n2,
        (StepCmd::Stop { note: n1 }, StepCmd::Stop { note: n2 }) => n1 == n2,
        (StepCmd::CC { code: c1, .. }, StepCmd::CC { code: c2, .. }) => c1 == c2,
        _ => false,
    }
}

pub open spec fn other_slot(m: StepMessage) -> spec_fn(StepMessage) -> bool {
    |x: StepMessage| !same_slot(x, m)
}

/// The messages after recording `m`: when messages for the same slot are there,
/// recording removes them all; otherwise it adds `m`.
pub open spec fn toggled(msgs: Seq<StepMessage>, m: StepMessage) -> Seq<StepMessage> {
    if exists|i: int| 0 <= i < msgs.len() && same_slot(msgs[i], m) {
        msgs.filter(other_slot(m))
    } else {
        msgs.push(m)
    }
}

/// Filtering out the slot of `m` keeps a list that holds nothing in that slot.
proof fn lemma_filter_keeps_all(msgs: Seq<StepMessage>, m: StepMessage)
    requires
        forall|i: int| 0 <= i < msgs.len() ==> !same_slot(#[trigger] msgs[i], m),
    ensures
        msgs.filter(other_slot(m)) == msgs,
    decreases msgs.len(),
{
    if msgs.len() == 0 {
        reveal(Seq::filter);
    } else {
        let init = msgs.drop_last();
        assert forall|i: int| 0 <= i < init.len() implies !same_slot(#[trigger] init[i], m) by {
            assert(init[i] == msgs[i]);
        }
        lemma_filter_keeps_all(init, m);
        assert(msgs =~= init.push(msgs.last()));
        init.lemma_filter_push(msgs.last(), other_slot(m));
    }
}

/// Recording a message into a step whose slot for it is free, and recording it
/// again, leaves the step as it was.
pub proof fn lemma_record_twice_undoes(msgs: Seq<StepMessage>, m: StepMessage)
    requires
        forall|i: int| 0 <= i < msgs.len() ==> !same_slot(#[trigger] msgs[i], m),
    ensures
        toggled(msgs, m) == msgs.push(m),
        toggled(toggled(msgs, m), m) == msgs,
{
    let p = msgs.push(m);
    assert(same_slot(p[msgs.len() as int], m));
    msgs.lemma_filter_push(m, other_slot(m));
    lemma_filter_keeps_all(msgs, m);
}

fn is_same_slot(a: &StepMessage, b: &StepMessage) -> (r: bool)
    ensures
        r == same_slot(*a, *b),
{
    a.0 == b.0 && match (a.1, b.1) {
        (StepCmd::Play { note: n1, .. }, StepCmd::Play { note: n2, .. }) => n1 == n2,
        (StepCmd::Stop { note: n1 }, StepCmd::Stop { note: n2 }) => n1 == n2,
        (StepCmd::CC { code: c1, .. }, StepCmd::CC { code: c2, .. }) => c1 == c2,
        _ => false,
    }
}

fn toggle(msgs: &mut Vec<StepMessage>, m: StepMessage)
    ensures
        final(msgs)@ == toggled(old(msgs)@, m),
{
    let mut found = false;
    let mut i: usize = 0;
    while i < msgs.len()
        invariant
            i <= msgs@.len(),
            msgs@ == old(msgs)@,
            found <==> exists|j: int| 0 <= j < i && same_slot(msgs@[j], m),
        decreases msgs@.len() - i,
    {
        if is_same_slot(&msgs[i], &m) {
            found = true;
        }
        i += 1;
    }
    if !found {
        msgs.push(m);
        return ;
    }
    let mut kept: Vec<StepMessage> = Vec::new();
    let mut k: usize = 0;
    while k < msgs.len()
        invariant
            k <= msgs@.len(),
            msgs@ == old(msgs)@,
            kept@ == msgs@.take(k as int).filter(other_slot(m)),
        decreases msgs@.len() - k,
    {
        let x = msgs[k];
        proof {
            assert(msgs@.take(k as int + 1) =~= msgs@.take(k as int).push(x));
            msgs@.take(k as int).lemma_filter_push(x, other_slot(m));
        }
        if !is_same_slot(&x, &m) {
            kept.push(x);
        }
        k += 1;
    }
    proof {
        assert(msgs@.take(msgs@.len() as int) =~= msgs@);
    }
    *msgs = kept;
}

fn copy_messages(v: &Vec<StepMessage>) -> (r: Vec<StepMessage>)
    ensures
        r@ == v@,
{
    let mut r: Vec<StepMessage> = Vec::new();
    let mut i: usize = 0;
    while i < v.len()
        invariant
            i <= v@.len(),
            r@ == v@.take(i as int),
        decreases v@.len() - i,
    {
        proof {
            assert(v@.take(i as int + 1) =~= v@.take(i as int).push(v@[i as int]));
        }
        r.push(v[i]);
        i += 1;
    }
    proof {
        assert(v@.take(v@.len() as int) =~= v@);
    }
    r
}

/// The messages of a step: sent when the sequencer enters it, and when it
/// leaves it.
#[derive(Debug)]
pub struct Step {
    pub on_enter: Vec<StepMessage>,
    pub on_exit: Vec<StepMessage>,
}

pub type StepView = (Seq<StepMessage>, Seq<StepMessage>);

pub open spec fn empty_step() -> StepView {
    (Seq::empty(), Seq::empty())
}

impl View for Step {
    type V = StepView;

    open spec fn view(&self) -> StepView {
        (self.on_enter@, self.on_exit@)
    }
}

impl Step {
    /// A step with no messages.
    pub fn new() -> (r: Step)
        ensures
            r@ == empty_step(),
    {
        Step { on_enter: Vec::new(), on_exit: Vec::new() }
    }

    /// A step with the same messages.
    pub fn duplicate(&self) -> (r: Step)
        ensures
            r@ == self@,
    {
        Step { on_enter: copy_messages(&self.on_enter), on_exit: copy_messages(&self.on_exit) }
    }
}

/// The name of a sequence, as characters.
pub open spec fn name_view(n: Option<String>) -> Option<Seq<char>> {
    match n {
        Some(s) => Some(s@),
        None => None,
    }
}

/// A named or unnamed list of steps.
#[derive(Debug)]
pub struct Sequence {
    pub human_name: Option<String>,
    pub steps: Vec<Step>,
}

impl View for Sequence {
    type V = Seq<StepView>;

    open spec fn view(&self) -> Seq<StepView> {
        self.steps@.map_values(|s: Step| s@)
    }
}

/// An unnamed sequence of empty steps.
pub open spec fn fresh_sequence(q: Seq<StepView>) -> bool {
    &&& q.len() == DEFAULT_STEPS
    &&& forall|i: int| 0 <= i < q.len() ==> #[trigger] q[i] == empty_step()
}

impl Sequence {
    /// An unnamed sequence of empty steps.
    pub fn new() -> (r: Sequence)
        ensures
            r.human_name is None,
            fresh_sequence(r@),
    {
        let mut steps: Vec<Step> = Vec::new();
        let mut i: usize = 0;
        while i < DEFAULT_STEPS
            invariant
                i <= DEFAULT_STEPS,
                steps@.len() == i,
                forall|j: int| 0 <= j < i ==> #[trigger] steps@[j]@ == empty_step(),
            decreases DEFAULT_STEPS - i,
        {
            steps.push(Step::new());
            i += 1;
        }
        Sequence { human_name: None, steps }
    }

    /// A sequence with the same name and steps.
    pub fn duplicate(&self) -> (r: Sequence)
        ensures
            r@ == self@,
            name_view(r.human_name) == name_view(self.human_name),
    {
        let human_name = match &self.human_name {
            Some(n) => Some(n.clone()),
            None => None,
        };
        let mut steps: Vec<Step> = Vec::new();
        let mut i: usize = 0;
        while i < self.steps.len()
            invariant
                i <= self.steps@.len(),
                steps@.len() == i,
                forall|j: int| 0 <= j < i ==> #[trigger] steps@[j]@ == self.steps@[j]@,
            decreases self.steps@.len() - i,
        {
            steps.push(self.steps[i].duplicate());
            i += 1;
        }
        let r = Sequence { human_name, steps };
        proof {
            assert(r@ =~= self@);
        }
        r
    }
}

impl Default for Sequence {
    fn default() -> (r: Sequence)
        ensures
            r.human_name is None,
            fresh_sequence(r@),
    {
        Sequence::new()
    }
}

/// What recording `event` writes: the message, and whether it belongs to the
/// step's entry (a note-on) or its exit (a note-off).
pub open spec fn recorded(event: MidiEvent) -> Option<(StepMessage, bool)> {
    match event {
        MidiEvent::NoteOn { channel, note, velocity } => Some(
            ((channel, StepCmd::Play { note, vel: velocity }), true),
        ),
        MidiEvent::NoteOff { channel, note, .. } => Some(((channel, StepCmd::Stop { note }), false)),
        _ => None,
    }
}

/// The transport state after controller `controller` moved.
pub open spec fn transport_after(state: StepperState, controller: u8) -> StepperState {
    if controller == CC_STOP {
        StepperState { playing: false, recording: false }
    } else if controller == CC_PLAY {
        StepperState { playing: true, recording: false }
    } else if controller == CC_RECORD {
        StepperState { playing: false, recording: true }
    } else {
        state
    }
}

/// The record head's step after controller `controller` moved, in a sequence of
/// `len` steps.
pub open spec fn cursor_after(step: nat, len: nat, controller: u8) -> nat {
    if controller == CC_STEP_BACK {
        if step > 0 {
            (step - 1) as nat
        } else {
            (len - 1) as nat
        }
    } else if controller == CC_STEP_ON {
        (step + 1) % len
    } else {
        step
    }
}

/// Records MIDI messages into steps and plays them back. Every sequence keeps at
/// least one step, the sequencer keeps at least one sequence, and both heads
/// point at an existing sequence; a head's step may lie past the end of a
/// shorter sequence it was moved to.
pub struct SequencerIntake {
    sequences: Vec<Sequence>,
    rec_head: SequenceIndex,
    play_head: SequenceIndex,
    state: StepperState,
    bpm: u16,
}

impl SequencerIntake {
    /// The steps of each sequence.
    pub closed spec fn seqs(&self) -> Seq<Seq<StepView>> {
        self.sequences@.map_values(|q: Sequence| q@)
    }

    /// The name of each sequence.
    pub closed spec fn names(&self) -> Seq<Option<Seq<char>>> {
        self.sequences@.map_values(|q: Sequence| name_view(q.human_name))
    }

    /// Whether the sequencer is recording or playing.
    pub closed spec fn transport(&self) -> StepperState {
        self.state
    }

    /// The tempo, in beats per minute.
    pub closed spec fn tempo(&self) -> u16 {
        self.bpm
    }

    pub closed spec fn rec(&self) -> SequenceIndex {
        self.rec_head
    }

    pub closed spec fn play(&self) -> SequenceIndex {
        self.play_head
    }

    pub open spec fn head(&self, play: bool) -> SequenceIndex {
        if play {
            self.play()
        } else {
            self.rec()
        }
    }

    pub open spec fn wf(&self) -> bool {
        &&& self.seqs().len() > 0
        &&& self.names().len() == self.seqs().len()
        &&& forall|i: int| 0 <= i < self.seqs().len() ==> (#[trigger] self.seqs()[i]).len() > 0
        &&& self.rec().sequence() < self.seqs().len()
        &&& self.play().sequence() < self.seqs().len()
        &&& self.rec().step() < usize::MAX
        &&& self.play().step() < usize::MAX
    }

    /// The number of steps in the sequence under the record head.
    pub open spec fn rec_len(&self) -> nat {
        self.seqs()[self.rec().sequence() as int].len()
    }

    /// Four unnamed sequences of empty steps, both heads at the start, stopped,
    /// at the default tempo.
    pub fn new() -> (r: SequencerIntake)
        ensures
            r.wf(),
            r.seqs().len() == DEFAULT_SEQUENCES,
            forall|i: int| 0 <= i < DEFAULT_SEQUENCES ==> fresh_sequence(#[trigger] r.seqs()[i]),
            forall|i: int| 0 <= i < DEFAULT_SEQUENCES ==> (#[trigger] r.names()[i]) is None,
            r.rec().sequence() == 0 && r.rec().step() == 0,
            r.play().sequence() == 0 && r.play().step() == 0,
            r.transport() == (StepperState { recording: false, playing: false }),
            r.tempo() == DEFAULT_BPM,
    {
        let mut sequences: Vec<Sequence> = Vec::new();
        let mut i: usize = 0;
        while i < DEFAULT_SEQUENCES
            invariant
                i <= DEFAULT_SEQUENCES,
                sequences@.len() == i,
                forall|j: int|
                    0 <= j < i ==> fresh_sequence(#[trigger] sequences@[j]@) && sequences@[j].human_name is None,
            decreases DEFAULT_SEQUENCES - i,
        {
            sequences.push(Sequence::new());
            i += 1;
        }
        let r = SequencerIntake {
            sequences,
            rec_head: SequenceIndex { sequence: 0, step: 0 },
            play_head: SequenceIndex { sequence: 0, step: 0 },
            state: StepperState { recording: false, playing: false },
            bpm: DEFAULT_BPM,
        };
        proof {
            assert forall|i: int| 0 <= i < r.seqs().len() implies (#[trigger] r.seqs()[i]).len() > 0 by {
                assert(fresh_sequence(r.sequences@[i]@));
            }
            assert forall|i: int| 0 <= i < DEFAULT_SEQUENCES implies (#[trigger] r.names()[i]) is None by {
                assert(fresh_sequence(r.sequences@[i]@));
                assert(r.sequences@[i].human_name is None);
            }
            assert forall|i: int| 0 <= i < DEFAULT_SEQUENCES implies fresh_sequence(
                #[trigger] r.seqs()[i],
            ) by {
                assert(fresh_sequence(r.sequences@[i]@));
            }
        }
        r
    }

    /// Whether the sequencer is recording or playing.
    pub fn state(&self) -> (r: StepperState)
        ensures
            r == self.transport(),
    {
        self.state
    }

    /// The tempo, in beats per minute.
    pub fn bpm(&self) -> (r: u16)
        ensures
            r == self.tempo(),
    {
        self.bpm
    }

    /// Sets the tempo.
    pub fn set_bpm(&mut self, bpm: u16)
        ensures
            final(self).tempo() == bpm,
            final(self).transport() == old(self).transport(),
            final(self).seqs() == old(self).seqs(),
            final(self).names() == old(self).names(),
            final(self).rec() == old(self).rec(),
            final(self).play() == old(self).play(),
    {
        self.bpm = bpm;
    }

    /// The record head.
    pub fn rec_head(&self) -> (r: SequenceIndex)
        ensures
            r == self.rec(),
    {
        self.rec_head
    }

    /// The play head.
    pub fn play_head(&self) -> (r: SequenceIndex)
        ensures
            r == self.play(),
    {
        self.play_head
    }

    /// Number of sequences.
    pub fn len(&self) -> (r: usize)
        ensures
            r == self.seqs().len(),
    {
        self.sequences.len()
    }

    /// The step under the play head (`play`) or the record head, or `None` when
    /// that head's step lies past the end of its sequence.
    pub fn get_step(&self, play: bool) -> (r: Option<Step>)
        requires
            self.wf(),
        ensures
            ({
                let h = self.head(play);
                let q = self.seqs()[h.sequence() as int];
                &&& h.step() < q.len() ==> r is Some && r->0@ == q[h.step() as int]
                &&& h.step() >= q.len() ==> r is None
            }),
    {
        let i = if play {
            self.play_head
        } else {
            self.rec_head
        };
        let q = &self.sequences[i.sequence];
        proof {
            assert(q@ == self.seqs()[i.sequence as int]);
        }
        if i.step < q.steps.len() {
            Some(q.steps[i.step].duplicate())
        } else {
            None
        }
    }

    /// The step index of the play head (`play`) or the record head.
    pub fn get_cursor(&self, play: bool) -> (r: usize)
        ensures
            r == self.head(play).step(),
    {
        if play {
            self.play_head.step
        } else {
            self.rec_head.step
        }
    }

    /// Appends an empty step to the sequence under the record head.
    pub fn add_step(&mut self)
        requires
            old(self).wf(),
        ensures
            final(self).wf(),
            ({
                let s = old(self).rec().sequence() as int;
                final(self).seqs() == old(self).seqs().update(s, old(self).seqs()[s].push(empty_step()))
            }),
            final(self).names() == old(self).names(),
            final(self).rec() == old(self).rec(),
            final(self).play() == old(self).play(),
            final(self).transport() == old(self).transport(),
            final(self).tempo() == old(self).tempo(),
    {
        let s: usize = self.rec_head.sequence;
        self.sequences[s].steps.push(Step::new());
        proof {
            assert(self.sequences@[s as int]@ =~= old(self).seqs()[s as int].push(empty_step()));
            assert(self.seqs() =~= old(self).seqs().update(
                s as int,
                old(self).seqs()[s as int].push(empty_step()),
            ));
            assert(self.names() =~= old(self).names());
        }
    }

    /// Removes the last step of the sequence under the record head, unless it is
    /// the only one.
    pub fn del_step(&mut self)
        requires
            old(self).wf(),
        ensures
            final(self).wf(),
            ({
                let s = old(self).rec().sequence() as int;
                let q = old(self).seqs()[s];
                &&& q.len() > 1 ==> final(self).seqs() == old(self).seqs().update(s, q.drop_last())
                &&& q.len() == 1 ==> final(self).seqs() == old(self).seqs()
            }),
            final(self).names() == old(self).names(),
            final(self).rec() == old(self).rec(),
            final(self).play() == old(self).play(),
            final(self).transport() == old(self).transport(),
            final(self).tempo() == old(self).tempo(),
    {
        let s: usize = self.rec_head.sequence;
        proof {
            assert(self.sequences@[s as int]@ == self.seqs()[s as int]);
        }
        if self.sequences[s].steps.len() > 1 {
            let _ = self.sequences[s].steps.pop();
            proof {
                assert(self.sequences@[s as int]@ =~= old(self).seqs()[s as int].drop_last());
                assert(self.seqs() =~= old(self).seqs().update(
                    s as int,
                    old(self).seqs()[s as int].drop_last(),
                ));
                assert(self.names() =~= old(self).names());
            }
        }
    }

    /// Moves the record head to the next sequence, wrapping to the first.
    pub fn next_sequence(&mut self)
        requires
            old(self).wf(),
        ensures
            final(self).wf(),
            final(self).rec().sequence() == (old(self).rec().sequence() + 1) % old(self).seqs().len(),
            final(self).rec().step() == old(self).rec().step(),
            final(self).seqs() == old(self).seqs(),
            final(self).names() == old(self).names(),
            final(self).play() == old(self).play(),
            final(self).transport() == old(self).transport(),
            final(self).tempo() == old(self).tempo(),
    {
        let len: usize = self.sequences.len();
        let s: usize = self.rec_head.sequence;
        self.rec_head.sequence = if s + 1 == len {
            0
        } else {
            s + 1
        };
        proof {
            if s + 1 == len {
                vstd::arithmetic::div_mod::lemma_mod_self_0(len as int);
            } else {
                vstd::arithmetic::div_mod::lemma_small_mod((s + 1) as nat, len as nat);
            }
        }
    }

    /// Moves the record head to the previous sequence, wrapping to the last.
    pub fn prev_sequence(&mut self)
        requires
            old(self).wf(),
        ensures
            final(self).wf(),
            final(self).rec().sequence() == if old(self).rec().sequence() == 0 {
                (old(self).seqs().len() - 1) as nat
            } else {
                (old(self).rec().sequence() - 1) as nat
            },
            final(self).rec().step() == old(self).rec().step(),
            final(self).seqs() == old(self).seqs(),
            final(self).names() == old(self).names(),
            final(self).play() == old(self).play(),
            final(self).transport() == old(self).transport(),
            final(self).tempo() == old(self).tempo(),
    {
        let len: usize = self.sequences.len();
        if self.rec_head.sequence == 0 {
            self.rec_head.sequence = len - 1;
        } else {
            self.rec_head.sequence = self.rec_head.sequence - 1;
        }
    }

    /// The record head's step after moving one on, wrapping to the first step.
    fn step_on(&self) -> (r: usize)
        requires
            self.wf(),
        ensures
            r == (self.rec().step() + 1) % self.rec_len(),
            r < self.rec_len(),
            r < usize::MAX,
    {
        let len: usize = self.sequences[self.rec_head.sequence].steps.len();
        proof {
            assert(self.sequences@[self.rec_head.sequence as int]@ == self.seqs()[self.rec_head.sequence as int]);
            vstd::arithmetic::div_mod::lemma_mod_pos_bound((self.rec_head.step + 1) as int, len as int);
        }
        (self.rec_head.step + 1) % len
    }

    /// The record head's step after moving one back, wrapping to the last step.
    fn step_back(&self) -> (r: usize)
        requires
            self.wf(),
        ensures
            r == (if self.rec().step() > 0 {
                (self.rec().step() - 1) as nat
            } else {
                (self.rec_len() - 1) as nat
            }),
            r < usize::MAX,
    {
        let len: usize = self.sequences[self.rec_head.sequence].steps.len();
        proof {
            assert(self.sequences@[self.rec_head.sequence as int]@ == self.seqs()[self.rec_head.sequence as int]);
        }
        if self.rec_head.step > 0 {
            self.rec_head.step - 1
        } else {
            len - 1
        }
    }

    /// Moves the record head one step on, wrapping to the first step.
    pub fn next_step(&mut self)
        requires
            old(self).wf(),
        ensures
            final(self).wf(),
            final(self).rec().step() == (old(self).rec().step() + 1) % old(self).rec_len(),
            final(self).rec().sequence() == old(self).rec().sequence(),
            final(self).seqs() == old(self).seqs(),
            final(self).names() == old(self).names(),
            final(self).play() == old(self).play(),
            final(self).transport() == old(self).transport(),
            final(self).tempo() == old(self).tempo(),
    {
        self.rec_head.step = self.step_on();
    }

    /// Moves the record head one step back, wrapping to the last step.
    pub fn prev_step(&mut self)
        requires
            old(self).wf(),
        ensures
            final(self).wf(),
            final(self).rec().step() == if old(self).rec().step() > 0 {
                (old(self).rec().step() - 1) as nat
            } else {
                (old(self).rec_len() - 1) as nat
            },
            final(self).rec().sequence() == old(self).rec().sequence(),
            final(self).seqs() == old(self).seqs(),
            final(self).names() == old(self).names(),
            final(self).play() == old(self).play(),
            final(self).transport() == old(self).transport(),
            final(self).tempo() == old(self).tempo(),
    {
        self.rec_head.step = self.step_back();
    }

    /// Moves the play head one step on, wrapping to the first step: one beat.
    pub fn inc_step(&mut self)
        requires
            old(self).wf(),
        ensures
            final(self).wf(),
            ({
                let len = old(self).seqs()[old(self).play().sequence() as int].len();
                final(self).play().step() == (old(self).play().step() + 1) % len
            }),
            final(self).play().sequence() == old(self).play().sequence(),
            final(self).rec() == old(self).rec(),
            final(self).seqs() == old(self).seqs(),
            final(self).names() == old(self).names(),
            final(self).transport() == old(self).transport(),
            final(self).tempo() == old(self).tempo(),
    {
        let len: usize = self.sequences[self.play_head.sequence].steps.len();
        proof {
            assert(self.sequences@[self.play_head.sequence as int]@ == self.seqs()[self.play_head.sequence as int]);
            vstd::arithmetic::div_mod::lemma_mod_pos_bound((self.play_head.step + 1) as int, len as int);
        }
        self.play_head.step = (self.play_head.step + 1) % len;
    }

    /// Puts the play head back on the first step of its sequence.
    pub fn rewind(&mut self)
        requires
            old(self).wf(),
        ensures
            final(self).wf(),
            final(self).play().step() == 0,
            final(self).play().sequence() == old(self).play().sequence(),
            final(self).rec() == old(self).rec(),
            final(self).seqs() == old(self).seqs(),
            final(self).names() == old(self).names(),
            final(self).transport() == old(self).transport(),
            final(self).tempo() == old(self).tempo(),
    {
        self.play_head.step = 0;
    }

    /// The name of the sequence under the record head: its own name, or else its
    /// index written in decimal.
    pub fn get_name(&self) -> (r: String)
        requires
            self.wf(),
        ensures
            ({
                let s = self.rec().sequence();
                &&& self.names()[s as int] is Some ==> r@ == self.names()[s as int]->0
                &&& self.names()[s as int] is None ==> vstd::string::to_string_from_display_ensures::<
                    usize,
                >(&(s as usize), r)
            }),
    {
        let s: usize = self.rec_head.sequence;
        proof {
            assert(name_view(self.sequences@[s as int].human_name) == self.names()[s as int]);
        }
        match &self.sequences[s].human_name {
            Some(name) => name.clone(),
            None => s.to_string(),
        }
    }

    /// Appends an unnamed sequence of empty steps.
    pub fn new_sequence(&mut self)
        requires
            old(self).wf(),
        ensures
            final(self).wf(),
            final(self).seqs().len() == old(self).seqs().len() + 1,
            final(self).seqs().drop_last() == old(self).seqs(),
            fresh_sequence(final(self).seqs().last()),
            final(self).names() == old(self).names().push(None),
            final(self).rec() == old(self).rec(),
            final(self).play() == old(self).play(),
            final(self).transport() == old(self).transport(),
            final(self).tempo() == old(self).tempo(),
    {
        let q = Sequence::new();
        proof {
            assert(fresh_sequence(q@));
        }
        self.sequences.push(q);
        proof {
            assert(self.seqs().drop_last() =~= old(self).seqs());
            assert(self.names() =~= old(self).names().push(None));
            assert forall|i: int| 0 <= i < self.seqs().len() implies (#[trigger] self.seqs()[i]).len()
                > 0 by {
                if i < old(self).seqs().len() {
                    assert(self.seqs()[i] == old(self).seqs()[i]);
                }
            }
        }
    }

    /// The position of a head's sequence once sequence `at` is removed: a head
    /// on or after it moves back by one, but not below the first.
    pub open spec fn shifted(head: nat, at: nat) -> nat {
        if at <= head && head > 0 {
            (head - 1) as nat
        } else {
            head
        }
    }

    /// Removes sequence `at`. Nothing happens when there is no such sequence or
    /// when it is the only one.
    pub fn del_sequence(&mut self, at: usize)
        requires
            old(self).wf(),
        ensures
            final(self).wf(),
            (at >= old(self).seqs().len() || old(self).seqs().len() == 1) ==> *final(self) == *old(
                self,
            ),
            (at < old(self).seqs().len() && old(self).seqs().len() > 1) ==> {
                &&& final(self).seqs() == old(self).seqs().remove(at as int)
                &&& final(self).names() == old(self).names().remove(at as int)
                &&& final(self).rec().sequence() == Self::shifted(old(self).rec().sequence(), at as nat)
                &&& final(self).play().sequence() == Self::shifted(old(self).play().sequence(), at as nat)
                &&& final(self).rec().step() == old(self).rec().step()
                &&& final(self).play().step() == old(self).play().step()
            },
            final(self).transport() == old(self).transport(),
            final(self).tempo() == old(self).tempo(),
    {
        if at >= self.sequences.len() || self.sequences.len() == 1 {
            return ;
        }
        if at <= self.rec_head.sequence && self.rec_head.sequence > 0 {
            self.rec_head.sequence = self.rec_head.sequence - 1;
        }
        if at <= self.play_head.sequence && self.play_head.sequence > 0 {
            self.play_head.sequence = self.play_head.sequence - 1;
        }
        let _ = self.sequences.remove(at);
        proof {
            assert(self.seqs() =~= old(self).seqs().remove(at as int));
            assert(self.names() =~= old(self).names().remove(at as int));
            assert forall|i: int| 0 <= i < self.seqs().len() implies (#[trigger] self.seqs()[i]).len()
                > 0 by {
                if i < at {
                    assert(self.seqs()[i] == old(self).seqs()[i]);
                } else {
                    assert(self.seqs()[i] == old(self).seqs()[i + 1]);
                }
            }
        }
    }

    /// A copy of the sequence under the record head.
    pub fn get_sequence(&self) -> (r: Sequence)
        requires
            self.wf(),
        ensures
            r@ == self.seqs()[self.rec().sequence() as int],
            name_view(r.human_name) == self.names()[self.rec().sequence() as int],
    {
        self.sequences[self.rec_head.sequence].duplicate()
    }

    /// Moves the record head to sequence `seq`, counted around the sequences in
    /// either direction.
    pub fn set_rec_head_seq(&mut self, seq: i64)
        requires
            old(self).wf(),
        ensures
            final(self).wf(),
            final(self).rec().sequence() == seq as int % old(self).seqs().len() as int,
            final(self).rec().step() == old(self).rec().step(),
            final(self).seqs() == old(self).seqs(),
            final(self).names() == old(self).names(),
            final(self).play() == old(self).play(),
            final(self).transport() == old(self).transport(),
            final(self).tempo() == old(self).tempo(),
    {
        let len: u64 = self.sequences.len() as u64;
        let r: u64 = if seq >= 0 {
            proof {
                vstd::arithmetic::div_mod::lemma_mod_pos_bound(seq as int, len as int);
            }
            (seq as u64) % len
        } else {
            let a: u64 = (-(seq + 1)) as u64;
            let m: u64 = a % len;
            proof {
                let (ai, n) = (a as int, len as int);
                vstd::arithmetic::div_mod::lemma_fundamental_div_mod(ai, n);
                vstd::arithmetic::div_mod::lemma_mod_pos_bound(ai, n);
                let q = ai / n;
                assert(seq as int == (-(q + 1)) * n + (n - 1 - m)) by (nonlinear_arith)
                    requires
                        ai == n * q + m,
                        seq as int == -ai - 1,
                ;
                vstd::arithmetic::div_mod::lemma_fundamental_div_mod_converse_mod(
                    seq as int,
                    n,
                    -(q + 1),
                    n - 1 - m,
                );
            }
            len - 1 - m
        };
        self.rec_head.sequence = r as usize;
    }

    /// Moves the record head to `sequence` if it exists; otherwise nothing changes.
    pub fn set_sequence(&mut self, sequence: usize)
        requires
            old(self).wf(),
        ensures
            final(self).wf(),
            sequence < old(self).seqs().len() ==> final(self).rec().sequence() == sequence,
            sequence >= old(self).seqs().len() ==> final(self).rec() == old(self).rec(),
            final(self).rec().step() == old(self).rec().step(),
            final(self).seqs() == old(self).seqs(),
            final(self).names() == old(self).names(),
            final(self).play() == old(self).play(),
            final(self).transport() == old(self).transport(),
            final(self).tempo() == old(self).tempo(),
    {
        if sequence < self.sequences.len() {
            self.rec_head.set_sequence(sequence);
        }
    }

    /// Takes one MIDI event. The transport controllers move the record head's
    /// step and start or stop playing and recording. While recording, a note-on
    /// is recorded into the entry messages of the step under the record head and
    /// a note-off into its exit messages; recording a message whose slot is
    /// already taken removes what was there instead.
    pub fn midi_input(&mut self, event: MidiEvent)
        requires
            old(self).wf(),
        ensures
            final(self).wf(),
            final(self).names() == old(self).names(),
            final(self).play() == old(self).play(),
            final(self).rec().sequence() == old(self).rec().sequence(),
            final(self).tempo() == old(self).tempo(),
            match event {
                MidiEvent::ControlChange { controller, .. } => {
                    &&& final(self).transport() == transport_after(old(self).transport(), controller)
                    &&& final(self).rec().step() == cursor_after(
                        old(self).rec().step(),
                        old(self).rec_len(),
                        controller,
                    )
                    &&& final(self).seqs() == old(self).seqs()
                },
                _ => {
                    let s = old(self).rec().sequence() as int;
                    let t = old(self).rec().step() as int;
                    let q = old(self).seqs()[s];
                    &&& final(self).transport() == old(self).transport()
                    &&& final(self).rec().step() == old(self).rec().step()
                    &&& final(self).seqs() == if old(self).transport().recording && recorded(event) is Some
                        && t < q.len() {
                        let (m, on_enter) = recorded(event)->0;
                        let st = q[t];
                        old(self).seqs().update(
                            s,
                            q.update(
                                t,
                                if on_enter {
                                    (toggled(st.0, m), st.1)
                                } else {
                                    (st.0, toggled(st.1, m))
                                },
                            ),
                        )
                    } else {
                        old(self).seqs()
                    }
                },
            },
    {
        if let MidiEvent::ControlChange { controller, .. } = event {
            if controller == CC_STEP_BACK {
                self.rec_head.step = self.step_back();
            } else if controller == CC_STEP_ON {
                self.rec_head.step = self.step_on();
            } else if controller == CC_STOP {
                self.state.playing = false;
                self.state.recording = false;
            } else if controller == CC_PLAY {
                self.state.playing = true;
                self.state.recording = false;
            } else if controller == CC_RECORD {
                self.state.playing = false;
                self.state.recording = true;
            }
            return ;
        }
        if !self.state.recording {
            return ;
        }
        let (m, on_enter) = match event {
            MidiEvent::NoteOn { channel, note, velocity } => (
                (channel, StepCmd::Play { note, vel: velocity }),
                true,
            ),
            MidiEvent::NoteOff { channel, note, .. } => ((channel, StepCmd::Stop { note }), false),
            _ => {
                return ;
            },
        };
        let s: usize = self.rec_head.sequence;
        let t: usize = self.rec_head.step;
        proof {
            assert(self.sequences@[s as int]@ == self.seqs()[s as int]);
        }
        if t >= self.sequences[s].steps.len() {
            return ;
        }
        if on_enter {
            toggle(&mut self.sequences[s].steps[t].on_enter, m);
        } else {
            toggle(&mut self.sequences[s].steps[t].on_exit, m);
        }
        proof {
            let q = old(self).seqs()[s as int];
            let st = q[t as int];
            let nst = if on_enter {
                (toggled(st.0, m), st.1)
            } else {
                (st.0, toggled(st.1, m))
            };
            assert(self.sequences@[s as int]@ =~= q.update(t as int, nst));
            assert(self.seqs() =~= old(self).seqs().update(s as int, q.update(t as int, nst)));
            assert(self.names() =~= old(self).names());
            assert forall|i: int| 0 <= i < self.seqs().len() implies (#[trigger] self.seqs()[i]).len()
                > 0 by {
                if i != s {
                    assert(self.seqs()[i] == old(self).seqs()[i]);
                }
            }
        }
    }
}

} // verus!
