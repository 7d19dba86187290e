use wavetable_synth::engine::MidiEvent;
use wavetable_synth::sequencer::{SequencerIntake, StepCmd, DEFAULT_BPM, DEFAULT_STEPS};

fn note_on(channel: u8, note: u8, velocity: u8) -> MidiEvent {
    MidiEvent::NoteOn { channel, note, velocity }
}

fn cc(controller: u8) -> MidiEvent {
    MidiEvent::ControlChange { controller, value: 127 }
}

#[test]
fn new_sequencer_layout() {
    let s = SequencerIntake::new();
    assert_eq!(s.len(), 4);
    assert_eq!(s.bpm(), DEFAULT_BPM);
    assert!(!s.state().playing && !s.state().recording);
    assert_eq!(s.get_sequence().steps.len(), DEFAULT_STEPS);
    let step = s.get_step(false).unwrap();
    assert!(step.on_enter.is_empty() && step.on_exit.is_empty());
    assert_eq!(s.get_cursor(true), 0);
    assert_eq!(s.get_name(), "0");
}

#[test]
fn sequences_wrap_both_ways() {
    let mut s = SequencerIntake::new();
    s.prev_sequence();
    assert_eq!(s.rec_head().get_sequence(), 3);
    s.next_sequence();
    assert_eq!(s.rec_head().get_sequence(), 0);
    s.set_rec_head_seq(-1);
    assert_eq!(s.rec_head().get_sequence(), 3);
    s.set_rec_head_seq(-4);
    assert_eq!(s.rec_head().get_sequence(), 0);
    s.set_rec_head_seq(9);
    assert_eq!(s.rec_head().get_sequence(), 1);
    assert_eq!(s.get_name(), "1");
    s.set_sequence(7);
    assert_eq!(s.rec_head().get_sequence(), 1);
    s.set_sequence(2);
    assert_eq!(s.rec_head().get_sequence(), 2);
}

#[test]
fn steps_wrap_and_resize() {
    let mut s = SequencerIntake::new();
    s.prev_step();
    assert_eq!(s.get_cursor(false), DEFAULT_STEPS - 1);
    s.next_step();
    assert_eq!(s.get_cursor(false), 0);
    s.add_step();
    assert_eq!(s.get_sequence().steps.len(), DEFAULT_STEPS + 1);
    for _ in 0..DEFAULT_STEPS + 5 {
        s.del_step();
    }
    assert_eq!(s.get_sequence().steps.len(), 1);
    s.prev_step();
    assert_eq!(s.get_cursor(false), 0);
}

#[test]
fn step_past_end_of_shorter_sequence() {
    let mut s = SequencerIntake::new();
    for _ in 0..DEFAULT_STEPS - 1 {
        s.del_step();
    }
    s.next_sequence();
    s.prev_step();
    assert_eq!(s.get_cursor(false), DEFAULT_STEPS - 1);
    s.prev_sequence();
    assert!(s.get_step(false).is_none());
    s.next_step();
    assert_eq!(s.get_cursor(false), 0);
    assert!(s.get_step(false).is_some());
}

#[test]
fn deleting_sequences_shifts_heads() {
    let mut s = SequencerIntake::new();
    s.set_sequence(2);
    s.del_sequence(1);
    assert_eq!(s.len(), 3);
    assert_eq!(s.rec_head().get_sequence(), 1);
    assert_eq!(s.play_head().get_sequence(), 0);
    s.del_sequence(0);
    assert_eq!(s.rec_head().get_sequence(), 0);
    s.del_sequence(5);
    assert_eq!(s.len(), 2);
    s.del_sequence(0);
    s.del_sequence(0);
    assert_eq!(s.len(), 1);
    s.new_sequence();
    assert_eq!(s.len(), 2);
}

#[test]
fn transport_controllers() {
    let mut s = SequencerIntake::new();
    s.midi_input(cc(118));
    assert!(s.state().playing && !s.state().recording);
    s.midi_input(cc(119));
    assert!(!s.state().playing && s.state().recording);
    s.midi_input(cc(117));
    assert!(!s.state().playing && !s.state().recording);
    s.midi_input(cc(115));
    assert_eq!(s.get_cursor(false), DEFAULT_STEPS - 1);
    s.midi_input(cc(116));
    s.midi_input(cc(116));
    assert_eq!(s.get_cursor(false), 1);
    s.midi_input(cc(20));
    assert_eq!(s.get_cursor(false), 1);
}

#[test]
fn recording_toggles_messages() {
    let mut s = SequencerIntake::new();
    s.midi_input(note_on(0, 60, 100));
    assert!(s.get_step(false).unwrap().on_enter.is_empty());
    s.midi_input(cc(119));
    s.midi_input(note_on(0, 60, 100));
    s.midi_input(note_on(1, 60, 90));
    s.midi_input(MidiEvent::NoteOff { channel: 0, note: 60, velocity: 0 });
    let step = s.get_step(false).unwrap();
    assert_eq!(
        step.on_enter,
        vec![(0, StepCmd::Play { note: 60, vel: 100 }), (1, StepCmd::Play { note: 60, vel: 90 })]
    );
    assert_eq!(step.on_exit, vec![(0, StepCmd::Stop { note: 60 })]);
    s.midi_input(note_on(0, 60, 20));
    let step = s.get_step(false).unwrap();
    assert_eq!(step.on_enter, vec![(1, StepCmd::Play { note: 60, vel: 90 })]);
    s.midi_input(cc(116));
    s.midi_input(note_on(0, 62, 80));
    assert_eq!(s.get_step(false).unwrap().on_enter, vec![(0, StepCmd::Play { note: 62, vel: 80 })]);
}

#[test]
fn play_head_beats() {
    let mut s = SequencerIntake::new();
    for _ in 0..DEFAULT_STEPS + 2 {
        s.inc_step();
    }
    assert_eq!(s.get_cursor(true), 2);
    s.rewind();
    assert_eq!(s.get_cursor(true), 0);
    s.set_bpm(90);
    assert_eq!(s.bpm(), 90);
}

#[test]
fn recording_a_note_twice_undoes_it() {
    let mut s = SequencerIntake::new();
    s.midi_input(cc(119));
    s.midi_input(MidiEvent::NoteOff { channel: 2, note: 40, velocity: 0 });
    s.midi_input(MidiEvent::NoteOff { channel: 2, note: 40, velocity: 64 });
    let step = s.get_step(false).unwrap();
    assert!(step.on_exit.is_empty());
    assert!(step.on_enter.is_empty());
}
