use wavetable_synth::effects::{ChorusIndex, ChorusParam, ReverbParam};
use wavetable_synth::sequencer::{SequenceIndex, StepperState};

#[test]
fn effect_parameter_names() {
    assert_eq!(ChorusParam::Volume.name(), "Vol.");
    assert_eq!(ChorusParam::Speed.name(), "Speed");
    assert_eq!(ReverbParam::Gain.name(), "Gain");
    assert_eq!(ReverbParam::Decay.name(), "Decay");
    assert_eq!(ReverbParam::Damping.name(), "Damping");
    assert_eq!(ReverbParam::Cutoff.name(), "Cutoff");
}

#[test]
fn chorus_positions_wrap() {
    let mut c = ChorusIndex::new(10, 4);
    assert_eq!((c.write_pos(), c.read_pos(), c.size()), (0, 0, 10));
    for _ in 0..9 {
        c.advance_write();
    }
    assert_eq!(c.write_pos(), 9);
    c.advance_write();
    assert_eq!(c.write_pos(), 0);
    c.advance_read();
    c.advance_read();
    assert_eq!(c.read_pos(), 8);
    c.advance_read();
    assert_eq!(c.read_pos(), 2);
    c.set_step(23);
    c.advance_read();
    assert_eq!(c.read_pos(), 5);
}

#[test]
fn sequence_index_moves() {
    let mut i = SequenceIndex::default();
    assert_eq!(i.get_sequence(), 0);
    i.next_sequence();
    i.next_sequence();
    assert_eq!(i.get_sequence(), 2);
    i.prev_sequence();
    assert_eq!(i.get_sequence(), 1);
    i.set_sequence(7);
    assert_eq!(i.get_sequence(), 7);
    let s = StepperState::default();
    assert!(!s.recording && !s.playing);
}
