use wavetable_synth::common::{ModMatrixDest, OscParam};
use wavetable_synth::engine::{pitch_bend_value, Engine, EngineAction, EngineError, MidiEvent};

fn engine(polyphony: usize) -> Engine {
    match Engine::new(polyphony) {
        Ok(e) => e,
        Err(_) => panic!("engine refused"),
    }
}

#[test]
fn zero_polyphony_is_refused() {
    assert!(matches!(Engine::new(0), Err(EngineError::ZeroPolyphony)));
    assert_eq!(engine(4).polyphony(), 4);
}

#[test]
fn fifth_note_into_four_voices_is_dropped() {
    let mut e = engine(4);
    for (k, note) in [60u8, 62, 64, 65].iter().enumerate() {
        assert_eq!(e.play(*note, 100), Some(k));
    }
    assert_eq!(e.play(67, 100), None);
    let held: Vec<Option<u8>> = (0..4).map(|i| e.voice(i).playing).collect();
    assert_eq!(held, vec![Some(60), Some(62), Some(64), Some(65)]);
    for i in 0..4 {
        assert_eq!(e.voice(i).velocity, Some(100));
        assert!(e.voice(i).env_held);
    }
}

#[test]
fn single_note_takes_first_voice_only() {
    let mut e = engine(4);
    assert_eq!(e.play(60, 100), Some(0));
    assert!(!e.is_idle(0));
    for i in 1..4 {
        assert!(e.is_idle(i));
    }
}

#[test]
fn stop_releases_first_voice_with_the_note() {
    let mut e = engine(3);
    e.play(60, 90);
    e.play(62, 90);
    e.play(60, 80);
    assert_eq!(e.stop(60), Some(0));
    assert!(!e.voice(0).env_held);
    assert_eq!(e.voice(0).playing, Some(60));
    assert!(e.voice(2).env_held);
    assert_eq!(e.stop(61), None);
}

#[test]
fn released_voice_is_reused_only_after_decay() {
    let mut e = engine(1);
    e.play(60, 100);
    e.stop(60);
    assert_eq!(e.play(62, 100), None);
    assert!(!e.settle(0, false, false));
    assert_eq!(e.voice(0).playing, Some(60));
    assert!(e.settle(0, false, true));
    assert!(e.is_idle(0));
    assert_eq!(e.play(62, 100), Some(0));
}

#[test]
fn held_voice_is_not_freed_by_silence() {
    let mut e = engine(1);
    e.play(60, 100);
    assert!(!e.settle(0, true, true));
    assert_eq!(e.voice(0).playing, Some(60));
}

#[test]
fn midi_note_events_dispatch() {
    let mut e = engine(2);
    assert_eq!(
        e.midi_input(MidiEvent::NoteOn { channel: 0, note: 60, velocity: 100 }),
        EngineAction::Pressed { voice: 0, note: 60, velocity: 100 }
    );
    assert_eq!(
        e.midi_input(MidiEvent::NoteOn { channel: 0, note: 64, velocity: 90 }),
        EngineAction::Pressed { voice: 1, note: 64, velocity: 90 }
    );
    assert_eq!(
        e.midi_input(MidiEvent::NoteOn { channel: 0, note: 67, velocity: 90 }),
        EngineAction::Dropped
    );
    assert_eq!(
        e.midi_input(MidiEvent::NoteOff { channel: 0, note: 64, velocity: 0 }),
        EngineAction::Released { voice: 1 }
    );
    assert_eq!(
        e.midi_input(MidiEvent::NoteOff { channel: 0, note: 70, velocity: 0 }),
        EngineAction::Ignored
    );
    assert_eq!(e.midi_input(MidiEvent::Other), EngineAction::Ignored);
}

#[test]
fn controller_routes() {
    let mut e = engine(1);
    let dest = ModMatrixDest::Osc { osc: 1, param: OscParam::Level };
    assert_eq!(
        e.midi_input(MidiEvent::ControlChange { controller: 7, value: 64 }),
        EngineAction::Ignored
    );
    assert_eq!(e.set_cc_route(7, Some(dest)), Ok(()));
    assert_eq!(e.cc_route(7), Some(dest));
    assert_eq!(
        e.midi_input(MidiEvent::ControlChange { controller: 7, value: 64 }),
        EngineAction::Modulate { dest, value: 64 }
    );
    assert_eq!(e.set_cc_route(255, Some(dest)), Err(EngineError::ControllerOutOfRange));
    assert_eq!(
        e.set_cc_route(8, Some(ModMatrixDest::Osc { osc: 3, param: OscParam::Tune })),
        Err(EngineError::InvalidDestination)
    );
    assert_eq!(
        e.set_cc_route(8, Some(ModMatrixDest::ModMatrixEntryModAmt(0))),
        Err(EngineError::InvalidDestination)
    );
    assert_eq!(e.cc_route(8), None);
    assert_eq!(e.set_cc_route(7, None), Ok(()));
    assert_eq!(e.cc_route(7), None);
}

#[test]
fn pitch_bend_decoding() {
    assert_eq!(pitch_bend_value(0, 64), 0);
    assert_eq!(pitch_bend_value(0, 0), -8192);
    assert_eq!(pitch_bend_value(127, 127), 8191);
    assert_eq!(pitch_bend_value(1, 64), 1);
    assert_eq!(pitch_bend_value(0x80 | 1, 0x80 | 64), 1);
    let mut e = engine(1);
    assert_eq!(
        e.midi_input(MidiEvent::PitchBend { lsb: 0, msb: 96 }),
        EngineAction::Bend { amount: 4096 }
    );
}

#[test]
fn fresh_engine_voices_are_idle() {
    let e = engine(4);
    for i in 0..4 {
        assert!(e.is_idle(i));
        assert_eq!(e.voice(i).playing, None);
    }
    for c in 0..=254u8 {
        assert_eq!(e.cc_route(c), None);
    }
}
