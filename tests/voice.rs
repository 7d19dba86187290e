use wavetable_synth::voice::{EnvPhase, VoiceState};

#[test]
fn fresh_voice_is_idle() {
    let v = VoiceState::new();
    assert!(v.is_idle());
    assert_eq!(v.playing, None);
}

#[test]
fn press_release_decay_frees_voice() {
    let mut v = VoiceState::new();
    v.press(69, 127);
    assert!(!v.is_idle());
    assert_eq!(v.playing, Some(69));
    v.release();
    assert_eq!(v.playing, Some(69));
    assert!(!v.is_idle());
    assert!(!v.settle(false, false));
    assert!(v.settle(false, true));
    assert_eq!(v.playing, None);
    assert!(v.is_idle());
    assert_eq!(v.velocity, Some(127));
}

#[test]
fn envelope_phase_transitions() {
    assert_eq!(EnvPhase::Attack.next(true, false, false), EnvPhase::Decay);
    assert_eq!(EnvPhase::Attack.next(false, true, false), EnvPhase::Attack);
    assert_eq!(EnvPhase::Decay.next(false, true, false), EnvPhase::Sustain);
    assert_eq!(EnvPhase::Decay.next(true, false, false), EnvPhase::Decay);
    assert_eq!(EnvPhase::Sustain.next(false, true, false), EnvPhase::Sustain);
    assert_eq!(EnvPhase::Sustain.next(false, false, true), EnvPhase::Release);
    assert_eq!(EnvPhase::Release.next(false, false, true), EnvPhase::Release);
    assert_eq!(EnvPhase::Unpressed.next(false, false, true), EnvPhase::Release);
    assert_eq!(EnvPhase::Unpressed.next(false, false, false), EnvPhase::Unpressed);
}

#[test]
fn envelope_pressed_phases() {
    assert!(!EnvPhase::Unpressed.pressed());
    assert!(EnvPhase::Attack.pressed());
    assert!(EnvPhase::Decay.pressed());
    assert!(EnvPhase::Sustain.pressed());
    assert!(!EnvPhase::Release.pressed());
}
