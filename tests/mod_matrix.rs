use wavetable_synth::common::{
    EnvParam, LfoParam, LowPass, LowPassParam, ModMatrixDest, ModMatrixSrc, OscParam, N_MOD_SLOTS,
};
use wavetable_synth::mod_matrix::{ModMatrix, ModMatrixError, ModMatrixItem, MOD_MATRIX_SIZE};

fn item(src: ModMatrixSrc, dest: ModMatrixDest, amt: f32) -> ModMatrixItem<f32> {
    ModMatrixItem { src, dest, amt, bipolar: false }
}

#[test]
fn empty_matrix_routes_nothing() {
    let m: ModMatrix<f32> = ModMatrix::new();
    let r = m.resolve_routes(&vec![true, true, true]);
    assert_eq!(r.len(), N_MOD_SLOTS);
    assert!(r.iter().all(|s| s.is_none()));
}

#[test]
fn later_route_to_same_destination_wins() {
    let mut m = ModMatrix::new();
    let dest = ModMatrixDest::Osc { osc: 0, param: OscParam::Level };
    assert_eq!(m.set_entry(3, item(ModMatrixSrc::Velocity, dest, 0.5)), Ok(()));
    assert_eq!(m.set_entry(9, item(ModMatrixSrc::Lfo(0), dest, 0.25)), Ok(()));
    let r = m.resolve_routes(&vec![true, false, false]);
    let slot = dest.slot_index();
    assert_eq!(slot, 0);
    assert_eq!(r[slot], Some(9));
    assert_eq!(r.iter().filter(|s| s.is_some()).count(), 1);
    let winner = m.get_entry(9).as_ref().unwrap();
    assert_eq!(winner.amt, 0.25);
}

#[test]
fn route_to_switched_off_oscillator_writes_nothing() {
    let mut m = ModMatrix::new();
    let dest = ModMatrixDest::Osc { osc: 1, param: OscParam::Tune };
    assert_eq!(m.set_entry(0, item(ModMatrixSrc::Gate, dest, 1.0)), Ok(()));
    assert_eq!(m.resolve_routes(&vec![true, false, true])[dest.slot_index()], None);
    assert_eq!(m.resolve_routes(&vec![true, true, true])[dest.slot_index()], Some(0));
}

#[test]
fn different_destinations_keep_their_own_routes() {
    let mut m = ModMatrix::new();
    let cutoff = ModMatrixDest::LowPass { low_pass: LowPass::LP2, param: LowPassParam::Cutoff };
    let speed = ModMatrixDest::Lfo { lfo: 3, param: LfoParam::Speed };
    let rel = ModMatrixDest::Env { env: 4, param: EnvParam::Rel };
    m.set_entry(0, item(ModMatrixSrc::Env(0), cutoff, 1.0)).unwrap();
    m.set_entry(1, item(ModMatrixSrc::Macro1, speed, 1.0)).unwrap();
    m.set_entry(2, item(ModMatrixSrc::ModWheel, rel, 1.0)).unwrap();
    m.set_entry(3, item(ModMatrixSrc::PitchWheel, ModMatrixDest::SynthVolume, 1.0)).unwrap();
    let r = m.resolve_routes(&vec![true, true, true]);
    assert_eq!(r[cutoff.slot_index()], Some(0));
    assert_eq!(r[speed.slot_index()], Some(1));
    assert_eq!(r[rel.slot_index()], Some(2));
    assert_eq!(r[ModMatrixDest::SynthVolume.slot_index()], Some(3));
    assert_eq!(ModMatrixDest::SynthVolume.slot_index(), N_MOD_SLOTS - 1);
    assert_eq!(rel.slot_index(), 6 + 16 + 3);
    assert_eq!(r.iter().filter(|s| s.is_some()).count(), 4);
}

#[test]
fn invalid_edits_are_refused() {
    let mut m = ModMatrix::new();
    let dest = ModMatrixDest::SynthVolume;
    assert_eq!(
        m.set_entry(MOD_MATRIX_SIZE, item(ModMatrixSrc::Gate, dest, 1.0)),
        Err(ModMatrixError::IndexOutOfRange)
    );
    assert_eq!(
        m.set_entry(0, item(ModMatrixSrc::Env(5), dest, 1.0)),
        Err(ModMatrixError::InvalidSource)
    );
    assert_eq!(
        m.set_entry(0, item(ModMatrixSrc::Lfo(4), dest, 1.0)),
        Err(ModMatrixError::InvalidSource)
    );
    assert_eq!(
        m.set_entry(0, item(ModMatrixSrc::Gate, ModMatrixDest::Env { env: 5, param: EnvParam::Atk }, 1.0)),
        Err(ModMatrixError::InvalidDestination)
    );
    assert_eq!(
        m.set_entry(0, item(ModMatrixSrc::Gate, ModMatrixDest::ModMatrixEntryModAmt(1), 1.0)),
        Err(ModMatrixError::InvalidDestination)
    );
    assert!(m.get_entry(0).is_none());
    assert_eq!(m.set_entry(0, item(ModMatrixSrc::Gate, dest, 1.0)), Ok(()));
    assert_eq!(m.clear_entry(0), Ok(()));
    assert!(m.get_entry(0).is_none());
    assert_eq!(m.clear_entry(MOD_MATRIX_SIZE), Err(ModMatrixError::IndexOutOfRange));
}

#[test]
fn source_and_destination_validity() {
    assert!(ModMatrixSrc::Env(4).is_valid());
    assert!(!ModMatrixSrc::Env(5).is_valid());
    assert!(ModMatrixSrc::Lfo(3).is_valid());
    assert!(ModMatrixSrc::Velocity.is_valid());
    assert!(ModMatrixDest::Osc { osc: 2, param: OscParam::Level }.is_routable());
    assert!(!ModMatrixDest::Osc { osc: 3, param: OscParam::Level }.is_routable());
    assert!(!ModMatrixDest::Lfo { lfo: 4, param: LfoParam::Speed }.is_routable());
}
