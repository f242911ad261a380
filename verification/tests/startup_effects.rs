use solarity_runtime::startup_effects::{EffectLoad, EffectPreparation, EffectStep};

#[test]
fn effects_load_in_order_and_missing_ones_keep_empty_slots() {
    let mut preparation: EffectPreparation<&str> = EffectPreparation::new();
    assert_eq!(preparation.next_path(), Some("XTextures/splash/splash.blp"));
    assert_eq!(preparation.receive(EffectLoad::Pending), EffectStep::Wait);
    assert_eq!(preparation.next_path(), Some("XTextures/splash/splash.blp"));
    assert_eq!(preparation.receive(EffectLoad::Loaded("splash")), EffectStep::Continue);
    assert_eq!(preparation.next_path(), Some("XTextures/splash/wake.blp"));
    assert_eq!(preparation.receive(EffectLoad::Missing), EffectStep::Continue);
    assert_eq!(preparation.next_path(), Some("Textures/WaterPoop02.blp"));
    assert_eq!(preparation.receive(EffectLoad::Loaded("water")), EffectStep::Continue);
    assert_eq!(preparation.next_path(), None);
    assert_eq!(preparation.finish(), vec![Some("splash"), None, Some("water")]);
}

#[test]
fn infrastructure_failure_is_fatal() {
    let mut preparation: EffectPreparation<u8> = EffectPreparation::new();
    assert_eq!(preparation.receive(EffectLoad::Failed), EffectStep::Fatal);
    assert_eq!(preparation.next_path(), Some("XTextures/splash/splash.blp"));
}
