use usfx_tester::params::{ParamKey, ParameterStore, State, MILLI};

#[test]
fn toggle_twice_restores_tag_and_magnitude() {
    let mut store = ParameterStore::new();
    store.increase(ParamKey::Crunch, 800);
    let before = store.crunch;
    store.toggle(ParamKey::Crunch);
    store.toggle(ParamKey::Crunch);
    assert_eq!(store.crunch, before);
    assert_eq!(store.crunch, State::Disabled(800));
}

#[test]
fn toggle_twice_restores_enabled_value() {
    let mut store = ParameterStore::new();
    assert_eq!(store.volume, State::Enabled(1000));
    store.toggle(ParamKey::Volume);
    assert_eq!(store.volume, State::Disabled(1000));
    store.toggle(ParamKey::Volume);
    assert_eq!(store.volume, State::Enabled(1000));
}

#[test]
fn adjust_clamps_to_zero_when_delta_exceeds_magnitude() {
    let mut store = ParameterStore::new();
    // attack starts at 0.1; a fast step of 1.0 overshoots
    assert_eq!(store.attack, State::Enabled(100));
    store.adjust(ParamKey::Attack, 1000);
    assert_eq!(store.attack, State::Enabled(0));
}

#[test]
fn adjust_clamps_to_zero_when_delta_equals_magnitude() {
    let mut store = ParameterStore::new();
    store.adjust(ParamKey::Attack, 100);
    assert_eq!(store.attack, State::Enabled(0));
}

#[test]
fn adjust_preserves_disabled_tag() {
    let mut store = ParameterStore::new();
    store.increase(ParamKey::Drive, 300);
    assert_eq!(store.drive, State::Disabled(300));
    store.adjust(ParamKey::Drive, 1000);
    assert_eq!(store.drive, State::Disabled(0));
}

#[test]
fn adjust_subtracts_when_magnitude_exceeds_delta() {
    let mut store = ParameterStore::new();
    store.adjust(ParamKey::Volume, 100);
    assert_eq!(store.volume, State::Enabled(900));
}

#[test]
fn increase_has_no_upper_clamp() {
    let mut store = ParameterStore::new();
    for _ in 0..100 {
        store.increase(ParamKey::Volume, 1000);
    }
    assert_eq!(store.volume, State::Enabled(101_000));
}

#[test]
fn increase_saturates_at_the_machine_word() {
    let mut store = ParameterStore::new();
    store.increase(ParamKey::Volume, u64::MAX);
    assert_eq!(store.volume, State::Enabled(u64::MAX));
}

#[test]
fn initial_store_matches_the_documented_defaults() {
    let store = ParameterStore::new();
    assert_eq!(store.volume, State::Enabled(1000));
    assert_eq!(store.attack, State::Enabled(100));
    assert_eq!(store.decay, State::Enabled(100));
    assert_eq!(store.sustain, State::Enabled(500));
    assert_eq!(store.release, State::Enabled(500));
    assert_eq!(store.freq, State::Enabled(500 * MILLI));
    assert_eq!(store.crunch, State::Disabled(0));
    assert_eq!(store.drive, State::Disabled(0));
}

#[test]
fn get_and_set_address_each_parameter() {
    let mut store = ParameterStore::new();
    store.set(ParamKey::Sustain, State::Disabled(42));
    assert_eq!(store.get(ParamKey::Sustain), State::Disabled(42));
    assert_eq!(store.sustain, State::Disabled(42));
    assert_eq!(store.get(ParamKey::Volume), State::Enabled(1000));
}
