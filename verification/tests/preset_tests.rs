use usfx_tester::params::{ParamKey, ParameterStore, State};
use usfx_tester::sample::{build, DutyCycleKind, OscillatorKind};
use usfx_tester::settings::{Settings, SoundSave, SLOT_COUNT};

#[test]
fn snapshot_then_load_reproduces_the_store() {
    let mut store = ParameterStore::new();
    store.increase(ParamKey::Volume, 300);
    store.adjust(ParamKey::Attack, 50);
    store.toggle(ParamKey::Crunch);
    store.increase(ParamKey::Crunch, 800);
    store.increase(ParamKey::Freq, 20_000);
    let preset = store.snapshot_to_preset(1234, OscillatorKind::Saw, DutyCycleKind::Third);
    let mut restored = ParameterStore::new();
    restored.load_from(&preset);
    assert_eq!(restored, store);
}

#[test]
fn load_overwrites_magnitudes_and_keeps_untagged_tags() {
    let mut preset = SoundSave::new_blank(0);
    preset.volume = 700;
    preset.attack = 50;
    preset.decay = 60;
    preset.sustain = 70;
    preset.release = 80;
    preset.freq = 750;
    preset.crunch = 250;
    preset.crunch_enabled = true;
    preset.drive = 350;
    preset.drive_enabled = false;
    let mut store = ParameterStore::new();
    store.toggle(ParamKey::Volume);
    store.load_from(&preset);
    // the volume tag is not part of the record, so it stays disabled
    assert_eq!(store.volume, State::Disabled(700));
    assert_eq!(store.attack, State::Enabled(50));
    assert_eq!(store.freq, State::Enabled(750_000));
    assert_eq!(store.crunch, State::Enabled(250));
    assert_eq!(store.drive, State::Disabled(350));
}

#[test]
fn blank_record_is_all_zero() {
    let blank = SoundSave::new_blank(99);
    assert_eq!(blank.name, "");
    assert_eq!(blank.when, 99);
    assert_eq!(blank.volume, 0);
    assert_eq!(blank.freq, 0);
    assert!(!blank.crunch_enabled);
    assert!(!blank.drive_enabled);
    assert_eq!(blank.osc, OscillatorKind::Sine);
    assert_eq!(blank.duty, DutyCycleKind::Half);
}

#[test]
fn generated_label_has_the_fixed_format() {
    let store = ParameterStore::new();
    let preset = store.snapshot_to_preset(0, OscillatorKind::Sine, DutyCycleKind::Half);
    assert_eq!(preset.name, "sin  500 0.1 0.1 0.5 0.5  -   -  1/2");
}

#[test]
fn generated_label_shows_enabled_effects_and_wide_frequencies() {
    let mut store = ParameterStore::new();
    store.toggle(ParamKey::Crunch);
    store.increase(ParamKey::Crunch, 800);
    store.increase(ParamKey::Freq, 11_500_000);
    let preset = store.snapshot_to_preset(0, OscillatorKind::Noise, DutyCycleKind::Eight);
    assert_eq!(preset.name, "noi 12000 0.1 0.1 0.5 0.5 0.8  -  1/8");
}

#[test]
fn label_rounds_magnitudes_to_one_decimal() {
    let mut preset = SoundSave::new_blank(0);
    preset.attack = 849;
    preset.decay = 850;
    preset.sustain = 12_345;
    preset.release = 5;
    preset.osc = OscillatorKind::Triangle;
    preset.duty = DutyCycleKind::Quarter;
    preset.fix_name();
    assert_eq!(preset.name, "tri    0 0.8 0.9 12.3 0.0  -   -  1/4");
}

#[test]
fn timestamp_formats_as_calendar_date_and_minute() {
    let mut preset = SoundSave::new_blank(0);
    assert_eq!(preset.formatted_when(), "1970/01/01 00:00");
    preset.when = 1_000_000_000;
    assert_eq!(preset.formatted_when(), "2001/09/09 01:46");
}

#[test]
fn freq_accessor_returns_the_stored_hertz() {
    let mut preset = SoundSave::new_blank(0);
    preset.freq = 500;
    assert_eq!(preset.freq(), 500);
}

#[test]
fn disabled_effect_is_omitted_from_the_spec_even_with_magnitude() {
    let mut store = ParameterStore::new();
    store.increase(ParamKey::Crunch, 800);
    assert_eq!(store.crunch, State::Disabled(800));
    let spec = build(&store, OscillatorKind::Sine, DutyCycleKind::Half);
    assert_eq!(spec.crunch, None);
    assert_eq!(spec.drive, None);
}

#[test]
fn default_store_builds_the_documented_spec() {
    let store = ParameterStore::new();
    let spec = build(&store, OscillatorKind::Sine, DutyCycleKind::Half);
    assert_eq!(spec.osc_type, OscillatorKind::Sine);
    assert_eq!(spec.cycle, DutyCycleKind::Half);
    assert_eq!(spec.volume, 1000);
    assert_eq!(spec.attack, 100);
    assert_eq!(spec.decay, 100);
    assert_eq!(spec.sustain, 500);
    assert_eq!(spec.release, 500);
    assert_eq!(spec.freq, 500);
    assert_eq!(spec.crunch, None);
    assert_eq!(spec.drive, None);
}

#[test]
fn settings_start_with_ten_empty_slots() {
    let settings = Settings::new();
    assert_eq!(settings.theme, 0);
    assert_eq!(settings.saved.len(), SLOT_COUNT);
    assert!(settings.saved.iter().all(|s| s.is_none()));
}

#[test]
fn save_and_delete_touch_only_their_slot() {
    let mut settings = Settings::new();
    let store = ParameterStore::new();
    let a = store.snapshot_to_preset(1, OscillatorKind::Sine, DutyCycleKind::Half);
    let b = store.snapshot_to_preset(2, OscillatorKind::Saw, DutyCycleKind::Third);
    settings.save_sound(0, a.clone());
    settings.save_sound(4, b.clone());
    settings.save_sound(2, b.clone());
    settings.delete_sound(2);
    assert_eq!(settings.saved[0].as_ref(), Some(&a));
    assert!(settings.saved[1].is_none());
    assert!(settings.saved[2].is_none());
    assert!(settings.saved[3].is_none());
    assert_eq!(settings.saved[4].as_ref(), Some(&b));
    for i in 5..SLOT_COUNT {
        assert!(settings.saved[i].is_none());
    }
}
