use usfx_tester::controller::{bindings, Controller, Key, PreviewState};
use usfx_tester::main_scene::{func_key_idx, is_modifier, MainScene, SceneAction};
use usfx_tester::params::{ParamKey, State};
use usfx_tester::sample::{DutyCycleKind, OscillatorKind};
use usfx_tester::settings::Settings;

#[test]
fn keys_step_their_parameter_by_a_tenth() {
    let mut c = Controller::new();
    assert!(c.key_pressed(Key::Q, false).is_none());
    assert_eq!(c.items.volume, State::Enabled(900));
    c.key_pressed(Key::W, false);
    c.key_pressed(Key::W, false);
    assert_eq!(c.items.volume, State::Enabled(1100));
}

#[test]
fn fast_mode_steps_ten_times_as_far() {
    let mut c = Controller::new();
    c.key_pressed(Key::W, true);
    assert_eq!(c.items.volume, State::Enabled(2000));
}

#[test]
fn frequency_steps_by_ten_hertz() {
    let mut c = Controller::new();
    c.key_pressed(Key::V, false);
    assert_eq!(c.items.freq, State::Enabled(510_000));
    c.key_pressed(Key::C, true);
    assert_eq!(c.items.freq, State::Enabled(410_000));
}

#[test]
fn toggle_keys_flip_the_effects() {
    let mut c = Controller::new();
    c.key_pressed(Key::T, false);
    assert_eq!(c.items.crunch, State::Enabled(0));
    c.key_pressed(Key::G, false);
    assert_eq!(c.items.drive, State::Enabled(0));
    c.key_pressed(Key::T, false);
    assert_eq!(c.items.crunch, State::Disabled(0));
}

#[test]
fn oscillator_and_duty_keys_select() {
    let mut c = Controller::new();
    c.key_pressed(Key::P, false);
    assert_eq!(c.osc_type, OscillatorKind::Saw);
    c.key_pressed(Key::K, false);
    assert_eq!(c.osc_type, OscillatorKind::Square);
    c.key_pressed(Key::Comma, false);
    assert_eq!(c.cycle, DutyCycleKind::Eight);
}

#[test]
fn space_plays_the_current_sound_without_changing_it() {
    let mut c = Controller::new();
    let before = c.clone();
    let played = c.key_pressed(Key::Space, false).expect("play request");
    assert_eq!(c, before);
    assert_eq!(played.freq, 500);
    assert_eq!(played.volume, 1000);
}

#[test]
fn crunch_magnitude_survives_disable_and_reenable() {
    let mut c = Controller::new();
    c.key_pressed(Key::T, false); // enable crunch
    for _ in 0..8 {
        c.key_pressed(Key::U, false); // up to 0.8
    }
    assert_eq!(c.items.crunch, State::Enabled(800));
    c.key_pressed(Key::T, false); // disable
    let spec = c.create_sample();
    assert_eq!(spec.crunch, None);
    c.key_pressed(Key::T, false); // re-enable
    let spec = c.create_sample();
    assert_eq!(spec.crunch, Some(800));
}

#[test]
fn any_change_dirties_the_preview_and_update_cleans_it() {
    let mut c = Controller::new();
    assert_eq!(c.preview, PreviewState::Dirty);
    let first = c.update();
    assert!(first.is_some());
    assert_eq!(c.preview, PreviewState::Clean);
    assert!(c.update().is_none());
    c.key_pressed(Key::W, false);
    assert_eq!(c.preview, PreviewState::Dirty);
    assert!(c.update().is_some());
    assert!(c.update().is_none());
}

#[test]
fn binding_table_lists_the_eight_controls_in_order() {
    let items = bindings();
    assert_eq!(items.len(), 8);
    assert_eq!(items[0].key, ParamKey::Volume);
    assert_eq!(items[0].dec, 'Q');
    assert_eq!(items[0].inc, 'W');
    assert_eq!(items[5].key, ParamKey::Freq);
    assert_eq!(items[6].key, ParamKey::Crunch);
    assert_eq!(items[6].toggle, Some('T'));
    assert_eq!(items[7].key, ParamKey::Drive);
    assert_eq!(items[7].toggle_key, Some(Key::G));
}

#[test]
fn modifier_keys_do_nothing() {
    assert!(is_modifier(Key::ShiftLeft));
    assert!(is_modifier(Key::AltRight));
    assert!(!is_modifier(Key::Q));
    let mut scene = MainScene::new(Settings::new(), 5);
    let before = scene.clone();
    let r = scene.on_key_down(Key::ShiftLeft, false, false, 0, true);
    assert_eq!(r, SceneAction::Nothing);
    assert_eq!(scene, before);
}

#[test]
fn digit_keys_address_the_ten_slots() {
    assert_eq!(func_key_idx(Key::Digit1), 0);
    assert_eq!(func_key_idx(Key::Digit9), 8);
    assert_eq!(func_key_idx(Key::Digit0), 9);
}

#[test]
fn arrow_keys_move_the_theme_within_bounds() {
    let mut scene = MainScene::new(Settings::new(), 3);
    assert_eq!(scene.settings.theme, 0);
    scene.on_key_down(Key::ArrowLeft, false, false, 0, true);
    assert_eq!(scene.settings.theme, 0);
    scene.on_key_down(Key::ArrowRight, false, false, 0, true);
    scene.on_key_down(Key::ArrowRight, false, false, 0, true);
    scene.on_key_down(Key::ArrowRight, false, false, 0, true);
    assert_eq!(scene.settings.theme, 2);
}

#[test]
fn stale_theme_index_is_clamped_at_startup() {
    let mut settings = Settings::new();
    settings.theme = 9;
    let scene = MainScene::new(settings, 5);
    assert_eq!(scene.settings.theme, 4);
}

#[test]
fn escape_requests_save_and_exit_even_while_gated() {
    let mut scene = MainScene::new(Settings::new(), 5);
    assert_eq!(
        scene.on_key_down(Key::Escape, false, false, 0, false),
        SceneAction::SaveAndExit
    );
    assert_eq!(
        scene.on_key_down(Key::Escape, false, false, 0, true),
        SceneAction::SaveAndExit
    );
}

#[test]
fn gated_input_changes_nothing() {
    let mut scene = MainScene::new(Settings::new(), 5);
    let before = scene.clone();
    let r = scene.on_key_down(Key::W, false, false, 0, false);
    assert_eq!(r, SceneAction::Nothing);
    assert_eq!(scene, before);
}

#[test]
fn space_returns_a_play_action() {
    let mut scene = MainScene::new(Settings::new(), 5);
    match scene.on_key_down(Key::Space, false, false, 0, true) {
        SceneAction::Play(spec) => {
            assert_eq!(spec.freq, 500);
            assert_eq!(spec.osc_type, OscillatorKind::Sine);
        },
        other => panic!("expected a play action, got {:?}", other),
    }
}

#[test]
fn slot_save_delete_sequence_leaves_the_others_alone() {
    let mut scene = MainScene::new(Settings::new(), 5);
    // fill slots 1, 2 and 4 through 10; slot 3 gets saved then deleted
    for key in [
        Key::Digit1,
        Key::Digit2,
        Key::Digit4,
        Key::Digit5,
        Key::Digit6,
        Key::Digit7,
        Key::Digit8,
        Key::Digit9,
        Key::Digit0,
    ] {
        scene.on_key_down(key, false, false, 7, true);
    }
    scene.on_key_down(Key::Digit3, false, false, 7, true);
    assert!(scene.settings.saved[2].is_some());
    scene.on_key_down(Key::Digit3, false, true, 7, true);
    assert!(scene.settings.saved[2].is_none());
    for idx in [0usize, 1, 3, 4, 5, 6, 7, 8, 9] {
        assert!(scene.settings.saved[idx].is_some(), "slot {} was disturbed", idx + 1);
    }
}

#[test]
fn loading_a_saved_slot_restores_the_parameters() {
    let mut scene = MainScene::new(Settings::new(), 5);
    scene.on_key_down(Key::W, true, false, 0, true); // volume 2.0
    scene.on_key_down(Key::Digit5, false, false, 0, true); // save slot 5
    scene.on_key_down(Key::Q, false, false, 0, true); // volume 1.9
    assert_eq!(scene.controller.items.volume, State::Enabled(1900));
    scene.on_key_down(Key::Digit5, true, false, 0, true); // load slot 5
    assert_eq!(scene.controller.items.volume, State::Enabled(2000));
    assert_eq!(scene.controller.preview, PreviewState::Dirty);
}

#[test]
fn loading_an_empty_slot_is_a_silent_no_op() {
    let mut scene = MainScene::new(Settings::new(), 5);
    scene.update();
    let before = scene.clone();
    let r = scene.on_key_down(Key::Digit8, true, false, 0, true);
    assert_eq!(r, SceneAction::Nothing);
    assert_eq!(scene, before);
}

#[test]
fn update_hands_out_the_request_once_per_change() {
    let mut scene = MainScene::new(Settings::new(), 5);
    let spec = scene.update().expect("initial preview request");
    assert_eq!(spec.freq, 500);
    assert!(scene.update().is_none());
    scene.on_key_down(Key::V, false, false, 0, true);
    let spec = scene.update().expect("request after a change");
    assert_eq!(spec.freq, 510);
}
