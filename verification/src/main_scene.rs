//! The session scene: routes one key event (with its modifier flags) to
//! theme selection, the save slots, or the controller, and drives the
//! preview recomputation cycle.

use vstd::prelude::*;
use crate::controller::{Controller, Key, PreviewState};
use crate::sample::{spec_build, SampleSpec};
use crate::settings::{spec_name, Settings, SLOT_COUNT};

verus! {

/// What the surrounding shell must do after a key event.
#[derive(Clone, Debug, PartialEq)]
pub enum SceneAction {
    Nothing,
    Play(SampleSpec),
    SaveAndExit,
}

/// Modifier keys carry no action of their own.
pub open spec fn spec_is_modifier(key: Key) -> bool {
    match key {
        Key::ShiftLeft | Key::ShiftRight | Key::ControlLeft | Key::ControlRight | Key::AltLeft
            | Key::AltRight => true,
        _ => false,
    }
}

pub fn is_modifier(key: Key) -> (r: bool)
    ensures
        r == spec_is_modifier(key),
{
    match key {
        Key::ShiftLeft | Key::ShiftRight | Key::ControlLeft | Key::ControlRight | Key::AltLeft
            | Key::AltRight => true,
        _ => false,
    }
}

/// The save slot a digit key addresses, if any.
pub open spec fn digit_slot(key: Key) -> Option<usize> {
    match key {
        Key::Digit1 => Some(0usize),
        Key::Digit2 => Some(1usize),
        Key::Digit3 => Some(2usize),
        Key::Digit4 => Some(3usize),
        Key::Digit5 => Some(4usize),
        Key::Digit6 => Some(5usize),
        Key::Digit7 => Some(6usize),
        Key::Digit8 => Some(7usize),
        Key::Digit9 => Some(8usize),
        Key::Digit0 => Some(9usize),
        _ => None,
    }
}

/// The slot index of a digit key.
pub fn func_key_idx(key: Key) -> (r: usize)
    requires
        digit_slot(key) is Some,
    ensures
        r == digit_slot(key)->0,
        r < SLOT_COUNT,
{
    match key {
        Key::Digit1 => 0,
        Key::Digit2 => 1,
        Key::Digit3 => 2,
        Key::Digit4 => 3,
        Key::Digit5 => 4,
        Key::Digit6 => 5,
        Key::Digit7 => 6,
        Key::Digit8 => 7,
        Key::Digit9 => 8,
        _ => 9,
    }
}

/// The theme index one step to the left, stopping at the first.
pub open spec fn theme_left(t: usize) -> usize {
    if t > 0 {
        (t - 1) as usize
    } else {
        0usize
    }
}

/// The theme index one step to the right, stopping at the last.
pub open spec fn theme_right(t: usize, count: usize) -> usize
    recommends
        count >= 1,
{
    if t + 1 < count {
        (t + 1) as usize
    } else {
        (count - 1) as usize
    }
}

/// The interactive session: controller plus persisted settings, with the
/// number of themes the shell offers.
#[derive(Clone, Debug, PartialEq)]
pub struct MainScene {
    pub controller: Controller,
    pub settings: Settings,
    pub theme_count: usize,
}

impl MainScene {
    pub open spec fn wf(self) -> bool {
        &&& self.settings.wf()
        &&& self.theme_count >= 1
        &&& self.settings.theme < self.theme_count
    }

    /// Starts a session from restored settings, clamping a stale theme
    /// index to the themes actually available.
    pub fn new(settings: Settings, theme_count: usize) -> (s: MainScene)
        requires
            settings.wf(),
            theme_count >= 1,
        ensures
            s.wf(),
            s.theme_count == theme_count,
            s.settings.saved == settings.saved,
            s.settings.theme == (if settings.theme < theme_count {
                settings.theme as int
            } else {
                theme_count - 1
            }),
            s.controller.items == crate::params::initial_store(),
            s.controller.osc_type == crate::sample::OscillatorKind::Sine,
            s.controller.cycle == crate::sample::DutyCycleKind::Half,
            s.controller.preview is Dirty,
            s.controller.waveform.error,
    {
        let mut settings = settings;
        if settings.theme >= theme_count {
            settings.theme = theme_count - 1;
        }
        MainScene { controller: Controller::new(), settings, theme_count }
    }

    /// Snapshots the current sound into the slot.
    pub fn save_sound(&mut self, idx: usize, when: u64)
        requires
            old(self).wf(),
            idx < SLOT_COUNT,
        ensures
            final(self).wf(),
            final(self).controller == old(self).controller,
            final(self).theme_count == old(self).theme_count,
            final(self).settings.theme == old(self).settings.theme,
            final(self).settings.saved@ == old(self).settings.saved@.update(
                idx as int,
                final(self).settings.saved@[idx as int],
            ),
            final(self).settings.saved@[idx as int] is Some,
            ({
                let rec = final(self).settings.saved@[idx as int]->0;
                &&& rec == old(self).controller.items.spec_snapshot(
                    when,
                    old(self).controller.osc_type,
                    old(self).controller.cycle,
                    rec.name,
                )
                &&& rec.name@ == spec_name(rec)
            }),
    {
        let data = self.controller.create_save_data(when);
        self.settings.save_sound(idx, data);
    }

    /// Restores the sound in the slot; an empty slot is a silent no-op.
    pub fn load_sound(&mut self, idx: usize)
        requires
            old(self).wf(),
            idx < SLOT_COUNT,
        ensures
            final(self).wf(),
            old(self).settings.saved@[idx as int] is Some ==> *final(self) == (MainScene {
                controller: Controller {
                    items: old(self).controller.items.spec_load_from(
                        old(self).settings.saved@[idx as int]->0,
                    ),
                    preview: PreviewState::Dirty,
                    ..old(self).controller
                },
                ..*old(self)
            }),
            old(self).settings.saved@[idx as int] is None ==> *final(self) == *old(self),
    {
        match &self.settings.saved[idx] {
            Some(sound) => {
                self.controller.load(sound);
            },
            None => (),
        }
    }

    /// Empties the slot; the other slots are untouched.
    pub fn delete_sound(&mut self, idx: usize)
        requires
            old(self).wf(),
            idx < SLOT_COUNT,
        ensures
            final(self).wf(),
            final(self).controller == old(self).controller,
            final(self).theme_count == old(self).theme_count,
            final(self).settings.theme == old(self).settings.theme,
            final(self).settings.saved@ == old(self).settings.saved@.update(idx as int, None),
    {
        self.settings.delete_sound(idx);
    }

    /// Routes one key event. `shift` is the fast-step and load modifier,
    /// `ctrl` the delete modifier, `when` the timestamp a save would
    /// carry, and `input_allowed` the shell's input-rate gate (the quit
    /// key is honoured even while gated).
    pub fn on_key_down(&mut self, key: Key, shift: bool, ctrl: bool, when: u64, input_allowed: bool) -> (r: SceneAction)
        requires
            old(self).wf(),
        ensures
            final(self).wf(),
            final(self).theme_count == old(self).theme_count,
            spec_is_modifier(key) ==> *final(self) == *old(self) && r is Nothing,
            !spec_is_modifier(key) && !input_allowed ==> *final(self) == *old(self) && r == (
            if key is Escape {
                SceneAction::SaveAndExit
            } else {
                SceneAction::Nothing
            }),
            !spec_is_modifier(key) && input_allowed && key is ArrowLeft ==> r is Nothing
                && *final(self) == (MainScene {
                settings: Settings {
                    theme: theme_left(old(self).settings.theme),
                    ..old(self).settings
                },
                ..*old(self)
            }),
            !spec_is_modifier(key) && input_allowed && key is ArrowRight ==> r is Nothing
                && *final(self) == (MainScene {
                settings: Settings {
                    theme: theme_right(old(self).settings.theme, old(self).theme_count),
                    ..old(self).settings
                },
                ..*old(self)
            }),
            ({
                let pre = *old(self);
                let post = *final(self);
                let active = !spec_is_modifier(key) && input_allowed && !(key is ArrowLeft) && !(
                key is ArrowRight);
                let slot = digit_slot(key);
                &&& (active && slot is None ==> post.settings == pre.settings && post.controller
                    == pre.controller.spec_key_pressed(key, shift))
                &&& (active && slot is Some && ctrl ==> post.controller == pre.controller
                    && post.settings.theme == pre.settings.theme && post.settings.saved@
                    == pre.settings.saved@.update(slot->0 as int, None))
                &&& (active && slot is Some && !ctrl && shift ==> post.settings == pre.settings
                    && post.controller == (if pre.settings.saved@[slot->0 as int] is Some {
                    Controller {
                        items: pre.controller.items.spec_load_from(
                            pre.settings.saved@[slot->0 as int]->0,
                        ),
                        preview: PreviewState::Dirty,
                        ..pre.controller
                    }
                } else {
                    pre.controller
                }))
                &&& (active && slot is Some && !ctrl && !shift ==> post.controller
                    == pre.controller && post.settings.theme == pre.settings.theme
                    && post.settings.saved@ == pre.settings.saved@.update(
                    slot->0 as int,
                    post.settings.saved@[slot->0 as int],
                ) && post.settings.saved@[slot->0 as int] is Some && ({
                    let rec = post.settings.saved@[slot->0 as int]->0;
                    &&& rec == pre.controller.items.spec_snapshot(
                        when,
                        pre.controller.osc_type,
                        pre.controller.cycle,
                        rec.name,
                    )
                    &&& rec.name@ == spec_name(rec)
                }))
                &&& (active ==> r == (if key is Escape {
                    SceneAction::SaveAndExit
                } else if key is Space {
                    SceneAction::Play(
                        spec_build(
                            pre.controller.items,
                            pre.controller.osc_type,
                            pre.controller.cycle,
                        ),
                    )
                } else {
                    SceneAction::Nothing
                }))
            }),
    {
        if is_modifier(key) {
            return SceneAction::Nothing;
        }
        let mut play: Option<SampleSpec> = None;
        if input_allowed {
            if let Key::ArrowLeft = key {
                if self.settings.theme > 0 {
                    self.settings.theme = self.settings.theme - 1;
                }
                return SceneAction::Nothing;
            }
            if let Key::ArrowRight = key {
                if self.settings.theme + 1 < self.theme_count {
                    self.settings.theme = self.settings.theme + 1;
                }
                return SceneAction::Nothing;
            }
            match digit_slot_of(key) {
                Some(idx) => {
                    if ctrl {
                        self.delete_sound(idx);
                    } else if shift {
                        self.load_sound(idx);
                    } else {
                        self.save_sound(idx, when);
                    }
                },
                None => (),
            }
            play = self.controller.key_pressed(key, shift);
        }
        if let Key::Escape = key {
            return SceneAction::SaveAndExit;
        }
        match play {
            Some(s) => SceneAction::Play(s),
            None => SceneAction::Nothing,
        }
    }

    /// Hands out the synthesis request once per change, moving the preview
    /// from dirty back to clean; the shell renders it and installs the
    /// result with `set_waveform` before the next frame.
    pub fn update(&mut self) -> (r: Option<SampleSpec>)
        requires
            old(self).wf(),
        ensures
            final(self).wf(),
            old(self).controller.preview is Dirty ==> {
                &&& *final(self) == (MainScene {
                    controller: Controller {
                        preview: PreviewState::Clean,
                        ..old(self).controller
                    },
                    ..*old(self)
                })
                &&& r == Some(
                    spec_build(
                        old(self).controller.items,
                        old(self).controller.osc_type,
                        old(self).controller.cycle,
                    ),
                )
            },
            old(self).controller.preview is Clean ==> *final(self) == *old(self) && r is None,
    {
        self.controller.update()
    }
}

fn digit_slot_of(key: Key) -> (r: Option<usize>)
    ensures
        r == digit_slot(key),
        r is Some ==> r->0 < SLOT_COUNT,
{
    match key {
        Key::Digit1 => Some(0),
        Key::Digit2 => Some(1),
        Key::Digit3 => Some(2),
        Key::Digit4 => Some(3),
        Key::Digit5 => Some(4),
        Key::Digit6 => Some(5),
        Key::Digit7 => Some(6),
        Key::Digit8 => Some(7),
        Key::Digit9 => Some(8),
        Key::Digit0 => Some(9),
        _ => None,
    }
}

} // verus!
