//! The interactive controller: key bindings, one step per discrete input
//! event, oscillator and duty-cycle selection, and the dirty flag that
//! drives waveform recomputation.

use vstd::prelude::*;
use crate::params::{ParamKey, ParameterStore, State};
use crate::sample::{build, spec_build, DutyCycleKind, OscillatorKind, SampleSpec};
use crate::settings::SoundSave;
use crate::waveform::Waveform;

verus! {

/// A logical key identity, as delivered by the windowing layer.
#[derive(Clone, Copy, Debug, PartialEq, Eq, Structural)]
pub enum Key {
    Q,
    W,
    E,
    R,
    T,
    Y,
    U,
    I,
    O,
    P,
    A,
    S,
    D,
    F,
    G,
    H,
    J,
    K,
    L,
    Z,
    X,
    C,
    V,
    B,
    N,
    M,
    Comma,
    Space,
    Digit1,
    Digit2,
    Digit3,
    Digit4,
    Digit5,
    Digit6,
    Digit7,
    Digit8,
    Digit9,
    Digit0,
    ArrowLeft,
    ArrowRight,
    Escape,
    ShiftLeft,
    ShiftRight,
    ControlLeft,
    ControlRight,
    AltLeft,
    AltRight,
}

/// Whether a parameter steps by the continuous or the coarse integer unit.
#[derive(Clone, Copy, Debug, PartialEq, Eq, Structural)]
pub enum ItemType {
    Float,
    Int,
}

/// What a bound key does to its parameter.
#[derive(Clone, Copy, Debug, PartialEq, Eq, Structural)]
pub enum BindKind {
    Dec,
    Inc,
    Toggle,
}

/// One row of the control table: the labels shown beside a parameter and
/// the keys bound to it.
#[derive(Clone, Copy, Debug, PartialEq, Eq, Structural)]
pub struct Item {
    pub dec: char,
    pub inc: char,
    pub toggle: Option<char>,
    pub dec_key: Key,
    pub inc_key: Key,
    pub toggle_key: Option<Key>,
    pub key: ParamKey,
    pub item_type: ItemType,
}

impl Item {
    /// A continuous parameter without a toggle.
    pub fn new(dec: char, inc: char, dec_key: Key, inc_key: Key, key: ParamKey) -> (r: Item)
        ensures
            r == (Item {
                dec,
                inc,
                toggle: None,
                dec_key,
                inc_key,
                toggle_key: None,
                key,
                item_type: ItemType::Float,
            }),
    {
        Item {
            dec,
            inc,
            toggle: None,
            dec_key,
            inc_key,
            toggle_key: None,
            key,
            item_type: ItemType::Float,
        }
    }

    /// A continuous parameter with a toggle key.
    pub fn new_tog(
        tog: char,
        dec: char,
        inc: char,
        tog_key: Key,
        dec_key: Key,
        inc_key: Key,
        key: ParamKey,
    ) -> (r: Item)
        ensures
            r == (Item {
                dec,
                inc,
                toggle: Some(tog),
                dec_key,
                inc_key,
                toggle_key: Some(tog_key),
                key,
                item_type: ItemType::Float,
            }),
    {
        Item {
            dec,
            inc,
            toggle: Some(tog),
            dec_key,
            inc_key,
            toggle_key: Some(tog_key),
            key,
            item_type: ItemType::Float,
        }
    }

    /// An integer-stepped parameter without a toggle.
    pub fn new_int(dec: char, inc: char, dec_key: Key, inc_key: Key, key: ParamKey) -> (r: Item)
        ensures
            r == (Item {
                dec,
                inc,
                toggle: None,
                dec_key,
                inc_key,
                toggle_key: None,
                key,
                item_type: ItemType::Int,
            }),
    {
        Item {
            dec,
            inc,
            toggle: None,
            dec_key,
            inc_key,
            toggle_key: None,
            key,
            item_type: ItemType::Int,
        }
    }
}

/// The control table in rendering order.
pub open spec fn spec_bindings() -> Seq<Item> {
    seq![
        Item {
            dec: 'Q',
            inc: 'W',
            toggle: None,
            dec_key: Key::Q,
            inc_key: Key::W,
            toggle_key: None,
            key: ParamKey::Volume,
            item_type: ItemType::Float,
        },
        Item {
            dec: 'A',
            inc: 'S',
            toggle: None,
            dec_key: Key::A,
            inc_key: Key::S,
            toggle_key: None,
            key: ParamKey::Attack,
            item_type: ItemType::Float,
        },
        Item {
            dec: 'Z',
            inc: 'X',
            toggle: None,
            dec_key: Key::Z,
            inc_key: Key::X,
            toggle_key: None,
            key: ParamKey::Decay,
            item_type: ItemType::Float,
        },
        Item {
            dec: 'E',
            inc: 'R',
            toggle: None,
            dec_key: Key::E,
            inc_key: Key::R,
            toggle_key: None,
            key: ParamKey::Sustain,
            item_type: ItemType::Float,
        },
        Item {
            dec: 'D',
            inc: 'F',
            toggle: None,
            dec_key: Key::D,
            inc_key: Key::F,
            toggle_key: None,
            key: ParamKey::Release,
            item_type: ItemType::Float,
        },
        Item {
            dec: 'C',
            inc: 'V',
            toggle: None,
            dec_key: Key::C,
            inc_key: Key::V,
            toggle_key: None,
            key: ParamKey::Freq,
            item_type: ItemType::Int,
        },
        Item {
            dec: 'Y',
            inc: 'U',
            toggle: Some('T'),
            dec_key: Key::Y,
            inc_key: Key::U,
            toggle_key: Some(Key::T),
            key: ParamKey::Crunch,
            item_type: ItemType::Float,
        },
        Item {
            dec: 'H',
            inc: 'J',
            toggle: Some('G'),
            dec_key: Key::H,
            inc_key: Key::J,
            toggle_key: Some(Key::G),
            key: ParamKey::Drive,
            item_type: ItemType::Float,
        },
    ]
}

/// The control table, for rendering.
pub fn bindings() -> (r: Vec<Item>)
    ensures
        r@ == spec_bindings(),
{
    let mut v: Vec<Item> = Vec::new();
    v.push(Item::new('Q', 'W', Key::Q, Key::W, ParamKey::Volume));
    v.push(Item::new('A', 'S', Key::A, Key::S, ParamKey::Attack));
    v.push(Item::new('Z', 'X', Key::Z, Key::X, ParamKey::Decay));
    v.push(Item::new('E', 'R', Key::E, Key::R, ParamKey::Sustain));
    v.push(Item::new('D', 'F', Key::D, Key::F, ParamKey::Release));
    v.push(Item::new_int('C', 'V', Key::C, Key::V, ParamKey::Freq));
    v.push(Item::new_tog('T', 'Y', 'U', Key::T, Key::Y, Key::U, ParamKey::Crunch));
    v.push(Item::new_tog('G', 'H', 'J', Key::G, Key::H, Key::J, ParamKey::Drive));
    proof {
        assert(v@ =~= spec_bindings());
    }
    v
}

/// Which step unit a parameter uses.
pub open spec fn param_type(k: ParamKey) -> ItemType {
    match k {
        ParamKey::Freq => ItemType::Int,
        _ => ItemType::Float,
    }
}

/// The step applied by one discrete input event: a tenth of a unit for
/// continuous parameters, ten whole units for integer-stepped ones, both
/// ten times larger in fast mode.
pub open spec fn spec_step(t: ItemType, fast: bool) -> u64 {
    let base: u64 = match t {
        ItemType::Float => 100u64,
        ItemType::Int => 10000u64,
    };
    if fast {
        (base * 10) as u64
    } else {
        base
    }
}

fn step_size(t: ItemType, fast: bool) -> (r: u64)
    ensures
        r == spec_step(t, fast),
{
    let base: u64 = match t {
        ItemType::Float => 100,
        ItemType::Int => 10000,
    };
    if fast {
        base * 10
    } else {
        base
    }
}

/// The parameter operation a key is bound to, if any.
pub open spec fn param_binding(key: Key) -> Option<(ParamKey, BindKind)> {
    match key {
        Key::Q => Some((ParamKey::Volume, BindKind::Dec)),
        Key::W => Some((ParamKey::Volume, BindKind::Inc)),
        Key::A => Some((ParamKey::Attack, BindKind::Dec)),
        Key::S => Some((ParamKey::Attack, BindKind::Inc)),
        Key::Z => Some((ParamKey::Decay, BindKind::Dec)),
        Key::X => Some((ParamKey::Decay, BindKind::Inc)),
        Key::E => Some((ParamKey::Sustain, BindKind::Dec)),
        Key::R => Some((ParamKey::Sustain, BindKind::Inc)),
        Key::D => Some((ParamKey::Release, BindKind::Dec)),
        Key::F => Some((ParamKey::Release, BindKind::Inc)),
        Key::C => Some((ParamKey::Freq, BindKind::Dec)),
        Key::V => Some((ParamKey::Freq, BindKind::Inc)),
        Key::T => Some((ParamKey::Crunch, BindKind::Toggle)),
        Key::Y => Some((ParamKey::Crunch, BindKind::Dec)),
        Key::U => Some((ParamKey::Crunch, BindKind::Inc)),
        Key::G => Some((ParamKey::Drive, BindKind::Toggle)),
        Key::H => Some((ParamKey::Drive, BindKind::Dec)),
        Key::J => Some((ParamKey::Drive, BindKind::Inc)),
        _ => None,
    }
}

fn param_binding_of(key: Key) -> (r: Option<(ParamKey, BindKind)>)
    ensures
        r == param_binding(key),
{
    match key {
        Key::Q => Some((ParamKey::Volume, BindKind::Dec)),
        Key::W => Some((ParamKey::Volume, BindKind::Inc)),
        Key::A => Some((ParamKey::Attack, BindKind::Dec)),
        Key::S => Some((ParamKey::Attack, BindKind::Inc)),
        Key::Z => Some((ParamKey::Decay, BindKind::Dec)),
        Key::X => Some((ParamKey::Decay, BindKind::Inc)),
        Key::E => Some((ParamKey::Sustain, BindKind::Dec)),
        Key::R => Some((ParamKey::Sustain, BindKind::Inc)),
        Key::D => Some((ParamKey::Release, BindKind::Dec)),
        Key::F => Some((ParamKey::Release, BindKind::Inc)),
        Key::C => Some((ParamKey::Freq, BindKind::Dec)),
        Key::V => Some((ParamKey::Freq, BindKind::Inc)),
        Key::T => Some((ParamKey::Crunch, BindKind::Toggle)),
        Key::Y => Some((ParamKey::Crunch, BindKind::Dec)),
        Key::U => Some((ParamKey::Crunch, BindKind::Inc)),
        Key::G => Some((ParamKey::Drive, BindKind::Toggle)),
        Key::H => Some((ParamKey::Drive, BindKind::Dec)),
        Key::J => Some((ParamKey::Drive, BindKind::Inc)),
        _ => None,
    }
}

/// The oscillator a key selects, if any.
pub open spec fn osc_binding(key: Key) -> Option<OscillatorKind> {
    match key {
        Key::I => Some(OscillatorKind::Sine),
        Key::O => Some(OscillatorKind::Triangle),
        Key::P => Some(OscillatorKind::Saw),
        Key::K => Some(OscillatorKind::Square),
        Key::L => Some(OscillatorKind::Noise),
        _ => None,
    }
}

fn osc_binding_of(key: Key) -> (r: Option<OscillatorKind>)
    ensures
        r == osc_binding(key),
{
    match key {
        Key::I => Some(OscillatorKind::Sine),
        Key::O => Some(OscillatorKind::Triangle),
        Key::P => Some(OscillatorKind::Saw),
        Key::K => Some(OscillatorKind::Square),
        Key::L => Some(OscillatorKind::Noise),
        _ => None,
    }
}

/// The duty cycle a key selects, if any.
pub open spec fn duty_binding(key: Key) -> Option<DutyCycleKind> {
    match key {
        Key::B => Some(DutyCycleKind::Half),
        Key::N => Some(DutyCycleKind::Third),
        Key::M => Some(DutyCycleKind::Quarter),
        Key::Comma => Some(DutyCycleKind::Eight),
        _ => None,
    }
}

fn duty_binding_of(key: Key) -> (r: Option<DutyCycleKind>)
    ensures
        r == duty_binding(key),
{
    match key {
        Key::B => Some(DutyCycleKind::Half),
        Key::N => Some(DutyCycleKind::Third),
        Key::M => Some(DutyCycleKind::Quarter),
        Key::Comma => Some(DutyCycleKind::Eight),
        _ => None,
    }
}

/// Whether the preview still reflects the parameters: every mutation moves
/// it to `Dirty`, a recomputation moves it back to `Clean`.
#[derive(Clone, Copy, Debug, PartialEq, Eq, Structural)]
pub enum PreviewState {
    Clean,
    Dirty,
}

/// The interactive state: the parameter store, the selected oscillator and
/// duty cycle, the cached preview and its freshness.
#[derive(Clone, Debug, PartialEq)]
pub struct Controller {
    pub items: ParameterStore,
    pub osc_type: OscillatorKind,
    pub cycle: DutyCycleKind,
    pub waveform: Waveform,
    pub preview: PreviewState,
}

impl Controller {
    /// The controller state after one key press (the play effect aside).
    pub open spec fn spec_key_pressed(self, key: Key, fast: bool) -> Controller {
        let s1 = match param_binding(key) {
            Some(b) => {
                let items = match b.1 {
                    BindKind::Dec => self.items.spec_adjust(b.0, spec_step(param_type(b.0), fast)),
                    BindKind::Inc => self.items.spec_increase(
                        b.0,
                        spec_step(param_type(b.0), fast),
                    ),
                    BindKind::Toggle => self.items.spec_toggle(b.0),
                };
                Controller { items, preview: PreviewState::Dirty, ..self }
            },
            None => self,
        };
        let s2 = match osc_binding(key) {
            Some(o) => Controller { osc_type: o, preview: PreviewState::Dirty, ..s1 },
            None => s1,
        };
        match duty_binding(key) {
            Some(d) => Controller { cycle: d, preview: PreviewState::Dirty, ..s2 },
            None => s2,
        }
    }

    /// The freshly constructed controller, preview pending.
    pub fn new() -> (c: Controller)
        ensures
            c.items == crate::params::initial_store(),
            c.osc_type == OscillatorKind::Sine,
            c.cycle == DutyCycleKind::Half,
            c.preview is Dirty,
            c.waveform.error,
            c.waveform.points@.len() == 0,
            c.waveform.sample_count == 0,
            c.waveform.sample_rate == 1,
    {
        let empty: Vec<crate::waveform::PcmSample> = Vec::new();
        Controller {
            items: ParameterStore::new(),
            osc_type: OscillatorKind::Sine,
            cycle: DutyCycleKind::Half,
            waveform: Waveform::new(empty, 1, 1, 1),
            preview: PreviewState::Dirty,
        }
    }

    /// Applies one discrete key event: one step, toggle or selection, and
    /// the play request on the play key. Any change dirties the preview.
    pub fn key_pressed(&mut self, key: Key, fast: bool) -> (play: Option<SampleSpec>)
        ensures
            *final(self) == old(self).spec_key_pressed(key, fast),
            play == if key is Space {
                Some(
                    spec_build(old(self).items, old(self).osc_type, old(self).cycle),
                )
            } else {
                None::<SampleSpec>
            },
    {
        match param_binding_of(key) {
            Some(b) => {
                let delta = step_size(
                    match b.0 {
                        ParamKey::Freq => ItemType::Int,
                        _ => ItemType::Float,
                    },
                    fast,
                );
                match b.1 {
                    BindKind::Dec => self.items.adjust(b.0, delta),
                    BindKind::Inc => self.items.increase(b.0, delta),
                    BindKind::Toggle => self.items.toggle(b.0),
                }
                self.preview = PreviewState::Dirty;
            },
            None => (),
        }
        match osc_binding_of(key) {
            Some(o) => {
                self.osc_type = o;
                self.preview = PreviewState::Dirty;
            },
            None => (),
        }
        match duty_binding_of(key) {
            Some(d) => {
                self.cycle = d;
                self.preview = PreviewState::Dirty;
            },
            None => (),
        }
        if let Key::Space = key {
            Some(build(&self.items, self.osc_type, self.cycle))
        } else {
            None
        }
    }

    /// The synthesis request for the current parameters.
    pub fn create_sample(&self) -> (s: SampleSpec)
        ensures
            s == spec_build(self.items, self.osc_type, self.cycle),
    {
        build(&self.items, self.osc_type, self.cycle)
    }

    /// Overwrites the parameters from a saved record and dirties the
    /// preview; the oscillator and duty-cycle selections stay.
    pub fn load(&mut self, sound: &SoundSave)
        ensures
            *final(self) == (Controller {
                items: old(self).items.spec_load_from(*sound),
                preview: PreviewState::Dirty,
                ..*old(self)
            }),
    {
        self.items.load_from(sound);
        self.preview = PreviewState::Dirty;
    }

    /// Snapshots the parameters into a saved record, label included.
    pub fn create_save_data(&self, when: u64) -> (s: SoundSave)
        ensures
            s == self.items.spec_snapshot(when, self.osc_type, self.cycle, s.name),
            s.name@ == crate::settings::spec_name(
                self.items.spec_snapshot(when, self.osc_type, self.cycle, s.name),
            ),
    {
        self.items.snapshot_to_preset(when, self.osc_type, self.cycle)
    }

    /// Hands out the synthesis request once per change: on a dirty preview
    /// the flag goes clean and the request to re-render is returned.
    pub fn update(&mut self) -> (r: Option<SampleSpec>)
        ensures
            old(self).preview is Dirty ==> {
                &&& *final(self) == (Controller { preview: PreviewState::Clean, ..*old(self) })
                &&& r == Some(
                    spec_build(old(self).items, old(self).osc_type, old(self).cycle),
                )
            },
            old(self).preview is Clean ==> *final(self) == *old(self) && r is None,
    {
        match self.preview {
            PreviewState::Dirty => {
                self.preview = PreviewState::Clean;
                Some(build(&self.items, self.osc_type, self.cycle))
            },
            PreviewState::Clean => None,
        }
    }

    /// Installs a freshly rendered preview.
    pub fn set_waveform(&mut self, w: Waveform)
        ensures
            *final(self) == (Controller { waveform: w, ..*old(self) }),
    {
        self.waveform = w;
    }
}

} // verus!
