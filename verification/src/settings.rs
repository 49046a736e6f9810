//! Persisted presets: the flattened save record that round-trips a
//! parameter store, the auto-generated label, and the bank of save slots.

use vstd::prelude::*;
use vstd::string::StringExecFns;
use vstd::string::StrSliceExecFns;
use vstd::arithmetic::div_mod::lemma_fundamental_div_mod;
use vstd::arithmetic::div_mod::lemma_div_is_ordered;
use crate::label::{fixed1, fixed1_string, padded4, padded4_string};
use crate::params::{ParameterStore, State, MILLI};
use crate::sample::{DutyCycleKind, OscillatorKind};

verus! {

/// Number of save slots.
pub const SLOT_COUNT: usize = 10;

/// A saved sound: name, timestamp (seconds since the Unix epoch), and a
/// flattened copy of every controllable magnitude and flag. Magnitudes are
/// in thousandths of a unit; the frequency is a whole number of hertz.
#[derive(Clone, Debug, PartialEq)]
pub struct SoundSave {
    pub name: String,
    pub when: u64,
    pub volume: u64,
    pub attack: u64,
    pub decay: u64,
    pub sustain: u64,
    pub release: u64,
    pub freq: u64,
    pub crunch: u64,
    pub crunch_enabled: bool,
    pub drive: u64,
    pub drive_enabled: bool,
    pub osc: OscillatorKind,
    pub duty: DutyCycleKind,
}

/// Three-letter label of an oscillator kind.
pub open spec fn osc_label(o: OscillatorKind) -> Seq<char> {
    match o {
        OscillatorKind::Sine => seq!['s', 'i', 'n'],
        OscillatorKind::Saw => seq!['s', 'a', 'w'],
        OscillatorKind::Triangle => seq!['t', 'r', 'i'],
        OscillatorKind::Square => seq!['s', 'q', 'u'],
        OscillatorKind::Noise => seq!['n', 'o', 'i'],
    }
}

/// Label of a duty cycle kind.
pub open spec fn duty_label(d: DutyCycleKind) -> Seq<char> {
    match d {
        DutyCycleKind::Eight => seq!['1', '/', '8'],
        DutyCycleKind::Quarter => seq!['1', '/', '4'],
        DutyCycleKind::Third => seq!['1', '/', '3'],
        DutyCycleKind::Half => seq!['1', '/', '2'],
    }
}

/// A distortion column: the magnitude while enabled, a dash while not.
pub open spec fn effect_label(m: nat, enabled: bool) -> Seq<char> {
    if enabled {
        fixed1(m)
    } else {
        seq![' ', '-', ' ']
    }
}

/// The fixed-format label: oscillator, frequency, the four envelope
/// stages, the two effect columns, duty cycle, space-separated.
pub open spec fn spec_name(s: SoundSave) -> Seq<char> {
    osc_label(s.osc) + seq![' '] + padded4(s.freq as nat) + seq![' '] + fixed1(s.attack as nat)
        + seq![' '] + fixed1(s.decay as nat) + seq![' '] + fixed1(s.sustain as nat) + seq![' ']
        + fixed1(s.release as nat) + seq![' '] + effect_label(s.crunch as nat, s.crunch_enabled)
        + seq![' '] + effect_label(s.drive as nat, s.drive_enabled) + seq![' '] + duty_label(
        s.duty,
    )
}

fn osc_label_str(o: OscillatorKind) -> (r: &'static str)
    ensures
        r@ == osc_label(o),
{
    proof {
        reveal_strlit("sin");
        reveal_strlit("saw");
        reveal_strlit("tri");
        reveal_strlit("squ");
        reveal_strlit("noi");
    }
    let r: &'static str = match o {
        OscillatorKind::Sine => "sin",
        OscillatorKind::Saw => "saw",
        OscillatorKind::Triangle => "tri",
        OscillatorKind::Square => "squ",
        OscillatorKind::Noise => "noi",
    };
    proof {
        assert(r@ =~= osc_label(o));
    }
    r
}

fn duty_label_str(d: DutyCycleKind) -> (r: &'static str)
    ensures
        r@ == duty_label(d),
{
    proof {
        reveal_strlit("1/8");
        reveal_strlit("1/4");
        reveal_strlit("1/3");
        reveal_strlit("1/2");
    }
    let r: &'static str = match d {
        DutyCycleKind::Eight => "1/8",
        DutyCycleKind::Quarter => "1/4",
        DutyCycleKind::Third => "1/3",
        DutyCycleKind::Half => "1/2",
    };
    proof {
        assert(r@ =~= duty_label(d));
    }
    r
}

fn effect_label_string(m: u64, enabled: bool) -> (r: String)
    ensures
        r@ == effect_label(m as nat, enabled),
{
    if enabled {
        fixed1_string(m)
    } else {
        proof {
            reveal_strlit(" - ");
            assert(" - "@ =~= seq![' ', '-', ' ']);
        }
        String::from_str(" - ")
    }
}

/// The display form of a timestamp, `%Y/%m/%d %H:%M` of the calendar
/// date the seconds since the Unix epoch fall on: a function of the
/// timestamp alone.
pub uninterp spec fn date_label_of(when: u64) -> Seq<char>;

/// Relies on chrono's `DateTime::from_timestamp` and `format`: both are
/// deterministic in the timestamp (the format has no locale or zone
/// dependence), so the result depends on the argument alone.
#[verifier::external_body]
fn format_timestamp(when: u64) -> (r: String)
    ensures
        r@ == date_label_of(when),
{
    match chrono::DateTime::from_timestamp(when as i64, 0) {
        Some(date) => date.format("%Y/%m/%d %H:%M").to_string(),
        None => String::new(),
    }
}

impl SoundSave {
    /// A fresh record with everything zeroed or defaulted.
    pub fn new_blank(when: u64) -> (s: SoundSave)
        ensures
            s.name@ == Seq::<char>::empty(),
            s.when == when,
            s.volume == 0,
            s.attack == 0,
            s.decay == 0,
            s.sustain == 0,
            s.release == 0,
            s.freq == 0,
            s.crunch == 0,
            s.crunch_enabled == false,
            s.drive == 0,
            s.drive_enabled == false,
            s.osc == OscillatorKind::Sine,
            s.duty == DutyCycleKind::Half,
    {
        SoundSave {
            name: String::new(),
            when,
            volume: 0,
            attack: 0,
            decay: 0,
            sustain: 0,
            release: 0,
            freq: 0,
            crunch: 0,
            crunch_enabled: false,
            drive: 0,
            drive_enabled: false,
            osc: OscillatorKind::Sine,
            duty: DutyCycleKind::Half,
        }
    }

    /// Regenerates the label from the current fields.
    pub fn fix_name(&mut self)
        ensures
            final(self).name@ == spec_name(*old(self)),
            *final(self) == (SoundSave { name: final(self).name, ..*old(self) }),
    {
        proof {
            reveal_strlit(" ");
            assert(" "@ =~= seq![' ']);
        }
        let mut s = String::from_str(osc_label_str(self.osc));
        s.append(" ");
        let freq_part = padded4_string(self.freq);
        s.append(freq_part.as_str());
        s.append(" ");
        let attack_part = fixed1_string(self.attack);
        s.append(attack_part.as_str());
        s.append(" ");
        let decay_part = fixed1_string(self.decay);
        s.append(decay_part.as_str());
        s.append(" ");
        let sustain_part = fixed1_string(self.sustain);
        s.append(sustain_part.as_str());
        s.append(" ");
        let release_part = fixed1_string(self.release);
        s.append(release_part.as_str());
        s.append(" ");
        let crunch_part = effect_label_string(self.crunch, self.crunch_enabled);
        s.append(crunch_part.as_str());
        s.append(" ");
        let drive_part = effect_label_string(self.drive, self.drive_enabled);
        s.append(drive_part.as_str());
        s.append(" ");
        s.append(duty_label_str(self.duty));
        proof {
            assert(s@ =~= spec_name(*self));
        }
        self.name = s;
    }

    /// The timestamp formatted for display, year down to minute.
    pub fn formatted_when(&self) -> (r: String)
        ensures
            r@ == date_label_of(self.when),
    {
        format_timestamp(self.when)
    }

    /// The frequency as a machine size, falling back to 500 Hz where the
    /// stored value does not fit.
    pub fn freq(&self) -> (r: usize)
        ensures
            r as int == if self.freq <= usize::MAX {
                self.freq as int
            } else {
                500int
            },
    {
        if self.freq <= usize::MAX as u64 {
            self.freq as usize
        } else {
            500
        }
    }
}

/// A frequency in hertz as a thousandths magnitude, falling back to 500 Hz
/// where the multiplication would not fit the machine word.
pub open spec fn freq_to_milli(f: u64) -> u64 {
    if f <= u64::MAX / MILLI {
        (f * MILLI) as u64
    } else {
        (500 * MILLI) as u64
    }
}

impl ParameterStore {
    /// The store after loading: every magnitude overwritten from the
    /// record, tags overwritten only where the record carries one.
    pub open spec fn spec_load_from(self, s: SoundSave) -> ParameterStore {
        ParameterStore {
            volume: self.volume.with_num(s.volume),
            attack: self.attack.with_num(s.attack),
            decay: self.decay.with_num(s.decay),
            sustain: self.sustain.with_num(s.sustain),
            release: self.release.with_num(s.release),
            freq: self.freq.with_num(freq_to_milli(s.freq)),
            crunch: if s.crunch_enabled {
                State::Enabled(s.crunch)
            } else {
                State::Disabled(s.crunch)
            },
            drive: if s.drive_enabled {
                State::Enabled(s.drive)
            } else {
                State::Disabled(s.drive)
            },
        }
    }

    /// Overwrites every parameter from the matching field of the record:
    /// magnitudes for all, tags for the two distortion effects.
    pub fn load_from(&mut self, sound: &SoundSave)
        ensures
            *final(self) == old(self).spec_load_from(*sound),
    {
        self.volume = self.volume.replace(sound.volume);
        self.attack = self.attack.replace(sound.attack);
        self.decay = self.decay.replace(sound.decay);
        self.sustain = self.sustain.replace(sound.sustain);
        self.release = self.release.replace(sound.release);
        let freq_milli = if sound.freq <= u64::MAX / MILLI {
            sound.freq * MILLI
        } else {
            500 * MILLI
        };
        self.freq = self.freq.replace(freq_milli);
        self.crunch = if sound.crunch_enabled {
            State::Enabled(sound.crunch)
        } else {
            State::Disabled(sound.crunch)
        };
        self.drive = if sound.drive_enabled {
            State::Enabled(sound.drive)
        } else {
            State::Disabled(sound.drive)
        };
    }

    /// The record a snapshot produces, up to its label (which `load_from`
    /// ignores; the `name` argument stands for whatever label is attached).
    pub open spec fn spec_snapshot(
        self,
        when: u64,
        osc: OscillatorKind,
        duty: DutyCycleKind,
        name: String,
    ) -> SoundSave {
        SoundSave {
            name,
            when,
            volume: self.volume.spec_num(),
            attack: self.attack.spec_num(),
            decay: self.decay.spec_num(),
            sustain: self.sustain.spec_num(),
            release: self.release.spec_num(),
            freq: (self.freq.spec_num() / MILLI) as u64,
            crunch: self.crunch.spec_num(),
            crunch_enabled: self.crunch.is_enabled(),
            drive: self.drive.spec_num(),
            drive_enabled: self.drive.is_enabled(),
            osc,
            duty,
        }
    }

    /// Reads every parameter into a fresh record and generates its label.
    /// The inverse of `load_from` for stores whose frequency is whole.
    pub fn snapshot_to_preset(
        &self,
        when: u64,
        osc: OscillatorKind,
        duty: DutyCycleKind,
    ) -> (s: SoundSave)
        ensures
            s == self.spec_snapshot(when, osc, duty, s.name),
            s.name@ == spec_name(self.spec_snapshot(when, osc, duty, s.name)),
    {
        let mut save = SoundSave::new_blank(when);
        save.volume = self.volume.num();
        save.attack = self.attack.num();
        save.decay = self.decay.num();
        save.sustain = self.sustain.num();
        save.release = self.release.num();
        save.freq = self.freq.num() / MILLI;
        save.crunch = self.crunch.num();
        save.crunch_enabled = match self.crunch {
            State::Enabled(_) => true,
            State::Disabled(_) => false,
        };
        save.drive = self.drive.num();
        save.drive_enabled = match self.drive {
            State::Enabled(_) => true,
            State::Disabled(_) => false,
        };
        save.osc = osc;
        save.duty = duty;
        save.fix_name();
        save
    }
}

/// Loading a snapshot back reproduces the store exactly, for every store
/// whose frequency magnitude is a whole number of hertz.
pub proof fn lemma_preset_roundtrip(
    store: ParameterStore,
    when: u64,
    osc: OscillatorKind,
    duty: DutyCycleKind,
    name: String,
)
    requires
        store.freq_whole(),
    ensures
        store.spec_load_from(store.spec_snapshot(when, osc, duty, name)) == store,
{
    let snap = store.spec_snapshot(when, osc, duty, name);
    let loaded = store.spec_load_from(snap);
    let fm = store.freq.spec_num();
    lemma_div_is_ordered(fm as int, u64::MAX as int, MILLI as int);
    lemma_fundamental_div_mod(fm as int, MILLI as int);
    assert(freq_to_milli(snap.freq) == fm);
    assert(loaded.volume == store.volume);
    assert(loaded.crunch == store.crunch);
    assert(loaded.drive == store.drive);
    assert(loaded == store);
}

/// The persisted application state: the selected theme and the save slots.
#[derive(Clone, Debug, PartialEq)]
pub struct Settings {
    pub theme: usize,
    pub saved: Vec<Option<SoundSave>>,
}

impl Settings {
    /// All slots present and empty.
    pub open spec fn wf(self) -> bool {
        self.saved@.len() == SLOT_COUNT
    }

    pub fn new() -> (s: Settings)
        ensures
            s.wf(),
            s.theme == 0,
            forall|i: int| 0 <= i < SLOT_COUNT ==> s.saved@[i] is None,
    {
        let mut saved: Vec<Option<SoundSave>> = Vec::new();
        let mut i: usize = 0;
        while i < SLOT_COUNT
            invariant
                i <= SLOT_COUNT,
                saved@.len() == i,
                forall|j: int| 0 <= j < i ==> saved@[j] is None,
            decreases SLOT_COUNT - i,
        {
            saved.push(None);
            i = i + 1;
        }
        Settings { theme: 0, saved }
    }

    /// Writes the record into the slot; every other slot is untouched.
    pub fn save_sound(&mut self, idx: usize, save: SoundSave)
        requires
            old(self).wf(),
            idx < SLOT_COUNT,
        ensures
            final(self).wf(),
            final(self).theme == old(self).theme,
            final(self).saved@ == old(self).saved@.update(idx as int, Some(save)),
    {
        self.saved.set(idx, Some(save));
    }

    /// Empties the slot; every other slot is untouched.
    pub fn delete_sound(&mut self, idx: usize)
        requires
            old(self).wf(),
            idx < SLOT_COUNT,
        ensures
            final(self).wf(),
            final(self).theme == old(self).theme,
            final(self).saved@ == old(self).saved@.update(idx as int, None),
    {
        self.saved.set(idx, None);
    }

    /// The record in the slot, if any.
    pub fn sound_at(&self, idx: usize) -> (r: &Option<SoundSave>)
        requires
            self.wf(),
            idx < SLOT_COUNT,
        ensures
            *r == self.saved@[idx as int],
    {
        &self.saved[idx]
    }
}

} // verus!
