//! The parameter store: an ordered set of named controls, each holding a
//! magnitude (in thousandths of a unit) and an enabled/disabled tag.

use vstd::prelude::*;

verus! {

/// Thousandths of a unit: the fixed-point scale for every magnitude.
pub const MILLI: u64 = 1000;

/// Identity of a controllable parameter.
#[derive(Clone, Copy, Debug, PartialEq, Eq, Structural)]
pub enum ParamKey {
    Volume,
    Attack,
    Decay,
    Sustain,
    Release,
    Freq,
    Crunch,
    Drive,
}

/// A parameter value: the magnitude survives toggling, only the tag flips.
#[derive(Clone, Copy, Debug, PartialEq, Eq, Structural)]
pub enum State {
    Enabled(u64),
    Disabled(u64),
}

/// `a + b`, clamped to `u64::MAX`.
pub open spec fn sat_add(a: u64, b: u64) -> u64 {
    if a + b <= u64::MAX {
        (a + b) as u64
    } else {
        u64::MAX
    }
}

impl State {
    /// The stored magnitude, whatever the tag.
    pub open spec fn spec_num(&self) -> u64 {
        match self {
            State::Enabled(n) => *n,
            State::Disabled(n) => *n,
        }
    }

    pub open spec fn is_enabled(self) -> bool {
        self is Enabled
    }

    /// Same tag, new magnitude.
    pub open spec fn with_num(self, n: u64) -> State {
        match self {
            State::Enabled(_) => State::Enabled(n),
            State::Disabled(_) => State::Disabled(n),
        }
    }

    /// Opposite tag, same magnitude.
    pub open spec fn toggled(self) -> State {
        match self {
            State::Enabled(n) => State::Disabled(n),
            State::Disabled(n) => State::Enabled(n),
        }
    }

    #[verifier::when_used_as_spec(spec_num)]
    pub fn num(&self) -> (n: u64)
        ensures
            n == self.spec_num(),
    {
        match self {
            State::Enabled(n) => *n,
            State::Disabled(n) => *n,
        }
    }

    /// Adds `value` to the magnitude, clamped only by the machine word.
    pub fn update(&self, value: u64) -> (r: State)
        ensures
            r == self.with_num(sat_add(self.spec_num(), value)),
    {
        let n = self.num();
        let added = if n <= u64::MAX - value {
            n + value
        } else {
            u64::MAX
        };
        match self {
            State::Enabled(_) => State::Enabled(added),
            State::Disabled(_) => State::Disabled(added),
        }
    }

    /// Replaces the magnitude, keeping the tag.
    pub fn replace(&self, value: u64) -> (r: State)
        ensures
            r == self.with_num(value),
    {
        match self {
            State::Enabled(_) => State::Enabled(value),
            State::Disabled(_) => State::Disabled(value),
        }
    }

    /// Flips `Enabled(x)` and `Disabled(x)`; the magnitude is untouched.
    pub fn swap(&self) -> (r: State)
        ensures
            r == self.toggled(),
    {
        match self {
            State::Enabled(n) => State::Disabled(*n),
            State::Disabled(n) => State::Enabled(*n),
        }
    }
}

/// The parameter set presented to the user at startup: full volume, a
/// short envelope, 500 Hz, both distortion effects off.
pub open spec fn initial_store() -> ParameterStore {
    ParameterStore {
        volume: State::Enabled(1000u64),
        attack: State::Enabled(100u64),
        decay: State::Enabled(100u64),
        sustain: State::Enabled(500u64),
        release: State::Enabled(500u64),
        freq: State::Enabled(500000u64),
        crunch: State::Disabled(0u64),
        drive: State::Disabled(0u64),
    }
}

/// The ordered mapping of parameters to their current value. The rendering
/// order is the field order below.
#[derive(Clone, Copy, Debug, PartialEq, Eq, Structural)]
pub struct ParameterStore {
    pub volume: State,
    pub attack: State,
    pub decay: State,
    pub sustain: State,
    pub release: State,
    pub freq: State,
    pub crunch: State,
    pub drive: State,
}

impl ParameterStore {
    pub open spec fn spec_get(self, key: ParamKey) -> State {
        match key {
            ParamKey::Volume => self.volume,
            ParamKey::Attack => self.attack,
            ParamKey::Decay => self.decay,
            ParamKey::Sustain => self.sustain,
            ParamKey::Release => self.release,
            ParamKey::Freq => self.freq,
            ParamKey::Crunch => self.crunch,
            ParamKey::Drive => self.drive,
        }
    }

    pub open spec fn spec_set(self, key: ParamKey, v: State) -> ParameterStore {
        match key {
            ParamKey::Volume => ParameterStore { volume: v, ..self },
            ParamKey::Attack => ParameterStore { attack: v, ..self },
            ParamKey::Decay => ParameterStore { decay: v, ..self },
            ParamKey::Sustain => ParameterStore { sustain: v, ..self },
            ParamKey::Release => ParameterStore { release: v, ..self },
            ParamKey::Freq => ParameterStore { freq: v, ..self },
            ParamKey::Crunch => ParameterStore { crunch: v, ..self },
            ParamKey::Drive => ParameterStore { drive: v, ..self },
        }
    }

    /// Decrementing: clamps at zero rather than going negative.
    pub open spec fn spec_adjust(self, key: ParamKey, delta: u64) -> ParameterStore {
        let v = self.spec_get(key);
        if v.spec_num() > delta {
            self.spec_set(key, v.with_num((v.spec_num() - delta) as u64))
        } else {
            self.spec_set(key, v.with_num(0))
        }
    }

    /// Incrementing: no upper clamp short of the machine word.
    pub open spec fn spec_increase(self, key: ParamKey, delta: u64) -> ParameterStore {
        let v = self.spec_get(key);
        self.spec_set(key, v.with_num(sat_add(v.spec_num(), delta)))
    }

    pub open spec fn spec_toggle(self, key: ParamKey) -> ParameterStore {
        self.spec_set(key, self.spec_get(key).toggled())
    }

    /// The frequency magnitude is a whole number of hertz.
    pub open spec fn freq_whole(self) -> bool {
        self.freq.spec_num() % MILLI == 0
    }

    /// The initial parameter set presented to the user.
    pub fn new() -> (s: ParameterStore)
        ensures
            s == initial_store(),
            s.freq_whole(),
    {
        ParameterStore {
            volume: State::Enabled(1000),
            attack: State::Enabled(100),
            decay: State::Enabled(100),
            sustain: State::Enabled(500),
            release: State::Enabled(500),
            freq: State::Enabled(500000),
            crunch: State::Disabled(0),
            drive: State::Disabled(0),
        }
    }

    pub fn get(&self, key: ParamKey) -> (v: State)
        ensures
            v == self.spec_get(key),
    {
        match key {
            ParamKey::Volume => self.volume,
            ParamKey::Attack => self.attack,
            ParamKey::Decay => self.decay,
            ParamKey::Sustain => self.sustain,
            ParamKey::Release => self.release,
            ParamKey::Freq => self.freq,
            ParamKey::Crunch => self.crunch,
            ParamKey::Drive => self.drive,
        }
    }

    pub fn set(&mut self, key: ParamKey, v: State)
        ensures
            *final(self) == old(self).spec_set(key, v),
    {
        match key {
            ParamKey::Volume => self.volume = v,
            ParamKey::Attack => self.attack = v,
            ParamKey::Decay => self.decay = v,
            ParamKey::Sustain => self.sustain = v,
            ParamKey::Release => self.release = v,
            ParamKey::Freq => self.freq = v,
            ParamKey::Crunch => self.crunch = v,
            ParamKey::Drive => self.drive = v,
        }
    }

    /// Subtracts `delta` from the parameter's magnitude if the magnitude
    /// exceeds it, otherwise clamps to exactly zero. The tag is preserved.
    pub fn adjust(&mut self, key: ParamKey, delta: u64)
        ensures
            *final(self) == old(self).spec_adjust(key, delta),
    {
        let v = self.get(key);
        if v.num() > delta {
            let n = v.num() - delta;
            self.set(key, v.replace(n));
        } else {
            self.set(key, v.replace(0));
        }
    }

    /// Adds `delta` to the parameter's magnitude. The tag is preserved.
    pub fn increase(&mut self, key: ParamKey, delta: u64)
        ensures
            *final(self) == old(self).spec_increase(key, delta),
    {
        let v = self.get(key);
        let grown = v.update(delta);
        self.set(key, grown);
    }

    /// Flips the parameter's tag; its magnitude is preserved.
    pub fn toggle(&mut self, key: ParamKey)
        ensures
            *final(self) == old(self).spec_toggle(key),
    {
        let v = self.get(key);
        let flipped = v.swap();
        self.set(key, flipped);
    }
}

/// Toggling twice restores the value exactly: tag and magnitude both.
pub proof fn lemma_toggle_restores_value(v: State)
    ensures
        v.toggled().toggled() == v,
{
}

/// Toggling a parameter twice restores the whole store exactly.
pub proof fn lemma_toggle_restores(s: ParameterStore, key: ParamKey)
    ensures
        s.spec_toggle(key).spec_toggle(key) == s,
{
}

/// A decrement larger than the magnitude clamps to exactly zero, never
/// negative, and leaves the tag alone.
pub proof fn lemma_adjust_clamps(s: ParameterStore, key: ParamKey, delta: u64)
    requires
        s.spec_get(key).spec_num() < delta,
    ensures
        s.spec_adjust(key, delta).spec_get(key).spec_num() == 0,
        s.spec_adjust(key, delta).spec_get(key).is_enabled() == s.spec_get(key).is_enabled(),
{
}

} // verus!
