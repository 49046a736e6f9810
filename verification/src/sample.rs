//! The sample builder: a pure mapping from a parameter store snapshot
//! plus the selected oscillator and duty cycle to a synthesis request.

use vstd::prelude::*;
use crate::params::{ParameterStore, State, MILLI};

verus! {

/// Oscillator waveform kind.
#[derive(Clone, Copy, Debug, PartialEq, Eq, Structural)]
pub enum OscillatorKind {
    Sine,
    Triangle,
    Saw,
    Square,
    Noise,
}

/// Duty cycle of a square wave: the fraction of each cycle spent high.
#[derive(Clone, Copy, Debug, PartialEq, Eq, Structural)]
pub enum DutyCycleKind {
    Half,
    Third,
    Quarter,
    Eight,
}

/// A fully resolved synthesis request. Envelope magnitudes are in
/// thousandths of a unit; the frequency is a whole number of hertz. A
/// disabled distortion effect is absent (`None`), not merely zero.
#[derive(Clone, Copy, Debug, PartialEq, Eq)]
pub struct SampleSpec {
    pub osc_type: OscillatorKind,
    pub cycle: DutyCycleKind,
    pub volume: u64,
    pub attack: u64,
    pub decay: u64,
    pub sustain: u64,
    pub release: u64,
    pub freq: u64,
    pub crunch: Option<u64>,
    pub drive: Option<u64>,
}

/// What `build` returns, field by field, for a given store snapshot.
pub open spec fn spec_build(
    store: ParameterStore,
    osc_type: OscillatorKind,
    cycle: DutyCycleKind,
) -> SampleSpec {
    SampleSpec {
        osc_type,
        cycle,
        volume: store.volume.spec_num(),
        attack: store.attack.spec_num(),
        decay: store.decay.spec_num(),
        sustain: store.sustain.spec_num(),
        release: store.release.spec_num(),
        freq: (store.freq.spec_num() / MILLI) as u64,
        crunch: if store.crunch.is_enabled() {
            Some(store.crunch.spec_num())
        } else {
            None
        },
        drive: if store.drive.is_enabled() {
            Some(store.drive.spec_num())
        } else {
            None
        },
    }
}

/// Copies each magnitude into its spec field; a distortion effect is
/// included only while its parameter is enabled, so a disabled effect with
/// a non-zero stored magnitude still produces no audible effect.
pub fn build(
    store: &ParameterStore,
    osc_type: OscillatorKind,
    cycle: DutyCycleKind,
) -> (spec_out: SampleSpec)
    ensures
        spec_out == spec_build(*store, osc_type, cycle),
{
    let crunch = match store.crunch {
        State::Enabled(n) => Some(n),
        State::Disabled(_) => None,
    };
    let drive = match store.drive {
        State::Enabled(n) => Some(n),
        State::Disabled(_) => None,
    };
    SampleSpec {
        osc_type,
        cycle,
        volume: store.volume.num(),
        attack: store.attack.num(),
        decay: store.decay.num(),
        sustain: store.sustain.num(),
        release: store.release.num(),
        freq: store.freq.num() / MILLI,
        crunch,
        drive,
    }
}

} // verus!
