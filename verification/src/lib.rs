//! Interactive synthesizer tone shaper: a parameter store driven by key
//! events, a pure builder from parameters to a synthesis request, a min/max
//! waveform downsampler for pixel display, and a save-slot preset codec.
//!
//! Magnitudes are held in thousandths of a unit so that every value the
//! interface can produce is represented exactly; the audio backend receives
//! plain values and performs its own conversion.

pub mod params;
pub mod sample;
pub mod label;
pub mod settings;
pub mod waveform;
pub mod controller;
pub mod main_scene;
