//! Pulsar: a small monophonic synthesis engine.
//!
//! The engine turns a handful of live-tunable parameters (frequency, waveform
//! shape, a silence-gating ratio) into an unbounded stream of samples, pulled
//! one at a time by an audio backend. Cross-thread parameters live in
//! lock-free atomic cells; the per-sample mathematics is carried out in exact
//! fixed-point arithmetic (nano-units, see [`signal::UNIT`]) so that every
//! step of it can be stated and proved.

pub mod engine;
pub mod params;
pub mod session;
pub mod signal;
pub mod wave;

pub use engine::Oscillator;
pub use engine::SampleStep;
pub use wave::AtomicWaveType;
pub use wave::WaveType;

use vstd::prelude::*;

verus! {

} // verus!
