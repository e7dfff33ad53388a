//! The pull-based oscillator engine.
//!
//! One instance is a single-method "produce next sample" object: each call
//! reads the current parameter snapshots from the shared cells, advances the
//! private sample index (wrapping on overflow, reset only by constructing a
//! fresh instance), and computes one step. Every call runs in bounded time
//! and allocates nothing, so it can be driven at audio rates.

use vstd::prelude::*;

verus! {

use std::sync::atomic::Ordering;
use crate::wave::WaveType;
use crate::wave::AtomicWaveType;
use crate::params::SharedParameter;
use crate::params::DEFAULT_FREQUENCY_MILLIHERTZ;
use crate::params::DEFAULT_SILENCE_NANOS;
use crate::signal::phase_ticks;
use crate::signal::phase_ticks_of;
use crate::signal::cycle_ticks;
use crate::signal::saw_of;
use crate::signal::triangle_of;
use crate::signal::noise_of;
use crate::signal::gate_of;
use crate::signal::saw_fixed;
use crate::signal::triangle_fixed;
use crate::signal::noise_fixed;
use crate::signal::gate_fixed;

/// One step of sample production, in nano-units (see [`crate::signal::UNIT`]).
///
/// Saw, triangle and noise come out fully computed and gated. A sine step
/// instead hands the caller the exact phase — `ticks / denom` of one cycle —
/// together with the silence snapshot, because evaluating the sine itself is
/// floating-point work that lives with the caller: feed
/// `sin(2 * pi * ticks / denom)`, scaled to nano-units, through
/// [`gate_fixed`] with the returned silence to finish the sample.
#[derive(Clone, Copy, PartialEq, Eq, Structural, Debug)]
pub enum SampleStep {
    Ready(i64),
    SinePhase { ticks: u64, denom: u64, silence: u32 },
}

/// What a step must be, given the parameter snapshot that was read, the
/// sample index after advancing, and the entropy drawn for noise.
pub open spec fn step_of(
    kind: WaveType,
    freq_mhz: u32,
    index: usize,
    rate: u32,
    silence: u32,
    entropy: u32,
) -> SampleStep {
    match kind {
        WaveType::Saw => SampleStep::Ready(
            gate_of(saw_of(freq_mhz as int, index as int, rate as int), silence as int) as i64,
        ),
        WaveType::Noise => SampleStep::Ready(gate_of(noise_of(entropy), silence as int) as i64),
        WaveType::Sine => SampleStep::SinePhase {
            ticks: phase_ticks_of(freq_mhz as int, index as int, rate as int) as u64,
            denom: cycle_ticks(rate as int) as u64,
            silence: silence,
        },
        WaveType::Triangle => SampleStep::Ready(
            gate_of(triangle_of(freq_mhz as int, index as int, rate as int), silence as int) as i64,
        ),
    }
}

/// Computes the step for one explicit parameter snapshot. Pure: callers that
/// read their snapshots from shared cells pass them in, and the result is
/// pinned for every possible snapshot value.
pub fn step_for(
    kind: WaveType,
    freq_mhz: u32,
    index: usize,
    rate: u32,
    silence: u32,
    entropy: u32,
) -> (s: SampleStep)
    requires
        rate > 0,
    ensures
        s == step_of(kind, freq_mhz, index, rate, silence, entropy),
{
    match kind {
        WaveType::Saw => SampleStep::Ready(gate_fixed(saw_fixed(freq_mhz, index, rate), silence)),
        WaveType::Noise => SampleStep::Ready(gate_fixed(noise_fixed(entropy), silence)),
        WaveType::Sine => {
            let t: u64 = phase_ticks(freq_mhz, index, rate);
            SampleStep::SinePhase { ticks: t, denom: 1000 * (rate as u64), silence }
        },
        WaveType::Triangle => SampleStep::Ready(
            gate_fixed(triangle_fixed(freq_mhz, index, rate), silence),
        ),
    }
}

/// Relies on rand::random::<u32>: one fresh draw from the thread-local
/// generator, uniform over the 32-bit values. Nothing is promised of the
/// value; whoever consumes it must be correct for every outcome.
#[verifier::external_body]
fn random_u32() -> u32 {
    rand::random::<u32>()
}

/// A pull-based, unbounded sample source.
///
/// The sample index is private to one instance: it starts at 0, grows by
/// one per produced sample, wraps on overflow rather than resetting, and is
/// reset only by constructing a new instance — restarting playback at a new
/// phase alignment is constructing a fresh engine, not rewinding this one.
#[derive(Clone)]
pub struct Oscillator {
    freq: SharedParameter,
    number_of_samples: usize,
    sample_rate: u32,
    pub wave_type: AtomicWaveType,
    silence: SharedParameter,
}

impl Oscillator {
    /// The engine is usable when its fixed sample rate is positive.
    pub closed spec fn wf(&self) -> bool {
        self.sample_rate > 0
    }

    /// How many samples this instance has produced (wrapping).
    pub closed spec fn produced(&self) -> nat {
        self.number_of_samples as nat
    }

    /// The fixed sample rate set at construction.
    pub closed spec fn rate_of(&self) -> nat {
        self.sample_rate as nat
    }

    /// The frequency cell this engine reads.
    pub closed spec fn freq_cell(&self) -> SharedParameter {
        self.freq
    }

    /// The silence-ratio cell this engine reads.
    pub closed spec fn silence_cell(&self) -> SharedParameter {
        self.silence
    }

    /// The waveform cell this engine reads.
    pub closed spec fn wave_cell(&self) -> AtomicWaveType {
        self.wave_type
    }

    /// Binds a new engine to the live shared cells it is given: every later
    /// write through those handles is seen by subsequent sample calls.
    pub fn new(
        freq: SharedParameter,
        sample_rate: u32,
        wave_type: AtomicWaveType,
        silence: SharedParameter,
    ) -> (o: Oscillator)
        requires
            sample_rate > 0,
        ensures
            o.wf(),
            o.produced() == 0,
            o.rate_of() == sample_rate,
            o.freq_cell() == freq,
            o.silence_cell() == silence,
            o.wave_cell() == wave_type,
    {
        Oscillator {
            freq: freq,
            sample_rate: sample_rate,
            number_of_samples: 0,
            wave_type: wave_type,
            silence: silence,
        }
    }

    /// Produces the next step of the conceptually infinite sample sequence.
    ///
    /// Reads one snapshot of frequency, silence ratio and waveform kind from
    /// the shared cells — whatever the control thread most recently made
    /// visible — advances the sample index, and computes exactly the step
    /// that snapshot demands. No branch blocks, allocates, or does
    /// unbounded work.
    pub fn next_sample(&mut self) -> (s: SampleStep)
        requires
            old(self).wf(),
        ensures
            final(self).wf(),
            final(self).rate_of() == old(self).rate_of(),
            final(self).freq_cell() == old(self).freq_cell(),
            final(self).silence_cell() == old(self).silence_cell(),
            final(self).wave_cell() == old(self).wave_cell(),
            final(self).produced() == (if old(self).produced() == usize::MAX as nat {
                0nat
            } else {
                old(self).produced() + 1
            }),
            exists|freq: u32, silence: u32, kind: WaveType, entropy: u32|
                s == #[trigger] step_of(
                    kind,
                    freq,
                    final(self).produced() as usize,
                    final(self).rate_of() as u32,
                    silence,
                    entropy,
                ),
    {
        let freq: u32 = self.freq.load(Ordering::Relaxed);
        let silence: u32 = self.silence.load(Ordering::Relaxed);
        let kind: WaveType = self.wave_type.load(Ordering::Relaxed);
        self.number_of_samples = if self.number_of_samples == usize::MAX {
            0
        } else {
            self.number_of_samples + 1
        };
        let entropy: u32 = if kind == WaveType::Noise {
            random_u32()
        } else {
            0
        };
        let s = step_for(kind, freq, self.number_of_samples, self.sample_rate, silence, entropy);
        proof {
            assert(s == step_of(
                kind,
                freq,
                self.produced() as usize,
                self.rate_of() as u32,
                silence,
                entropy,
            ));
        }
        s
    }

    /// The output is a single channel.
    pub fn channels(&self) -> (c: u16)
        ensures
            c == 1,
    {
        1
    }

    /// The fixed sample rate set at construction.
    pub fn sample_rate(&self) -> (r: u32)
        ensures
            r as nat == self.rate_of(),
    {
        self.sample_rate
    }

    /// The stream declares no frame grouping: it is unbounded.
    pub fn current_frame_len(&self) -> (l: Option<usize>)
        ensures
            l == None::<usize>,
    {
        None
    }

    /// The stream declares no total duration: it is infinite.
    pub fn total_duration(&self) -> (d: Option<std::time::Duration>)
        ensures
            d == None::<std::time::Duration>,
    {
        None
    }
}

impl Default for Oscillator {
    /// A fresh engine on private cells holding the start-up defaults:
    /// 440 Hz, full silence ratio, sine, at a 41 kHz rate.
    fn default() -> (o: Self)
        ensures
            o.wf(),
            o.produced() == 0,
            o.rate_of() == 41000,
    {
        Oscillator {
            freq: SharedParameter::new(DEFAULT_FREQUENCY_MILLIHERTZ),
            sample_rate: 41000,
            number_of_samples: 0,
            wave_type: AtomicWaveType::new(WaveType::Sine),
            silence: SharedParameter::new(DEFAULT_SILENCE_NANOS),
        }
    }
}

} // verus!
