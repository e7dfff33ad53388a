//! The closed set of waveform shapes and its lock-free cross-thread cell.
//!
//! A selection is stored as a small integer inside an atomic byte. Decoding
//! is deliberately permissive: every integer decodes to some shape, with
//! out-of-range codes falling back to `Triangle`.

use vstd::prelude::*;

verus! {

use std::sync::Arc;
use std::sync::atomic::AtomicU8;
use std::sync::atomic::Ordering;

/// The closed enumeration of signal shapes.
#[derive(Clone, Copy, PartialEq, Eq, Structural, Debug)]
pub enum WaveType {
    Saw,
    Noise,
    Sine,
    Triangle,
}

impl Default for WaveType {
    /// The shape selected at process start.
    fn default() -> (k: Self)
        ensures
            k == WaveType::Sine,
    {
        WaveType::Sine
    }
}

/// The code under which a shape is stored in the atomic cell.
pub open spec fn wave_code(k: WaveType) -> u8 {
    match k {
        WaveType::Saw => 0,
        WaveType::Noise => 1,
        WaveType::Sine => 2,
        WaveType::Triangle => 3,
    }
}

/// The shape a stored code decodes to; codes that no shape uses fall back to
/// `Triangle` rather than failing.
pub open spec fn wave_of_code(c: u8) -> WaveType {
    if c == 0 {
        WaveType::Saw
    } else if c == 1 {
        WaveType::Noise
    } else if c == 2 {
        WaveType::Sine
    } else {
        WaveType::Triangle
    }
}

/// Law: decoding a stored shape returns that shape, for every shape.
pub proof fn lemma_wave_round_trip(k: WaveType)
    ensures
        wave_of_code(wave_code(k)) == k,
{
}

pub fn encode_wave(k: WaveType) -> (c: u8)
    ensures
        c == wave_code(k),
{
    match k {
        WaveType::Saw => 0,
        WaveType::Noise => 1,
        WaveType::Sine => 2,
        WaveType::Triangle => 3,
    }
}

pub fn decode_wave(c: u8) -> (k: WaveType)
    ensures
        k == wave_of_code(c),
{
    match c {
        0 => WaveType::Saw,
        1 => WaveType::Noise,
        2 => WaveType::Sine,
        _ => WaveType::Triangle,
    }
}

/// A lock-free cell holding one waveform selection, shared by reference
/// between the control thread and any number of engine instances.
///
/// Loads and stores use the orderings the caller passes (relaxed in
/// practice): no ordering is established with other parameters' updates, and
/// nothing is assumed here about the value another thread may have stored —
/// `load` decodes whatever byte is present, permissively.
#[derive(Clone)]
pub struct AtomicWaveType {
    inner: Arc<AtomicU8>,
}

impl AtomicWaveType {
    pub fn new(initial: WaveType) -> Self {
        Self { inner: Arc::new(AtomicU8::new(encode_wave(initial))) }
    }

    pub fn load(&self, order: Ordering) -> WaveType {
        decode_wave(self.inner.load(order))
    }

    pub fn store(&self, wave_type: WaveType, order: Ordering) {
        self.inner.store(encode_wave(wave_type), order);
    }
}

} // verus!
