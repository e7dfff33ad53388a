//! Lock-free cross-thread cells for the live-tunable scalar parameters.
//!
//! Each cell holds one plain integer: the frequency cell holds millihertz,
//! the silence cell holds nano-units (see [`crate::signal::UNIT`]). Reads
//! and writes never block and establish no ordering with other cells'
//! updates; a reader may see a value at most one read stale. Values are not
//! range-checked at this layer: the engine's mathematics is total in them.

use vstd::prelude::*;

verus! {

use std::sync::Arc;
use std::sync::atomic::AtomicU32;
use std::sync::atomic::Ordering;

/// Frequency stored at process start: 440 Hz, in millihertz.
pub const DEFAULT_FREQUENCY_MILLIHERTZ: u32 = 440_000;

/// Silence ratio stored at process start: 1.0, in nano-units.
pub const DEFAULT_SILENCE_NANOS: u32 = 1_000_000_000;

/// A lock-free scalar cell shared by reference between the control thread
/// and any number of engine instances; it lives as long as its last holder.
///
/// Nothing is assumed about what another thread may have stored, so `load`
/// promises no particular value: whoever consumes one must be correct for
/// every outcome.
#[derive(Clone)]
pub struct SharedParameter {
    inner: Arc<AtomicU32>,
}

impl SharedParameter {
    pub fn new(initial: u32) -> Self {
        Self { inner: Arc::new(AtomicU32::new(initial)) }
    }

    pub fn load(&self, order: Ordering) -> u32 {
        self.inner.load(order)
    }

    pub fn store(&self, value: u32, order: Ordering) {
        self.inner.store(value, order)
    }
}

} // verus!
