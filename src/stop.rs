use std::sync::atomic::{AtomicBool, Ordering};
use std::sync::Arc;
use vstd::prelude::*;

verus! {

/// The two cancellation flags shared between whoever issues commands, the
/// worker, and the device handle. Drivers poll the manager-side flag between
/// frames; the device handle polls its own flag during long transitions.
#[derive(Clone)]
pub struct StopSignals {
    pub manager_stop_signal: Arc<AtomicBool>,
    pub keyboard_stop_signal: Arc<AtomicBool>,
}

impl StopSignals {
    /// A pair of lowered flags.
    pub fn new() -> (s: StopSignals) {
        StopSignals {
            manager_stop_signal: Arc::new(AtomicBool::new(false)),
            keyboard_stop_signal: Arc::new(AtomicBool::new(false)),
        }
    }

    /// Raises both flags: the device-side one first, then the manager-side one.
    pub fn store_true(&self) {
        self.keyboard_stop_signal.store(true, Ordering::SeqCst);
        self.manager_stop_signal.store(true, Ordering::SeqCst);
    }

    /// Lowers both flags, in the same order.
    pub fn store_false(&self) {
        self.keyboard_stop_signal.store(false, Ordering::SeqCst);
        self.manager_stop_signal.store(false, Ordering::SeqCst);
    }

    /// Whether the manager-side flag is raised at the moment of the read.
    pub fn is_stopped(&self) -> (r: bool) {
        self.manager_stop_signal.load(Ordering::SeqCst)
    }
}

} // verus!
