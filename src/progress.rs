//! The process-wide count of resolved bulk requests.
use vstd::prelude::*;
use std::sync::atomic::{AtomicUsize, Ordering};

verus! {

/// Counts resolved bulk requests across all core workers with atomic
/// additions only, never a lock. Other threads add at any time, so a value
/// read here is only a sample.
pub struct ProgressCounter {
    count: AtomicUsize,
}

impl ProgressCounter {
    /// A counter at zero.
    pub fn new() -> (r: ProgressCounter) {
        ProgressCounter { count: AtomicUsize::new(0) }
    }

    /// Adds one resolved request and returns the count before the addition.
    pub fn record_completion(&self) -> (r: usize) {
        self.count.fetch_add(1, Ordering::SeqCst)
    }

    /// The count as it stands now.
    pub fn value(&self) -> (r: usize) {
        self.count.load(Ordering::SeqCst)
    }
}

} // verus!
