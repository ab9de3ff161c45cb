//! Process-wide counters of the controller.
use std::sync::atomic::{AtomicU64, Ordering};
use vstd::prelude::*;

verus! {

/// Counters shared by all reconciles, updated with relaxed ordering.
#[derive(Debug, Default)]
pub struct Metrics {
    pub reconcile_count: AtomicU64,
    pub reconcile_errors: AtomicU64,
    pub active_instances: AtomicU64,
    pub timeouts: AtomicU64,
}

impl Metrics {
    /// Counts one reconcile.
    pub fn record_reconcile(&self) {
        self.reconcile_count.fetch_add(1, Ordering::Relaxed);
    }

    /// Counts one failed reconcile.
    pub fn record_error(&self) {
        self.reconcile_errors.fetch_add(1, Ordering::Relaxed);
    }

    /// Counts one more live instance.
    pub fn incr_active_instances(&self) {
        self.active_instances.fetch_add(1, Ordering::Relaxed);
    }

    /// Counts one live instance less.
    pub fn decr_active_instances(&self) {
        self.active_instances.fetch_sub(1, Ordering::Relaxed);
    }

    /// Counts one instance that ran out of time.
    pub fn record_timeout(&self) {
        self.timeouts.fetch_add(1, Ordering::Relaxed);
    }
}

} // verus!
