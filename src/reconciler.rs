//! The decisions of the reconcile loop: which branch an instance takes, how
//! its status changes in each phase, and when it is looked at again.

pub mod entry;
pub mod finalizer;
pub mod state;
