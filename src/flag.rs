//! Delivery of the flag to a challenge container.

pub mod content;
pub mod entropy;
pub mod executable;
pub mod volume;
