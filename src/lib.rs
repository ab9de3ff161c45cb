//! A controller library for ephemeral capture-the-flag challenge instances:
//! naming, timeouts, flag delivery, the child resources of an instance and the
//! decisions of its lifecycle.

pub mod error;
pub mod flag;
pub mod ids;
pub mod labels;
pub mod model;
pub mod naming;
pub mod reconciler;
pub mod resources;
pub mod telemetry;
pub mod text;
pub mod time;
pub mod timeout;
