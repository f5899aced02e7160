//! Request admission and resilience pipeline: identity gate, non-blocking
//! admission control, deadline enforcement, outcome classification,
//! observability recording, and graceful-shutdown coordination.

pub mod admission;
pub mod apperror;
pub mod cbor;
pub mod config;
pub mod deadline;
pub mod failure;
pub mod identity;
pub mod migrations;
pub mod pipeline;
pub mod shutdown;
pub mod simulate;
pub mod telemetry;
