//! The slope orchestrator: computes the slope of the line through two points
//! by composing two remote float primitives, a subtraction service and a
//! division service, and decides what every outcome of those calls becomes.
//!
//! The HTTP plumbing lives outside this library; what stands here is the
//! decision logic, verified: the order and operands of the three calls, how a
//! dependency's answer is triaged, and which reply the service gives.

pub mod api;
pub mod flow;
pub mod laws;
pub mod reply;
pub mod status;

pub use api::{index, ApiDoc, Deps, Info};
pub use flow::{Action, Coord, EvalRequest, Event, Next, Phase, SlopeFlow};
pub use reply::{ask, degraded, forward, malformed, ok, CallOutcome, Dependency, Reply};
