//! Runtime supervisor for a dynamic set of long-lived external tool-service
//! connections: which services are running, dispatching tool calls on them,
//! cancelling in-flight calls, and tearing the whole set down exactly once.
//!
//! The decision logic lives here and is verified; the asynchronous plumbing
//! (locks, task spawning, the wire protocol) is left to the embedding
//! application, which drives these functions one atomic step at a time.

pub mod cancellation;
pub mod config;
pub mod errors;
pub mod registry;
pub mod strmap;
pub mod supervisor;
