//! Bridge between a network scanner's push-button scan protocol and a local
//! delivery workflow: destination registration bookkeeping, cursor-based event
//! consumption, the scan-job state machine, and shutdown coordination.

pub mod helpers;
pub mod objects;
pub mod orchestrator;
pub mod poller;
pub mod registry;
pub mod shutdown;
pub mod strutil;
