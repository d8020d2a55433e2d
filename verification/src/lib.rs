//! Decision logic of a development-container orchestrator: the configuration
//! model, the argument list handed to the container runtime, the reading of
//! the runtime's output, and the sequencing of the user-facing operations.
//! Nothing here touches a file or a process; a driver performs each requested
//! action and reports what came of it.

pub mod text;
pub mod config;
pub mod errors;
pub mod args;
pub mod lifecycle;
pub mod hooks;
pub mod report;
pub mod orchestrator;
