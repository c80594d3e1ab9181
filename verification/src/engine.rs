//! The engine of a load run: client behaviours, error accounting, stop
//! signals and the launch plans of the runners.
pub mod behaviour;
pub mod client_context;
pub mod error;
pub mod error_log;
pub mod executor;
pub mod n_executor;
pub mod runner;
pub mod timer;
