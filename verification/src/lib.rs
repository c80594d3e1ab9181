//! wsgator: the decision logic of a WebSocket load generator.
//!
//! The library holds what the load generator decides: which clients it
//! launches and when, how a connection answers what the server sends, how
//! errors are classified and counted, and how the command line maps onto a
//! run. Sockets, timers and task spawning live in the program around it.
pub mod configs;
pub mod engine;
pub mod executor;
pub mod message;
pub mod mini_server;
pub mod strategies;
pub mod strategy_core;
pub mod text;
