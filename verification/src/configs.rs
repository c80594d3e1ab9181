//! The configuration of a load run, as the command line gives it.
pub mod cmd_args;
pub mod common_config;
pub mod config_types;
