//! The arguments of a load run.
use vstd::prelude::*;
use crate::configs::config_types::BehaviourType;
use crate::engine::runner::RampUpStrategy;

verus! {

/// The arguments of a load run.
#[derive(Clone, Debug)]
pub struct Args {
    /// The server under test.
    pub url: String,
    /// How clients are launched.
    pub runner: RunnerType,
    /// How clients behave once connected.
    pub behavior: BehaviourType,
    /// The number of clients in a batch.
    pub connection_number: u32,
    /// How long each connection is kept, in seconds.
    pub connection_duration: u64,
    /// The pause between two connections, in milliseconds.
    pub connection_pause: u64,
    /// The number of waves.
    pub waves_number: u32,
    /// The pause between two waves, in seconds.
    pub waves_pause: u64,
    /// The pause between two flood messages, in milliseconds.
    pub spam_pause: u64,
}

/// The runner that a load run uses.
#[derive(Clone, Copy, Debug, PartialEq, Eq, Structural)]
pub enum RunnerType {
    /// No runner chosen: every client at once.
    NoChoice,
    /// Every client at once.
    Flat,
    /// A ramp-up.
    RampUp { strategy: RampUpStrategyArgs },
    /// A sine-shaped load: between `min_connections` and `max_connections`
    /// live connections, with a period of `period` milliseconds.
    Sine { min_connections: u32, max_connections: u32, period: u32 },
}

/// The ramp-up strategies, as the command line gives them.
#[derive(Clone, Copy, Debug, PartialEq, Eq, Structural)]
pub enum RampUpStrategyArgs {
    /// Linear ramp-up.
    Linear { target_connection: u32, ramp_duration: u64 },
    /// Stepped ramp-up: step duration in milliseconds, clients per step.
    Steps { step_duration: u32, step_size: u32 },
    /// Exponential ramp-up: growth factor, soaking time in milliseconds.
    Expo { growth_factor: u32, soaking_time: u64 },
}

/// The ramp-up strategy that the command line names.
pub open spec fn strategy_of(args: RampUpStrategyArgs) -> RampUpStrategy {
    match args {
        RampUpStrategyArgs::Linear { target_connection, ramp_duration } => RampUpStrategy::Linear {
            target_connection,
            ramp_duration,
        },
        RampUpStrategyArgs::Steps { step_duration, step_size } => RampUpStrategy::Stepped {
            step_duration,
            step_size,
        },
        RampUpStrategyArgs::Expo { growth_factor, soaking_time } => RampUpStrategy::Expotential {
            growth_factor,
            soaking_time,
        },
    }
}

impl From<RampUpStrategyArgs> for RampUpStrategy {
    fn from(value: RampUpStrategyArgs) -> (strategy: RampUpStrategy) {
        match value {
            RampUpStrategyArgs::Linear { target_connection, ramp_duration } => RampUpStrategy::Linear {
                target_connection,
                ramp_duration,
            },
            RampUpStrategyArgs::Steps { step_duration, step_size } => RampUpStrategy::Stepped {
                step_duration,
                step_size,
            },
            RampUpStrategyArgs::Expo { growth_factor, soaking_time } => RampUpStrategy::Expotential {
                growth_factor,
                soaking_time,
            },
        }
    }
}

impl vstd::std_specs::convert::FromSpecImpl<RampUpStrategyArgs> for RampUpStrategy {
    open spec fn obeys_from_spec() -> bool {
        true
    }

    open spec fn from_spec(v: RampUpStrategyArgs) -> RampUpStrategy {
        strategy_of(v)
    }
}

} // verus!
