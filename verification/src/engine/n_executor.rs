//! A load run that prepares every connection of a wave before starting it.
use vstd::prelude::*;
use crate::configs::cmd_args::Args;
use crate::engine::executor::{behaviour_factory_of, get_factories, runner_of, BehaviourFactory, RunnerKind};

verus! {

/// A load run: its waves, the number of connections of each, and the runner
/// and the behaviour of the chosen kinds.
#[derive(Clone, Debug)]
pub struct NExecutor {
    pub waves_number: u32,
    pub connections_number: u32,
    pub runner: RunnerKind,
    pub behaviour: BehaviourFactory,
}

impl NExecutor {
    /// The load run that the arguments describe.
    pub fn from_args(args: Args) -> (executor: Self)
        ensures
            executor.waves_number == args.waves_number,
            executor.connections_number == args.connection_number,
            executor.runner == runner_of(args),
            executor.behaviour == behaviour_factory_of(args),
    {
        let (runner, behaviour) = get_factories(&args);
        NExecutor {
            waves_number: args.waves_number,
            connections_number: args.connection_number,
            runner,
            behaviour,
        }
    }
}

} // verus!
