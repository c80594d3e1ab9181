//! The executor: the runner and the behaviour that a load run uses, wave
//! after wave.
use vstd::prelude::*;
use crate::configs::cmd_args::{strategy_of, Args, RunnerType};
use crate::configs::config_types::BehaviourType;
use crate::engine::behaviour::{behaviour_of, make_behaviour, AnyBehaviour};
use crate::engine::runner::{CommonRunnerConfig, LinearRunner, RampUpRunner, SineRunner};

verus! {

/// The runner that a load run makes for each wave.
#[derive(Clone, Debug)]
pub enum RunnerKind {
    Linear(LinearRunner),
    RampUp(RampUpRunner),
    Sine(SineRunner),
}

/// The runner configuration that the arguments give.
pub open spec fn runner_config_of(args: Args) -> CommonRunnerConfig {
    CommonRunnerConfig {
        url: args.url,
        connection_number: args.connection_number,
        connection_duration: args.connection_duration,
    }
}

/// The runner that the arguments choose: every client at once when no runner
/// or the flat one is chosen, the ramp-up that they name, or a sine runner
/// with the bounds and the period that they give.
pub open spec fn runner_of(args: Args) -> RunnerKind {
    let common = runner_config_of(args);
    match args.runner {
        RunnerType::NoChoice => RunnerKind::Linear(LinearRunner { common_config: common }),
        RunnerType::Flat => RunnerKind::Linear(LinearRunner { common_config: common }),
        RunnerType::RampUp { strategy } => RunnerKind::RampUp(
            RampUpRunner { strategy: strategy_of(strategy), common_config: common },
        ),
        RunnerType::Sine { min_connections, max_connections, period } => RunnerKind::Sine(
            SineRunner { common_config: common, min_connections, max_connections, period },
        ),
    }
}

/// What makes a fresh behaviour of the chosen kind for each wave.
#[derive(Clone, Copy, Debug, PartialEq, Eq, Structural)]
pub struct BehaviourFactory {
    pub kind: BehaviourType,
    /// The pause between two flood messages, in milliseconds.
    pub spam_pause: u64,
}

impl BehaviourFactory {
    /// A fresh behaviour of the chosen kind.
    pub fn make(&self) -> (behaviour: AnyBehaviour)
        ensures
            behaviour == behaviour_of(self.kind, self.spam_pause),
    {
        make_behaviour(self.kind, self.spam_pause)
    }
}

/// The behaviour factory that the arguments give.
pub open spec fn behaviour_factory_of(args: Args) -> BehaviourFactory {
    BehaviourFactory { kind: args.behavior, spam_pause: args.spam_pause }
}

/// The runner and the behaviour factory that the arguments choose.
pub fn get_factories(args: &Args) -> (factories: (RunnerKind, BehaviourFactory))
    ensures
        factories.0 == runner_of(*args),
        factories.1 == behaviour_factory_of(*args),
{
    let common_runner_config = CommonRunnerConfig {
        url: args.url.clone(),
        connection_number: args.connection_number,
        connection_duration: args.connection_duration,
    };
    let runner = match args.runner {
        RunnerType::NoChoice => RunnerKind::Linear(LinearRunner { common_config: common_runner_config }),
        RunnerType::Flat => RunnerKind::Linear(LinearRunner { common_config: common_runner_config }),
        RunnerType::RampUp { strategy } => RunnerKind::RampUp(
            RampUpRunner { strategy: strategy.into(), common_config: common_runner_config },
        ),
        RunnerType::Sine { min_connections, max_connections, period } => RunnerKind::Sine(
            SineRunner {
                common_config: common_runner_config,
                min_connections,
                max_connections,
                period,
            },
        ),
    };
    (runner, BehaviourFactory { kind: args.behavior, spam_pause: args.spam_pause })
}

/// One step of a load run.
#[derive(Clone, Copy, Debug, PartialEq, Eq, Structural)]
pub enum ExecutorStep {
    /// Run one wave, with a fresh runner and behaviour.
    RunWave,
    /// Wait this many seconds.
    PauseSecs(u64),
}

/// The steps of a load run: `waves` waves, each followed by a pause of
/// `pause` seconds.
pub open spec fn executor_steps(waves: nat, pause: u64) -> Seq<ExecutorStep>
    decreases waves,
{
    if waves == 0 {
        seq![]
    } else {
        executor_steps((waves - 1) as nat, pause) + seq![
            ExecutorStep::RunWave,
            ExecutorStep::PauseSecs(pause),
        ]
    }
}

/// A load run: a number of waves with a pause after each, each wave with a
/// fresh runner and behaviour of the chosen kinds.
#[derive(Clone, Debug)]
pub struct Executor {
    pub waves_number: u32,
    /// The pause after each wave, in seconds.
    pub waves_pause: u64,
    pub runner: RunnerKind,
    pub behaviour: BehaviourFactory,
}

impl Executor {
    /// The load run that the arguments describe.
    pub fn from_args(args: Args) -> (executor: Self)
        ensures
            executor.waves_number == args.waves_number,
            executor.waves_pause == args.waves_pause,
            executor.runner == runner_of(args),
            executor.behaviour == behaviour_factory_of(args),
    {
        let (runner, behaviour) = get_factories(&args);
        Executor { waves_number: args.waves_number, waves_pause: args.waves_pause, runner, behaviour }
    }

    /// The steps of the load run.
    pub fn steps(&self) -> (steps: Vec<ExecutorStep>)
        ensures
            steps@ == executor_steps(self.waves_number as nat, self.waves_pause),
    {
        let mut steps: Vec<ExecutorStep> = Vec::new();
        let mut w: u32 = 0;
        while w < self.waves_number
            invariant
                w <= self.waves_number,
                steps@ == executor_steps(w as nat, self.waves_pause),
            decreases self.waves_number - w,
        {
            steps.push(ExecutorStep::RunWave);
            steps.push(ExecutorStep::PauseSecs(self.waves_pause));
            w = w + 1;
            assert(steps@ =~= executor_steps(w as nat, self.waves_pause));
        }
        steps
    }
}

} // verus!
