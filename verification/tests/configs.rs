use wsgator::configs::cmd_args::{Args, RampUpStrategyArgs, RunnerType};
use wsgator::configs::common_config::CommonConfig;
use wsgator::configs::config_types::BehaviourType;
use wsgator::engine::behaviour::{AnyBehaviour, PingPongBehaviour};
use wsgator::engine::executor::{get_factories, BehaviourFactory, Executor, ExecutorStep, RunnerKind};
use wsgator::engine::n_executor::NExecutor;
use wsgator::engine::runner::RampUpStrategy;

fn args(runner: RunnerType) -> Args {
    Args {
        url: "ws://localhost:9001".to_string(),
        runner,
        behavior: BehaviourType::PingPong,
        connection_number: 100,
        connection_duration: 30,
        connection_pause: 5,
        waves_number: 3,
        waves_pause: 2,
        spam_pause: 100,
    }
}

#[test]
fn common_config_takes_the_arguments_without_outer_timer() {
    let config: CommonConfig = args(RunnerType::Flat).into();
    assert_eq!(config.url_under_fire, "ws://localhost:9001");
    assert_eq!(config.connection_number, 100);
    assert_eq!(config.connection_duration, 30);
    assert_eq!(config.connection_pause, 5);
    assert_eq!(config.waves_number, 3);
    assert_eq!(config.waves_pause, 2);
    assert!(!config.external_timer);
    let timed = config.with_external_timer();
    assert!(timed.external_timer);
    assert_eq!(timed.connection_number, 100);
}

#[test]
fn ramp_up_arguments_become_strategies() {
    let s: RampUpStrategy = RampUpStrategyArgs::Linear { target_connection: 100, ramp_duration: 60 }.into();
    assert_eq!(s, RampUpStrategy::Linear { target_connection: 100, ramp_duration: 60 });
    let s: RampUpStrategy = RampUpStrategyArgs::Steps { step_duration: 1000, step_size: 10 }.into();
    assert_eq!(s, RampUpStrategy::Stepped { step_duration: 1000, step_size: 10 });
    let s: RampUpStrategy = RampUpStrategyArgs::Expo { growth_factor: 2, soaking_time: 2000 }.into();
    assert_eq!(s, RampUpStrategy::Expotential { growth_factor: 2, soaking_time: 2000 });
}

#[test]
fn factories_follow_the_runner_choice() {
    for runner in [RunnerType::NoChoice, RunnerType::Flat] {
        let (kind, behaviour) = get_factories(&args(runner));
        assert_eq!(behaviour, BehaviourFactory { kind: BehaviourType::PingPong, spam_pause: 100 });
        assert_eq!(behaviour.make(), AnyBehaviour::PingPong(PingPongBehaviour {}));
        match kind {
            RunnerKind::Linear(r) => {
                assert_eq!(r.common_config.connection_number, 100);
                assert_eq!(r.common_config.connection_duration, 30);
                assert_eq!(r.common_config.url, "ws://localhost:9001");
            }
            other => panic!("unexpected {:?}", other),
        }
    }
    let (kind, _) = get_factories(&args(RunnerType::RampUp {
        strategy: RampUpStrategyArgs::Expo { growth_factor: 3, soaking_time: 10 },
    }));
    match kind {
        RunnerKind::RampUp(r) => {
            assert_eq!(r.strategy, RampUpStrategy::Expotential { growth_factor: 3, soaking_time: 10 })
        }
        other => panic!("unexpected {:?}", other),
    }
    let (kind, _) = get_factories(&args(RunnerType::Sine {
        min_connections: 100,
        max_connections: 1000,
        period: 300,
    }));
    match kind {
        RunnerKind::Sine(r) => {
            assert_eq!((r.min_connections, r.max_connections, r.period), (100, 1000, 300));
            assert_eq!(r.common_config.connection_number, 100);
        }
        other => panic!("unexpected {:?}", other),
    }
}

#[test]
fn executors_take_waves_and_choices_from_the_arguments() {
    let e = Executor::from_args(args(RunnerType::Flat));
    assert_eq!(e.waves_number, 3);
    assert_eq!(e.waves_pause, 2);
    assert_eq!(e.behaviour.kind, BehaviourType::PingPong);
    assert!(matches!(e.runner, RunnerKind::Linear(_)));
    assert_eq!(
        e.steps(),
        vec![
            ExecutorStep::RunWave,
            ExecutorStep::PauseSecs(2),
            ExecutorStep::RunWave,
            ExecutorStep::PauseSecs(2),
            ExecutorStep::RunWave,
            ExecutorStep::PauseSecs(2),
        ]
    );
    let n = NExecutor::from_args(args(RunnerType::Sine { min_connections: 1, max_connections: 2, period: 3 }));
    assert_eq!(n.waves_number, 3);
    assert_eq!(n.connections_number, 100);
    assert!(matches!(n.runner, RunnerKind::Sine(_)));
}
