use wsgator::engine::runner::{
    batch_ids, CommonRunnerConfig, LaunchStep, LinearRunner, RampUpRunner, RampUpStrategy, SineRunner,
};

fn config(n: u32, duration: u64) -> CommonRunnerConfig {
    CommonRunnerConfig { url: "ws://localhost:9001".to_string(), connection_number: n, connection_duration: duration }
}

fn connected(plan: &[LaunchStep]) -> Vec<u32> {
    plan.iter()
        .filter_map(|s| match s {
            LaunchStep::Connect(id) => Some(*id),
            _ => None,
        })
        .collect()
}

fn total_pause(plan: &[LaunchStep]) -> u64 {
    plan.iter()
        .map(|s| match s {
            LaunchStep::Pause(ms) => *ms,
            _ => 0,
        })
        .sum()
}

#[test]
fn linear_spreads_the_ramp_duration_over_the_clients() {
    let strategy = RampUpStrategy::Linear { target_connection: 3, ramp_duration: 1 };
    let plan = strategy.run(&config(100, 60));
    assert_eq!(
        plan,
        vec![
            LaunchStep::Connect(0),
            LaunchStep::Pause(333),
            LaunchStep::Connect(1),
            LaunchStep::Pause(333),
            LaunchStep::Connect(2),
            LaunchStep::Pause(333),
        ]
    );
}

#[test]
fn linear_ramp_up_fits_the_ramp_duration() {
    let strategy = RampUpStrategy::Linear { target_connection: 7, ramp_duration: 10 };
    let plan = strategy.run(&config(7, 1));
    assert!(total_pause(&plan) <= 10_000);
    assert_eq!(total_pause(&plan), 7 * (10_000 / 7));
    let strategy = RampUpStrategy::Linear { target_connection: 2, ramp_duration: 60 };
    let plan = strategy.run(&config(2, 30));
    assert_eq!(plan[1], LaunchStep::Pause(30_000));
}

#[test]
fn linear_ramps_up_to_the_target_not_the_batch_size() {
    let strategy = RampUpStrategy::Linear { target_connection: 4, ramp_duration: 2 };
    let plan = strategy.run(&config(3, 60));
    assert_eq!(connected(&plan), vec![0, 1, 2, 3]);
    assert_eq!(plan.len(), 8);
    assert!(plan.iter().all(|s| matches!(s, LaunchStep::Connect(_) | LaunchStep::Pause(500))));
    assert_eq!(total_pause(&plan), 2000);
}

#[test]
fn stepped_pauses_between_groups() {
    let strategy = RampUpStrategy::Stepped { step_duration: 1000, step_size: 2 };
    let plan = strategy.run(&config(5, 30));
    assert_eq!(
        plan,
        vec![
            LaunchStep::Connect(0),
            LaunchStep::Connect(1),
            LaunchStep::Pause(1000),
            LaunchStep::Connect(2),
            LaunchStep::Connect(3),
            LaunchStep::Pause(1000),
            LaunchStep::Connect(4),
        ]
    );
}

#[test]
fn stepped_with_step_size_zero_pauses_before_every_client() {
    let strategy = RampUpStrategy::Stepped { step_duration: 5, step_size: 0 };
    let plan = strategy.run(&config(2, 30));
    assert_eq!(
        plan,
        vec![
            LaunchStep::Pause(5),
            LaunchStep::Connect(0),
            LaunchStep::Pause(5),
            LaunchStep::Connect(1),
        ]
    );
}

#[test]
fn exponential_batches_grow_by_the_factor() {
    let strategy = RampUpStrategy::Expotential { growth_factor: 2, soaking_time: 2000 };
    let plan = strategy.run(&config(10, 30));
    assert_eq!(
        plan,
        vec![
            LaunchStep::Connect(0),
            LaunchStep::Pause(2000),
            LaunchStep::Connect(1),
            LaunchStep::Connect(2),
            LaunchStep::Pause(2000),
            LaunchStep::Connect(3),
            LaunchStep::Connect(4),
            LaunchStep::Connect(5),
            LaunchStep::Connect(6),
            LaunchStep::Pause(2000),
            LaunchStep::Connect(7),
            LaunchStep::Connect(8),
            LaunchStep::Connect(9),
            LaunchStep::Pause(2000),
        ]
    );
}

#[test]
fn exponential_with_growth_zero_stops_after_the_first_client() {
    let strategy = RampUpStrategy::Expotential { growth_factor: 0, soaking_time: 10 };
    let plan = strategy.run(&config(4, 30));
    assert_eq!(plan, vec![LaunchStep::Connect(0), LaunchStep::Pause(10)]);
}

#[test]
fn exponential_with_a_huge_factor_takes_everything_in_the_second_batch() {
    let strategy = RampUpStrategy::Expotential { growth_factor: u32::MAX, soaking_time: 1 };
    let plan = strategy.run(&config(5, 30));
    assert_eq!(connected(&plan), vec![0, 1, 2, 3, 4]);
    assert_eq!(total_pause(&plan), 2);
}

#[test]
fn every_ramp_up_but_sine_starts_each_client_once() {
    for strategy in [
        RampUpStrategy::Linear { target_connection: 23, ramp_duration: 1 },
        RampUpStrategy::Stepped { step_duration: 3, step_size: 4 },
        RampUpStrategy::Expotential { growth_factor: 3, soaking_time: 7 },
    ] {
        let plan = strategy.run(&config(23, 5));
        assert_eq!(connected(&plan), (0..23).collect::<Vec<u32>>());
    }
}

fn live_counts(plan: &[LaunchStep]) -> Vec<i64> {
    let mut live = 0i64;
    plan.iter()
        .map(|s| {
            match s {
                LaunchStep::Connect(_) => live += 1,
                LaunchStep::Disconnect(_) => live -= 1,
                LaunchStep::Pause(_) => {}
            }
            live
        })
        .collect()
}

#[test]
fn sine_strategy_rises_and_falls_between_its_bounds() {
    let strategy = RampUpStrategy::Sine { min_connections: 1, max_connections: 3, period: 400 };
    let plan = strategy.run(&config(9, 5));
    assert_eq!(
        plan,
        vec![
            LaunchStep::Connect(0),
            LaunchStep::Pause(100),
            LaunchStep::Connect(1),
            LaunchStep::Pause(100),
            LaunchStep::Connect(2),
            LaunchStep::Pause(100),
            LaunchStep::Disconnect(2),
            LaunchStep::Pause(100),
            LaunchStep::Disconnect(1),
        ]
    );
    let strategy = RampUpStrategy::Sine { min_connections: 100, max_connections: 1000, period: 300_000 };
    let plan = strategy.run(&config(9, 5));
    let counts = live_counts(&plan);
    assert!(counts[99..].iter().all(|c| (100..=1000).contains(c)));
    assert_eq!(*counts.iter().max().unwrap(), 1000);
    assert_eq!(*counts.last().unwrap(), 100);
    assert_eq!(total_pause(&plan), 1800 * (300_000 / 1800));
}

#[test]
fn sine_strategy_without_room_between_its_bounds_plans_nothing() {
    let equal = RampUpStrategy::Sine { min_connections: 3, max_connections: 3, period: 100 };
    assert_eq!(equal.run(&config(5, 5)), vec![]);
    let reversed = RampUpStrategy::Sine { min_connections: 4, max_connections: 1, period: 100 };
    assert_eq!(reversed.run(&config(5, 5)), vec![]);
}

#[test]
fn linear_runner_starts_everyone_at_once() {
    let runner = LinearRunner { common_config: config(3, 5) };
    assert_eq!(
        runner.launch_plan(),
        vec![LaunchStep::Connect(0), LaunchStep::Connect(1), LaunchStep::Connect(2)]
    );
    assert_eq!(runner.get_common_config().connection_number, 3);
}

#[test]
fn ramp_up_runner_follows_its_strategy() {
    let runner = RampUpRunner {
        strategy: RampUpStrategy::Stepped { step_duration: 9, step_size: 1 },
        common_config: config(2, 5),
    };
    assert_eq!(
        runner.launch_plan(),
        vec![LaunchStep::Connect(0), LaunchStep::Pause(9), LaunchStep::Connect(1)]
    );
}

#[test]
fn sine_runner_starts_the_minimum_then_cycles() {
    let runner = SineRunner { common_config: config(4, 5), min_connections: 2, max_connections: 4, period: 1000 };
    let first = runner.launch_plan();
    assert_eq!(&first[..2], &[LaunchStep::Connect(0), LaunchStep::Connect(1)]);
    assert_eq!(&first[2..], &runner.cycle_plan()[..]);
    assert_eq!(
        runner.cycle_plan(),
        vec![
            LaunchStep::Pause(250),
            LaunchStep::Connect(2),
            LaunchStep::Pause(250),
            LaunchStep::Connect(3),
            LaunchStep::Pause(250),
            LaunchStep::Disconnect(3),
            LaunchStep::Pause(250),
            LaunchStep::Disconnect(2),
        ]
    );
}

#[test]
fn stepped_pause_count_is_one_per_later_group() {
    let strategy = RampUpStrategy::Stepped { step_duration: 100, step_size: 3 };
    let plan = strategy.run(&config(10, 5));
    assert_eq!(total_pause(&plan), 3 * 100);
    let plan = strategy.run(&config(9, 5));
    assert_eq!(total_pause(&plan), 2 * 100);
    let zero = RampUpStrategy::Stepped { step_duration: 100, step_size: 0 };
    assert_eq!(total_pause(&zero.run(&config(4, 5))), 400);
}

#[test]
fn sine_runner_cycles_until_the_connection_duration_has_passed() {
    let runner = SineRunner { common_config: config(4, 5), min_connections: 2, max_connections: 4, period: 1000 };
    assert!(runner.keeps_cycling(0));
    assert!(runner.keeps_cycling(4));
    assert!(!runner.keeps_cycling(5));
    assert!(!runner.keeps_cycling(60));
}

#[test]
fn a_batch_numbers_its_clients_from_zero() {
    assert_eq!(batch_ids(4), vec![0, 1, 2, 3]);
    assert_eq!(batch_ids(0), Vec::<u32>::new());
}
