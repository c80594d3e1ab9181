use std::sync::Arc;
use wsgator::configs::common_config::CommonConfig;
use wsgator::engine::error::{MpscChannelError, WatchChannelError, WsError, WsErrorKind, WsGatorError};
use wsgator::executor::{Executor, WaveStep};
use wsgator::message::Message;
use wsgator::strategies::{AttackStrategy, ConnectionEvent, FlatStrategy, FloodStrategy, RampUpStrategy};
use wsgator::strategy_core::flat_strategy::FlatStrategy as SplitFlat;
use wsgator::strategy_core::flood_strategy::FloodStrategy as SplitFlood;
use wsgator::strategy_core::ramp_up_strategy::RampUpStrategy as SplitRampUp;
use wsgator::strategy_core::strategy::{finish_task, task_step, AttackStrategy as SplitStrategy, TaskEvent, TaskStep};

fn config(external_timer: bool) -> Arc<CommonConfig> {
    Arc::new(CommonConfig {
        url_under_fire: "ws://localhost:9001".to_string(),
        connection_number: 2,
        connection_duration: 30,
        connection_pause: 7,
        waves_number: 1,
        waves_pause: 3,
        external_timer,
    })
}

fn io_error() -> WsError {
    WsError { kind: WsErrorKind::Io, text: "reset".to_string() }
}

#[test]
fn loop_strategies_handle_messages() {
    let s = FlatStrategy { common_config: config(false) };
    assert!(matches!(s.handle_messages(Some(Ok(Message::Ping(vec![1]))), 0), (true, Some(Message::Pong(b))) if b == vec![1]));
    assert!(matches!(s.handle_messages(Some(Ok(Message::Text("t".into()))), 0), (true, None)));
    assert!(matches!(s.handle_messages(Some(Ok(Message::Close(None))), 0), (false, None)));
    assert!(matches!(s.handle_messages(Some(Ok(Message::Binary(vec![]))), 0), (false, None)));
    assert!(matches!(s.handle_messages(Some(Err(io_error())), 0), (false, None)));
    assert!(matches!(s.handle_messages(None, 0), (false, None)));
}

#[test]
fn loop_strategies_close_on_stop() {
    let s = RampUpStrategy { common_config: config(false) };
    let r = s.react(ConnectionEvent::StopSignal, 3);
    assert!(!r.proceed);
    assert!(matches!(r.send, Some(Message::Close(None))));
    let r = s.react(ConnectionEvent::SpamTick, 3);
    assert!(r.proceed && r.send.is_none());
    assert!(s.spam_period().is_none());
    assert!(s.spam_message(3).is_none());
    assert_eq!(s.get_common_config().connection_pause, 7);
}

#[test]
fn flood_strategy_spams_at_each_tick() {
    let s = FloodStrategy { common_config: config(false), spam_pause: 100 };
    let r = s.react(ConnectionEvent::SpamTick, 12);
    assert!(r.proceed);
    match r.send {
        Some(Message::Text(t)) => assert_eq!(t, "SPAM! From connection 12"),
        other => panic!("unexpected {:?}", other),
    }
    assert_eq!(s.spam_period(), Some(100));
    assert!(matches!(s.spam_message(7), Some(Message::Text(t)) if t == "SPAM! From connection 7"));
    let r = s.react(ConnectionEvent::Incoming(Some(Ok(Message::Ping(vec![2])))), 12);
    assert!(r.proceed);
    assert!(matches!(r.send, Some(Message::Pong(b)) if b == vec![2]));
}

#[test]
fn executor_greets_and_plans_a_wave() {
    let e = Executor;
    match e.greeting(42) {
        Message::Text(t) => assert_eq!(t, "Peer 42 saying Hello!"),
        other => panic!("unexpected {:?}", other),
    }
    assert_eq!(
        e.wave_plan(&config(true)),
        vec![
            WaveStep::Connect(0),
            WaveStep::Connect(1),
            WaveStep::PauseMillis(7),
            WaveStep::Spawn(0),
            WaveStep::PauseMillis(7),
            WaveStep::Spawn(1),
            WaveStep::StartTimer,
            WaveStep::PauseSecs(3),
        ]
    );
    assert_eq!(
        e.wave_plan(&config(false)),
        vec![
            WaveStep::Connect(0),
            WaveStep::Connect(1),
            WaveStep::PauseMillis(7),
            WaveStep::Spawn(0),
            WaveStep::PauseMillis(7),
            WaveStep::Spawn(1),
            WaveStep::PauseSecs(3),
        ]
    );
}

#[test]
fn split_strategies_handle_messages() {
    let s = SplitFlat { common_config: config(false) };
    assert!(matches!(s.handle_messages(Ok(Message::Ping(vec![3])), 1), Ok((true, Some(Message::Pong(b)))) if b == vec![3]));
    assert!(matches!(s.handle_messages(Ok(Message::Text("x".into())), 1), Ok((true, None))));
    assert!(matches!(s.handle_messages(Ok(Message::Binary(vec![])), 1), Ok((true, None))));
    assert!(matches!(s.handle_messages(Ok(Message::Close(None)), 1), Ok((false, None))));
    match s.handle_messages(Err(io_error()), 1) {
        Err(e) => assert_eq!(e.text, "reset"),
        Ok(_) => panic!("an error was lost"),
    }
}

#[test]
fn split_strategies_react_to_the_stream() {
    let s = SplitFlat { common_config: config(false) };
    assert!(matches!(s.run_base_events(None, 0), Ok((false, None))));
    assert!(matches!(s.run_base_events(Some(Ok(Message::Ping(vec![]))), 0), Ok((true, Some(Message::Pong(_))))));
    assert!(matches!(s.run_base_events(Some(Ok(Message::Close(None))), 0), Ok((false, None))));
    assert!(matches!(
        s.run_base_events(Some(Err(io_error())), 0),
        Err(WsGatorError::WsError(WsError { kind: WsErrorKind::Io, .. }))
    ));
}

#[test]
fn split_strategies_runner_decisions() {
    let flat = SplitFlat { common_config: config(false) };
    let ramp = SplitRampUp { common_config: config(false) };
    let flood = SplitFlood { common_config: config(false), spam_pause: 250 };
    assert_eq!(flat.runner_pause(&config(false)), Some(7));
    assert!(flat.runner_starts_timer());
    assert_eq!(ramp.runner_pause(&config(false)), None);
    assert!(!ramp.runner_starts_timer());
    assert!(flat.prepare_special_events().is_none());
    match flood.prepare_special_events() {
        Some((250, Message::Text(t))) => assert_eq!(t, "SPAM"),
        other => panic!("unexpected {:?}", other),
    }
}

#[test]
fn task_steps() {
    assert!(matches!(task_step(TaskEvent::Base(Ok(true))), TaskStep::Continue));
    assert!(matches!(task_step(TaskEvent::Base(Ok(false))), TaskStep::Finish(Ok(()))));
    assert!(matches!(
        task_step(TaskEvent::Base(Err(WsGatorError::JoinError("j".into())))),
        TaskStep::Finish(Err(WsGatorError::JoinError(_)))
    ));
    assert!(matches!(task_step(TaskEvent::Stop(Ok(()))), TaskStep::Finish(Ok(()))));
    assert!(matches!(
        task_step(TaskEvent::Stop(Err(WatchChannelError::Recv("r".into())))),
        TaskStep::Abort(WsGatorError::WatchChannel(WatchChannelError::Recv(_)))
    ));
}

#[test]
fn task_results_prefer_helper_failures() {
    let mpsc = || WsGatorError::MpscChannel(MpscChannelError::Send("s".into()));
    assert!(matches!(finish_task(Ok(()), Ok(Ok(())), Ok(Ok(()))), Ok(())));
    assert!(matches!(
        finish_task(Err(mpsc()), Ok(Ok(())), Ok(Ok(()))),
        Err(WsGatorError::MpscChannel(_))
    ));
    assert!(matches!(
        finish_task(Err(mpsc()), Err("special".into()), Ok(Err(mpsc()))),
        Err(WsGatorError::JoinError(t)) if t == "special"
    ));
    assert!(matches!(
        finish_task(Ok(()), Ok(Ok(())), Err("writer".into())),
        Err(WsGatorError::JoinError(t)) if t == "writer"
    ));
    assert!(matches!(
        finish_task(Ok(()), Ok(Err(mpsc())), Err("writer".into())),
        Err(WsGatorError::MpscChannel(_))
    ));
}
