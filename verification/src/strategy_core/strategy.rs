//! The attack strategy and the decisions of a connection task.
use vstd::prelude::*;
use std::sync::Arc;
use crate::configs::common_config::CommonConfig;
use crate::engine::error::{WatchChannelError, WsError, WsGatorError};
use crate::message::Message;

verus! {

/// How a connection handles a message read from the server by default: a
/// ping is answered with a pong of the same payload, a close stops the
/// connection, anything else is read past; an error is handed on.
pub open spec fn default_handling(msg: Result<Message, WsError>) -> Result<(bool, Option<Message>), Box<WsError>> {
    match msg {
        Ok(Message::Ping(bytes)) => Ok((true, Some(Message::Pong(bytes)))),
        Ok(Message::Close(_)) => Ok((false, None)),
        Ok(_) => Ok((true, None)),
        Err(e) => Err(Box::new(e)),
    }
}

/// The reaction of a connection to a handled message: the handling itself,
/// with an error of the WebSocket as a failure of the task.
pub open spec fn as_reaction(handled: Result<(bool, Option<Message>), Box<WsError>>) -> Result<(bool, Option<Message>), WsGatorError> {
    match handled {
        Ok(h) => Ok(h),
        Err(e) => Err(WsGatorError::WsError(*e)),
    }
}

/// Handles a message read from the server.
pub fn handle_message(msg: Result<Message, WsError>) -> (handled: Result<(bool, Option<Message>), Box<WsError>>)
    ensures
        handled == default_handling(msg),
{
    match msg {
        Ok(message) => match message {
            Message::Ping(bytes) => Ok((true, Some(Message::Pong(bytes)))),
            Message::Text(_) => Ok((true, None)),
            Message::Close(_) => Ok((false, None)),
            _ => Ok((true, None)),
        },
        Err(e) => Err(Box::new(e)),
    }
}

/// What wakes a connection task up.
#[derive(Debug)]
pub enum TaskEvent {
    /// The reaction to an item of the stream: whether to go on, or a failure.
    Base(Result<bool, WsGatorError>),
    /// The stop signal changed, or its channel failed.
    Stop(Result<(), WatchChannelError>),
}

/// What a connection task does next.
#[derive(Debug)]
pub enum TaskStep {
    /// Keep going.
    Continue,
    /// Leave the loop with this result, once the writer and the special
    /// events have finished.
    Finish(Result<(), WsGatorError>),
    /// Fail at once with this error.
    Abort(WsGatorError),
}

/// The next step of a connection task.
pub fn task_step(event: TaskEvent) -> (step: TaskStep)
    ensures
        match event {
            TaskEvent::Base(Ok(true)) => step is Continue,
            TaskEvent::Base(Ok(false)) => step == TaskStep::Finish(Ok(())),
            TaskEvent::Base(Err(e)) => step == TaskStep::Finish(Err(e)),
            TaskEvent::Stop(Ok(())) => step == TaskStep::Finish(Ok(())),
            TaskEvent::Stop(Err(e)) => step == TaskStep::Abort(WsGatorError::WatchChannel(e)),
        },
{
    match event {
        TaskEvent::Base(Ok(proceed)) => {
            if proceed {
                TaskStep::Continue
            } else {
                TaskStep::Finish(Ok(()))
            }
        },
        TaskEvent::Base(Err(e)) => TaskStep::Finish(Err(e)),
        TaskEvent::Stop(Ok(())) => TaskStep::Finish(Ok(())),
        TaskEvent::Stop(Err(e)) => TaskStep::Abort(WsGatorError::WatchChannel(e)),
    }
}

/// The outcome of a helper task of a connection: the join failed (with its
/// text), or the task ended with its own result.
pub type JoinOutcome = Result<Result<(), WsGatorError>, String>;

/// The result of a connection task: a failure of the special events comes
/// first, then one of the writer, then the result of the loop.
pub open spec fn task_result(loop_result: Result<(), WsGatorError>, special: JoinOutcome, writer: JoinOutcome) -> Result<(), WsGatorError> {
    match special {
        Err(j) => Err(WsGatorError::JoinError(j)),
        Ok(Err(e)) => Err(e),
        Ok(Ok(())) => match writer {
            Err(j) => Err(WsGatorError::JoinError(j)),
            Ok(Err(e)) => Err(e),
            Ok(Ok(())) => loop_result,
        },
    }
}

/// Combines the result of the loop of a connection task with those of its
/// special events and its writer.
pub fn finish_task(loop_result: Result<(), WsGatorError>, special: JoinOutcome, writer: JoinOutcome) -> (result: Result<(), WsGatorError>)
    ensures
        result == task_result(loop_result, special, writer),
        special matches Err(j) ==> result == Err::<(), WsGatorError>(WsGatorError::JoinError(j)),
        special matches Ok(Err(e)) ==> result == Err::<(), WsGatorError>(e),
        special == Ok::<Result<(), WsGatorError>, String>(Ok(())) ==> match writer {
            Err(j) => result == Err::<(), WsGatorError>(WsGatorError::JoinError(j)),
            Ok(Err(e)) => result == Err::<(), WsGatorError>(e),
            Ok(Ok(())) => result == loop_result,
        },
{
    match special {
        Err(j) => return Err(WsGatorError::JoinError(j)),
        Ok(Err(e)) => return Err(e),
        Ok(Ok(())) => {},
    }
    match writer {
        Err(j) => return Err(WsGatorError::JoinError(j)),
        Ok(Err(e)) => return Err(e),
        Ok(Ok(())) => {},
    }
    loop_result
}

/// How a connection task settles its result. A helper that failed is
/// reported whatever the loop gave: first the special events (their own
/// failure, or the failure to join them), then the writer (likewise). Only
/// when both ended well is the task's result the loop's.
pub proof fn law_task_reports_helpers_before_the_loop(
    loop_result: Result<(), WsGatorError>,
    writer: JoinOutcome,
    e: WsGatorError,
    j: String,
)
    ensures
        task_result(loop_result, Err(j), writer) == Err::<(), WsGatorError>(WsGatorError::JoinError(j)),
        task_result(loop_result, Ok(Err(e)), writer) == Err::<(), WsGatorError>(e),
        task_result(loop_result, Ok(Ok(())), Err(j)) == Err::<(), WsGatorError>(WsGatorError::JoinError(j)),
        task_result(loop_result, Ok(Ok(())), Ok(Err(e))) == Err::<(), WsGatorError>(e),
        task_result(loop_result, Ok(Ok(())), Ok(Ok(()))) == loop_result,
{
}

/// An attack strategy. Each spec function names what the strategy decides;
/// each method is bound to it for every strategy.
pub trait AttackStrategy: Send + Sync {
    /// The configuration of the strategy.
    spec fn common_config(&self) -> Arc<CommonConfig>;

    /// How a connection handles a message read from the server.
    open spec fn handling(&self, msg: Result<Message, WsError>) -> Result<(bool, Option<Message>), Box<WsError>> {
        default_handling(msg)
    }

    /// The pause before each connection task is started, if there is one.
    open spec fn pause_of(&self, config: CommonConfig) -> Option<u64> {
        Some(config.connection_pause)
    }

    /// Whether the stop timer is started with the connection tasks.
    open spec fn starts_timer(&self) -> bool {
        true
    }

    /// Whether `events` are the special events of a connection: a period in
    /// milliseconds and the message sent at each of its ticks (`None`: none).
    open spec fn runs_special_events(&self, events: Option<(u64, Message)>) -> bool {
        events is None
    }

    /// The configuration of the strategy.
    fn get_common_config(&self) -> (config: Arc<CommonConfig>)
        ensures
            config == self.common_config(),
    ;

    /// Handles a message read from the server on connection
    /// `connection_number`.
    fn handle_messages(&self, msg: Result<Message, WsError>, connection_number: u32) -> (handled: Result<(bool, Option<Message>), Box<WsError>>)
        ensures
            handled == self.handling(msg),
    ;

    /// The reaction of connection `connection_number` to the next item of the
    /// stream from the server: the end of the stream (`None`) stops it; a
    /// message or an error is handled as `handle_messages` handles it.
    fn run_base_events(&self, item: Option<Result<Message, WsError>>, connection_number: u32) -> (reaction: Result<(bool, Option<Message>), WsGatorError>)
        ensures
            match item {
                None => reaction == Ok::<(bool, Option<Message>), WsGatorError>((false, None)),
                Some(msg) => reaction == as_reaction(self.handling(msg)),
            },
    {
        match item {
            Some(msg) => match self.handle_messages(msg, connection_number) {
                Ok(handled) => Ok(handled),
                Err(e) => Err(WsGatorError::WsError(*e)),
            },
            None => Ok((false, None)),
        }
    }

    /// The pause before each connection task is started, in milliseconds, if
    /// there is one.
    fn runner_pause(&self, config: &CommonConfig) -> (pause: Option<u64>)
        ensures
            pause == self.pause_of(*config),
    ;

    /// Whether the stop timer is started with the connection tasks.
    fn runner_starts_timer(&self) -> (starts: bool)
        ensures
            starts == self.starts_timer(),
    ;

    /// The special events of a connection, if the strategy has any.
    fn prepare_special_events(&self) -> (events: Option<(u64, Message)>)
        ensures
            self.runs_special_events(events),
    ;
}

} // verus!
