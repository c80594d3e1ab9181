//! The ramp-up strategy of the split connections.
use vstd::prelude::*;
use std::sync::Arc;
use crate::configs::common_config::CommonConfig;
use crate::engine::error::WsError;
use crate::message::Message;
use crate::strategy_core::strategy::{handle_message, AttackStrategy};

verus! {

/// Connection tasks started one after the other with no pause, and with no
/// stop timer.
pub struct RampUpStrategy {
    pub common_config: Arc<CommonConfig>,
}

impl AttackStrategy for RampUpStrategy {
    open spec fn common_config(&self) -> Arc<CommonConfig> {
        self.common_config
    }

    open spec fn pause_of(&self, config: CommonConfig) -> Option<u64> {
        None
    }

    open spec fn starts_timer(&self) -> bool {
        false
    }

    fn get_common_config(&self) -> (config: Arc<CommonConfig>) {
        self.common_config.clone()
    }

    fn handle_messages(&self, msg: Result<Message, WsError>, connection_number: u32) -> (handled: Result<(bool, Option<Message>), Box<WsError>>) {
        handle_message(msg)
    }

    fn runner_pause(&self, config: &CommonConfig) -> (pause: Option<u64>) {
        None
    }

    fn runner_starts_timer(&self) -> (starts: bool) {
        false
    }

    fn prepare_special_events(&self) -> (events: Option<(u64, Message)>) {
        None
    }
}

} // verus!
