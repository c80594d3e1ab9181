//! The flat strategy: every connection at once.
use vstd::prelude::*;
use std::sync::Arc;
use crate::configs::common_config::CommonConfig;
use crate::engine::error::WsError;
use crate::message::Message;
use crate::strategy_core::strategy::{handle_message, AttackStrategy};

verus! {

/// Every connection at once, each started after the connection pause.
pub struct FlatStrategy {
    pub common_config: Arc<CommonConfig>,
}

impl AttackStrategy for FlatStrategy {
    open spec fn common_config(&self) -> Arc<CommonConfig> {
        self.common_config
    }

    fn get_common_config(&self) -> (config: Arc<CommonConfig>) {
        self.common_config.clone()
    }

    fn handle_messages(&self, msg: Result<Message, WsError>, connection_number: u32) -> (handled: Result<(bool, Option<Message>), Box<WsError>>) {
        handle_message(msg)
    }

    fn runner_pause(&self, config: &CommonConfig) -> (pause: Option<u64>) {
        Some(config.connection_pause)
    }

    fn runner_starts_timer(&self) -> (starts: bool) {
        true
    }

    fn prepare_special_events(&self) -> (events: Option<(u64, Message)>) {
        None
    }
}

} // verus!
