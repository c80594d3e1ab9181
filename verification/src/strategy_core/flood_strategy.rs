//! The flood strategy of the split connections.
use vstd::prelude::*;
use vstd::string::*;
use std::sync::Arc;
use crate::configs::common_config::CommonConfig;
use crate::message::{is_text_of, Message};
use crate::engine::error::WsError;
use crate::strategy_core::strategy::{handle_message, AttackStrategy};

verus! {

/// Connections that send "SPAM" every `spam_pause` milliseconds.
pub struct FloodStrategy {
    pub common_config: Arc<CommonConfig>,
    pub spam_pause: u64,
}

impl AttackStrategy for FloodStrategy {
    open spec fn common_config(&self) -> Arc<CommonConfig> {
        self.common_config
    }

    /// Every `spam_pause` milliseconds, a connection sends "SPAM".
    open spec fn runs_special_events(&self, events: Option<(u64, Message)>) -> bool {
        events matches Some((period, m)) && period == self.spam_pause && is_text_of(m, "SPAM"@)
    }

    fn get_common_config(&self) -> (config: Arc<CommonConfig>) {
        self.common_config.clone()
    }

    fn handle_messages(&self, msg: Result<Message, WsError>, connection_number: u32) -> (handled: Result<(bool, Option<Message>), Box<WsError>>) {
        handle_message(msg)
    }

    fn runner_pause(&self, config: &CommonConfig) -> (pause: Option<u64>) {
        Some(config.connection_pause)
    }

    fn runner_starts_timer(&self) -> (starts: bool) {
        true
    }

    fn prepare_special_events(&self) -> (events: Option<(u64, Message)>) {
        Some((self.spam_pause, Message::Text(String::from_str("SPAM"))))
    }
}

} // verus!
