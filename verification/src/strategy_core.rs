//! Attack strategies that split each connection into a reader, a writer and
//! an optional loop of special events, all stopped by one watch signal.
pub mod flat_strategy;
pub mod flood_strategy;
pub mod ramp_up_strategy;
pub mod strategy;
