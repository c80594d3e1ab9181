//! The choices that the command line offers.
use vstd::prelude::*;

verus! {

/// The attack strategies that can be chosen.
#[derive(Clone, Copy, Debug, PartialEq, Eq, Structural)]
pub enum AttackStrategyType {
    NoChoice,
    Flat,
    RampUp,
    Flood,
}

/// The client behaviours that can be chosen.
#[derive(Clone, Copy, Debug, PartialEq, Eq, Structural)]
pub enum BehaviourType {
    NoChoice,
    Silent,
    PingPong,
    Flood,
}

} // verus!
