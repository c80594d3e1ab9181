//! The executor of the single-loop attack strategies: what one wave does.
use vstd::prelude::*;
use crate::configs::common_config::CommonConfig;
use crate::message::{is_text_of, Message};
use crate::text::{decimal, with_number};

verus! {

/// One step of a wave.
#[derive(Clone, Copy, Debug, PartialEq, Eq, Structural)]
pub enum WaveStep {
    /// Open the connection of this client and greet the server.
    Connect(u32),
    /// Wait this many milliseconds.
    PauseMillis(u64),
    /// Start the loop of this client's connection.
    Spawn(u32),
    /// Start the timer that stops every connection after the connection
    /// duration.
    StartTimer,
    /// Wait this many seconds.
    PauseSecs(u64),
}

/// One wave: every client connects and greets, in order; then the loop of
/// each connection starts, each after the connection pause; then the stop
/// timer starts, if the configuration asks for an outside timer; then the
/// wave pause passes.
pub open spec fn wave_plan(config: CommonConfig) -> Seq<WaveStep> {
    let n = config.connection_number as nat;
    Seq::new(n, |i: int| WaveStep::Connect(i as u32)) + spawn_steps(config.connection_pause, n) + if config.external_timer {
        seq![WaveStep::StartTimer]
    } else {
        seq![]
    } + seq![WaveStep::PauseSecs(config.waves_pause)]
}

/// The start of `m` connection loops, each after a pause of `pause`
/// milliseconds.
pub open spec fn spawn_steps(pause: u64, m: nat) -> Seq<WaveStep> {
    Seq::new(
        2 * m,
        |k: int|
            if k % 2 == 0 {
                WaveStep::PauseMillis(pause)
            } else {
                WaveStep::Spawn((k / 2) as u32)
            },
    )
}

/// In a wave, every client is connected and greeted before the loop of any
/// connection starts, and the loop of client `i` is the `i`-th one started.
pub proof fn law_wave_connects_before_starting(config: CommonConfig, i: nat)
    requires
        i < config.connection_number,
    ensures
        wave_plan(config)[i as int] == WaveStep::Connect(i as u32),
        wave_plan(config)[config.connection_number + 2 * i] == WaveStep::PauseMillis(
            config.connection_pause,
        ),
        wave_plan(config)[config.connection_number + 2 * i + 1] == WaveStep::Spawn(i as u32),
{
    let n = config.connection_number as int;
    let k = 2 * (i as int);
    assert(k % 2 == 0);
    assert((k + 1) % 2 == 1);
    assert((k + 1) / 2 == i);
    assert(spawn_steps(config.connection_pause, n as nat)[k] == WaveStep::PauseMillis(config.connection_pause));
    assert(spawn_steps(config.connection_pause, n as nat)[k + 1] == WaveStep::Spawn(i as u32));
}

/// The executor of the single-loop attack strategies.
pub struct Executor;

impl Executor {
    /// The greeting that client `i` sends once connected.
    pub fn greeting(&self, i: u32) -> (message: Message)
        ensures
            is_text_of(message, "Peer "@ + decimal(i as nat) + " saying Hello!"@),
    {
        Message::Text(with_number("Peer ", i, " saying Hello!"))
    }

    /// The steps of one wave.
    pub fn wave_plan(&self, config: &CommonConfig) -> (plan: Vec<WaveStep>)
        ensures
            plan@ == wave_plan(*config),
    {
        let n = config.connection_number;
        let mut plan: Vec<WaveStep> = Vec::new();
        let mut i: u32 = 0;
        while i < n
            invariant
                i <= n,
                plan@ == Seq::new(i as nat, |j: int| WaveStep::Connect(j as u32)),
            decreases n - i,
        {
            plan.push(WaveStep::Connect(i));
            i = i + 1;
            assert(plan@ =~= Seq::new(i as nat, |j: int| WaveStep::Connect(j as u32)));
        }
        let ghost connects = plan@;
        let mut j: u32 = 0;
        while j < n
            invariant
                j <= n,
                connects == Seq::new(n as nat, |j: int| WaveStep::Connect(j as u32)),
                plan@ == connects + spawn_steps(config.connection_pause, j as nat),
            decreases n - j,
        {
            plan.push(WaveStep::PauseMillis(config.connection_pause));
            plan.push(WaveStep::Spawn(j));
            proof {
                let jj = j as int;
                assert((2 * jj) % 2 == 0);
                assert((2 * jj + 1) % 2 == 1);
                assert((2 * jj + 1) / 2 == jj);
                let next = spawn_steps(config.connection_pause, (j + 1) as nat);
                let prev = spawn_steps(config.connection_pause, j as nat);
                assert forall|k: int| 0 <= k < 2 * jj implies next[k] == prev[k] by {}
                assert(next[2 * jj] == WaveStep::PauseMillis(config.connection_pause));
                assert(next[2 * jj + 1] == WaveStep::Spawn(j));
                assert(spawn_steps(config.connection_pause, (j + 1) as nat) =~= spawn_steps(config.connection_pause, j as nat).push(
                    WaveStep::PauseMillis(config.connection_pause),
                ).push(WaveStep::Spawn(j)));
            }
            j = j + 1;
            assert(plan@ =~= connects + spawn_steps(config.connection_pause, j as nat));
        }
        if config.external_timer {
            plan.push(WaveStep::StartTimer);
        }
        plan.push(WaveStep::PauseSecs(config.waves_pause));
        assert(plan@ =~= wave_plan(*config));
        plan
    }
}

} // verus!
