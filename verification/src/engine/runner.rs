//! Runners: the algorithms that decide in which order, and with which pauses,
//! the clients of a batch are launched.
use vstd::prelude::*;
use vstd::arithmetic::div_mod::{lemma_fundamental_div_mod, lemma_fundamental_div_mod_converse};

verus! {

/// What every runner is configured with.
#[derive(Clone, Debug)]
pub struct CommonRunnerConfig {
    /// The server under test.
    pub url: String,
    /// The number of clients in a batch.
    pub connection_number: u32,
    /// How long each connection is kept, in seconds.
    pub connection_duration: u64,
}

/// How a ramp-up runner brings its clients up.
#[derive(Clone, Copy, Debug, PartialEq, Eq, Structural)]
pub enum RampUpStrategy {
    /// `target_connection` clients one after the other, evenly spread over
    /// `ramp_duration` seconds.
    Linear { target_connection: u32, ramp_duration: u64 },
    /// Clients in groups of `step_size`, with `step_duration` milliseconds
    /// between groups.
    Stepped { step_duration: u32, step_size: u32 },
    /// Clients in batches of 1, g, g^2, ... (g the growth factor), with
    /// `soaking_time` milliseconds after each batch.
    Expotential { growth_factor: u32, soaking_time: u64 },
    /// A load that rises from `min_connections` to `max_connections` live
    /// connections and falls back, one connection at a time, over `period`
    /// milliseconds.
    Sine { min_connections: u32, max_connections: u32, period: u32 },
}

/// One step of a launch plan.
#[derive(Clone, Copy, Debug, PartialEq, Eq, Structural)]
pub enum LaunchStep {
    /// Start the client with this id.
    Connect(u32),
    /// Wait this many milliseconds.
    Pause(u64),
    /// Stop the client with this id.
    Disconnect(u32),
}

/// `count` clients started one after the other, from id `start` on.
pub open spec fn connects(start: nat, count: nat) -> Seq<LaunchStep> {
    Seq::new(count, |k: int| LaunchStep::Connect((start + k) as u32))
}

/// The pause between two clients of a linear ramp-up, in milliseconds: the
/// ramp-up duration spread evenly over the target number of clients.
pub open spec fn linear_delay(ramp_duration: u64, target_connection: u32) -> int {
    (ramp_duration * 1000) / (target_connection as int)
}

/// A linear ramp-up of `n` clients: each client is started, then `delay`
/// milliseconds pass.
pub open spec fn linear_plan(n: nat, delay: u64) -> Seq<LaunchStep>
    decreases n,
{
    if n == 0 {
        seq![]
    } else {
        linear_plan((n - 1) as nat, delay) + seq![
            LaunchStep::Connect((n - 1) as u32),
            LaunchStep::Pause(delay),
        ]
    }
}

/// In a stepped ramp-up, whether a pause comes before client `k`: always when
/// the step size is zero, else before each client that opens a new group.
pub open spec fn pauses_before(k: nat, step_size: nat) -> bool {
    step_size == 0 || (k > 0 && k % step_size == 0)
}

/// A stepped ramp-up of `n` clients.
pub open spec fn stepped_plan(n: nat, step_size: nat, pause: u64) -> Seq<LaunchStep>
    decreases n,
{
    if n == 0 {
        seq![]
    } else {
        stepped_plan((n - 1) as nat, step_size, pause) + if pauses_before(
            (n - 1) as nat,
            step_size,
        ) {
            seq![LaunchStep::Pause(pause), LaunchStep::Connect((n - 1) as u32)]
        } else {
            seq![LaunchStep::Connect((n - 1) as u32)]
        }
    }
}

/// An exponential ramp-up of the clients `start..n`: a batch of `size`
/// clients (or of all that are left, if fewer), a pause of `soak`
/// milliseconds, then the rest with a batch size `growth` times larger. An
/// empty batch ends the ramp-up.
pub open spec fn expo_plan(start: nat, n: nat, size: nat, growth: nat, soak: u64) -> Seq<LaunchStep>
    decreases n - start,
{
    if size == 0 || start >= n {
        seq![]
    } else {
        let take: nat = if size < n - start {
            size
        } else {
            (n - start) as nat
        };
        connects(start, take) + seq![LaunchStep::Pause(soak)] + expo_plan(
            start + take,
            n,
            size * growth,
            growth,
            soak,
        )
    }
}

/// The ids of the clients that a plan starts, in order.
pub open spec fn launched(plan: Seq<LaunchStep>) -> Seq<u32>
    decreases plan.len(),
{
    if plan.len() == 0 {
        seq![]
    } else {
        launched(plan.drop_last()) + match plan.last() {
            LaunchStep::Connect(id) => seq![id],
            LaunchStep::Pause(_) => seq![],
            LaunchStep::Disconnect(_) => seq![],
        }
    }
}

/// The total time that a plan waits, in milliseconds.
pub open spec fn total_pause(plan: Seq<LaunchStep>) -> int
    decreases plan.len(),
{
    if plan.len() == 0 {
        0
    } else {
        total_pause(plan.drop_last()) + match plan.last() {
            LaunchStep::Connect(_) => 0int,
            LaunchStep::Pause(ms) => ms as int,
            LaunchStep::Disconnect(_) => 0int,
        }
    }
}

/// The number of clients that a plan leaves connected: one for each start,
/// minus one for each stop.
pub open spec fn live(plan: Seq<LaunchStep>) -> int
    decreases plan.len(),
{
    if plan.len() == 0 {
        0
    } else {
        live(plan.drop_last()) + match plan.last() {
            LaunchStep::Connect(_) => 1int,
            LaunchStep::Pause(_) => 0int,
            LaunchStep::Disconnect(_) => -1int,
        }
    }
}

/// The pause between two changes of a sine load, in milliseconds: the period
/// spread over the rise and the fall.
pub open spec fn sine_pause(min: nat, max: nat, period: nat) -> int {
    (period as int) / (2 * (max - min))
}

/// The rise of a sine load: `m` clients, from id `min` on, each started
/// after a pause of `p` milliseconds.
pub open spec fn rise_steps(min: nat, m: nat, p: u64) -> Seq<LaunchStep>
    decreases m,
{
    if m == 0 {
        seq![]
    } else {
        rise_steps(min, (m - 1) as nat, p) + seq![
            LaunchStep::Pause(p),
            LaunchStep::Connect((min + m - 1) as u32),
        ]
    }
}

/// The fall of a sine load: the clients below id `max`, the last started
/// first, `m` of them, each stopped after a pause of `p` milliseconds.
pub open spec fn fall_steps(max: nat, m: nat, p: u64) -> Seq<LaunchStep>
    decreases m,
{
    if m == 0 {
        seq![]
    } else {
        fall_steps(max, (m - 1) as nat, p) + seq![
            LaunchStep::Pause(p),
            LaunchStep::Disconnect((max - m) as u32),
        ]
    }
}

/// One period of a sine load: from `min` live clients up to `max` and back.
pub open spec fn sine_cycle(min: nat, max: nat, period: nat) -> Seq<LaunchStep> {
    let p = sine_pause(min, max, period) as u64;
    rise_steps(min, (max - min) as nat, p) + fall_steps(max, (max - min) as nat, p)
}

/// A sine load: `min` clients at once, then one period.
pub open spec fn sine_plan(min: nat, max: nat, period: nat) -> Seq<LaunchStep> {
    connects(0, min) + sine_cycle(min, max, period)
}

/// The ids `0..n`, in order.
pub open spec fn all_ids(n: nat) -> Seq<u32> {
    Seq::new(n, |k: int| k as u32)
}

/// What a ramp-up needs so that its plan can be computed: the linear one
/// divides by the target number of clients and counts the ramp-up duration in
/// milliseconds.
pub open spec fn ramp_up_plannable(strategy: RampUpStrategy, config: CommonRunnerConfig) -> bool {
    match strategy {
        RampUpStrategy::Linear { target_connection, ramp_duration } => {
            &&& target_connection > 0
            &&& ramp_duration * 1000 <= u64::MAX
        },
        _ => true,
    }
}

/// How many clients a ramp-up starts: the target of a linear one, the batch
/// for a stepped or an exponential one.
pub open spec fn ramp_up_clients(strategy: RampUpStrategy, config: CommonRunnerConfig) -> nat {
    match strategy {
        RampUpStrategy::Linear { target_connection, .. } => target_connection as nat,
        _ => config.connection_number as nat,
    }
}

/// The plan of a ramp-up strategy for the clients of one batch.
pub open spec fn ramp_up_plan(strategy: RampUpStrategy, config: CommonRunnerConfig) -> Seq<
    LaunchStep,
> {
    let n = config.connection_number as nat;
    match strategy {
        RampUpStrategy::Linear { target_connection, ramp_duration } => linear_plan(
            target_connection as nat,
            linear_delay(ramp_duration, target_connection) as u64,
        ),
        RampUpStrategy::Stepped { step_duration, step_size } => stepped_plan(
            n,
            step_size as nat,
            step_duration as u64,
        ),
        RampUpStrategy::Expotential { growth_factor, soaking_time } => expo_plan(
            0,
            n,
            1,
            growth_factor as nat,
            soaking_time,
        ),
        RampUpStrategy::Sine { min_connections, max_connections, period } => if min_connections
            < max_connections {
            sine_plan(min_connections as nat, max_connections as nat, period as nat)
        } else {
            seq![]
        },
    }
}

/// In a stepped ramp-up, how many clients of the current group have been
/// started once `i` clients have been.
pub open spec fn step_counter(i: nat, step_size: nat) -> nat {
    if i == 0 {
        0
    } else if step_size == 0 {
        1
    } else {
        (((i - 1) as nat) % step_size) + 1
    }
}

proof fn lemma_step_counter_next(i: nat, s: nat)
    requires
        s > 0,
    ensures
        step_counter(i, s) + 1 <= s <==> !pauses_before(i, s),
        !pauses_before(i, s) ==> step_counter(i + 1, s) == step_counter(i, s) + 1,
        pauses_before(i, s) ==> step_counter(i + 1, s) == 1,
{
    if i > 0 {
        let x = (i - 1) as int;
        let d = s as int;
        lemma_fundamental_div_mod(x, d);
        let q = x / d;
        let r = x % d;
        assert(x == q * d + r);
        assert(0 <= r < d);
        if r + 1 < d {
            assert(i as int == q * d + (r + 1)) by (nonlinear_arith)
                requires
                    x == q * d + r,
                    i as int == x + 1,
            ;
            lemma_fundamental_div_mod_converse(i as int, d, q, r + 1);
        } else {
            assert(i as int == (q + 1) * d + 0) by (nonlinear_arith)
                requires
                    x == q * d + r,
                    i as int == x + 1,
                    r + 1 == d,
            ;
            lemma_fundamental_div_mod_converse(i as int, d, q + 1, 0);
        }
    }
}

proof fn lemma_saturating_growth(size: u64, ideal: nat, g: u32)
    requires
        size as nat == if ideal < u64::MAX { ideal } else { u64::MAX as nat },
    ensures
        ({
            let grown: nat = ideal * (g as nat);
            let next: u64 = if size * g > u64::MAX { u64::MAX } else { (size * g) as u64 };
            next as nat == if grown < u64::MAX { grown } else { u64::MAX as nat }
        }),
{
    let grown: nat = ideal * (g as nat);
    if ideal >= u64::MAX {
        if g >= 1 {
            assert(grown >= u64::MAX) by (nonlinear_arith)
                requires
                    ideal >= u64::MAX,
                    g >= 1,
                    grown == ideal * g,
            ;
            assert(size * g >= u64::MAX) by (nonlinear_arith)
                requires
                    size == u64::MAX,
                    g >= 1,
            ;
        } else {
            assert(grown == 0) by (nonlinear_arith)
                requires
                    g == 0,
                    grown == ideal * g,
            ;
        }
    }
}

impl RampUpStrategy {
    /// The launch plan of this strategy for a batch of
    /// `config.connection_number` clients.
    pub fn run(&self, config: &CommonRunnerConfig) -> (plan: Vec<LaunchStep>)
        requires
            ramp_up_plannable(*self, *config),
        ensures
            plan@ == ramp_up_plan(*self, *config),
    {
        match *self {
            RampUpStrategy::Linear { target_connection, ramp_duration } => self.get_linear(
                config,
                target_connection,
                ramp_duration,
            ),
            RampUpStrategy::Stepped { step_duration, step_size } => self.get_stepped(
                config,
                step_duration,
                step_size,
            ),
            RampUpStrategy::Expotential { growth_factor, soaking_time } => self.get_expotential(
                config,
                growth_factor,
                soaking_time,
            ),
            RampUpStrategy::Sine { min_connections, max_connections, period } => self.get_sine(
                min_connections,
                max_connections,
                period,
            ),
        }
    }

    /// Linear ramp-up to `target_connection` clients: each client is
    /// started, then the ramp-up duration divided by the target passes, so
    /// that the ramp-up lasts `ramp_duration` seconds.
    pub fn get_linear(&self, config: &CommonRunnerConfig, target_connection: u32, ramp_duration: u64) -> (plan: Vec<LaunchStep>)
        requires
            target_connection > 0,
            ramp_duration * 1000 <= u64::MAX,
        ensures
            plan@ == linear_plan(
                target_connection as nat,
                linear_delay(ramp_duration, target_connection) as u64,
            ),
    {
        let delay_millis: u64 = (ramp_duration * 1000) / (target_connection as u64);
        let n = target_connection;
        let mut plan: Vec<LaunchStep> = Vec::new();
        let mut i: u32 = 0;
        while i < n
            invariant
                i <= n,
                n == target_connection,
                delay_millis == linear_delay(ramp_duration, target_connection),
                plan@ == linear_plan(i as nat, delay_millis),
            decreases n - i,
        {
            plan.push(LaunchStep::Connect(i));
            plan.push(LaunchStep::Pause(delay_millis));
            i = i + 1;
            assert(plan@ =~= linear_plan(i as nat, delay_millis));
        }
        plan
    }

    /// Stepped ramp-up: clients in groups of `step_size`, with a pause of
    /// `step_duration` milliseconds before each group but the first (before
    /// every client when the step size is zero).
    pub fn get_stepped(&self, config: &CommonRunnerConfig, step_duration: u32, step_size: u32) -> (plan: Vec<LaunchStep>)
        ensures
            plan@ == stepped_plan(config.connection_number as nat, step_size as nat, step_duration as u64),
    {
        let n = config.connection_number;
        let pause = step_duration as u64;
        let mut plan: Vec<LaunchStep> = Vec::new();
        let mut counter: u32 = 0;
        let mut i: u32 = 0;
        while i < n
            invariant
                i <= n,
                n == config.connection_number,
                pause == step_duration as u64,
                counter == step_counter(i as nat, step_size as nat),
                counter <= i,
                plan@ == stepped_plan(i as nat, step_size as nat, pause),
            decreases n - i,
        {
            proof {
                if step_size > 0 {
                    lemma_step_counter_next(i as nat, step_size as nat);
                }
            }
            counter = counter + 1;
            if counter <= step_size {
                plan.push(LaunchStep::Connect(i));
            } else {
                plan.push(LaunchStep::Pause(pause));
                counter = 1;
                plan.push(LaunchStep::Connect(i));
            }
            i = i + 1;
            assert(plan@ =~= stepped_plan(i as nat, step_size as nat, pause));
        }
        plan
    }

    /// Exponential ramp-up: batches of 1, g, g^2, ... clients (g the growth
    /// factor; the last batch takes what is left), each followed by a pause of
    /// `soaking_time` milliseconds. A growth factor of zero ends the ramp-up
    /// after the first client.
    pub fn get_expotential(&self, config: &CommonRunnerConfig, growth_factor: u32, soaking_time: u64) -> (plan: Vec<LaunchStep>)
        ensures
            plan@ == expo_plan(0, config.connection_number as nat, 1, growth_factor as nat, soaking_time),
    {
        let n = config.connection_number;
        let mut plan: Vec<LaunchStep> = Vec::new();
        let mut start: u32 = 0;
        let mut size: u64 = 1;
        let ghost mut ideal: nat = 1;
        let ghost whole = expo_plan(0, n as nat, 1, growth_factor as nat, soaking_time);
        loop
            invariant
                start <= n,
                n == config.connection_number,
                size as nat == if ideal < u64::MAX { ideal } else { u64::MAX as nat },
                whole == expo_plan(0, n as nat, 1, growth_factor as nat, soaking_time),
                whole == plan@ + expo_plan(start as nat, n as nat, ideal, growth_factor as nat, soaking_time),
            ensures
                plan@ == whole,
            decreases n - start,
        {
            let remaining: u32 = n - start;
            let take: u32 = if size < remaining as u64 { size as u32 } else { remaining };
            if take == 0 {
                assert(expo_plan(start as nat, n as nat, ideal, growth_factor as nat, soaking_time) =~= seq![]);
                assert(plan@ =~= whole);
                break;
            }
            let ghost before = plan@;
            let mut k: u32 = 0;
            while k < take
                invariant
                    k <= take,
                    take <= n - start,
                    start + take <= n,
                    plan@ == before + connects(start as nat, k as nat),
                decreases take - k,
            {
                plan.push(LaunchStep::Connect(start + k));
                k = k + 1;
                assert(plan@ =~= before + connects(start as nat, k as nat));
            }
            plan.push(LaunchStep::Pause(soaking_time));
            proof {
                lemma_saturating_growth(size, ideal, growth_factor);
                let rest = expo_plan((start + take) as nat, n as nat, ideal * (growth_factor as nat), growth_factor as nat, soaking_time);
                assert(expo_plan(start as nat, n as nat, ideal, growth_factor as nat, soaking_time)
                    == connects(start as nat, take as nat) + seq![LaunchStep::Pause(soaking_time)] + rest);
                assert(whole =~= plan@ + rest);
            }
            start = start + take;
            size = match size.checked_mul(growth_factor as u64) {
                Some(grown) => grown,
                None => u64::MAX,
            };
            proof {
                ideal = ideal * (growth_factor as nat);
            }
        }
        plan
    }

    /// Sine ramp-up: `min_connections` clients at once, then one period: the
    /// load rises to `max_connections` and falls back, one client at a time.
    /// Bounds with no room between them give no plan.
    pub fn get_sine(&self, min_connections: u32, max_connections: u32, period: u32) -> (plan: Vec<LaunchStep>)
        ensures
            min_connections < max_connections ==> plan@ == sine_plan(
                min_connections as nat,
                max_connections as nat,
                period as nat,
            ),
            min_connections >= max_connections ==> plan@ == Seq::<LaunchStep>::empty(),
    {
        let mut plan: Vec<LaunchStep> = Vec::new();
        if min_connections >= max_connections {
            return plan;
        }
        let mut i: u32 = 0;
        while i < min_connections
            invariant
                i <= min_connections,
                plan@ == connects(0, i as nat),
            decreases min_connections - i,
        {
            plan.push(LaunchStep::Connect(i));
            i = i + 1;
            assert(plan@ =~= connects(0, i as nat));
        }
        let cycle = sine_cycle_steps(min_connections, max_connections, period);
        let ghost warm = plan@;
        let mut cycle = cycle;
        plan.append(&mut cycle);
        assert(plan@ =~= warm + sine_cycle(min_connections as nat, max_connections as nat, period as nat));
        plan
    }
}

/// The runner that starts every client of the batch at once.
#[derive(Clone, Debug)]
pub struct LinearRunner {
    pub common_config: CommonRunnerConfig,
}

/// The runner that follows a ramp-up strategy.
#[derive(Clone, Debug)]
pub struct RampUpRunner {
    pub strategy: RampUpStrategy,
    pub common_config: CommonRunnerConfig,
}

/// The runner that keeps the number of live connections between a minimum
/// and a maximum.
#[derive(Clone, Debug)]
pub struct SineRunner {
    pub common_config: CommonRunnerConfig,
    pub min_connections: u32,
    pub max_connections: u32,
    pub period: u32,
}

/// The ids of the clients of a batch of `amount`: `0..amount`, in order.
pub fn batch_ids(amount: u32) -> (ids: Vec<u32>)
    ensures
        ids@ == all_ids(amount as nat),
{
    let mut ids: Vec<u32> = Vec::new();
    let mut i: u32 = 0;
    while i < amount
        invariant
            i <= amount,
            ids@ == all_ids(i as nat),
        decreases amount - i,
    {
        ids.push(i);
        i = i + 1;
        assert(ids@ =~= all_ids(i as nat));
    }
    ids
}

/// Every client of the batch, started at once.
pub fn launch_all(config: &CommonRunnerConfig) -> (plan: Vec<LaunchStep>)
    ensures
        plan@ == connects(0, config.connection_number as nat),
{
    let n = config.connection_number;
    let mut plan: Vec<LaunchStep> = Vec::new();
    let mut i: u32 = 0;
    while i < n
        invariant
            i <= n,
            plan@ == connects(0, i as nat),
        decreases n - i,
    {
        plan.push(LaunchStep::Connect(i));
        i = i + 1;
        assert(plan@ =~= connects(0, i as nat));
    }
    plan
}

impl LinearRunner {
    /// The configuration that the runner was made with.
    pub fn get_common_config(&self) -> (config: &CommonRunnerConfig)
        ensures
            *config == self.common_config,
    {
        &self.common_config
    }

    /// The plan of a batch: every client at once, with no pause.
    pub fn launch_plan(&self) -> (plan: Vec<LaunchStep>)
        ensures
            plan@ == connects(0, self.common_config.connection_number as nat),
    {
        launch_all(&self.common_config)
    }
}

impl RampUpRunner {
    /// The configuration that the runner was made with.
    pub fn get_common_config(&self) -> (config: &CommonRunnerConfig)
        ensures
            *config == self.common_config,
    {
        &self.common_config
    }

    /// The plan of a batch: the one of the runner's strategy.
    pub fn launch_plan(&self) -> (plan: Vec<LaunchStep>)
        requires
            ramp_up_plannable(self.strategy, self.common_config),
        ensures
            plan@ == ramp_up_plan(self.strategy, self.common_config),
    {
        self.strategy.run(&self.common_config)
    }
}

/// One period of a sine load: the rise from `min` to `max` live clients and
/// the fall back, one client at a time.
pub fn sine_cycle_steps(min: u32, max: u32, period: u32) -> (cycle: Vec<LaunchStep>)
    requires
        min < max,
    ensures
        cycle@ == sine_cycle(min as nat, max as nat, period as nat),
{
    let d: u32 = max - min;
    let p: u64 = (period as u64) / (2 * (d as u64));
    assert(p == sine_pause(min as nat, max as nat, period as nat) as u64);
    let mut cycle: Vec<LaunchStep> = Vec::new();
    let mut k: u32 = 0;
    while k < d
        invariant
            k <= d,
            d == max - min,
            cycle@ == rise_steps(min as nat, k as nat, p),
        decreases d - k,
    {
        cycle.push(LaunchStep::Pause(p));
        cycle.push(LaunchStep::Connect(min + k));
        k = k + 1;
        assert(cycle@ =~= rise_steps(min as nat, k as nat, p));
    }
    let ghost rise = cycle@;
    let mut j: u32 = 0;
    while j < d
        invariant
            j <= d,
            d == max - min,
            rise == rise_steps(min as nat, d as nat, p),
            cycle@ == rise + fall_steps(max as nat, j as nat, p),
        decreases d - j,
    {
        cycle.push(LaunchStep::Pause(p));
        cycle.push(LaunchStep::Disconnect(max - j - 1));
        j = j + 1;
        assert(cycle@ =~= rise + fall_steps(max as nat, j as nat, p));
    }
    cycle
}

impl SineRunner {
    /// The configuration that the runner was made with.
    pub fn get_common_config(&self) -> (config: &CommonRunnerConfig)
        ensures
            *config == self.common_config,
    {
        &self.common_config
    }

    /// The first plan of a batch: the minimum of clients at once, then one
    /// period of the load.
    pub fn launch_plan(&self) -> (plan: Vec<LaunchStep>)
        requires
            self.min_connections < self.max_connections,
        ensures
            plan@ == sine_plan(self.min_connections as nat, self.max_connections as nat, self.period as nat),
    {
        let strategy = RampUpStrategy::Sine {
            min_connections: self.min_connections,
            max_connections: self.max_connections,
            period: self.period,
        };
        strategy.get_sine(self.min_connections, self.max_connections, self.period)
    }

    /// Whether another period of the load follows, `elapsed_secs` whole
    /// seconds after the batch started: while the connection duration has
    /// not passed.
    pub fn keeps_cycling(&self, elapsed_secs: u64) -> (more: bool)
        ensures
            more == (elapsed_secs < self.common_config.connection_duration),
    {
        elapsed_secs < self.common_config.connection_duration
    }

    /// Each later plan of a batch: one more period of the load.
    pub fn cycle_plan(&self) -> (plan: Vec<LaunchStep>)
        requires
            self.min_connections < self.max_connections,
        ensures
            plan@ == sine_cycle(self.min_connections as nat, self.max_connections as nat, self.period as nat),
    {
        sine_cycle_steps(self.min_connections, self.max_connections, self.period)
    }
}

proof fn lemma_launched_concat(a: Seq<LaunchStep>, b: Seq<LaunchStep>)
    ensures
        launched(a + b) == launched(a) + launched(b),
        total_pause(a + b) == total_pause(a) + total_pause(b),
        live(a + b) == live(a) + live(b),
    decreases b.len(),
{
    if b.len() == 0 {
        assert(a + b =~= a);
        assert(launched(b) =~= seq![]);
        assert(live(b) == 0);
        assert(launched(a) + launched(b) =~= launched(a));
    } else {
        lemma_launched_concat(a, b.drop_last());
        assert((a + b).drop_last() =~= a + b.drop_last());
        assert((a + b).last() == b.last());
        assert(launched(a + b) =~= launched(a) + launched(b));
    }
}

proof fn lemma_launched_single(x: LaunchStep)
    ensures
        launched(seq![x]) == match x {
            LaunchStep::Connect(id) => seq![id],
            LaunchStep::Pause(_) => Seq::<u32>::empty(),
            LaunchStep::Disconnect(_) => Seq::<u32>::empty(),
        },
        total_pause(seq![x]) == match x {
            LaunchStep::Connect(_) => 0int,
            LaunchStep::Pause(ms) => ms as int,
            LaunchStep::Disconnect(_) => 0int,
        },
        live(seq![x]) == match x {
            LaunchStep::Connect(_) => 1int,
            LaunchStep::Pause(_) => 0int,
            LaunchStep::Disconnect(_) => -1int,
        },
{
    assert(seq![x].drop_last() =~= Seq::<LaunchStep>::empty());
    assert(seq![x].last() == x);
    assert(launched(Seq::<LaunchStep>::empty()) =~= Seq::<u32>::empty());
    assert(total_pause(Seq::<LaunchStep>::empty()) == 0);
    assert(live(Seq::<LaunchStep>::empty()) == 0);
    assert(launched(seq![x]) =~= match x {
        LaunchStep::Connect(id) => seq![id],
        LaunchStep::Pause(_) => Seq::<u32>::empty(),
        LaunchStep::Disconnect(_) => Seq::<u32>::empty(),
    });
}

proof fn lemma_launched_pair(x: LaunchStep, y: LaunchStep)
    ensures
        launched(seq![x, y]) == launched(seq![x]) + launched(seq![y]),
        total_pause(seq![x, y]) == total_pause(seq![x]) + total_pause(seq![y]),
        live(seq![x, y]) == live(seq![x]) + live(seq![y]),
{
    assert(seq![x, y] =~= seq![x] + seq![y]);
    lemma_launched_concat(seq![x], seq![y]);
}

proof fn lemma_launched_connects(start: nat, count: nat)
    ensures
        launched(connects(start, count)) == Seq::new(count, |k: int| (start + k) as u32),
        total_pause(connects(start, count)) == 0,
        live(connects(start, count)) == count,
    decreases count,
{
    if count > 0 {
        lemma_launched_connects(start, (count - 1) as nat);
        assert(connects(start, count).drop_last() =~= connects(start, (count - 1) as nat));
        assert(launched(connects(start, count)) =~= Seq::new(count, |k: int| (start + k) as u32));
    } else {
        assert(launched(connects(start, count)) =~= Seq::new(count, |k: int| (start + k) as u32));
    }
}

proof fn lemma_linear_plan(n: nat, delay: u64)
    ensures
        launched(linear_plan(n, delay)) == all_ids(n),
        total_pause(linear_plan(n, delay)) == n * delay,
    decreases n,
{
    if n == 0 {
        assert(launched(linear_plan(n, delay)) =~= all_ids(n));
    } else {
        let m = (n - 1) as nat;
        lemma_linear_plan(m, delay);
        let tail = seq![LaunchStep::Connect(m as u32), LaunchStep::Pause(delay)];
        lemma_launched_concat(linear_plan(m, delay), tail);
        lemma_launched_pair(LaunchStep::Connect(m as u32), LaunchStep::Pause(delay));
        lemma_launched_single(LaunchStep::Connect(m as u32));
        lemma_launched_single(LaunchStep::Pause(delay));
        assert(launched(tail) =~= seq![m as u32]);
        assert(launched(linear_plan(n, delay)) =~= all_ids(n));
        assert(total_pause(tail) == delay);
        assert(n * delay == m * delay + delay) by (nonlinear_arith)
            requires
                n == m + 1,
        ;
    }
}

proof fn lemma_stepped_plan(n: nat, step_size: nat, pause: u64)
    ensures
        launched(stepped_plan(n, step_size, pause)) == all_ids(n),
    decreases n,
{
    if n == 0 {
        assert(launched(stepped_plan(n, step_size, pause)) =~= all_ids(n));
    } else {
        let m = (n - 1) as nat;
        lemma_stepped_plan(m, step_size, pause);
        let tail = if pauses_before(m, step_size) {
            seq![LaunchStep::Pause(pause), LaunchStep::Connect(m as u32)]
        } else {
            seq![LaunchStep::Connect(m as u32)]
        };
        lemma_launched_concat(stepped_plan(m, step_size, pause), tail);
        lemma_launched_pair(LaunchStep::Pause(pause), LaunchStep::Connect(m as u32));
        lemma_launched_single(LaunchStep::Connect(m as u32));
        lemma_launched_single(LaunchStep::Pause(pause));
        assert(launched(tail) =~= seq![m as u32]);
        assert(launched(stepped_plan(n, step_size, pause)) =~= all_ids(n));
    }
}

proof fn lemma_expo_plan(start: nat, n: nat, size: nat, growth: nat, soak: u64)
    requires
        size >= 1,
        growth >= 1,
        n <= u32::MAX + 1,
    ensures
        launched(expo_plan(start, n, size, growth, soak)) == Seq::new(
            (if start <= n { n - start } else { 0 }) as nat,
            |k: int| (start + k) as u32,
        ),
    decreases n - start,
{
    if start >= n {
        assert(launched(expo_plan(start, n, size, growth, soak)) =~= Seq::new(
            (if start <= n { n - start } else { 0 }) as nat,
            |k: int| (start + k) as u32,
        ));
    } else {
        let take: nat = if size < n - start { size } else { (n - start) as nat };
        assert(size * growth >= 1) by (nonlinear_arith)
            requires
                size >= 1,
                growth >= 1,
        ;
        lemma_expo_plan(start + take, n, size * growth, growth, soak);
        let head = connects(start, take) + seq![LaunchStep::Pause(soak)];
        let rest = expo_plan(start + take, n, size * growth, growth, soak);
        lemma_launched_concat(head, rest);
        lemma_launched_concat(connects(start, take), seq![LaunchStep::Pause(soak)]);
        lemma_launched_connects(start, take);
        lemma_launched_single(LaunchStep::Pause(soak));
        assert(launched(expo_plan(start, n, size, growth, soak)) =~= Seq::new(
            (if start <= n { n - start } else { 0 }) as nat,
            |k: int| (start + k) as u32,
        ));
    }
}

proof fn lemma_div_next(xi: int, d: int)
    requires
        d > 0,
        xi >= 0,
    ensures
        (xi + 1) % d == 0 ==> (xi + 1) / d == xi / d + 1,
        (xi + 1) % d != 0 ==> (xi + 1) / d == xi / d,
{
    lemma_fundamental_div_mod(xi, d);
    let q = xi / d;
    let r = xi % d;
    assert(xi == q * d + r) by (nonlinear_arith)
        requires
            xi == d * (xi / d) + (xi % d),
            q == xi / d,
            r == xi % d,
    ;
    if r + 1 < d {
        assert(xi + 1 == q * d + (r + 1)) by (nonlinear_arith)
            requires
                xi == q * d + r,
        ;
        lemma_fundamental_div_mod_converse(xi + 1, d, q, r + 1);
    } else {
        assert(xi + 1 == (q + 1) * d + 0) by (nonlinear_arith)
            requires
                xi == q * d + r,
                r + 1 == d,
        ;
        lemma_fundamental_div_mod_converse(xi + 1, d, q + 1, 0);
    }
}

/// A stepped ramp-up waits once per group after the first: with a step size
/// `s > 0`, `n > 0` clients make `(n - 1) / s` pauses; with a step size of
/// zero, there is a pause before every client.
pub proof fn law_stepped_pause_count(n: nat, step_size: nat, pause: u64)
    ensures
        total_pause(stepped_plan(n, step_size, pause)) == if step_size == 0 {
            n * pause
        } else if n == 0 {
            0
        } else {
            (((n - 1) as int) / (step_size as int)) * pause
        },
    decreases n,
{
    if n > 0 {
        let m = (n - 1) as nat;
        law_stepped_pause_count(m, step_size, pause);
        let tail = if pauses_before(m, step_size) {
            seq![LaunchStep::Pause(pause), LaunchStep::Connect(m as u32)]
        } else {
            seq![LaunchStep::Connect(m as u32)]
        };
        lemma_launched_concat(stepped_plan(m, step_size, pause), tail);
        lemma_launched_pair(LaunchStep::Pause(pause), LaunchStep::Connect(m as u32));
        lemma_launched_single(LaunchStep::Connect(m as u32));
        lemma_launched_single(LaunchStep::Pause(pause));
        assert(total_pause(tail) == if pauses_before(m, step_size) { pause as int } else { 0 });
        if step_size == 0 {
            assert(n * pause == m * pause + pause) by (nonlinear_arith)
                requires
                    n == m + 1,
            ;
        } else if m > 0 {
            let mm = (m - 1) as int;
            lemma_div_next(mm, step_size as int);
            let q = mm / (step_size as int);
            assert((q + 1) * pause == q * pause + pause) by (nonlinear_arith);
        } else {
            assert(0int / (step_size as int) == 0);
        }
    }
}

/// Every ramp-up strategy but the sine one starts each of its clients (the
/// target of a linear one, the batch otherwise) exactly once, in the order of
/// their ids; an exponential one needs a growth factor of at least one for
/// this.
pub proof fn law_ramp_up_starts_each_client_once(strategy: RampUpStrategy, config: CommonRunnerConfig)
    requires
        !(strategy is Sine),
        strategy matches RampUpStrategy::Expotential { growth_factor, .. } ==> growth_factor >= 1,
    ensures
        launched(ramp_up_plan(strategy, config)) == all_ids(ramp_up_clients(strategy, config)),
{
    let n = config.connection_number as nat;
    match strategy {
        RampUpStrategy::Linear { target_connection, ramp_duration } => {
            lemma_linear_plan(
                target_connection as nat,
                linear_delay(ramp_duration, target_connection) as u64,
            );
        },
        RampUpStrategy::Stepped { step_duration, step_size } => {
            lemma_stepped_plan(n, step_size as nat, step_duration as u64);
        },
        RampUpStrategy::Expotential { growth_factor, soaking_time } => {
            lemma_expo_plan(0, n, 1, growth_factor as nat, soaking_time);
            assert(Seq::new(n, |k: int| (0 + k) as u32) =~= all_ids(n));
        },
        RampUpStrategy::Sine { .. } => {},
    }
}

/// A runner that starts every client at once starts each client exactly once,
/// in the order of their ids, and never waits.
pub proof fn law_launch_all_starts_each_client_once(config: CommonRunnerConfig)
    ensures
        launched(connects(0, config.connection_number as nat)) == all_ids(config.connection_number as nat),
        total_pause(connects(0, config.connection_number as nat)) == 0,
{
    lemma_launched_connects(0, config.connection_number as nat);
    assert(Seq::new(config.connection_number as nat, |k: int| (0 + k) as u32)
        =~= all_ids(config.connection_number as nat));
}

/// A linear ramp-up is over within its ramp-up duration: the pauses of its
/// plan add up to at most `ramp_duration` seconds.
pub proof fn law_linear_ramp_up_fits_duration(
    target_connection: u32,
    ramp_duration: u64,
    config: CommonRunnerConfig,
)
    requires
        ramp_up_plannable(RampUpStrategy::Linear { target_connection, ramp_duration }, config),
    ensures
        total_pause(ramp_up_plan(RampUpStrategy::Linear { target_connection, ramp_duration }, config))
            <= ramp_duration * 1000,
{
    let n = target_connection as nat;
    let total = ramp_duration * 1000;
    let d = linear_delay(ramp_duration, target_connection);
    assert(0 <= d <= total) by (nonlinear_arith)
        requires
            n > 0,
            total >= 0,
            d == total / (n as int),
    ;
    lemma_linear_plan(n, d as u64);
    lemma_fundamental_div_mod(total, n as int);
    assert(n * d <= total) by (nonlinear_arith)
        requires
            n > 0,
            total == (n as int) * d + total % (n as int),
            total % (n as int) >= 0,
    ;
}

proof fn lemma_pair_prefix(x: LaunchStep, y: LaunchStep, r: nat)
    requires
        r <= 2,
    ensures
        live(seq![x, y].take(r as int)) == if r == 0 {
            0
        } else if r == 1 {
            live(seq![x])
        } else {
            live(seq![x]) + live(seq![y])
        },
{
    lemma_launched_pair(x, y);
    if r == 0 {
        assert(seq![x, y].take(0) =~= Seq::<LaunchStep>::empty());
    } else if r == 1 {
        assert(seq![x, y].take(1) =~= seq![x]);
    } else {
        assert(seq![x, y].take(2) =~= seq![x, y]);
    }
}

proof fn lemma_rise_prefix(min: nat, m: nat, p: u64, k: nat)
    requires
        k <= 2 * m,
    ensures
        rise_steps(min, m, p).len() == 2 * m,
        live(rise_steps(min, m, p).take(k as int)) == (k as int) / 2,
    decreases m,
{
    if m == 0 {
        assert(rise_steps(min, m, p).take(k as int) =~= Seq::<LaunchStep>::empty());
    } else {
        let mm = (m - 1) as nat;
        let prev = rise_steps(min, mm, p);
        let pair = seq![LaunchStep::Pause(p), LaunchStep::Connect((min + m - 1) as u32)];
        lemma_launched_single(LaunchStep::Pause(p));
        lemma_launched_single(LaunchStep::Connect((min + m - 1) as u32));
        if k <= 2 * mm {
            lemma_rise_prefix(min, mm, p, k);
            assert(rise_steps(min, m, p).take(k as int) =~= prev.take(k as int));
        } else {
            lemma_rise_prefix(min, mm, p, 2 * mm);
            let r = (k - 2 * mm) as nat;
            assert(prev.take((2 * mm) as int) =~= prev);
            assert(rise_steps(min, m, p).take(k as int) =~= prev + pair.take(r as int));
            lemma_launched_concat(prev, pair.take(r as int));
            lemma_pair_prefix(LaunchStep::Pause(p), LaunchStep::Connect((min + m - 1) as u32), r);
        }
    }
}

proof fn lemma_fall_prefix(max: nat, m: nat, p: u64, k: nat)
    requires
        k <= 2 * m,
    ensures
        fall_steps(max, m, p).len() == 2 * m,
        live(fall_steps(max, m, p).take(k as int)) == -((k as int) / 2),
    decreases m,
{
    if m == 0 {
        assert(fall_steps(max, m, p).take(k as int) =~= Seq::<LaunchStep>::empty());
    } else {
        let mm = (m - 1) as nat;
        let prev = fall_steps(max, mm, p);
        let pair = seq![LaunchStep::Pause(p), LaunchStep::Disconnect((max - m) as u32)];
        lemma_launched_single(LaunchStep::Pause(p));
        lemma_launched_single(LaunchStep::Disconnect((max - m) as u32));
        if k <= 2 * mm {
            lemma_fall_prefix(max, mm, p, k);
            assert(fall_steps(max, m, p).take(k as int) =~= prev.take(k as int));
        } else {
            lemma_fall_prefix(max, mm, p, 2 * mm);
            let r = (k - 2 * mm) as nat;
            assert(prev.take((2 * mm) as int) =~= prev);
            assert(fall_steps(max, m, p).take(k as int) =~= prev + pair.take(r as int));
            lemma_launched_concat(prev, pair.take(r as int));
            lemma_pair_prefix(LaunchStep::Pause(p), LaunchStep::Disconnect((max - m) as u32), r);
        }
    }
}

/// A sine load stays between its bounds: once the minimum of clients is up,
/// the number of live clients never leaves `[min_connections,
/// max_connections]`; it reaches the maximum at the top of the rise and is
/// back at the minimum at the end of the period.
pub proof fn law_sine_stays_between_bounds(min_connections: u32, max_connections: u32, period: u32, k: nat)
    requires
        min_connections < max_connections,
        min_connections <= k <= sine_plan(min_connections as nat, max_connections as nat, period as nat).len(),
    ensures
        ({
            let plan = sine_plan(min_connections as nat, max_connections as nat, period as nat);
            &&& min_connections <= live(plan.take(k as int)) <= max_connections
            &&& live(plan.take(min_connections + 2 * (max_connections - min_connections))) == max_connections
            &&& live(plan) == min_connections
        }),
{
    let min = min_connections as nat;
    let max = max_connections as nat;
    let d = (max - min) as nat;
    let p = sine_pause(min, max, period as nat) as u64;
    let a = connects(0, min);
    let rise = rise_steps(min, d, p);
    let fall = fall_steps(max, d, p);
    let plan = sine_plan(min, max, period as nat);
    assert(plan =~= a + rise + fall);
    lemma_launched_connects(0, min);
    lemma_rise_prefix(min, d, p, 2 * d);
    lemma_fall_prefix(max, d, p, 2 * d);
    assert(rise.take((2 * d) as int) =~= rise);
    assert(fall.take((2 * d) as int) =~= fall);
    lemma_launched_concat(a, rise);
    lemma_launched_concat(a + rise, fall);
    assert(plan.take((min + 2 * d) as int) =~= a + rise);
    assert(plan.take(plan.len() as int) =~= plan);
    if k <= min + 2 * d {
        let j = (k - min) as nat;
        lemma_rise_prefix(min, d, p, j);
        assert(plan.take(k as int) =~= a + rise.take(j as int));
        lemma_launched_concat(a, rise.take(j as int));
    } else {
        let j = (k - min - 2 * d) as nat;
        lemma_fall_prefix(max, d, p, j);
        assert(plan.take(k as int) =~= (a + rise) + fall.take(j as int));
        lemma_launched_concat(a + rise, fall.take(j as int));
    }
}

} // verus!
