use vstd::prelude::*;
use crate::config::{MAX_SPEED, MIN_SPEED, clamp_speed, clamped_speed};
use crate::types::ClickerConfig;

verus! {

/// Nanoseconds in a second; the pacer's credit for one click.
pub const NANOS_PER_SECOND: u64 = 1_000_000_000;

/// Minimum time between two state updates sent while clicking.
pub const EMIT_INTERVAL_MS: u64 = 50;

/// How often a held button checks its time limit.
pub const HOLD_POLL_MS: u64 = 50;

/// How often the running time is refreshed while clicking.
pub const STATS_INTERVAL_MS: u64 = 100;

/// Length of one countdown step.
pub const COUNTDOWN_STEP_MS: u64 = 1000;

/// The click limit is on and has been reached.
pub open spec fn click_limit_reached(c: ClickerConfig, click_count: u64) -> bool {
    c.stop_after_clicks_enabled && click_count >= c.stop_after_clicks
}

/// The time limit is on, is not zero, and `elapsed_ms` has reached it.
pub open spec fn duration_limit_reached_spec(c: ClickerConfig, elapsed_ms: u64) -> bool {
    &&& c.stop_after_duration_enabled
    &&& c.stop_after_duration_sec > 0
    &&& elapsed_ms >= c.stop_after_duration_sec * 1000
}

/// A clicking session must stop: a limit has been reached.
pub open spec fn spam_must_stop(c: ClickerConfig, click_count: u64, elapsed_ms: u64) -> bool {
    click_limit_reached(c, click_count) || duration_limit_reached_spec(c, elapsed_ms)
}

/// Whether the time limit of a session is reached after `elapsed_ms`
/// milliseconds (whole milliseconds, rounded down, of the time since clicking
/// began). A limit of zero seconds counts as no limit.
pub fn duration_limit_reached(config: &ClickerConfig, elapsed_ms: u64) -> (r: bool)
    ensures
        r == duration_limit_reached_spec(*config, elapsed_ms),
{
    config.stop_after_duration_enabled && config.stop_after_duration_sec > 0 && elapsed_ms / 1000
        >= config.stop_after_duration_sec
}

/// Whether a clicking session must stop after `click_count` clicks and
/// `elapsed_ms` milliseconds since clicking began.
pub fn should_stop_spam(config: &ClickerConfig, click_count: u64, elapsed_ms: u64) -> (r: bool)
    ensures
        r == spam_must_stop(*config, click_count, elapsed_ms),
{
    if config.stop_after_clicks_enabled && click_count >= config.stop_after_clicks {
        return true;
    }
    duration_limit_reached(config, elapsed_ms)
}

/// Whether the state is sent to the user interface after a click: at most
/// every `EMIT_INTERVAL_MS`, and always when the click limit is reached.
pub fn should_emit_after_click(config: &ClickerConfig, click_count: u64, ms_since_emit: u64) -> (r: bool)
    ensures
        r == (ms_since_emit >= EMIT_INTERVAL_MS || click_limit_reached(*config, click_count)),
{
    ms_since_emit >= EMIT_INTERVAL_MS || (config.stop_after_clicks_enabled && click_count
        >= config.stop_after_clicks)
}

/// The pacer's state: its rate in clicks per second, and its credit of
/// clicks owed, counted in nanoseconds per click (`NANOS_PER_SECOND` is one
/// click).
pub struct PacerModel {
    pub cps: nat,
    pub backlog: nat,
}

/// The rate is an accepted speed, and the credit is at most one second's
/// worth of clicks.
pub open spec fn pacer_wf(p: PacerModel) -> bool {
    &&& MIN_SPEED <= p.cps <= MAX_SPEED
    &&& p.backlog <= p.cps * NANOS_PER_SECOND
}

/// The credit after `dt_ns` nanoseconds: `cps` clicks per second of it,
/// capped at one second's worth.
pub open spec fn accrued(p: PacerModel, dt_ns: nat) -> PacerModel {
    let total: nat = p.backlog + dt_ns * p.cps;
    let cap: nat = p.cps * (NANOS_PER_SECOND as nat);
    PacerModel { backlog: if total > cap { cap } else { total }, ..p }
}

/// The credit after one click is taken from it.
pub open spec fn granted(p: PacerModel) -> PacerModel {
    PacerModel { backlog: (p.backlog - NANOS_PER_SECOND) as nat, ..p }
}

/// The credit dropped.
pub open spec fn cleared(p: PacerModel) -> PacerModel {
    PacerModel { backlog: 0, ..p }
}

/// Whether one more click may be made now, and the pacer after the decision:
/// no click without a whole click of credit; none once a limit is reached
/// (the credit is dropped when it is the click limit that stops it past the
/// general stop rule); otherwise one click, paid from the credit.
pub open spec fn plan_click_model(
    p: PacerModel,
    c: ClickerConfig,
    click_count: u64,
    elapsed_ms: u64,
) -> (PacerModel, bool) {
    if p.backlog < NANOS_PER_SECOND {
        (p, false)
    } else if spam_must_stop(c, click_count, elapsed_ms) {
        (p, false)
    } else if click_limit_reached(c, click_count) {
        (cleared(p), false)
    } else {
        (granted(p), true)
    }
}

/// The pause between pacing rounds for a rate of `cps`: the time of one click
/// in milliseconds, rounded to nearest with halves up, kept within 1..=20.
pub open spec fn tick_ms_for(cps: nat) -> nat {
    let rounded = (2000 + cps) / (2 * cps);
    if rounded < 1 {
        1
    } else if rounded > 20 {
        20
    } else {
        rounded
    }
}

/// Turns elapsed time into clicks at the configured rate, catching up on at
/// most one second of missed clicks.
pub struct SpamPacer {
    cps: u64,
    backlog: u64,
}

impl View for SpamPacer {
    type V = PacerModel;

    closed spec fn view(&self) -> PacerModel {
        PacerModel { cps: self.cps as nat, backlog: self.backlog as nat }
    }
}

impl SpamPacer {
    #[verifier::type_invariant]
    spec fn inv(self) -> bool {
        pacer_wf(self@)
    }

    /// A pacer for `speed` clicks per second (clamped into range), with no credit.
    pub fn new(speed: u32) -> (p: Self)
        ensures
            p@ == (PacerModel { cps: clamped_speed(speed) as nat, backlog: 0 }),
            pacer_wf(p@),
    {
        let cps = clamp_speed(speed);
        SpamPacer { cps: cps as u64, backlog: 0 }
    }

    /// The pause between pacing rounds, in milliseconds (see `tick_ms_for`).
    pub fn tick_ms(&self) -> (ms: u64)
        ensures
            ms == tick_ms_for(self@.cps),
            1 <= ms <= 20,
            pacer_wf(self@),
    {
        proof {
            use_type_invariant(self);
        }
        let rounded = (2000 + self.cps) / (2 * self.cps);
        if rounded < 1 {
            1
        } else if rounded > 20 {
            20
        } else {
            rounded
        }
    }

    /// Adds the credit of `dt_ns` nanoseconds (see `accrued`).
    pub fn accrue(&mut self, dt_ns: u64)
        ensures
            final(self)@ == accrued(old(self)@, dt_ns as nat),
            pacer_wf(final(self)@),
    {
        proof {
            use_type_invariant(&*self);
        }
        let cps = self.cps;
        let cap = cps * NANOS_PER_SECOND;
        // Past one second the cap is reached whatever the credit was.
        let dt = if dt_ns > NANOS_PER_SECOND {
            NANOS_PER_SECOND
        } else {
            dt_ns
        };
        assert(dt * cps <= NANOS_PER_SECOND * cps) by (nonlinear_arith)
            requires
                dt <= NANOS_PER_SECOND,
        ;
        assert(dt_ns > NANOS_PER_SECOND ==> dt_ns * cps >= NANOS_PER_SECOND * cps)
            by (nonlinear_arith);
        let total = self.backlog + dt * cps;
        self.backlog = if total > cap {
            cap
        } else {
            total
        };
    }

    /// Decides whether one more click is made now (see `plan_click_model`),
    /// given the clicks made so far and the milliseconds since clicking began.
    pub fn plan_click(&mut self, config: &ClickerConfig, click_count: u64, elapsed_ms: u64) -> (click: bool)
        ensures
            (final(self)@, click) == plan_click_model(old(self)@, *config, click_count, elapsed_ms),
            pacer_wf(final(self)@),
    {
        proof {
            use_type_invariant(&*self);
        }
        if self.backlog < NANOS_PER_SECOND {
            return false;
        }
        if should_stop_spam(config, click_count, elapsed_ms) {
            return false;
        }
        if config.stop_after_clicks_enabled && click_count >= config.stop_after_clicks {
            self.backlog = 0;
            return false;
        }
        self.backlog = self.backlog - NANOS_PER_SECOND;
        true
    }
}

/// Nanoseconds in a millisecond.
pub const NANOS_PER_MILLI: u64 = 1_000_000;

/// What a clicking session reads before each decision: whether it was
/// cancelled, the clicks made so far, and the clock (nanoseconds since
/// clicking began).
#[derive(Clone, Copy, Debug, PartialEq, Eq, Structural)]
pub struct SpamInput {
    pub cancelled: bool,
    pub click_count: u64,
    pub now_ns: u64,
}

/// What a clicking session does next.
#[derive(Clone, Copy, Debug, PartialEq, Eq, Structural)]
pub enum SpamAction {
    /// Make one click now, count it, then decide again.
    Click,
    /// Wait this many milliseconds (less when cancelled), then decide again.
    Sleep(u64),
    /// Clicking is over.
    Finish,
}

/// A clicking session: its pacer, whether it is in a round of clicks, and the
/// clock reading at which credit was last added.
pub struct SpamModel {
    pub pacer: PacerModel,
    pub clicking: bool,
    pub last_tick_ns: nat,
}

/// Whole milliseconds (rounded down) of a clock reading.
pub open spec fn millis_of(now_ns: u64) -> u64 {
    (now_ns / NANOS_PER_MILLI) as u64
}

/// The end of a round of clicks: finish when a limit is reached, else wait
/// for the pacer's pause.
pub open spec fn end_round(s: SpamModel, c: ClickerConfig, input: SpamInput) -> (SpamModel, SpamAction) {
    let s2 = SpamModel { clicking: false, ..s };
    if spam_must_stop(c, input.click_count, millis_of(input.now_ns)) {
        (s2, SpamAction::Finish)
    } else {
        (s2, SpamAction::Sleep(tick_ms_for(s.pacer.cps) as u64))
    }
}

/// Within a round: click while there is credit and nothing stops it (see
/// `plan_click_model`); a cancellation or a refusal ends the round.
pub open spec fn round_step(s: SpamModel, c: ClickerConfig, input: SpamInput) -> (SpamModel, SpamAction) {
    if input.cancelled {
        end_round(s, c, input)
    } else {
        let (p, click) = plan_click_model(s.pacer, c, input.click_count, millis_of(input.now_ns));
        let s1 = SpamModel { pacer: p, ..s };
        if click {
            (s1, SpamAction::Click)
        } else {
            end_round(s1, c, input)
        }
    }
}

/// One decision of a clicking session. Between rounds: finish when
/// cancelled or when a limit is reached; else add the credit of the time
/// since the last round and begin a round.
pub open spec fn spam_step_model(s: SpamModel, c: ClickerConfig, input: SpamInput) -> (SpamModel, SpamAction) {
    if !s.clicking {
        if input.cancelled || spam_must_stop(c, input.click_count, millis_of(input.now_ns)) {
            (s, SpamAction::Finish)
        } else {
            let dt: nat = if input.now_ns >= s.last_tick_ns {
                (input.now_ns - s.last_tick_ns) as nat
            } else {
                0
            };
            let s1 = SpamModel {
                pacer: accrued(s.pacer, dt),
                clicking: true,
                last_tick_ns: input.now_ns as nat,
            };
            round_step(s1, c, input)
        }
    } else {
        round_step(s, c, input)
    }
}

/// A clicking session: decides, from what it is given to read, when to
/// click, when to wait and when to stop, at the configured rate.
pub struct SpamSession {
    pacer: SpamPacer,
    clicking: bool,
    last_tick_ns: u64,
}

impl View for SpamSession {
    type V = SpamModel;

    closed spec fn view(&self) -> SpamModel {
        SpamModel { pacer: self.pacer@, clicking: self.clicking, last_tick_ns: self.last_tick_ns as nat }
    }
}

impl SpamSession {
    /// A session at `speed` clicks per second (clamped into range), started
    /// at clock reading `now_ns`, with no credit.
    pub fn new(speed: u32, now_ns: u64) -> (s: Self)
        ensures
            s@ == (SpamModel {
                pacer: PacerModel { cps: clamped_speed(speed) as nat, backlog: 0 },
                clicking: false,
                last_tick_ns: now_ns as nat,
            }),
            pacer_wf(s@.pacer),
    {
        SpamSession { pacer: SpamPacer::new(speed), clicking: false, last_tick_ns: now_ns }
    }

    /// The next decision (see `spam_step_model`).
    pub fn step(&mut self, config: &ClickerConfig, input: SpamInput) -> (a: SpamAction)
        ensures
            (final(self)@, a) == spam_step_model(old(self)@, *config, input),
            pacer_wf(final(self)@.pacer),
    {
        proof {
            use_type_invariant(&self.pacer);
        }
        let elapsed_ms = input.now_ns / NANOS_PER_MILLI;
        if !self.clicking {
            if input.cancelled || should_stop_spam(config, input.click_count, elapsed_ms) {
                return SpamAction::Finish;
            }
            let dt = if input.now_ns >= self.last_tick_ns {
                input.now_ns - self.last_tick_ns
            } else {
                0
            };
            self.pacer.accrue(dt);
            self.last_tick_ns = input.now_ns;
            self.clicking = true;
        }
        if !input.cancelled && self.pacer.plan_click(config, input.click_count, elapsed_ms) {
            return SpamAction::Click;
        }
        self.clicking = false;
        if should_stop_spam(config, input.click_count, elapsed_ms) {
            SpamAction::Finish
        } else {
            SpamAction::Sleep(self.pacer.tick_ms())
        }
    }
}

/// What a hold session does next.
#[derive(Clone, Copy, Debug, PartialEq, Eq, Structural)]
pub enum HoldAction {
    /// Keep holding; check again after this many milliseconds.
    Wait(u64),
    /// Release the button: cancelled, or the time limit is reached.
    Release,
}

/// A held button is released when the session is cancelled or its time
/// limit is reached, and is checked again every `HOLD_POLL_MS` otherwise.
pub open spec fn hold_step_spec(c: ClickerConfig, cancelled: bool, elapsed_ms: u64) -> HoldAction {
    if cancelled || duration_limit_reached_spec(c, elapsed_ms) {
        HoldAction::Release
    } else {
        HoldAction::Wait(HOLD_POLL_MS)
    }
}

/// The next decision of a hold session (see `hold_step_spec`), after
/// `elapsed_ms` milliseconds since holding began.
pub fn hold_step(config: &ClickerConfig, cancelled: bool, elapsed_ms: u64) -> (a: HoldAction)
    ensures
        a == hold_step_spec(*config, cancelled, elapsed_ms),
{
    if cancelled || duration_limit_reached(config, elapsed_ms) {
        HoldAction::Release
    } else {
        HoldAction::Wait(HOLD_POLL_MS)
    }
}

/// One change of a pacer's credit, as the pacer's operations make it:
/// `accrue` makes `Accrue`, a `plan_click` that grants a click makes `Grant`,
/// and one that drops the credit makes `Clear`.
pub enum PacerStep {
    Accrue(u64),
    Grant,
    Clear,
}

/// The pacer after one step.
pub open spec fn apply_step(p: PacerModel, s: PacerStep) -> PacerModel {
    match s {
        PacerStep::Accrue(dt) => accrued(p, dt as nat),
        PacerStep::Grant => granted(p),
        PacerStep::Clear => cleared(p),
    }
}

/// A click is granted only with a whole click of credit.
pub open spec fn step_allowed(p: PacerModel, s: PacerStep) -> bool {
    s is Grant ==> p.backlog >= NANOS_PER_SECOND
}

/// The pacer after the steps, in order.
pub open spec fn run_steps(p: PacerModel, steps: Seq<PacerStep>) -> PacerModel
    decreases steps.len(),
{
    if steps.len() == 0 {
        p
    } else {
        run_steps(apply_step(p, steps[0]), steps.drop_first())
    }
}

/// Every step is one the pacer's operations can make where it is made.
pub open spec fn steps_allowed(p: PacerModel, steps: Seq<PacerStep>) -> bool
    decreases steps.len(),
{
    steps.len() == 0 || (step_allowed(p, steps[0]) && steps_allowed(
        apply_step(p, steps[0]),
        steps.drop_first(),
    ))
}

/// The clicks granted in the steps.
pub open spec fn clicks_granted(steps: Seq<PacerStep>) -> nat
    decreases steps.len(),
{
    if steps.len() == 0 {
        0
    } else {
        (if steps[0] is Grant { 1nat } else { 0nat }) + clicks_granted(steps.drop_first())
    }
}

/// The nanoseconds of time accrued in the steps.
pub open spec fn time_accrued(steps: Seq<PacerStep>) -> nat
    decreases steps.len(),
{
    if steps.len() == 0 {
        0
    } else {
        (match steps[0] {
            PacerStep::Accrue(dt) => dt as nat,
            _ => 0nat,
        }) + time_accrued(steps.drop_first())
    }
}

/// The pacer never clicks faster than its rate: over any run of its
/// operations, the clicks granted, plus the credit left, are at most the
/// credit it started with plus `cps` clicks per second of the time accrued.
/// The rate is kept and the credit stays within one second's worth.
pub proof fn lemma_rate_bound(p: PacerModel, steps: Seq<PacerStep>)
    requires
        pacer_wf(p),
        steps_allowed(p, steps),
    ensures
        clicks_granted(steps) * NANOS_PER_SECOND + run_steps(p, steps).backlog <= p.backlog
            + p.cps * time_accrued(steps),
        run_steps(p, steps).cps == p.cps,
        pacer_wf(run_steps(p, steps)),
    decreases steps.len(),
{
    if steps.len() > 0 {
        let q = apply_step(p, steps[0]);
        let rest = steps.drop_first();
        match steps[0] {
            PacerStep::Accrue(dt) => {
                assert((dt as nat) * p.cps == p.cps * (dt as nat)) by (nonlinear_arith);
            },
            _ => {},
        }
        assert(pacer_wf(q));
        lemma_rate_bound(q, rest);
        let dt0: nat = match steps[0] {
            PacerStep::Accrue(dt) => dt as nat,
            _ => 0nat,
        };
        assert(q.backlog + (if steps[0] is Grant { 1nat } else { 0nat }) * NANOS_PER_SECOND
            <= p.backlog + p.cps * dt0);
        assert(p.cps * (dt0 + time_accrued(rest)) == p.cps * dt0 + p.cps * time_accrued(rest))
            by (nonlinear_arith);
    }
}

/// From no credit, a pacer grants at most `cps` clicks per second of time
/// accrued; from any credit, at most one second's worth more.
pub proof fn lemma_clicks_within_rate(p: PacerModel, steps: Seq<PacerStep>)
    requires
        pacer_wf(p),
        steps_allowed(p, steps),
    ensures
        clicks_granted(steps) * NANOS_PER_SECOND <= p.cps * NANOS_PER_SECOND + p.cps
            * time_accrued(steps),
        p.backlog == 0 ==> clicks_granted(steps) * NANOS_PER_SECOND <= p.cps * time_accrued(
            steps,
        ),
{
    lemma_rate_bound(p, steps);
}

/// After a second or more without clicks, exactly one second's worth of
/// clicks (`cps` of them) is owed: the catch-up is capped, not lost.
pub proof fn lemma_catch_up_capped(p: PacerModel, dt_ns: nat)
    requires
        pacer_wf(p),
        dt_ns >= NANOS_PER_SECOND,
    ensures
        accrued(p, dt_ns).backlog == p.cps * NANOS_PER_SECOND,
{
    assert(dt_ns * p.cps >= NANOS_PER_SECOND * p.cps) by (nonlinear_arith)
        requires
            dt_ns >= NANOS_PER_SECOND,
    ;
}

/// Once the click limit or the time limit is reached, no click is granted.
pub proof fn lemma_no_click_past_limit(
    p: PacerModel,
    c: ClickerConfig,
    click_count: u64,
    elapsed_ms: u64,
)
    requires
        click_limit_reached(c, click_count) || duration_limit_reached_spec(c, elapsed_ms),
    ensures
        !plan_click_model(p, c, click_count, elapsed_ms).1,
{
}

/// The session after deciding on each input in turn.
pub open spec fn spam_run(s: SpamModel, c: ClickerConfig, inputs: Seq<SpamInput>) -> SpamModel
    decreases inputs.len(),
{
    if inputs.len() == 0 {
        s
    } else {
        spam_run(spam_step_model(s, c, inputs[0]).0, c, inputs.drop_first())
    }
}

/// The clicks decided on over the inputs.
pub open spec fn clicks_decided(s: SpamModel, c: ClickerConfig, inputs: Seq<SpamInput>) -> nat
    decreases inputs.len(),
{
    if inputs.len() == 0 {
        0
    } else {
        let (s1, a) = spam_step_model(s, c, inputs[0]);
        (if a is Click { 1nat } else { 0nat }) + clicks_decided(s1, c, inputs.drop_first())
    }
}

/// The clock readings never go back, starting from `t`.
pub open spec fn clock_monotone(t: nat, inputs: Seq<SpamInput>) -> bool
    decreases inputs.len(),
{
    inputs.len() == 0 || (t <= inputs[0].now_ns && clock_monotone(
        inputs[0].now_ns as nat,
        inputs.drop_first(),
    ))
}

/// The last clock reading, or `t` when there is none.
pub open spec fn last_clock(t: nat, inputs: Seq<SpamInput>) -> nat
    decreases inputs.len(),
{
    if inputs.len() == 0 {
        t
    } else {
        last_clock(inputs[0].now_ns as nat, inputs.drop_first())
    }
}

/// An earlier start keeps the clock monotone, and moves the last reading
/// no later.
proof fn lemma_clock_earlier_start(t0: nat, t: nat, inputs: Seq<SpamInput>)
    requires
        t0 <= t,
        clock_monotone(t, inputs),
    ensures
        clock_monotone(t0, inputs),
        last_clock(t0, inputs) <= last_clock(t, inputs),
{
    if inputs.len() > 0 {
        assert(last_clock(t0, inputs) == last_clock(inputs[0].now_ns as nat, inputs.drop_first()));
    }
}

/// A clicking session clicks only when not cancelled and before any limit
/// is reached, and waits between 1 and 20 milliseconds.
pub proof fn lemma_spam_step_safe(s: SpamModel, c: ClickerConfig, input: SpamInput)
    requires
        pacer_wf(s.pacer),
    ensures
        spam_step_model(s, c, input).1 is Click ==> !input.cancelled && !spam_must_stop(
            c,
            input.click_count,
            millis_of(input.now_ns),
        ),
        spam_step_model(s, c, input).1 matches SpamAction::Sleep(ms) ==> 1 <= ms <= 20,
        input.cancelled && !s.clicking ==> spam_step_model(s, c, input).1 is Finish,
        spam_step_model(s, c, input).1 is Finish ==> input.cancelled || spam_must_stop(
            c,
            input.click_count,
            millis_of(input.now_ns),
        ),
        spam_step_model(s, c, input).1 is Click ==> spam_step_model(s, c, input).0.clicking,
{
}

/// One decision adds at most `cps` clicks per second of clock to the credit,
/// and pays one click of credit for each click.
proof fn lemma_spam_step_bound(s: SpamModel, c: ClickerConfig, input: SpamInput)
    requires
        pacer_wf(s.pacer),
        s.last_tick_ns <= input.now_ns,
    ensures
        ({
            let (s2, a) = spam_step_model(s, c, input);
            &&& s2.pacer.cps == s.pacer.cps
            &&& pacer_wf(s2.pacer)
            &&& s.last_tick_ns <= s2.last_tick_ns <= input.now_ns
            &&& (if a is Click { NANOS_PER_SECOND as nat } else { 0nat }) + s2.pacer.backlog
                <= s.pacer.backlog + s.pacer.cps * (s2.last_tick_ns - s.last_tick_ns)
        }),
{
    let dt: nat = (input.now_ns - s.last_tick_ns) as nat;
    assert(dt * s.pacer.cps == s.pacer.cps * dt) by (nonlinear_arith);
    assert(s.pacer.cps * dt >= 0) by (nonlinear_arith)
        requires
            s.pacer.cps >= 1,
    ;
}

/// A clicking session never clicks faster than its speed: over any run with
/// a clock that does not go back, the clicks it decides on, plus the credit
/// left, are at most the credit it started with plus `cps` clicks per second
/// of clock; its last credited reading is no later than the last clock
/// reading.
pub proof fn lemma_spam_rate(s: SpamModel, c: ClickerConfig, inputs: Seq<SpamInput>)
    requires
        pacer_wf(s.pacer),
        clock_monotone(s.last_tick_ns, inputs),
    ensures
        s.last_tick_ns <= spam_run(s, c, inputs).last_tick_ns <= last_clock(s.last_tick_ns, inputs),
        spam_run(s, c, inputs).pacer.cps == s.pacer.cps,
        pacer_wf(spam_run(s, c, inputs).pacer),
        clicks_decided(s, c, inputs) * NANOS_PER_SECOND + spam_run(s, c, inputs).pacer.backlog
            <= s.pacer.backlog + s.pacer.cps * (spam_run(s, c, inputs).last_tick_ns
            - s.last_tick_ns),
    decreases inputs.len(),
{
    if inputs.len() > 0 {
        let input = inputs[0];
        let rest = inputs.drop_first();
        lemma_spam_step_bound(s, c, input);
        let (s1, a) = spam_step_model(s, c, input);
        lemma_clock_earlier_start(s1.last_tick_ns, input.now_ns as nat, rest);
        lemma_spam_rate(s1, c, rest);
        let f = spam_run(s1, c, rest);
        let cps = s.pacer.cps;
        let d1: int = s1.last_tick_ns - s.last_tick_ns;
        let d2: int = f.last_tick_ns - s1.last_tick_ns;
        assert(cps * d1 + cps * d2 == cps * (d1 + d2)) by (nonlinear_arith);
        assert(clicks_decided(s, c, inputs) == (if a is Click { 1nat } else { 0nat })
            + clicks_decided(s1, c, rest));
    }
}

/// From its start, a fresh clicking session decides on at most `cps` clicks
/// per second of clock since it began.
pub proof fn lemma_fresh_session_rate(s: SpamModel, c: ClickerConfig, inputs: Seq<SpamInput>)
    requires
        pacer_wf(s.pacer),
        s.pacer.backlog == 0,
        clock_monotone(s.last_tick_ns, inputs),
    ensures
        clicks_decided(s, c, inputs) * NANOS_PER_SECOND <= s.pacer.cps * (last_clock(
            s.last_tick_ns,
            inputs,
        ) - s.last_tick_ns),
{
    lemma_spam_rate(s, c, inputs);
    let f = spam_run(s, c, inputs);
    let t = last_clock(s.last_tick_ns, inputs);
    assert(s.pacer.cps * (f.last_tick_ns - s.last_tick_ns) <= s.pacer.cps * (t - s.last_tick_ns))
        by (nonlinear_arith)
        requires
            s.pacer.cps >= 0,
            f.last_tick_ns <= t,
    ;
}

/// The click counts read are the clicks made: `count` before the first
/// decision, one more after each decided click.
pub open spec fn counts_track(s: SpamModel, c: ClickerConfig, count: nat, inputs: Seq<SpamInput>) -> bool
    decreases inputs.len(),
{
    inputs.len() == 0 || {
        let (s1, a) = spam_step_model(s, c, inputs[0]);
        &&& inputs[0].click_count == count
        &&& counts_track(
            s1,
            c,
            count + (if a is Click { 1nat } else { 0nat }),
            inputs.drop_first(),
        )
    }
}

/// The action decided on the last input, if there is one.
pub open spec fn last_action(s: SpamModel, c: ClickerConfig, inputs: Seq<SpamInput>) -> Option<SpamAction>
    decreases inputs.len(),
{
    if inputs.len() == 0 {
        None
    } else if inputs.len() == 1 {
        Some(spam_step_model(s, c, inputs[0]).1)
    } else {
        last_action(spam_step_model(s, c, inputs[0]).0, c, inputs.drop_first())
    }
}

/// No input reports a cancellation.
pub open spec fn never_cancelled(inputs: Seq<SpamInput>) -> bool {
    forall|i: int| 0 <= i < inputs.len() ==> !(#[trigger] inputs[i]).cancelled
}

/// Every decision on the inputs is a click.
pub open spec fn all_clicks(s: SpamModel, c: ClickerConfig, inputs: Seq<SpamInput>) -> bool
    decreases inputs.len(),
{
    inputs.len() == 0 || {
        let (s1, a) = spam_step_model(s, c, inputs[0]);
        a is Click && all_clicks(s1, c, inputs.drop_first())
    }
}

/// A clicking session with a click limit never goes past it: when the
/// counts read are the clicks made and start at or below the limit, the
/// clicks made stay at or below it after every decision. When nothing
/// cancels the session and no time limit is set, a session that finishes has
/// made exactly the limit.
pub proof fn lemma_click_limit_over_run(s: SpamModel, c: ClickerConfig, count: nat, inputs: Seq<SpamInput>)
    requires
        pacer_wf(s.pacer),
        c.stop_after_clicks_enabled,
        count <= c.stop_after_clicks,
        counts_track(s, c, count, inputs),
    ensures
        count + clicks_decided(s, c, inputs) <= c.stop_after_clicks,
        never_cancelled(inputs) && !(c.stop_after_duration_enabled && c.stop_after_duration_sec > 0)
            && last_action(s, c, inputs) == Some(SpamAction::Finish) ==> count + clicks_decided(
            s,
            c,
            inputs,
        ) == c.stop_after_clicks,
    decreases inputs.len(),
{
    if inputs.len() > 0 {
        let input = inputs[0];
        let rest = inputs.drop_first();
        lemma_spam_step_safe(s, c, input);
        let (s1, a) = spam_step_model(s, c, input);
        let count1 = count + (if a is Click { 1nat } else { 0nat });
        lemma_spam_step_pacer_wf(s, c, input);
        lemma_click_limit_over_run(s1, c, count1, rest);
        if never_cancelled(inputs) {
            assert forall|i: int| 0 <= i < rest.len() implies !(#[trigger] rest[i]).cancelled by {
                assert(rest[i] == inputs[i + 1]);
            }
            assert(!inputs[0].cancelled);
        }
    }
}

/// A decision keeps the pacer well formed.
proof fn lemma_spam_step_pacer_wf(s: SpamModel, c: ClickerConfig, input: SpamInput)
    requires
        pacer_wf(s.pacer),
    ensures
        pacer_wf(spam_step_model(s, c, input).0.pacer),
        spam_step_model(s, c, input).0.pacer.cps == s.pacer.cps,
{
}

/// The catch-up is capped: between two pauses a clicking session decides
/// on at most `cps` clicks, and within a round no more than its credit.
pub proof fn lemma_round_capped(s: SpamModel, c: ClickerConfig, inputs: Seq<SpamInput>)
    requires
        pacer_wf(s.pacer),
        all_clicks(s, c, inputs),
    ensures
        inputs.len() * NANOS_PER_SECOND <= (if s.clicking {
            s.pacer.backlog as int
        } else {
            s.pacer.cps * NANOS_PER_SECOND
        }),
        !s.clicking ==> inputs.len() <= s.pacer.cps,
    decreases inputs.len(),
{
    if inputs.len() > 0 {
        let input = inputs[0];
        let rest = inputs.drop_first();
        lemma_spam_step_safe(s, c, input);
        lemma_spam_step_pacer_wf(s, c, input);
        let (s1, a) = spam_step_model(s, c, input);
        lemma_round_capped(s1, c, rest);
        assert(inputs.len() * NANOS_PER_SECOND == rest.len() * NANOS_PER_SECOND + NANOS_PER_SECOND);
    }
    if !s.clicking {
        assert(inputs.len() <= s.pacer.cps) by (nonlinear_arith)
            requires
                inputs.len() * NANOS_PER_SECOND <= s.pacer.cps * NANOS_PER_SECOND,
        ;
    }
}

/// The pause of a pacer is the time of one click rounded to the nearest
/// millisecond (halves up), kept within 1..=20: below 20 it is the `t` with
/// `t - 1/2 <= 1000 / cps < t + 1/2`, and it is 20 exactly when the rounded
/// time is 20 or more.
pub proof fn lemma_tick_is_rounded_period(cps: nat)
    requires
        MIN_SPEED <= cps <= MAX_SPEED,
    ensures
        1 <= tick_ms_for(cps) <= 20,
        tick_ms_for(cps) < 20 ==> 2 * tick_ms_for(cps) * cps <= 2000 + cps && 2000 + cps < 2
            * tick_ms_for(cps) * cps + 2 * cps,
        tick_ms_for(cps) == 20 <==> 40 * cps <= 2000 + cps,
{
    let r = (2000 + cps) / (2 * cps);
    assert(r * (2 * cps) <= 2000 + cps && 2000 + cps < r * (2 * cps) + 2 * cps) by (nonlinear_arith)
        requires
            cps >= 1,
            r == (2000 + cps) / (2 * cps),
    ;
    assert(r >= 10) by (nonlinear_arith)
        requires
            cps <= 100,
            cps >= 1,
            r * (2 * cps) <= 2000 + cps,
            2000 + cps < r * (2 * cps) + 2 * cps,
    ;
    assert(r >= 20 <==> 40 * cps <= 2000 + cps) by (nonlinear_arith)
        requires
            cps >= 1,
            r * (2 * cps) <= 2000 + cps,
            2000 + cps < r * (2 * cps) + 2 * cps,
    ;
    assert(r * (2 * cps) == 2 * r * cps) by (nonlinear_arith);
}

/// A held button is released exactly when the session is cancelled, or its
/// time limit is on with a positive number of seconds and that many seconds
/// have passed; otherwise it is checked again after `HOLD_POLL_MS`.
pub proof fn lemma_hold_release(c: ClickerConfig, cancelled: bool, elapsed_ms: u64)
    ensures
        hold_step_spec(c, cancelled, elapsed_ms) is Release <==> cancelled || (
        c.stop_after_duration_enabled && c.stop_after_duration_sec > 0 && elapsed_ms >= 1000
            * c.stop_after_duration_sec),
        !(hold_step_spec(c, cancelled, elapsed_ms) is Release) ==> hold_step_spec(
            c,
            cancelled,
            elapsed_ms,
        ) == HoldAction::Wait(50),
{
}

} // verus!
