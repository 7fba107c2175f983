use vstd::prelude::*;
use crate::engine::{
    ClickEngine, EngineModel, countdown_tick_model, idle_state, running_state,
};
use crate::pacing::{COUNTDOWN_STEP_MS, HoldAction, hold_step, hold_step_spec};
use crate::types::{ClickMode, ClickerConfig, EngineState, EngineStatus};

verus! {

/// Where a session is: before a countdown step (or before clicking begins),
/// after a countdown step's wait, clicking, pressing the button, holding it,
/// or over.
#[derive(Clone, Copy, Debug, PartialEq, Eq, Structural)]
pub enum SessionPhase {
    Counting,
    Waited,
    Clicking,
    Pressing,
    Holding,
    Ended,
}

/// What a session is told when the work it asked for is done: whether it
/// has been cancelled, whether that work succeeded (the press, or the
/// clicking), and the milliseconds since clicking began.
#[derive(Clone, Copy, Debug, PartialEq, Eq, Structural)]
pub struct SessionEvent {
    pub cancelled: bool,
    pub ok: bool,
    pub elapsed_ms: u64,
}

/// What a session asks for next.
#[derive(Clone, Copy, Debug, PartialEq, Eq, Structural)]
pub enum SessionAction {
    /// Show the state and wait this many milliseconds of countdown.
    Countdown(u64),
    /// Clicking has begun: show the state, refresh the running time, and run
    /// the clicking loop (a `SpamSession`) until it finishes.
    RunClicks,
    /// Clicking has begun: show the state, refresh the running time, and
    /// press the left button.
    Press,
    /// Keep holding the left button for this many milliseconds.
    Hold(u64),
    /// The session is over and the engine idle: release the left button when
    /// `release_left`, and report the failure when `report_error`.
    Finish { release_left: bool, report_error: bool },
}

/// A session's own state: its phase and the settings it runs with.
pub struct SessionModel {
    pub phase: SessionPhase,
    pub config: ClickerConfig,
}

/// The engine at the end of a session: the hold given up, the final running
/// time shown once clicking had begun, and idle.
pub open spec fn finished_model(m: EngineModel, clicking_began: bool, elapsed_ms: u64) -> EngineModel {
    let st = if clicking_began {
        EngineState { elapsed_ms, ..m.state }
    } else {
        m.state
    };
    EngineModel { state: idle_state(st), hold_active: false, ..m }
}

/// The end of a session, releasing the left button when the engine held it
/// (or when `release` asks for it), reporting a failure when `report_error`.
pub open spec fn finish_step(
    m: EngineModel,
    clicking_began: bool,
    elapsed_ms: u64,
    release: bool,
    report_error: bool,
) -> (SessionPhase, EngineModel, SessionAction) {
    (
        SessionPhase::Ended,
        finished_model(m, clicking_began, elapsed_ms),
        SessionAction::Finish { release_left: release || m.hold_active, report_error },
    )
}

/// Clicking begins: the engine runs; holding presses the left button,
/// clicking runs the clicking loop.
pub open spec fn begin_clicking(c: ClickerConfig, m: EngineModel) -> (
    SessionPhase,
    EngineModel,
    SessionAction,
) {
    let m1 = EngineModel { state: running_state(m.state), ..m };
    if c.mode == ClickMode::Hold {
        (SessionPhase::Pressing, m1, SessionAction::Press)
    } else {
        (SessionPhase::Clicking, m1, SessionAction::RunClicks)
    }
}

/// While holding: keep holding, or end the session (see `hold_step_spec`).
pub open spec fn holding_step(c: ClickerConfig, m: EngineModel, ev: SessionEvent) -> (
    SessionPhase,
    EngineModel,
    SessionAction,
) {
    match hold_step_spec(c, ev.cancelled, ev.elapsed_ms) {
        HoldAction::Wait(ms) => (SessionPhase::Holding, m, SessionAction::Hold(ms)),
        HoldAction::Release => finish_step(m, true, ev.elapsed_ms, false, false),
    }
}

/// One decision of a session:
/// - before a countdown step: end when cancelled; otherwise count down while
///   the engine counts down, else begin clicking;
/// - after a countdown step's wait: end when cancelled; otherwise the second
///   is over (see `countdown_tick_model`), and clicking begins after the last;
/// - after clicking: end, reporting a failure unless cancelled;
/// - after the press: a failed press ends the session (reported unless
///   cancelled); a press made when cancelled is undone at once; otherwise the
///   engine holds the button and holding begins;
/// - while holding: see `holding_step`;
/// - once over: nothing more.
pub open spec fn session_step_model(
    phase: SessionPhase,
    c: ClickerConfig,
    m: EngineModel,
    ev: SessionEvent,
) -> (SessionPhase, EngineModel, SessionAction) {
    match phase {
        SessionPhase::Counting => if ev.cancelled {
            finish_step(m, false, ev.elapsed_ms, false, false)
        } else if m.state.status == EngineStatus::Countdown {
            (SessionPhase::Waited, m, SessionAction::Countdown(COUNTDOWN_STEP_MS))
        } else {
            begin_clicking(c, m)
        },
        SessionPhase::Waited => if ev.cancelled {
            finish_step(m, false, ev.elapsed_ms, false, false)
        } else {
            let (m1, more) = countdown_tick_model(m);
            if more {
                (SessionPhase::Waited, m1, SessionAction::Countdown(COUNTDOWN_STEP_MS))
            } else {
                begin_clicking(c, m1)
            }
        },
        SessionPhase::Clicking => finish_step(
            m,
            true,
            ev.elapsed_ms,
            false,
            !ev.ok && !ev.cancelled,
        ),
        SessionPhase::Pressing => if !ev.ok {
            finish_step(m, true, ev.elapsed_ms, false, !ev.cancelled)
        } else if ev.cancelled {
            finish_step(m, true, ev.elapsed_ms, true, false)
        } else {
            holding_step(c, EngineModel { hold_active: true, ..m }, ev)
        },
        SessionPhase::Holding => holding_step(c, m, ev),
        SessionPhase::Ended => (
            SessionPhase::Ended,
            m,
            SessionAction::Finish { release_left: false, report_error: false },
        ),
    }
}

/// One click session, from the start of its countdown to its end: decides
/// each next step and makes the engine's changes that go with it.
pub struct ClickSession {
    phase: SessionPhase,
    config: ClickerConfig,
}

impl View for ClickSession {
    type V = SessionModel;

    closed spec fn view(&self) -> SessionModel {
        SessionModel { phase: self.phase, config: self.config }
    }
}

impl ClickSession {
    /// A session with the settings `config` (as `ClickEngine::start` gives
    /// them), before its first decision.
    pub fn new(config: ClickerConfig) -> (s: Self)
        ensures
            s@ == (SessionModel { phase: SessionPhase::Counting, config }),
    {
        ClickSession { phase: SessionPhase::Counting, config }
    }

    fn finish(
        &mut self,
        engine: &mut ClickEngine,
        clicking_began: bool,
        elapsed_ms: u64,
        release: bool,
        report_error: bool,
    ) -> (a: SessionAction)
        ensures
            (final(self)@.phase, final(engine)@, a) == finish_step(
                old(engine)@,
                clicking_began,
                elapsed_ms,
                release,
                report_error,
            ),
            final(self)@.config == old(self)@.config,
    {
        let held = if clicking_began {
            engine.end_session(elapsed_ms)
        } else {
            let held = engine.release_hold();
            engine.set_idle();
            held
        };
        self.phase = SessionPhase::Ended;
        SessionAction::Finish { release_left: release || held, report_error }
    }

    fn begin(&mut self, engine: &mut ClickEngine) -> (a: SessionAction)
        ensures
            (final(self)@.phase, final(engine)@, a) == begin_clicking(old(self)@.config, old(engine)@),
            final(self)@.config == old(self)@.config,
    {
        engine.begin_running();
        if self.config.mode == ClickMode::Hold {
            self.phase = SessionPhase::Pressing;
            SessionAction::Press
        } else {
            self.phase = SessionPhase::Clicking;
            SessionAction::RunClicks
        }
    }

    fn hold(&mut self, engine: &mut ClickEngine, ev: SessionEvent) -> (a: SessionAction)
        ensures
            (final(self)@.phase, final(engine)@, a) == holding_step(old(self)@.config, old(engine)@, ev),
            final(self)@.config == old(self)@.config,
    {
        match hold_step(&self.config, ev.cancelled, ev.elapsed_ms) {
            HoldAction::Wait(ms) => {
                self.phase = SessionPhase::Holding;
                SessionAction::Hold(ms)
            },
            HoldAction::Release => self.finish(engine, true, ev.elapsed_ms, false, false),
        }
    }

    /// The next decision on `event`, and the engine's changes with it (see
    /// `session_step_model`).
    pub fn step(&mut self, engine: &mut ClickEngine, event: SessionEvent) -> (a: SessionAction)
        ensures
            (final(self)@.phase, final(engine)@, a) == session_step_model(
                old(self)@.phase,
                old(self)@.config,
                old(engine)@,
                event,
            ),
            final(self)@.config == old(self)@.config,
            a is Press ==> old(self)@.config.mode == ClickMode::Hold,
            a is RunClicks ==> old(self)@.config.mode == ClickMode::Spam,
    {
        match self.phase {
            SessionPhase::Counting => {
                if event.cancelled {
                    self.finish(engine, false, event.elapsed_ms, false, false)
                } else if engine.get_state().status == EngineStatus::Countdown {
                    self.phase = SessionPhase::Waited;
                    SessionAction::Countdown(COUNTDOWN_STEP_MS)
                } else {
                    self.begin(engine)
                }
            },
            SessionPhase::Waited => {
                if event.cancelled {
                    self.finish(engine, false, event.elapsed_ms, false, false)
                } else if engine.countdown_tick() {
                    SessionAction::Countdown(COUNTDOWN_STEP_MS)
                } else {
                    self.begin(engine)
                }
            },
            SessionPhase::Clicking => {
                self.finish(engine, true, event.elapsed_ms, false, !event.ok && !event.cancelled)
            },
            SessionPhase::Pressing => {
                if !event.ok {
                    self.finish(engine, true, event.elapsed_ms, false, !event.cancelled)
                } else if event.cancelled {
                    self.finish(engine, true, event.elapsed_ms, true, false)
                } else {
                    engine.mark_hold_active();
                    self.hold(engine, event)
                }
            },
            SessionPhase::Holding => self.hold(engine, event),
            SessionPhase::Ended => SessionAction::Finish { release_left: false, report_error: false },
        }
    }
}

/// What a decision does to the engine beyond its phase: a session that
/// finishes (once) leaves the engine idle with no countdown and no held button; only
/// a finished session is over; no decision changes the settings kept or the
/// clicks counted; and the left button is pressed only when a hold session
/// begins clicking.
pub proof fn lemma_session_step(phase: SessionPhase, c: ClickerConfig, m: EngineModel, ev: SessionEvent)
    ensures
        ({
            let (p2, m2, a) = session_step_model(phase, c, m, ev);
            &&& a is Finish ==> p2 == SessionPhase::Ended
            &&& a is Finish && phase != SessionPhase::Ended ==> m2.state.status == EngineStatus::Idle
                && m2.state.countdown_remaining == 0 && !m2.hold_active
            &&& phase == SessionPhase::Ended ==> m2 == m
            &&& p2 == SessionPhase::Ended ==> a is Finish
            &&& m2.config == m.config
            &&& m2.state.click_count == m.state.click_count
            &&& a is Press ==> c.mode == ClickMode::Hold && p2 == SessionPhase::Pressing && (phase
                == SessionPhase::Counting || phase == SessionPhase::Waited)
        }),
{
}

/// What a session is given: the outcome of the work it asked for, or the
/// button being given up from outside the session (by stopping or quitting,
/// through `ClickEngine::release_hold`).
pub enum SessionInput {
    Event(SessionEvent),
    ExternalRelease,
}

/// Presses of the left button asked for, presses that succeeded, and
/// releases of the left button asked for (by the session or from outside).
pub struct HoldTally {
    pub presses: nat,
    pub pressed: nat,
    pub releases: nat,
}

/// The session, the engine and the tally after one input.
pub open spec fn session_input_step(
    phase: SessionPhase,
    c: ClickerConfig,
    m: EngineModel,
    t: HoldTally,
    input: SessionInput,
) -> (SessionPhase, EngineModel, HoldTally) {
    match input {
        SessionInput::Event(ev) => {
            let (p2, m2, a) = session_step_model(phase, c, m, ev);
            let t2 = HoldTally {
                presses: t.presses + (if a is Press { 1nat } else { 0nat }),
                pressed: t.pressed + (if phase == SessionPhase::Pressing && ev.ok {
                    1nat
                } else {
                    0nat
                }),
                releases: t.releases + (if a matches SessionAction::Finish {
                    release_left: true,
                    ..
                } {
                    1nat
                } else {
                    0nat
                }),
            };
            (p2, m2, t2)
        },
        SessionInput::ExternalRelease => (
            phase,
            EngineModel { hold_active: false, ..m },
            HoldTally { releases: t.releases + (if m.hold_active { 1nat } else { 0nat }), ..t },
        ),
    }
}

/// The session, the engine and the tally after the inputs, in order.
pub open spec fn session_run(
    phase: SessionPhase,
    c: ClickerConfig,
    m: EngineModel,
    t: HoldTally,
    inputs: Seq<SessionInput>,
) -> (SessionPhase, EngineModel, HoldTally)
    decreases inputs.len(),
{
    if inputs.len() == 0 {
        (phase, m, t)
    } else {
        let (p1, m1, t1) = session_input_step(phase, c, m, t, inputs[0]);
        session_run(p1, c, m1, t1, inputs.drop_first())
    }
}

/// The button accounting of a session in each phase: no press before
/// clicking begins or while clicking; one press asked for while pressing;
/// while holding, the successful press is either released or still held by
/// the engine; once over, every successful press has been released, nothing
/// is held and the engine is idle. Presses happen only in hold mode.
pub open spec fn hold_accounting(phase: SessionPhase, c: ClickerConfig, m: EngineModel, t: HoldTally) -> bool {
    &&& t.presses > 0 ==> c.mode == ClickMode::Hold
    &&& match phase {
        SessionPhase::Counting | SessionPhase::Waited | SessionPhase::Clicking => t.presses == 0
            && t.pressed == 0 && t.releases == 0 && !m.hold_active,
        SessionPhase::Pressing => t.presses == 1 && t.pressed == 0 && t.releases == 0
            && !m.hold_active,
        SessionPhase::Holding => t.presses == 1 && t.pressed == 1 && t.releases + (if m.hold_active {
            1nat
        } else {
            0nat
        }) == 1,
        SessionPhase::Ended => t.presses <= 1 && t.pressed <= t.presses && t.pressed == t.releases
            && !m.hold_active && m.state.status == EngineStatus::Idle
            && m.state.countdown_remaining == 0,
    }
}

proof fn lemma_hold_accounting_step(
    phase: SessionPhase,
    c: ClickerConfig,
    m: EngineModel,
    t: HoldTally,
    input: SessionInput,
)
    requires
        hold_accounting(phase, c, m, t),
    ensures
        ({
            let (p2, m2, t2) = session_input_step(phase, c, m, t, input);
            &&& hold_accounting(p2, c, m2, t2)
            &&& m2.state.click_count == m.state.click_count
            &&& m2.config == m.config
        }),
{
    match input {
        SessionInput::Event(ev) => {
            lemma_session_step(phase, c, m, ev);
        },
        SessionInput::ExternalRelease => {},
    }
}

/// Every successful press of the left button is released: over any run of
/// a session, with the button also given up from outside at any point, the
/// session asks for at most one press, only in hold mode; the successful
/// presses equal the releases plus the one the engine still holds; and when
/// the session is over, every successful press has been released, the engine
/// holds nothing and is idle with no countdown. No session changes the
/// clicks counted or the settings kept.
pub proof fn lemma_session_releases_every_press(
    c: ClickerConfig,
    m: EngineModel,
    inputs: Seq<SessionInput>,
)
    requires
        !m.hold_active,
    ensures
        ({
            let (p, m2, t) = session_run(
                SessionPhase::Counting,
                c,
                m,
                HoldTally { presses: 0, pressed: 0, releases: 0 },
                inputs,
            );
            &&& t.presses <= 1
            &&& t.presses > 0 ==> c.mode == ClickMode::Hold
            &&& t.pressed <= t.presses
            &&& t.pressed == t.releases + (if m2.hold_active { 1nat } else { 0nat })
            &&& p == SessionPhase::Ended ==> t.pressed == t.releases && !m2.hold_active
                && m2.state.status == EngineStatus::Idle && m2.state.countdown_remaining == 0
            &&& m2.state.click_count == m.state.click_count
            &&& m2.config == m.config
        }),
{
    lemma_hold_accounting_run(
        SessionPhase::Counting,
        c,
        m,
        HoldTally { presses: 0, pressed: 0, releases: 0 },
        inputs,
    );
}

proof fn lemma_hold_accounting_run(
    phase: SessionPhase,
    c: ClickerConfig,
    m: EngineModel,
    t: HoldTally,
    inputs: Seq<SessionInput>,
)
    requires
        hold_accounting(phase, c, m, t),
    ensures
        ({
            let (p2, m2, t2) = session_run(phase, c, m, t, inputs);
            &&& hold_accounting(p2, c, m2, t2)
            &&& m2.state.click_count == m.state.click_count
            &&& m2.config == m.config
        }),
    decreases inputs.len(),
{
    if inputs.len() > 0 {
        lemma_hold_accounting_step(phase, c, m, t, inputs[0]);
        let (p1, m1, t1) = session_input_step(phase, c, m, t, inputs[0]);
        lemma_hold_accounting_run(p1, c, m1, t1, inputs.drop_first());
    }
}

/// Leaving the countdown begins what the settings ask for. Before a
/// countdown step, and after one, an uncancelled session keeps counting down
/// exactly while the countdown has seconds left to show (before a step: the
/// engine counts down; after a step: more than the last second was shown);
/// otherwise clicking begins with the engine running from zero, and a hold
/// session presses the left button while a clicking session runs its clicks.
/// Whatever the phase, a session presses only in hold mode and runs clicks
/// only in clicking mode.
pub proof fn lemma_countdown_leads_to_mode(
    phase: SessionPhase,
    c: ClickerConfig,
    m: EngineModel,
    ev: SessionEvent,
)
    ensures
        ({
            let (p2, m2, a) = session_step_model(phase, c, m, ev);
            &&& a is Press ==> c.mode == ClickMode::Hold
            &&& a is RunClicks ==> c.mode == ClickMode::Spam
            &&& (phase == SessionPhase::Counting || phase == SessionPhase::Waited) && !ev.cancelled
                ==> {
                let counting_on = if phase == SessionPhase::Counting {
                    m.state.status == EngineStatus::Countdown
                } else {
                    m.state.status == EngineStatus::Countdown && m.state.countdown_remaining > 1
                };
                &&& counting_on ==> a == SessionAction::Countdown(1000) && p2
                    == SessionPhase::Waited
                &&& !counting_on && c.mode == ClickMode::Hold ==> a == SessionAction::Press
                    && p2 == SessionPhase::Pressing
                &&& !counting_on && c.mode == ClickMode::Spam ==> a == SessionAction::RunClicks
                    && p2 == SessionPhase::Clicking
                &&& !counting_on ==> m2.state.status == EngineStatus::Running
                    && m2.state.countdown_remaining == 0 && m2.state.elapsed_ms == 0
                    && m2.state.click_count == m.state.click_count && m2.hold_active
                    == m.hold_active && m2.config == m.config
            }
        }),
{
}

/// How a session ends after the work it asked for: after clicking, or after
/// a failed press, the session is over with the running time shown, and the
/// failure is reported exactly when the work failed and nothing cancelled the
/// session; a press made after a cancel is released at once; a held button is
/// always released.
pub proof fn lemma_session_end_after_work(c: ClickerConfig, m: EngineModel, ev: SessionEvent)
    ensures
        ({
            let (p2, m2, a) = session_step_model(SessionPhase::Clicking, c, m, ev);
            &&& p2 == SessionPhase::Ended
            &&& a == SessionAction::Finish {
                release_left: m.hold_active,
                report_error: !ev.ok && !ev.cancelled,
            }
            &&& m2.state.elapsed_ms == ev.elapsed_ms
            &&& m2.state.click_count == m.state.click_count
        }),
        ({
            let (p2, m2, a) = session_step_model(SessionPhase::Pressing, c, m, ev);
            &&& !ev.ok ==> p2 == SessionPhase::Ended && a == SessionAction::Finish {
                release_left: m.hold_active,
                report_error: !ev.cancelled,
            } && m2.state.elapsed_ms == ev.elapsed_ms
            &&& ev.ok && ev.cancelled ==> p2 == SessionPhase::Ended && a
                == SessionAction::Finish { release_left: true, report_error: false }
            &&& ev.ok && !ev.cancelled ==> (m2.hold_active <==> p2 == SessionPhase::Holding)
            &&& a matches SessionAction::Finish { report_error, .. } ==> (report_error <==> !ev.ok
                && !ev.cancelled)
        }),
{
}

} // verus!
