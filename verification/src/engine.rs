use vstd::prelude::*;
use crate::config::{is_normalized, lemma_default_config_normalized, normalize_config, normalized};
use crate::types::{
    ClickerConfig, EngineState, EngineStatus, default_config, default_state,
};

verus! {

/// The abstract state of a click engine: the settings it keeps, what it shows,
/// and whether it is holding the left button down.
pub struct EngineModel {
    pub config: ClickerConfig,
    pub state: EngineState,
    pub hold_active: bool,
}

/// A countdown number is shown exactly while the engine counts down.
pub open spec fn state_consistent(s: EngineState) -> bool {
    (s.countdown_remaining > 0) == (s.status == EngineStatus::Countdown)
}

/// What every engine satisfies.
pub open spec fn model_wf(m: EngineModel) -> bool {
    &&& state_consistent(m.state)
    &&& is_normalized(m.config)
}

/// The engine is in a session (counting down or clicking).
pub open spec fn busy(s: EngineState) -> bool {
    s.status != EngineStatus::Idle
}

/// A fresh engine.
pub open spec fn initial_model() -> EngineModel {
    EngineModel { config: default_config(), state: default_state(), hold_active: false }
}

/// The settings a session runs with: those kept, without countdown when it is skipped.
pub open spec fn session_config(c: ClickerConfig, skip_countdown: bool) -> ClickerConfig {
    if skip_countdown {
        ClickerConfig { countdown_sec: 0, ..c }
    } else {
        c
    }
}

/// What a session shows when it starts with settings `c`.
pub open spec fn session_start_state(c: ClickerConfig) -> EngineState {
    EngineState {
        status: if c.countdown_sec > 0 { EngineStatus::Countdown } else { EngineStatus::Running },
        click_count: 0,
        elapsed_ms: 0,
        countdown_remaining: c.countdown_sec,
    }
}

/// `s` with the session ended: idle, no countdown; clicks and time stay shown.
pub open spec fn idle_state(s: EngineState) -> EngineState {
    EngineState { status: EngineStatus::Idle, countdown_remaining: 0, ..s }
}

/// `s` with clicking begun: running, no countdown, the clock at zero.
pub open spec fn running_state(s: EngineState) -> EngineState {
    EngineState { status: EngineStatus::Running, countdown_remaining: 0, elapsed_ms: 0, ..s }
}

/// One second of countdown passed: the model after it, and whether the
/// countdown goes on (`false` once the last second is over, and when the
/// engine is not counting down at all).
pub open spec fn countdown_tick_model(m: EngineModel) -> (EngineModel, bool) {
    if m.state.status == EngineStatus::Countdown && m.state.countdown_remaining > 1 {
        (
            EngineModel {
                state: EngineState {
                    countdown_remaining: (m.state.countdown_remaining - 1) as u32,
                    ..m.state
                },
                ..m
            },
            true,
        )
    } else {
        (m, false)
    }
}

/// The engine's state: settings, what the user interface shows, and whether
/// the left button is held down. Sessions themselves (timers, native input)
/// are driven from outside through these methods.
pub struct ClickEngine {
    config: ClickerConfig,
    state: EngineState,
    hold_active: bool,
}

impl View for ClickEngine {
    type V = EngineModel;

    closed spec fn view(&self) -> EngineModel {
        EngineModel { config: self.config, state: self.state, hold_active: self.hold_active }
    }
}

impl ClickEngine {
    #[verifier::type_invariant]
    spec fn inv(self) -> bool {
        model_wf(self@)
    }

    /// An idle engine with the default settings.
    pub fn new() -> (e: Self)
        ensures
            e@ == initial_model(),
            model_wf(e@),
    {
        proof {
            lemma_default_config_normalized();
        }
        ClickEngine {
            config: ClickerConfig::default(),
            state: EngineState::default(),
            hold_active: false,
        }
    }

    /// What the user interface shows.
    pub fn get_state(&self) -> (s: EngineState)
        ensures
            s == self@.state,
            model_wf(self@),
    {
        proof {
            use_type_invariant(self);
        }
        self.state
    }

    /// The settings kept.
    pub fn get_config(&self) -> (c: ClickerConfig)
        ensures
            c == self@.config,
            model_wf(self@),
    {
        proof {
            use_type_invariant(self);
        }
        self.config
    }

    /// Keeps `config` after the rules of `normalized`; nothing else changes.
    pub fn set_config(&mut self, config: ClickerConfig)
        ensures
            final(self)@ == (EngineModel { config: normalized(config), ..old(self)@ }),
            model_wf(final(self)@),
    {
        proof {
            use_type_invariant(&*self);
            crate::config::lemma_normalized(config);
        }
        self.config = normalize_config(config);
    }

    /// Whether a session is under way.
    pub fn is_busy(&self) -> (b: bool)
        ensures
            b == busy(self@.state),
            model_wf(self@),
    {
        proof {
            use_type_invariant(self);
        }
        self.state.status != EngineStatus::Idle
    }

    /// Starts a session unless one is under way. Returns the settings the
    /// session runs with (the kept ones, without countdown when
    /// `skip_countdown`), or `None`, changing nothing, when busy.
    pub fn start(&mut self, skip_countdown: bool) -> (r: Option<ClickerConfig>)
        ensures
            busy(old(self)@.state) ==> r is None && final(self)@ == old(self)@,
            !busy(old(self)@.state) ==> {
                let c = session_config(old(self)@.config, skip_countdown);
                &&& r == Some(c)
                &&& final(self)@ == (EngineModel { state: session_start_state(c), ..old(self)@ })
            },
            r matches Some(c) ==> c == (ClickerConfig {
                countdown_sec: if skip_countdown { 0 } else { old(self)@.config.countdown_sec },
                ..old(self)@.config
            }),
            model_wf(final(self)@),
    {
        proof {
            use_type_invariant(&*self);
        }
        if self.state.status != EngineStatus::Idle {
            return None;
        }
        let mut config = self.config;
        if skip_countdown {
            config.countdown_sec = 0;
        }
        let countdown = config.countdown_sec;
        self.state = EngineState {
            status: if countdown > 0 {
                EngineStatus::Countdown
            } else {
                EngineStatus::Running
            },
            click_count: 0,
            elapsed_ms: 0,
            countdown_remaining: countdown,
        };
        Some(config)
    }

    /// One second of countdown is over (see `countdown_tick_model`). Returns
    /// whether the countdown goes on.
    pub fn countdown_tick(&mut self) -> (more: bool)
        ensures
            (final(self)@, more) == countdown_tick_model(old(self)@),
            model_wf(final(self)@),
    {
        proof {
            use_type_invariant(&*self);
        }
        if self.state.status == EngineStatus::Countdown && self.state.countdown_remaining > 1 {
            self.state = EngineState {
                countdown_remaining: self.state.countdown_remaining - 1,
                ..self.state
            };
            true
        } else {
            false
        }
    }

    /// Clicking begins: running, no countdown, the clock at zero.
    pub fn begin_running(&mut self)
        ensures
            final(self)@ == (EngineModel { state: running_state(old(self)@.state), ..old(self)@ }),
            model_wf(final(self)@),
    {
        proof {
            use_type_invariant(&*self);
        }
        self.state = EngineState {
            status: EngineStatus::Running,
            countdown_remaining: 0,
            elapsed_ms: 0,
            ..self.state
        };
    }

    /// A periodic clock reading: shown only while clicking runs. Returns
    /// whether it was shown (and so whether the state is worth sending).
    pub fn update_elapsed(&mut self, elapsed_ms: u64) -> (shown: bool)
        ensures
            shown == (old(self)@.state.status == EngineStatus::Running),
            shown ==> final(self)@ == (EngineModel {
                state: EngineState { elapsed_ms, ..old(self)@.state },
                ..old(self)@
            }),
            !shown ==> final(self)@ == old(self)@,
            model_wf(final(self)@),
    {
        proof {
            use_type_invariant(&*self);
        }
        if self.state.status == EngineStatus::Running {
            self.state = EngineState { elapsed_ms, ..self.state };
            true
        } else {
            false
        }
    }

    /// Shows `elapsed_ms` as the session's running time.
    pub fn set_elapsed(&mut self, elapsed_ms: u64)
        ensures
            final(self)@ == (EngineModel {
                state: EngineState { elapsed_ms, ..old(self)@.state },
                ..old(self)@
            }),
            model_wf(final(self)@),
    {
        proof {
            use_type_invariant(&*self);
        }
        self.state = EngineState { elapsed_ms, ..self.state };
    }

    /// Counts one click made at `elapsed_ms` into the session.
    pub fn record_click(&mut self, elapsed_ms: u64)
        requires
            old(self)@.state.click_count < u64::MAX,
        ensures
            final(self)@ == (EngineModel {
                state: EngineState {
                    click_count: (old(self)@.state.click_count + 1) as u64,
                    elapsed_ms,
                    ..old(self)@.state
                },
                ..old(self)@
            }),
            model_wf(final(self)@),
    {
        proof {
            use_type_invariant(&*self);
        }
        self.state = EngineState {
            click_count: self.state.click_count + 1,
            elapsed_ms,
            ..self.state
        };
    }

    /// The left button is now held down by the session.
    pub fn mark_hold_active(&mut self)
        ensures
            final(self)@ == (EngineModel { hold_active: true, ..old(self)@ }),
            model_wf(final(self)@),
    {
        proof {
            use_type_invariant(&*self);
        }
        self.hold_active = true;
    }

    /// Gives up the held button. Returns whether it was held, that is whether
    /// the left button must now be released.
    pub fn release_hold(&mut self) -> (must_release: bool)
        ensures
            must_release == old(self)@.hold_active,
            final(self)@ == (EngineModel { hold_active: false, ..old(self)@ }),
            model_wf(final(self)@),
    {
        proof {
            use_type_invariant(&*self);
        }
        let held = self.hold_active;
        self.hold_active = false;
        held
    }

    /// Ends the session: idle, no countdown; clicks and time stay shown.
    pub fn set_idle(&mut self)
        ensures
            final(self)@ == (EngineModel { state: idle_state(old(self)@.state), ..old(self)@ }),
            model_wf(final(self)@),
    {
        proof {
            use_type_invariant(&*self);
        }
        self.state = EngineState {
            status: EngineStatus::Idle,
            countdown_remaining: 0,
            ..self.state
        };
    }

    /// The session's own end: the held button is given up (the result says
    /// whether it must be released), the final running time is shown, and
    /// the engine goes idle.
    pub fn end_session(&mut self, elapsed_ms: u64) -> (must_release: bool)
        ensures
            must_release == old(self)@.hold_active,
            final(self)@ == (EngineModel {
                state: idle_state(EngineState { elapsed_ms, ..old(self)@.state }),
                hold_active: false,
                ..old(self)@
            }),
            model_wf(final(self)@),
    {
        let held = self.release_hold();
        self.set_elapsed(elapsed_ms);
        self.set_idle();
        held
    }
}

/// The model after `k` seconds of countdown.
pub open spec fn after_ticks(m: EngineModel, k: nat) -> EngineModel
    decreases k,
{
    if k == 0 {
        m
    } else {
        countdown_tick_model(after_ticks(m, (k - 1) as nat)).0
    }
}

/// A countdown from `n` shows `n`, `n - 1`, ..., `1`, one per second: before
/// its `k`-th tick (`k < n`) it still counts down and shows `n - k`, the tick
/// says the countdown goes on exactly for `k < n - 1`, and nothing else of
/// the engine changes.
pub proof fn lemma_countdown_runs(m: EngineModel, k: nat)
    requires
        m.state.status == EngineStatus::Countdown,
        k < m.state.countdown_remaining,
    ensures
        after_ticks(m, k).state == (EngineState {
            countdown_remaining: (m.state.countdown_remaining - k) as u32,
            ..m.state
        }),
        after_ticks(m, k).config == m.config,
        after_ticks(m, k).hold_active == m.hold_active,
        countdown_tick_model(after_ticks(m, k)).1 <==> k + 1 < m.state.countdown_remaining,
    decreases k,
{
    if k > 0 {
        lemma_countdown_runs(m, (k - 1) as nat);
    }
}

/// Starting a session makes the engine busy, and ending it makes it idle;
/// each keeps the shown countdown consistent with the status.
pub proof fn lemma_session_bounds(c: ClickerConfig, s: EngineState)
    ensures
        busy(session_start_state(c)),
        state_consistent(session_start_state(c)),
        session_start_state(c).countdown_remaining == c.countdown_sec,
        !busy(idle_state(s)),
        state_consistent(idle_state(s)),
        busy(running_state(s)),
        state_consistent(running_state(s)),
        session_config(c, true).countdown_sec == 0,
        session_start_state(session_config(c, true)).status == EngineStatus::Running,
{
}

/// Giving the engine back the settings it keeps changes nothing: the kept
/// settings are already normalised.
pub proof fn lemma_set_kept_config_changes_nothing(m: EngineModel)
    requires
        model_wf(m),
    ensures
        (EngineModel { config: normalized(m.config), ..m }) == m,
{
}

/// A session runs with the user's kept settings: every setting is the kept
/// one, except that a skipped countdown (the global shortcut) is zero seconds;
/// an unskipped countdown is the kept one.
pub proof fn lemma_session_config_keeps_settings(c: ClickerConfig, skip_countdown: bool)
    ensures
        session_config(c, skip_countdown).mode == c.mode,
        session_config(c, skip_countdown).speed == c.speed,
        session_config(c, skip_countdown).button == c.button,
        session_config(c, skip_countdown).click_type == c.click_type,
        session_config(c, skip_countdown).stop_after_clicks_enabled == c.stop_after_clicks_enabled,
        session_config(c, skip_countdown).stop_after_clicks == c.stop_after_clicks,
        session_config(c, skip_countdown).stop_after_duration_enabled
            == c.stop_after_duration_enabled,
        session_config(c, skip_countdown).stop_after_duration_sec == c.stop_after_duration_sec,
        skip_countdown ==> session_config(c, skip_countdown).countdown_sec == 0,
        !skip_countdown ==> session_config(c, skip_countdown).countdown_sec == c.countdown_sec,
        !skip_countdown ==> session_config(c, skip_countdown) == c,
{
}

} // verus!
