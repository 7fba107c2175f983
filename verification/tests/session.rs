use autoclicker::engine::ClickEngine;
use autoclicker::session::{ClickSession, SessionAction, SessionEvent};
use autoclicker::types::{ClickMode, ClickType, ClickerConfig, EngineStatus, MouseButton};

fn cfg(mode: ClickMode, countdown_sec: u32, limit_sec: u64) -> ClickerConfig {
    ClickerConfig {
        mode,
        speed: 10,
        button: MouseButton::Right,
        click_type: ClickType::Single,
        stop_after_clicks_enabled: false,
        stop_after_clicks: 100,
        stop_after_duration_enabled: limit_sec > 0,
        stop_after_duration_sec: limit_sec,
        countdown_sec,
    }
}

fn ev(cancelled: bool, ok: bool, elapsed_ms: u64) -> SessionEvent {
    SessionEvent { cancelled, ok, elapsed_ms }
}

fn started(config: ClickerConfig) -> (ClickEngine, ClickSession) {
    let mut e = ClickEngine::new();
    e.set_config(config);
    let c = e.start(false).expect("idle engine starts");
    (e, ClickSession::new(c))
}

#[test]
fn countdown_then_clicking() {
    let (mut e, mut s) = started(cfg(ClickMode::Spam, 2, 0));
    assert_eq!(s.step(&mut e, ev(false, true, 0)), SessionAction::Countdown(1000));
    assert_eq!(e.get_state().countdown_remaining, 2);
    assert_eq!(s.step(&mut e, ev(false, true, 0)), SessionAction::Countdown(1000));
    assert_eq!(e.get_state().countdown_remaining, 1);
    assert_eq!(s.step(&mut e, ev(false, true, 0)), SessionAction::RunClicks);
    assert_eq!(e.get_state().status, EngineStatus::Running);
    e.record_click(90);
    let end = s.step(&mut e, ev(false, true, 2500));
    assert_eq!(end, SessionAction::Finish { release_left: false, report_error: false });
    let st = e.get_state();
    assert_eq!(st.status, EngineStatus::Idle);
    assert_eq!(st.elapsed_ms, 2500);
    assert_eq!(st.click_count, 1);
    assert_eq!(
        s.step(&mut e, ev(false, true, 9)),
        SessionAction::Finish { release_left: false, report_error: false }
    );
}

#[test]
fn cancel_during_countdown_ends_idle_without_clicking() {
    let (mut e, mut s) = started(cfg(ClickMode::Spam, 3, 0));
    assert_eq!(s.step(&mut e, ev(false, true, 0)), SessionAction::Countdown(1000));
    let end = s.step(&mut e, ev(true, true, 0));
    assert_eq!(end, SessionAction::Finish { release_left: false, report_error: false });
    let st = e.get_state();
    assert_eq!(st.status, EngineStatus::Idle);
    assert_eq!(st.countdown_remaining, 0);
    assert!(!e.is_busy());
}

#[test]
fn clicking_failure_is_reported_unless_cancelled() {
    let (mut e, mut s) = started(cfg(ClickMode::Spam, 0, 0));
    assert_eq!(s.step(&mut e, ev(false, true, 0)), SessionAction::RunClicks);
    assert_eq!(
        s.step(&mut e, ev(false, false, 10)),
        SessionAction::Finish { release_left: false, report_error: true }
    );
    let (mut e, mut s) = started(cfg(ClickMode::Spam, 0, 0));
    s.step(&mut e, ev(false, true, 0));
    assert_eq!(
        s.step(&mut e, ev(true, false, 10)),
        SessionAction::Finish { release_left: false, report_error: false }
    );
}

#[test]
fn hold_presses_then_releases_at_time_limit() {
    let (mut e, mut s) = started(cfg(ClickMode::Hold, 0, 2));
    assert_eq!(s.step(&mut e, ev(false, true, 0)), SessionAction::Press);
    assert_eq!(s.step(&mut e, ev(false, true, 0)), SessionAction::Hold(50));
    assert_eq!(s.step(&mut e, ev(false, true, 1_999)), SessionAction::Hold(50));
    let end = s.step(&mut e, ev(false, true, 2_000));
    assert_eq!(end, SessionAction::Finish { release_left: true, report_error: false });
    assert!(!e.is_busy());
    assert!(!e.release_hold());
    assert_eq!(e.get_state().click_count, 0);
}

#[test]
fn hold_press_made_after_cancel_is_undone() {
    let (mut e, mut s) = started(cfg(ClickMode::Hold, 0, 0));
    assert_eq!(s.step(&mut e, ev(false, true, 0)), SessionAction::Press);
    assert_eq!(
        s.step(&mut e, ev(true, true, 3)),
        SessionAction::Finish { release_left: true, report_error: false }
    );
    assert!(!e.is_busy());
}

#[test]
fn failed_press_is_reported_and_not_released() {
    let (mut e, mut s) = started(cfg(ClickMode::Hold, 0, 0));
    assert_eq!(s.step(&mut e, ev(false, true, 0)), SessionAction::Press);
    assert_eq!(
        s.step(&mut e, ev(false, false, 1)),
        SessionAction::Finish { release_left: false, report_error: true }
    );
}

#[test]
fn hold_released_from_outside_is_not_released_twice() {
    let (mut e, mut s) = started(cfg(ClickMode::Hold, 0, 0));
    assert_eq!(s.step(&mut e, ev(false, true, 0)), SessionAction::Press);
    assert_eq!(s.step(&mut e, ev(false, true, 0)), SessionAction::Hold(50));
    // Stopping gives up the button first.
    assert!(e.release_hold());
    assert_eq!(
        s.step(&mut e, ev(true, true, 700)),
        SessionAction::Finish { release_left: false, report_error: false }
    );
    assert_eq!(e.get_state().elapsed_ms, 700);
}
