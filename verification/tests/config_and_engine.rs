use autoclicker::config::{clamp_speed, normalize_config};
use autoclicker::engine::ClickEngine;
use autoclicker::types::{
    ClickMode, ClickType, ClickerConfig, EngineState, EngineStatus, MouseButton,
};

fn config(mode: ClickMode, speed: u32, button: MouseButton, countdown_sec: u32) -> ClickerConfig {
    ClickerConfig {
        mode,
        speed,
        button,
        click_type: ClickType::Double,
        stop_after_clicks_enabled: true,
        stop_after_clicks: 7,
        stop_after_duration_enabled: true,
        stop_after_duration_sec: 12,
        countdown_sec,
    }
}

#[test]
fn default_config_values() {
    let c = ClickerConfig::default();
    assert_eq!(c.mode, ClickMode::Spam);
    assert_eq!(c.speed, 10);
    assert_eq!(c.button, MouseButton::Left);
    assert_eq!(c.click_type, ClickType::Single);
    assert!(!c.stop_after_clicks_enabled);
    assert_eq!(c.stop_after_clicks, 100);
    assert!(!c.stop_after_duration_enabled);
    assert_eq!(c.stop_after_duration_sec, 30);
    assert_eq!(c.countdown_sec, 5);
}

#[test]
fn default_state_values() {
    let s = EngineState::default();
    assert_eq!(s.status, EngineStatus::Idle);
    assert_eq!(s.click_count, 0);
    assert_eq!(s.elapsed_ms, 0);
    assert_eq!(s.countdown_remaining, 0);
}

#[test]
fn speed_is_clamped() {
    assert_eq!(clamp_speed(0), 1);
    assert_eq!(clamp_speed(1), 1);
    assert_eq!(clamp_speed(55), 55);
    assert_eq!(clamp_speed(100), 100);
    assert_eq!(clamp_speed(101), 100);
    assert_eq!(clamp_speed(u32::MAX), 100);
}

#[test]
fn hold_mode_forces_left_button_without_click_limit() {
    let n = normalize_config(config(ClickMode::Hold, 500, MouseButton::Right, 3));
    assert_eq!(n.button, MouseButton::Left);
    assert!(!n.stop_after_clicks_enabled);
    assert_eq!(n.speed, 100);
    assert_eq!(n.mode, ClickMode::Hold);
    assert_eq!(n.stop_after_clicks, 7);
    assert!(n.stop_after_duration_enabled);
    assert_eq!(n.stop_after_duration_sec, 12);
    assert_eq!(n.countdown_sec, 3);
    assert_eq!(n.click_type, ClickType::Double);
}

#[test]
fn spam_mode_keeps_button_and_click_limit() {
    let n = normalize_config(config(ClickMode::Spam, 0, MouseButton::Right, 3));
    assert_eq!(n.button, MouseButton::Right);
    assert!(n.stop_after_clicks_enabled);
    assert_eq!(n.speed, 1);
}

#[test]
fn normalizing_twice_is_normalizing_once() {
    for speed in [0u32, 1, 50, 100, 101, 1000] {
        for mode in [ClickMode::Spam, ClickMode::Hold] {
            let once = normalize_config(config(mode, speed, MouseButton::Right, 1));
            assert_eq!(normalize_config(once), once);
        }
    }
}

#[test]
fn new_engine_is_idle_with_defaults() {
    let e = ClickEngine::new();
    assert!(!e.is_busy());
    assert_eq!(e.get_state(), EngineState::default());
    assert_eq!(e.get_config(), ClickerConfig::default());
}

#[test]
fn set_config_then_get_config_gives_normalized() {
    let mut e = ClickEngine::new();
    let c = config(ClickMode::Hold, 250, MouseButton::Right, 2);
    e.set_config(c);
    assert_eq!(e.get_config(), normalize_config(c));
    assert_eq!(e.get_state(), EngineState::default());
}

#[test]
fn start_with_countdown() {
    let mut e = ClickEngine::new();
    e.set_config(config(ClickMode::Spam, 20, MouseButton::Left, 3));
    let session = e.start(false).expect("idle engine starts");
    assert_eq!(session.countdown_sec, 3);
    assert!(e.is_busy());
    let s = e.get_state();
    assert_eq!(s.status, EngineStatus::Countdown);
    assert_eq!(s.countdown_remaining, 3);
    assert_eq!(s.click_count, 0);
    assert_eq!(s.elapsed_ms, 0);
}

#[test]
fn start_skipping_countdown_runs_at_once() {
    let mut e = ClickEngine::new();
    let session = e.start(true).expect("idle engine starts");
    assert_eq!(session.countdown_sec, 0);
    assert_eq!(e.get_config().countdown_sec, 5);
    let s = e.get_state();
    assert_eq!(s.status, EngineStatus::Running);
    assert_eq!(s.countdown_remaining, 0);
}

#[test]
fn start_with_zero_countdown_runs_at_once() {
    let mut e = ClickEngine::new();
    e.set_config(config(ClickMode::Spam, 20, MouseButton::Left, 0));
    assert!(e.start(false).is_some());
    assert_eq!(e.get_state().status, EngineStatus::Running);
}

#[test]
fn start_while_busy_changes_nothing() {
    let mut e = ClickEngine::new();
    e.start(false).unwrap();
    e.record_click(40);
    let before = e.get_state();
    assert!(e.start(true).is_none());
    assert_eq!(e.get_state(), before);
}

#[test]
fn countdown_counts_each_second_down_to_one() {
    let mut e = ClickEngine::new();
    e.set_config(config(ClickMode::Spam, 20, MouseButton::Left, 3));
    e.start(false).unwrap();
    let mut shown = vec![e.get_state().countdown_remaining];
    while e.countdown_tick() {
        shown.push(e.get_state().countdown_remaining);
    }
    assert_eq!(shown, vec![3, 2, 1]);
    assert_eq!(e.get_state().status, EngineStatus::Countdown);
    e.begin_running();
    let s = e.get_state();
    assert_eq!(s.status, EngineStatus::Running);
    assert_eq!(s.countdown_remaining, 0);
    assert_eq!(s.elapsed_ms, 0);
}

#[test]
fn countdown_tick_when_not_counting_does_nothing() {
    let mut e = ClickEngine::new();
    assert!(!e.countdown_tick());
    assert_eq!(e.get_state(), EngineState::default());
}

#[test]
fn elapsed_updates_only_while_running() {
    let mut e = ClickEngine::new();
    assert!(!e.update_elapsed(500));
    assert_eq!(e.get_state().elapsed_ms, 0);
    e.start(true).unwrap();
    assert!(e.update_elapsed(500));
    assert_eq!(e.get_state().elapsed_ms, 500);
    e.set_elapsed(900);
    assert_eq!(e.get_state().elapsed_ms, 900);
}

#[test]
fn clicks_are_counted() {
    let mut e = ClickEngine::new();
    e.start(true).unwrap();
    e.record_click(10);
    e.record_click(110);
    let s = e.get_state();
    assert_eq!(s.click_count, 2);
    assert_eq!(s.elapsed_ms, 110);
}

#[test]
fn release_hold_answers_once() {
    let mut e = ClickEngine::new();
    assert!(!e.release_hold());
    e.mark_hold_active();
    assert!(e.release_hold());
    assert!(!e.release_hold());
}

#[test]
fn set_idle_ends_session_keeping_counts() {
    let mut e = ClickEngine::new();
    e.start(false).unwrap();
    e.record_click(10);
    e.set_idle();
    let s = e.get_state();
    assert!(!e.is_busy());
    assert_eq!(s.status, EngineStatus::Idle);
    assert_eq!(s.countdown_remaining, 0);
    assert_eq!(s.click_count, 1);
}

#[test]
fn end_session_releases_and_goes_idle() {
    let mut e = ClickEngine::new();
    e.start(true).unwrap();
    e.mark_hold_active();
    assert!(e.end_session(1234));
    let s = e.get_state();
    assert_eq!(s.status, EngineStatus::Idle);
    assert_eq!(s.elapsed_ms, 1234);
    assert!(!e.release_hold());
    assert!(e.start(false).is_some());
    assert_eq!(e.get_state().click_count, 0);
}

#[test]
fn setting_kept_config_changes_nothing() {
    let mut e = ClickEngine::new();
    e.set_config(config(ClickMode::Hold, 0, MouseButton::Right, 4));
    let kept = e.get_config();
    let state = e.get_state();
    e.set_config(kept);
    assert_eq!(e.get_config(), kept);
    assert_eq!(e.get_state(), state);
}
