use autoclicker::pacing::{
    duration_limit_reached, hold_step, should_emit_after_click, should_stop_spam, HoldAction,
    SpamAction, SpamInput, SpamPacer, SpamSession, HOLD_POLL_MS,
};
use autoclicker::types::{ClickMode, ClickType, ClickerConfig, MouseButton};

fn spam_config(speed: u32) -> ClickerConfig {
    ClickerConfig {
        mode: ClickMode::Spam,
        speed,
        button: MouseButton::Left,
        click_type: ClickType::Single,
        stop_after_clicks_enabled: false,
        stop_after_clicks: 100,
        stop_after_duration_enabled: false,
        stop_after_duration_sec: 30,
        countdown_sec: 0,
    }
}

/// Runs a session with a clock that advances `step_ms` per decision and
/// counts the clicks until `until_ms`, counting them into the input.
fn simulate(config: &ClickerConfig, step_ms: u64, until_ms: u64) -> (u64, bool) {
    let mut s = SpamSession::new(config.speed, 0);
    let mut clicks: u64 = 0;
    let mut now_ms: u64 = 0;
    while now_ms <= until_ms {
        let input = SpamInput { cancelled: false, click_count: clicks, now_ns: now_ms * 1_000_000 };
        match s.step(config, input) {
            SpamAction::Click => clicks += 1,
            SpamAction::Sleep(ms) => {
                assert!((1..=20).contains(&ms));
                now_ms += step_ms;
            }
            SpamAction::Finish => return (clicks, true),
        }
    }
    (clicks, false)
}

#[test]
fn tick_matches_rounded_click_period() {
    for speed in 1u32..=100 {
        let p = SpamPacer::new(speed);
        let cps = speed as f64;
        let expected = ((1000.0 / cps).round() as u64).clamp(1, 20);
        assert_eq!(p.tick_ms(), expected, "speed {speed}");
    }
    assert_eq!(SpamPacer::new(0).tick_ms(), 20);
    assert_eq!(SpamPacer::new(1000).tick_ms(), 10);
}

#[test]
fn pacer_grants_one_click_per_period() {
    let c = spam_config(10);
    let mut p = SpamPacer::new(10);
    assert!(!p.plan_click(&c, 0, 0));
    p.accrue(50_000_000);
    assert!(!p.plan_click(&c, 0, 50));
    p.accrue(50_000_000);
    assert!(p.plan_click(&c, 0, 100));
    assert!(!p.plan_click(&c, 1, 100));
}

#[test]
fn pacer_catch_up_is_capped_at_one_second() {
    let c = spam_config(5);
    let mut p = SpamPacer::new(5);
    p.accrue(60_000_000_000);
    let mut granted = 0;
    while p.plan_click(&c, granted, 0) {
        granted += 1;
    }
    assert_eq!(granted, 5);
}

#[test]
fn pacer_respects_click_limit() {
    let mut c = spam_config(10);
    c.stop_after_clicks_enabled = true;
    c.stop_after_clicks = 2;
    let mut p = SpamPacer::new(10);
    p.accrue(1_000_000_000);
    assert!(p.plan_click(&c, 0, 0));
    assert!(p.plan_click(&c, 1, 0));
    assert!(!p.plan_click(&c, 2, 0));
}

#[test]
fn stop_rules() {
    let mut c = spam_config(10);
    assert!(!should_stop_spam(&c, 1_000_000, 1_000_000));
    c.stop_after_clicks_enabled = true;
    c.stop_after_clicks = 3;
    assert!(!should_stop_spam(&c, 2, 0));
    assert!(should_stop_spam(&c, 3, 0));
    c.stop_after_clicks_enabled = false;
    c.stop_after_duration_enabled = true;
    c.stop_after_duration_sec = 30;
    assert!(!should_stop_spam(&c, 0, 29_999));
    assert!(should_stop_spam(&c, 0, 30_000));
    assert!(duration_limit_reached(&c, 30_001));
    c.stop_after_duration_sec = 0;
    assert!(!should_stop_spam(&c, 0, u64::MAX));
    c.stop_after_duration_sec = u64::MAX;
    assert!(!duration_limit_reached(&c, u64::MAX));
}

#[test]
fn emit_rules() {
    let mut c = spam_config(10);
    assert!(!should_emit_after_click(&c, 5, 49));
    assert!(should_emit_after_click(&c, 5, 50));
    c.stop_after_clicks_enabled = true;
    c.stop_after_clicks = 5;
    assert!(should_emit_after_click(&c, 5, 0));
    assert!(!should_emit_after_click(&c, 4, 0));
}

#[test]
fn hold_rules() {
    let mut c = spam_config(10);
    c.mode = ClickMode::Hold;
    assert_eq!(hold_step(&c, false, 1_000_000), HoldAction::Wait(HOLD_POLL_MS));
    assert_eq!(hold_step(&c, true, 0), HoldAction::Release);
    c.stop_after_duration_enabled = true;
    c.stop_after_duration_sec = 2;
    assert_eq!(hold_step(&c, false, 1_999), HoldAction::Wait(50));
    assert_eq!(hold_step(&c, false, 2_000), HoldAction::Release);
}

#[test]
fn session_clicks_at_configured_rate() {
    for speed in [1u32, 7, 10, 33, 100] {
        let c = spam_config(speed);
        let (clicks, finished) = simulate(&c, 5, 3_000);
        assert!(!finished);
        // Never faster than the rate, and at most one click behind it.
        assert!(clicks <= 3 * speed as u64, "speed {speed}: {clicks}");
        assert!(clicks + 1 >= 3 * speed as u64, "speed {speed}: {clicks}");
    }
}

#[test]
fn session_stops_at_click_limit() {
    let mut c = spam_config(50);
    c.stop_after_clicks_enabled = true;
    c.stop_after_clicks = 12;
    let (clicks, finished) = simulate(&c, 10, 10_000);
    assert!(finished);
    assert_eq!(clicks, 12);
}

#[test]
fn session_stops_at_time_limit() {
    let mut c = spam_config(20);
    c.stop_after_duration_enabled = true;
    c.stop_after_duration_sec = 1;
    let (clicks, finished) = simulate(&c, 5, 10_000);
    assert!(finished);
    assert!(clicks <= 20 && clicks >= 19, "{clicks}");
}

#[test]
fn session_finishes_when_cancelled() {
    let c = spam_config(10);
    let mut s = SpamSession::new(10, 0);
    let input = SpamInput { cancelled: true, click_count: 0, now_ns: 5_000_000_000 };
    assert_eq!(s.step(&c, input), SpamAction::Finish);
}

#[test]
fn session_cancelled_mid_round_ends_round() {
    let c = spam_config(10);
    let mut s = SpamSession::new(10, 0);
    let go = SpamInput { cancelled: false, click_count: 0, now_ns: 500_000_000 };
    assert_eq!(s.step(&c, go), SpamAction::Click);
    let cancel = SpamInput { cancelled: true, click_count: 1, now_ns: 500_000_000 };
    assert_eq!(s.step(&c, cancel), SpamAction::Sleep(20));
    assert_eq!(s.step(&c, cancel), SpamAction::Finish);
}

#[test]
fn first_decision_waits_without_credit() {
    let c = spam_config(10);
    let mut s = SpamSession::new(10, 7_000_000);
    let input = SpamInput { cancelled: false, click_count: 0, now_ns: 7_000_000 };
    assert_eq!(s.step(&c, input), SpamAction::Sleep(20));
}

#[test]
fn clicks_between_pauses_are_capped_at_speed() {
    let c = spam_config(7);
    let mut s = SpamSession::new(7, 0);
    let mut clicks: u64 = 0;
    loop {
        let input = SpamInput { cancelled: false, click_count: clicks, now_ns: 60_000_000_000 };
        match s.step(&c, input) {
            SpamAction::Click => clicks += 1,
            _ => break,
        }
    }
    assert_eq!(clicks, 7);
}

#[test]
fn click_limit_holds_over_a_run() {
    let mut c = spam_config(100);
    c.stop_after_clicks_enabled = true;
    c.stop_after_clicks = 30;
    let mut s = SpamSession::new(100, 0);
    let mut clicks: u64 = 0;
    let mut now_ms: u64 = 0;
    loop {
        let input = SpamInput { cancelled: false, click_count: clicks, now_ns: now_ms * 1_000_000 };
        match s.step(&c, input) {
            SpamAction::Click => clicks += 1,
            SpamAction::Sleep(_) => now_ms += 250,
            SpamAction::Finish => break,
        }
        assert!(clicks <= 30);
    }
    assert_eq!(clicks, 30);
}
