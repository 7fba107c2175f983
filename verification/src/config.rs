use vstd::prelude::*;
use crate::types::{ClickMode, ClickerConfig, MouseButton, default_config};

verus! {

/// The slowest accepted click rate, in clicks per second.
pub const MIN_SPEED: u32 = 1;

/// The fastest accepted click rate, in clicks per second.
pub const MAX_SPEED: u32 = 100;

/// `speed` clamped into `MIN_SPEED..=MAX_SPEED`.
pub open spec fn clamped_speed(speed: u32) -> u32 {
    if speed < MIN_SPEED {
        MIN_SPEED
    } else if speed > MAX_SPEED {
        MAX_SPEED
    } else {
        speed
    }
}

/// The settings the engine keeps when it is given `c`: holding always uses
/// the left button and has no click limit, and the speed is clamped.
pub open spec fn normalized(c: ClickerConfig) -> ClickerConfig {
    let held = if c.mode == ClickMode::Hold {
        ClickerConfig { button: MouseButton::Left, stop_after_clicks_enabled: false, ..c }
    } else {
        c
    };
    ClickerConfig { speed: clamped_speed(c.speed), ..held }
}

/// `c` is already in the form the engine keeps.
pub open spec fn is_normalized(c: ClickerConfig) -> bool {
    normalized(c) == c
}

/// Clamps `speed` into `MIN_SPEED..=MAX_SPEED`.
pub fn clamp_speed(speed: u32) -> (r: u32)
    ensures
        r == clamped_speed(speed),
        MIN_SPEED <= r <= MAX_SPEED,
{
    if speed < MIN_SPEED {
        MIN_SPEED
    } else if speed > MAX_SPEED {
        MAX_SPEED
    } else {
        speed
    }
}

/// Applies the engine's rules to user settings (see `normalized`).
pub fn normalize_config(config: ClickerConfig) -> (r: ClickerConfig)
    ensures
        r == normalized(config),
{
    let mut c = config;
    if c.mode == ClickMode::Hold {
        c.button = MouseButton::Left;
        c.stop_after_clicks_enabled = false;
    }
    c.speed = clamp_speed(c.speed);
    c
}

/// Normalising twice changes nothing more than normalising once; normalised
/// settings have a speed in range, and in hold mode use the left button with
/// no click limit; every other setting is kept.
pub proof fn lemma_normalized(c: ClickerConfig)
    ensures
        is_normalized(normalized(c)),
        MIN_SPEED <= normalized(c).speed <= MAX_SPEED,
        normalized(c).mode == c.mode,
        normalized(c).click_type == c.click_type,
        normalized(c).stop_after_clicks == c.stop_after_clicks,
        normalized(c).stop_after_duration_enabled == c.stop_after_duration_enabled,
        normalized(c).stop_after_duration_sec == c.stop_after_duration_sec,
        normalized(c).countdown_sec == c.countdown_sec,
        c.mode == ClickMode::Hold ==> normalized(c).button == MouseButton::Left
            && !normalized(c).stop_after_clicks_enabled,
        c.mode == ClickMode::Spam ==> normalized(c).button == c.button
            && normalized(c).stop_after_clicks_enabled == c.stop_after_clicks_enabled,
        MIN_SPEED <= c.speed <= MAX_SPEED ==> normalized(c).speed == c.speed,
{
}

/// The default settings are already in the form the engine keeps.
pub proof fn lemma_default_config_normalized()
    ensures
        is_normalized(default_config()),
{
}

} // verus!
