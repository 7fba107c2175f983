use vstd::prelude::*;

verus! {

/// How the engine clicks: repeated clicks, or one button held down.
#[derive(Clone, Copy, Debug, PartialEq, Eq, Structural)]
pub enum ClickMode {
    Spam,
    Hold,
}

/// The mouse button that is clicked or held.
#[derive(Clone, Copy, Debug, PartialEq, Eq, Structural)]
pub enum MouseButton {
    Left,
    Right,
}

/// A single click or a double click per beat.
#[derive(Clone, Copy, Debug, PartialEq, Eq, Structural)]
pub enum ClickType {
    Single,
    Double,
}

/// The user's click settings.
#[derive(Clone, Copy, Debug, PartialEq, Eq, Structural)]
pub struct ClickerConfig {
    pub mode: ClickMode,
    /// Clicks per second.
    pub speed: u32,
    pub button: MouseButton,
    pub click_type: ClickType,
    pub stop_after_clicks_enabled: bool,
    pub stop_after_clicks: u64,
    pub stop_after_duration_enabled: bool,
    pub stop_after_duration_sec: u64,
    pub countdown_sec: u32,
}

/// The settings a fresh engine starts with.
pub open spec fn default_config() -> ClickerConfig {
    ClickerConfig {
        mode: ClickMode::Spam,
        speed: 10,
        button: MouseButton::Left,
        click_type: ClickType::Single,
        stop_after_clicks_enabled: false,
        stop_after_clicks: 100,
        stop_after_duration_enabled: false,
        stop_after_duration_sec: 30,
        countdown_sec: 5,
    }
}

impl Default for ClickerConfig {
    fn default() -> (c: Self)
        ensures
            c == default_config(),
    {
        ClickerConfig {
            mode: ClickMode::Spam,
            speed: 10,
            button: MouseButton::Left,
            click_type: ClickType::Single,
            stop_after_clicks_enabled: false,
            stop_after_clicks: 100,
            stop_after_duration_enabled: false,
            stop_after_duration_sec: 30,
            countdown_sec: 5,
        }
    }
}

/// Where the engine is in a session.
#[derive(Clone, Copy, Debug, PartialEq, Eq, Structural)]
pub enum EngineStatus {
    Idle,
    Countdown,
    Running,
}

/// What the user interface is shown of the engine.
#[derive(Clone, Copy, Debug, PartialEq, Eq, Structural)]
pub struct EngineState {
    pub status: EngineStatus,
    pub click_count: u64,
    pub elapsed_ms: u64,
    pub countdown_remaining: u32,
}

/// The state of an engine that has never run.
pub open spec fn default_state() -> EngineState {
    EngineState {
        status: EngineStatus::Idle,
        click_count: 0,
        elapsed_ms: 0,
        countdown_remaining: 0,
    }
}

impl Default for EngineState {
    fn default() -> (s: Self)
        ensures
            s == default_state(),
    {
        EngineState {
            status: EngineStatus::Idle,
            click_count: 0,
            elapsed_ms: 0,
            countdown_remaining: 0,
        }
    }
}

/// Whether the accessibility permission that clicking needs is granted.
#[derive(Clone, Copy, Debug, PartialEq, Eq, Structural)]
pub struct SetupStatus {
    pub accessibility_granted: bool,
    pub ready: bool,
}

/// A notification for the user interface.
#[derive(Clone, Debug)]
pub struct ToastPayload {
    pub id: String,
    pub title: String,
    pub description: Option<String>,
    pub variant: Option<String>,
}

} // verus!
