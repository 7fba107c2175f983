//! Click-engine logic of an autoclicker: the click settings and their
//! normalisation, the engine's state machine (idle, countdown, running), the
//! click pacer that turns elapsed time into clicks at the configured rate, the
//! stop rules, the native mouse-event plan, and the setup/shortcut decisions.
//! The event loop, timers, windowing and native calls live in the application.
pub mod types;
pub mod config;
pub mod engine;
pub mod pacing;
pub mod mouse;
pub mod setup;
pub mod session;
