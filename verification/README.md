# autoclicker

The verified core of a desktop autoclicker.

- `src/` is the library, checked by Verus:
  - `types` — settings, engine state, setup status, notifications;
  - `config` — the rules the engine applies to settings (speed clamped to
    1..=100; holding uses the left button and has no click limit);
  - `engine` — the engine's state machine: idle, countdown, running; start,
    countdown ticks, clicks, hold, end of session;
  - `pacing` — the stop rules, the click pacer and the clicking session that
    decides when to click, wait or finish, never faster than the set speed,
    and the hold session's decisions;
  - `session` — one session from countdown to end: countdown steps, the
    start of clicking, the press, hold and release of the button, and the end
    that leaves the engine idle with every successful press released;
  - `mouse` — the native button events of a click and their CoreGraphics codes;
  - `setup` — the permission gate, the global shortcut's decision and the
    notifications.
- `app/` is the Tauri application around it: window commands, timers, the
  cancel channel, native mouse input on macOS, and the JSON copies of the types.
- `tests/` runs the library on concrete values.
