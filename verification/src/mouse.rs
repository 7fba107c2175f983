use vstd::prelude::*;
use crate::types::{ClickType, MouseButton};

verus! {

/// CoreGraphics event type of a left button press.
pub const EVENT_LEFT_MOUSE_DOWN: u32 = 1;

/// CoreGraphics event type of a left button release.
pub const EVENT_LEFT_MOUSE_UP: u32 = 2;

/// CoreGraphics event type of a right button press.
pub const EVENT_RIGHT_MOUSE_DOWN: u32 = 3;

/// CoreGraphics event type of a right button release.
pub const EVENT_RIGHT_MOUSE_UP: u32 = 4;

/// CoreGraphics number of the left button.
pub const MOUSE_BUTTON_LEFT: u32 = 0;

/// CoreGraphics number of the right button.
pub const MOUSE_BUTTON_RIGHT: u32 = 1;

/// One native button event posted at the cursor: press or release, which
/// button, and the click state (1 for a first click, 2 for the second click
/// of a double click).
#[derive(Clone, Copy, Debug, PartialEq, Eq, Structural)]
pub struct ButtonEvent {
    pub down: bool,
    pub button: MouseButton,
    pub click_state: i64,
}

/// The event that presses (`down`) or releases `button` in a first click.
pub open spec fn first_click_event(button: MouseButton, down: bool) -> ButtonEvent {
    ButtonEvent { down, button, click_state: 1 }
}

/// The events of one click of type `click_type`: press and release, and for
/// a double click a second press and release with click state 2.
pub open spec fn click_plan(button: MouseButton, click_type: ClickType) -> Seq<ButtonEvent> {
    let first = seq![
        ButtonEvent { down: true, button, click_state: 1 },
        ButtonEvent { down: false, button, click_state: 1 },
    ];
    match click_type {
        ClickType::Single => first,
        ClickType::Double => first + seq![
            ButtonEvent { down: true, button, click_state: 2 },
            ButtonEvent { down: false, button, click_state: 2 },
        ],
    }
}

/// The CoreGraphics event type and button number of pressing (`down`) or
/// releasing `button`.
pub open spec fn event_codes_spec(button: MouseButton, down: bool) -> (u32, u32) {
    match (button, down) {
        (MouseButton::Left, true) => (EVENT_LEFT_MOUSE_DOWN, MOUSE_BUTTON_LEFT),
        (MouseButton::Left, false) => (EVENT_LEFT_MOUSE_UP, MOUSE_BUTTON_LEFT),
        (MouseButton::Right, true) => (EVENT_RIGHT_MOUSE_DOWN, MOUSE_BUTTON_RIGHT),
        (MouseButton::Right, false) => (EVENT_RIGHT_MOUSE_UP, MOUSE_BUTTON_RIGHT),
    }
}

/// What the portable mouse functions answer where native mouse input is not
/// available.
pub open spec fn unsupported_platform_message() -> Seq<char> {
    "Mouse synthesis is only supported on macOS"@
}

/// The event that presses (`down`) or releases `button` in a first click.
pub fn first_click(button: MouseButton, down: bool) -> (e: ButtonEvent)
    ensures
        e == first_click_event(button, down),
{
    ButtonEvent { down, button, click_state: 1 }
}

/// The events to post, in order, for one click (see `click_plan`).
pub fn click_events(button: MouseButton, click_type: ClickType) -> (v: Vec<ButtonEvent>)
    ensures
        v@ == click_plan(button, click_type),
{
    let mut v: Vec<ButtonEvent> = Vec::new();
    v.push(first_click(button, true));
    v.push(first_click(button, false));
    if click_type == ClickType::Double {
        v.push(ButtonEvent { down: true, button, click_state: 2 });
        v.push(ButtonEvent { down: false, button, click_state: 2 });
    }
    proof {
        assert(v@ =~= click_plan(button, click_type));
    }
    v
}

/// The CoreGraphics event type and button number of an event.
pub fn event_codes(button: MouseButton, down: bool) -> (r: (u32, u32))
    ensures
        r == event_codes_spec(button, down),
{
    match (button, down) {
        (MouseButton::Left, true) => (EVENT_LEFT_MOUSE_DOWN, MOUSE_BUTTON_LEFT),
        (MouseButton::Left, false) => (EVENT_LEFT_MOUSE_UP, MOUSE_BUTTON_LEFT),
        (MouseButton::Right, true) => (EVENT_RIGHT_MOUSE_DOWN, MOUSE_BUTTON_RIGHT),
        (MouseButton::Right, false) => (EVENT_RIGHT_MOUSE_UP, MOUSE_BUTTON_RIGHT),
    }
}

fn unsupported() -> (r: Result<(), String>)
    ensures
        r matches Err(m) && m@ == unsupported_platform_message(),
{
    Err("Mouse synthesis is only supported on macOS".to_owned())
}

/// One complete click (or double click) at the cursor. Native mouse input is
/// posted only on macOS, by the application with the events of
/// `click_events`; this portable form reports that it is unavailable.
pub fn click_at_cursor(button: MouseButton, click_type: ClickType) -> (r: Result<(), String>)
    ensures
        r matches Err(m) && m@ == unsupported_platform_message(),
{
    unsupported()
}

/// Presses `button` at the cursor. Portable form: reports that native mouse
/// input is unavailable (see `click_at_cursor`).
pub fn mouse_down(button: MouseButton) -> (r: Result<(), String>)
    ensures
        r matches Err(m) && m@ == unsupported_platform_message(),
{
    unsupported()
}

/// Releases `button` at the cursor. Portable form: reports that native mouse
/// input is unavailable (see `click_at_cursor`).
pub fn mouse_up(button: MouseButton) -> (r: Result<(), String>)
    ensures
        r matches Err(m) && m@ == unsupported_platform_message(),
{
    unsupported()
}

/// A click leaves no button down: its events come in press/release pairs of
/// the same button and click state, the `j`-th pair with click state `j + 1`,
/// one pair for a single click and two for a double click. Each event maps
/// to the event type of its button and direction.
pub proof fn lemma_click_plan_balanced(button: MouseButton, click_type: ClickType)
    ensures
        click_plan(button, click_type).len() == (if click_type == ClickType::Double { 4nat } else { 2nat }),
        forall|j: int|
            0 <= j < click_plan(button, click_type).len() / 2 ==> {
                &&& (#[trigger] click_plan(button, click_type)[2 * j]).down
                &&& click_plan(button, click_type)[2 * j].button == button
                &&& click_plan(button, click_type)[2 * j].click_state == j + 1
                &&& !click_plan(button, click_type)[2 * j + 1].down
                &&& click_plan(button, click_type)[2 * j + 1].button == button
                &&& click_plan(button, click_type)[2 * j + 1].click_state == j + 1
            },
        event_codes_spec(button, true).1 == event_codes_spec(button, false).1,
        event_codes_spec(button, true).0 + 1 == event_codes_spec(button, false).0,
{
    let plan = click_plan(button, click_type);
    assert forall|j: int| 0 <= j < plan.len() / 2 implies {
        &&& (#[trigger] plan[2 * j]).down
        &&& plan[2 * j].button == button
        &&& plan[2 * j].click_state == j + 1
        &&& !plan[2 * j + 1].down
        &&& plan[2 * j + 1].button == button
        &&& plan[2 * j + 1].click_state == j + 1
    } by {
        if j == 1 {
            assert(click_type == ClickType::Double);
        }
    }
}

} // verus!
