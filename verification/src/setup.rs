use vstd::prelude::*;
use vstd::string::StringExecFns;
use crate::types::{SetupStatus, ToastPayload};

verus! {

/// Why a session may not start yet.
pub open spec fn permission_required_message() -> Seq<char> {
    "Grant Accessibility permission before starting."@
}

/// The variant of notifications that report a failure.
pub open spec fn destructive_variant() -> Seq<char> {
    "destructive"@
}

/// The title of the notification that asks for setup.
pub open spec fn setup_required_title() -> Seq<char> {
    "Setup required"@
}

/// The title of the notification that reports an engine failure.
pub open spec fn error_title() -> Seq<char> {
    "Error"@
}

/// The text of the notification that reports the engine failure `err`.
pub open spec fn engine_error_description(err: Seq<char>) -> Seq<char> {
    "Click engine error: "@ + err
}

/// `t` is a failure notification with these id, title and description.
pub open spec fn is_destructive_toast(
    t: ToastPayload,
    id: Seq<char>,
    title: Seq<char>,
    description: Seq<char>,
) -> bool {
    &&& t.id@ == id
    &&& t.title@ == title
    &&& t.description matches Some(d) && d@ == description
    &&& t.variant matches Some(v) && v@ == destructive_variant()
}

/// The setup status for the given accessibility permission: clicking is
/// ready exactly when the permission is granted.
pub fn setup_status(accessibility_granted: bool) -> (s: SetupStatus)
    ensures
        s == (SetupStatus { accessibility_granted, ready: accessibility_granted }),
{
    SetupStatus { accessibility_granted, ready: accessibility_granted }
}

/// Whether a session may be started from the user interface: `Ok` when
/// setup is ready, else the error that asks for the permission.
pub fn check_ready(setup: &SetupStatus) -> (r: Result<(), String>)
    ensures
        setup.ready ==> r is Ok,
        !setup.ready ==> (r matches Err(m) && m@ == permission_required_message()),
{
    if setup.ready {
        Ok(())
    } else {
        Err("Grant Accessibility permission before starting.".to_owned())
    }
}

/// What the global start/stop shortcut does.
#[derive(Clone, Copy, Debug, PartialEq, Eq, Structural)]
pub enum ShortcutAction {
    /// Stop the session under way.
    Stop,
    /// Tell the user that setup is needed.
    RequireSetup,
    /// Start a session without countdown.
    Start,
}

/// The shortcut stops a busy engine; otherwise it starts one when setup is
/// ready, and asks for setup when it is not.
pub open spec fn shortcut_action_spec(busy: bool, setup: SetupStatus) -> ShortcutAction {
    if busy {
        ShortcutAction::Stop
    } else if !setup.ready {
        ShortcutAction::RequireSetup
    } else {
        ShortcutAction::Start
    }
}

/// What the shortcut does (see `shortcut_action_spec`).
pub fn shortcut_action(busy: bool, setup: &SetupStatus) -> (a: ShortcutAction)
    ensures
        a == shortcut_action_spec(busy, *setup),
{
    if busy {
        ShortcutAction::Stop
    } else if !setup.ready {
        ShortcutAction::RequireSetup
    } else {
        ShortcutAction::Start
    }
}

impl ToastPayload {
    /// A failure notification.
    pub fn destructive(id: String, title: &str, description: String) -> (t: ToastPayload)
        ensures
            is_destructive_toast(t, id@, title@, description@),
    {
        ToastPayload {
            id,
            title: title.to_owned(),
            description: Some(description),
            variant: Some("destructive".to_owned()),
        }
    }
}

/// The notification that asks for the accessibility permission.
pub fn setup_required_toast(id: String) -> (t: ToastPayload)
    ensures
        is_destructive_toast(t, id@, setup_required_title(), permission_required_message()),
{
    ToastPayload::destructive(
        id,
        "Setup required",
        "Grant Accessibility permission before starting.".to_owned(),
    )
}

/// The notification for a session that failed with `err`: none when the
/// session was cancelled, since its failure is then expected.
pub fn session_error_toast(id: String, err: &str, cancelled: bool) -> (r: Option<ToastPayload>)
    ensures
        cancelled ==> r is None,
        !cancelled ==> (r matches Some(t) && is_destructive_toast(
            t,
            id@,
            error_title(),
            engine_error_description(err@),
        )),
{
    if cancelled {
        return None;
    }
    let mut description = "Click engine error: ".to_owned();
    description.append(err);
    Some(ToastPayload::destructive(id, "Error", description))
}

/// The shortcut never starts a session while one is under way, and starts
/// one only when setup is ready.
pub proof fn lemma_shortcut_safe(busy: bool, setup: SetupStatus)
    ensures
        busy ==> shortcut_action_spec(busy, setup) == ShortcutAction::Stop,
        shortcut_action_spec(busy, setup) == ShortcutAction::Start ==> !busy && setup.ready,
{
}

} // verus!
