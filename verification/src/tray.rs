//! Decisions of the tray menu and the global shortcut: the capture flag
//! they share, and what each menu entry does.

use vstd::prelude::*;
use crate::text::str_equals;

verus! {

/// The capture flag that the tray menu and the shortcut toggle.
#[derive(Debug, Clone, Copy, PartialEq, Eq, Structural)]
pub struct CaptureFlag {
    pub capturing: bool,
}

/// What a menu entry asks for.
#[derive(Debug, Clone, Copy, PartialEq, Eq, Structural)]
pub enum TrayAction {
    /// Toggle capture, relabel the entry and tell the user interface.
    ToggleCapture,
    /// Show and focus the dashboard window.
    OpenDashboard,
    /// Leave the application.
    Quit,
    /// Nothing.
    Ignore,
}

impl CaptureFlag {
    /// A flag that says capture is off.
    pub fn new() -> (flag: CaptureFlag)
        ensures
            !flag.capturing,
    {
        CaptureFlag { capturing: false }
    }
}

/// Whether capture is on.
pub fn is_capturing(flag: &CaptureFlag) -> (capturing: bool)
    ensures
        capturing == flag.capturing,
{
    flag.capturing
}

/// Toggles the capture state and returns the new value.
pub fn toggle_capture(flag: &mut CaptureFlag) -> (now_capturing: bool)
    ensures
        now_capturing == !old(flag).capturing,
        final(flag).capturing == now_capturing,
{
    flag.capturing = !flag.capturing;
    flag.capturing
}

/// The label of the toggle entry: it offers to stop while capture is on
/// and to start while it is off.
pub fn toggle_label(now_capturing: bool) -> (label: &'static str)
    ensures
        now_capturing ==> label@ == "Stop Capture"@,
        !now_capturing ==> label@ == "Start Capture"@,
{
    if now_capturing {
        "Stop Capture"
    } else {
        "Start Capture"
    }
}

/// What the menu entry with identifier `id` asks for.
pub fn menu_action(id: &str) -> (action: TrayAction)
    ensures
        action == if id@ == "toggle_capture"@ {
            TrayAction::ToggleCapture
        } else if id@ == "open_dashboard"@ {
            TrayAction::OpenDashboard
        } else if id@ == "quit"@ {
            TrayAction::Quit
        } else {
            TrayAction::Ignore
        },
{
    if str_equals(id, "toggle_capture") {
        TrayAction::ToggleCapture
    } else if str_equals(id, "open_dashboard") {
        TrayAction::OpenDashboard
    } else if str_equals(id, "quit") {
        TrayAction::Quit
    } else {
        TrayAction::Ignore
    }
}

/// Handles an event of the global shortcut. Only a key press toggles
/// capture; the new state is returned then. A release changes nothing.
pub fn on_shortcut(flag: &mut CaptureFlag, pressed: bool) -> (toggled: Option<bool>)
    ensures
        pressed ==> toggled == Some(!old(flag).capturing) && final(flag).capturing == !old(
            flag,
        ).capturing,
        !pressed ==> toggled is None && *final(flag) == *old(flag),
{
    if pressed {
        Some(toggle_capture(flag))
    } else {
        None
    }
}

} // verus!
