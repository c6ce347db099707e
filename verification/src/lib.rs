//! Native shell logic for a desktop habit-tracking application.
//!
//! The shell presents a system-tray icon with a small menu, forwards tray
//! selections to the single webview window, and converts window close
//! requests into hide operations until the user explicitly quits. The
//! decision logic lives here, verified: the tray menu definition and its
//! identifier dispatch (`menu`), and the window-lifecycle state machine
//! with its laws (`shell`). The surrounding GUI runtime performs the
//! actions that the state machine emits.

use vstd::prelude::*;

pub mod menu;
pub mod shell;

verus! {

/// The identifier under which the tray icon is registered.
pub fn tray_id() -> (r: &'static str)
    ensures
        r@ == "habitflow-tray"@,
{
    "habitflow-tray"
}

/// The identifier under which the frontend registers the single webview
/// window; the shell performs no other window discovery.
pub fn main_window_label() -> (r: &'static str)
    ensures
        r@ == "main"@,
{
    "main"
}

/// The name of the one-way, payload-free event emitted to the frontend
/// when `add_habit` is selected from the tray menu.
pub fn add_habit_event_name() -> (r: &'static str)
    ensures
        r@ == "tray:add-habit"@,
{
    "tray:add-habit"
}

/// A tray icon cannot be built without an icon, so a missing platform
/// default window icon is a fatal startup error with a fixed message.
pub fn icon_check(icon_present: bool) -> (r: Result<(), &'static str>)
    ensures
        r is Ok <==> icon_present,
        r matches Err(m) ==> m@ == "missing default window icon"@,
{
    if icon_present {
        Ok(())
    } else {
        Err("missing default window icon")
    }
}

} // verus!
