//! The decisions behind the tray icon and the main window.

use vstd::prelude::*;
use crate::text::str_equal;

verus! {

/// The label of the main window.
pub open spec fn main_window() -> Seq<char> {
    "main"@
}

/// What a choice in the tray menu does.
#[derive(Debug, Clone, Copy, PartialEq, Eq, Structural)]
pub enum MenuAction {
    /// Show, restore and focus the main window.
    ShowWindow,
    /// Quit the application.
    Quit,
    /// Nothing.
    Ignore,
}

/// What the tray menu item `id` does: "open" shows the window, "quit" quits.
pub fn menu_action(id: &str) -> (a: MenuAction)
    ensures
        a == (if id@ == "open"@ {
            MenuAction::ShowWindow
        } else if id@ == "quit"@ {
            MenuAction::Quit
        } else {
            MenuAction::Ignore
        }),
{
    if str_equal(id, "open") {
        MenuAction::ShowWindow
    } else if str_equal(id, "quit") {
        MenuAction::Quit
    } else {
        MenuAction::Ignore
    }
}

/// What a left click on the tray icon does to the main window.
#[derive(Debug, Clone, Copy, PartialEq, Eq, Structural)]
pub enum WindowAction {
    /// Hide it.
    Hide,
    /// Show, restore and focus it.
    Show,
}

/// A left click toggles the main window: a window known to be visible is
/// hidden, any other is shown.
pub fn tray_click_action(visible: Option<bool>) -> (a: WindowAction)
    ensures
        a == (if visible == Some(true) {
            WindowAction::Hide
        } else {
            WindowAction::Show
        }),
{
    match visible {
        Some(true) => WindowAction::Hide,
        _ => WindowAction::Show,
    }
}

/// Whether closing the window `label` hides it instead, which keeps the
/// daemon running in the tray: so it is for the main window.
pub fn hides_on_close(label: &str) -> (hide: bool)
    ensures
        hide == (label@ == main_window()),
{
    str_equal(label, "main")
}

} // verus!
