//! What the icon in the system tray shows, and what its menu does.

use crate::text::equals;
use vstd::prelude::*;

verus! {

/// The file of the icon that shows the clock state: green while clocked in, else gray.
pub open spec fn spec_icon_path(is_clocked_in: bool) -> Seq<char> {
    if is_clocked_in {
        "icons/tray-green.png"@
    } else {
        "icons/tray-gray.png"@
    }
}

/// The file of the icon that shows the clock state.
pub fn icon_path(is_clocked_in: bool) -> (path: &'static str)
    ensures
        path@ == spec_icon_path(is_clocked_in),
{
    if is_clocked_in {
        "icons/tray-green.png"
    } else {
        "icons/tray-gray.png"
    }
}

/// What an entry of the tray menu does.
#[derive(Clone, Copy, Debug, PartialEq, Eq, Structural)]
pub enum MenuAction {
    /// Bring the main window to the front.
    ShowWindow,
    /// Open the settings.
    OpenSettings,
    /// End the program.
    Quit,
}

/// What the entry of the tray menu with the identifier `id` does; `None` for an identifier
/// that the menu does not have.
pub open spec fn spec_menu_action(id: Seq<char>) -> Option<MenuAction> {
    if id == "show"@ {
        Some(MenuAction::ShowWindow)
    } else if id == "settings"@ {
        Some(MenuAction::OpenSettings)
    } else if id == "quit"@ {
        Some(MenuAction::Quit)
    } else {
        None
    }
}

/// What the entry of the tray menu with the identifier `id` does.
pub fn menu_action(id: &str) -> (action: Option<MenuAction>)
    ensures
        action == spec_menu_action(id@),
{
    if equals(id, "show") {
        Some(MenuAction::ShowWindow)
    } else if equals(id, "settings") {
        Some(MenuAction::OpenSettings)
    } else if equals(id, "quit") {
        Some(MenuAction::Quit)
    } else {
        None
    }
}

} // verus!
