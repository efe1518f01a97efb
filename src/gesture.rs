//! What a click on the window asks of the window manager.
use vstd::prelude::*;

verus! {

/// The primary pointer button.
pub const PRIMARY_BUTTON: u32 = 1;

/// The secondary pointer button.
pub const SECONDARY_BUTTON: u32 = 3;

/// A request to the window manager that follows a click.
#[derive(Clone, Copy, Debug, PartialEq, Eq, Structural)]
pub enum ClickAction {
    Nothing,
    ToggleMaximized,
    ShowWindowMenu,
}

/// A double click of the primary button toggles maximisation and a single
/// click of the secondary one opens the window menu, each unless turned off.
pub open spec fn click_action_for(
    button: u32,
    n_press: i32,
    no_maximize: bool,
    no_context_menu: bool,
) -> ClickAction {
    if button == PRIMARY_BUTTON && n_press == 2 && !no_maximize {
        ClickAction::ToggleMaximized
    } else if button == SECONDARY_BUTTON && n_press == 1 && !no_context_menu {
        ClickAction::ShowWindowMenu
    } else {
        ClickAction::Nothing
    }
}

/// The request for a press of `button`, the `n_press`th in a row.
pub fn click_action(button: u32, n_press: i32, no_maximize: bool, no_context_menu: bool) -> (r:
    ClickAction)
    ensures
        r == click_action_for(button, n_press, no_maximize, no_context_menu),
{
    if button == PRIMARY_BUTTON {
        if n_press == 2 && !no_maximize {
            return ClickAction::ToggleMaximized;
        }
    } else if button == SECONDARY_BUTTON {
        if n_press == 1 && !no_context_menu {
            return ClickAction::ShowWindowMenu;
        }
    }
    ClickAction::Nothing
}

} // verus!
