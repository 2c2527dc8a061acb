use vstd::prelude::*;

use crate::menu::{command_id, command_of, MenuCommand};
use crate::router::{effects, next_state, AppEvent, Effect, WindowState};

verus! {

/// A menu identifier that names no command changes nothing and asks for no
/// effect, whatever the state and whether or not the window is found.
pub proof fn unknown_menu_id_is_ignored(s: WindowState, id: String, found: bool)
    requires
        command_of(id@) is None,
    ensures
        next_state(s, AppEvent::MenuItemClick(id), found) == s,
        effects(s, AppEvent::MenuItemClick(id), found) == Seq::<Effect>::empty(),
{
}

/// From a hidden window, `show` makes it visible and focuses it; a second
/// `show` leaves it visible.
pub proof fn show_reveals_and_is_idempotent(id: String)
    requires
        id@ == command_id(MenuCommand::Show),
    ensures
        next_state(WindowState::Hidden, AppEvent::MenuItemClick(id), true) == WindowState::Visible,
        effects(WindowState::Hidden, AppEvent::MenuItemClick(id), true).contains(
            Effect::FocusWindow,
        ),
        next_state(
            next_state(WindowState::Hidden, AppEvent::MenuItemClick(id), true),
            AppEvent::MenuItemClick(id),
            true,
        ) == WindowState::Visible,
{
    assert(effects(WindowState::Hidden, AppEvent::MenuItemClick(id), true)[1]
        == Effect::FocusWindow);
}

/// From a visible window, `hide` hides it; a second `hide` leaves it hidden.
pub proof fn hide_conceals_and_is_idempotent(id: String)
    requires
        id@ == command_id(MenuCommand::Hide),
    ensures
        next_state(WindowState::Visible, AppEvent::MenuItemClick(id), true) == WindowState::Hidden,
        next_state(
            next_state(WindowState::Visible, AppEvent::MenuItemClick(id), true),
            AppEvent::MenuItemClick(id),
            true,
        ) == WindowState::Hidden,
{
}

/// A close request on a visible window hides it instead of ending the
/// process, and the default close is cancelled.
pub proof fn close_request_hides_and_keeps_running(found: bool)
    ensures
        next_state(WindowState::Visible, AppEvent::CloseRequested, found) == WindowState::Hidden,
        effects(WindowState::Visible, AppEvent::CloseRequested, found) == seq![
            Effect::PreventClose,
            Effect::HideWindow,
        ],
{
}

/// `quit` from a visible or hidden window ends the process with status 0,
/// and once ended no event changes the state or asks for any effect.
pub proof fn quit_terminates_for_good(
    s: WindowState,
    id: String,
    found: bool,
    later: AppEvent,
    later_found: bool,
)
    requires
        s == WindowState::Visible || s == WindowState::Hidden,
        id@ == command_id(MenuCommand::Quit),
    ensures
        next_state(s, AppEvent::MenuItemClick(id), found) == WindowState::Terminated,
        effects(s, AppEvent::MenuItemClick(id), found) == seq![Effect::Exit(0)],
        next_state(WindowState::Terminated, later, later_found) == WindowState::Terminated,
        effects(WindowState::Terminated, later, later_found) == Seq::<Effect>::empty(),
{
}

/// When the main window cannot be looked up, `show` and `hide` leave the
/// state as it was and ask for no effect.
pub proof fn missing_window_makes_show_and_hide_no_ops(s: WindowState, id: String)
    requires
        id@ == command_id(MenuCommand::Show) || id@ == command_id(MenuCommand::Hide),
    ensures
        next_state(s, AppEvent::MenuItemClick(id), false) == s,
        effects(s, AppEvent::MenuItemClick(id), false) == Seq::<Effect>::empty(),
{
}

} // verus!
