use vstd::prelude::*;

use crate::menu::{command_of, command_of_id, MenuCommand};

verus! {

/// What can be observed of the application from outside.
#[derive(Clone, Copy, Debug, PartialEq, Eq, Structural)]
pub enum WindowState {
    Visible,
    Hidden,
    /// The process has exited; no event is handled any more.
    Terminated,
}

/// An event that the host toolkit hands to the router.
#[derive(Clone, Debug)]
pub enum AppEvent {
    /// A tray menu item was activated; the payload is its identifier.
    MenuItemClick(String),
    /// The user asked to close the main window.
    CloseRequested,
    /// Any other window lifecycle event.
    OtherWindowEvent,
}

/// A side effect that the host must perform, in order, after routing an event.
#[derive(Clone, Copy, Debug, PartialEq, Eq, Structural)]
pub enum Effect {
    /// Cancel the toolkit's default close behaviour.
    PreventClose,
    HideWindow,
    ShowWindow,
    FocusWindow,
    /// End the process with this status.
    Exit(i32),
}

/// The state after a menu command, when the main window lookup found a
/// window (`found`) or not.
pub open spec fn command_state(s: WindowState, c: MenuCommand, found: bool) -> WindowState {
    match c {
        MenuCommand::Quit => WindowState::Terminated,
        MenuCommand::Hide => if found { WindowState::Hidden } else { s },
        MenuCommand::Show => if found { WindowState::Visible } else { s },
    }
}

/// The effects of a menu command, when the main window lookup found a
/// window (`found`) or not.
pub open spec fn command_effects(c: MenuCommand, found: bool) -> Seq<Effect> {
    match c {
        MenuCommand::Quit => seq![Effect::Exit(0)],
        MenuCommand::Hide => if found { seq![Effect::HideWindow] } else { seq![] },
        MenuCommand::Show => if found {
            seq![Effect::ShowWindow, Effect::FocusWindow]
        } else {
            seq![]
        },
    }
}

/// The state after `e` arrives in state `s`; `found` tells whether the
/// main window could be looked up.
pub open spec fn next_state(s: WindowState, e: AppEvent, found: bool) -> WindowState {
    if s == WindowState::Terminated {
        WindowState::Terminated
    } else {
        match e {
            AppEvent::MenuItemClick(id) => match command_of(id@) {
                Some(c) => command_state(s, c, found),
                None => s,
            },
            AppEvent::CloseRequested => WindowState::Hidden,
            AppEvent::OtherWindowEvent => s,
        }
    }
}

/// The effects, in order, that routing `e` in state `s` asks of the host;
/// `found` tells whether the main window could be looked up.
pub open spec fn effects(s: WindowState, e: AppEvent, found: bool) -> Seq<Effect> {
    if s == WindowState::Terminated {
        seq![]
    } else {
        match e {
            AppEvent::MenuItemClick(id) => match command_of(id@) {
                Some(c) => command_effects(c, found),
                None => seq![],
            },
            AppEvent::CloseRequested => seq![Effect::PreventClose, Effect::HideWindow],
            AppEvent::OtherWindowEvent => seq![],
        }
    }
}

/// Routes one event: the next state, and the effects for the host to perform.
/// `main_window_found` is whether the host could look up the main window;
/// without it, showing and hiding do nothing.
pub fn route(state: WindowState, event: &AppEvent, main_window_found: bool) -> (r: (
    WindowState,
    Vec<Effect>,
))
    ensures
        r.0 == next_state(state, *event, main_window_found),
        r.1@ == effects(state, *event, main_window_found),
{
    let mut out: Vec<Effect> = Vec::new();
    if state == WindowState::Terminated {
        return (WindowState::Terminated, out);
    }
    match event {
        AppEvent::MenuItemClick(id) => match command_of_id(id.as_str()) {
            Some(MenuCommand::Quit) => {
                out.push(Effect::Exit(0));
                assert(out@ =~= command_effects(MenuCommand::Quit, main_window_found));
                (WindowState::Terminated, out)
            },
            Some(MenuCommand::Hide) => {
                if main_window_found {
                    out.push(Effect::HideWindow);
                    assert(out@ =~= command_effects(MenuCommand::Hide, true));
                    (WindowState::Hidden, out)
                } else {
                    (state, out)
                }
            },
            Some(MenuCommand::Show) => {
                if main_window_found {
                    out.push(Effect::ShowWindow);
                    out.push(Effect::FocusWindow);
                    assert(out@ =~= command_effects(MenuCommand::Show, true));
                    (WindowState::Visible, out)
                } else {
                    (state, out)
                }
            },
            None => (state, out),
        },
        AppEvent::CloseRequested => {
            out.push(Effect::PreventClose);
            out.push(Effect::HideWindow);
            assert(out@ =~= seq![Effect::PreventClose, Effect::HideWindow]);
            (WindowState::Hidden, out)
        },
        AppEvent::OtherWindowEvent => (state, out),
    }
}

/// The application's routing state, owned by the host for the life of the
/// process.
pub struct TrayApp {
    state: WindowState,
}

impl View for TrayApp {
    type V = WindowState;

    closed spec fn view(&self) -> WindowState {
        self.state
    }
}

impl TrayApp {
    /// A freshly started application: the toolkit creates its window visible.
    pub fn new() -> (r: TrayApp)
        ensures
            r@ == WindowState::Visible,
    {
        TrayApp { state: WindowState::Visible }
    }

    /// The current state.
    pub fn state(&self) -> (r: WindowState)
        ensures
            r == self@,
    {
        self.state
    }

    /// False once the application has been told to quit.
    pub fn is_running(&self) -> (r: bool)
        ensures
            r == (self@ != WindowState::Terminated),
    {
        self.state != WindowState::Terminated
    }

    /// Handles one event and returns the effects for the host to perform.
    pub fn dispatch(&mut self, event: &AppEvent, main_window_found: bool) -> (r: Vec<Effect>)
        ensures
            final(self)@ == next_state(old(self)@, *event, main_window_found),
            r@ == effects(old(self)@, *event, main_window_found),
    {
        let (next, out) = route(self.state, event, main_window_found);
        self.state = next;
        out
    }
}

} // verus!
