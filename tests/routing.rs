use tray_router::menu::{command_of_id, same_text, tray_menu, MenuCommand, MenuEntry};
use tray_router::router::{route, AppEvent, Effect, TrayApp, WindowState};

fn click(id: &str) -> AppEvent {
    AppEvent::MenuItemClick(id.to_string())
}

#[test]
fn menu_has_show_hide_separator_quit() {
    let menu = tray_menu();
    assert_eq!(
        menu,
        vec![
            MenuEntry::Item(MenuCommand::Show),
            MenuEntry::Item(MenuCommand::Hide),
            MenuEntry::Separator,
            MenuEntry::Item(MenuCommand::Quit),
        ]
    );
}

#[test]
fn command_ids_and_labels() {
    assert_eq!(MenuCommand::Show.id(), "show");
    assert_eq!(MenuCommand::Hide.id(), "hide");
    assert_eq!(MenuCommand::Quit.id(), "quit");
    assert_eq!(MenuCommand::Show.label(), "Show");
    assert_eq!(MenuCommand::Hide.label(), "Hide");
    assert_eq!(MenuCommand::Quit.label(), "Quit");
}

#[test]
fn ids_parse_to_commands() {
    assert_eq!(command_of_id("show"), Some(MenuCommand::Show));
    assert_eq!(command_of_id("hide"), Some(MenuCommand::Hide));
    assert_eq!(command_of_id("quit"), Some(MenuCommand::Quit));
    assert_eq!(command_of_id("Quit"), None);
    assert_eq!(command_of_id(""), None);
    assert_eq!(command_of_id("shows"), None);
    assert_eq!(command_of_id("éxit"), None);
}

#[test]
fn text_comparison() {
    assert!(same_text("", ""));
    assert!(same_text("héllo", "héllo"));
    assert!(!same_text("hello", "hellO"));
    assert!(!same_text("hell", "hello"));
}

#[test]
fn unknown_ids_do_nothing() {
    for s in [WindowState::Visible, WindowState::Hidden] {
        for id in ["", "settings", "SHOW", "quit ", "about"] {
            for found in [true, false] {
                let (next, effects) = route(s, &click(id), found);
                assert_eq!(next, s);
                assert!(effects.is_empty());
            }
        }
    }
}

#[test]
fn show_from_hidden_then_again() {
    let (next, effects) = route(WindowState::Hidden, &click("show"), true);
    assert_eq!(next, WindowState::Visible);
    assert_eq!(effects, vec![Effect::ShowWindow, Effect::FocusWindow]);
    let (again, effects) = route(next, &click("show"), true);
    assert_eq!(again, WindowState::Visible);
    assert_eq!(effects, vec![Effect::ShowWindow, Effect::FocusWindow]);
}

#[test]
fn hide_from_visible_then_again() {
    let mut app = TrayApp::new();
    assert_eq!(app.state(), WindowState::Visible);
    assert_eq!(app.dispatch(&click("hide"), true), vec![Effect::HideWindow]);
    assert_eq!(app.state(), WindowState::Hidden);
    assert_eq!(app.dispatch(&click("hide"), true), vec![Effect::HideWindow]);
    assert_eq!(app.state(), WindowState::Hidden);
}

#[test]
fn close_request_hides_without_exit() {
    let mut app = TrayApp::new();
    let effects = app.dispatch(&AppEvent::CloseRequested, true);
    assert_eq!(effects, vec![Effect::PreventClose, Effect::HideWindow]);
    assert_eq!(app.state(), WindowState::Hidden);
    assert!(app.is_running());
}

#[test]
fn other_window_events_are_ignored() {
    let mut app = TrayApp::new();
    assert!(app.dispatch(&AppEvent::OtherWindowEvent, true).is_empty());
    assert_eq!(app.state(), WindowState::Visible);
}

#[test]
fn quit_from_visible_and_hidden() {
    for s in [WindowState::Visible, WindowState::Hidden] {
        for found in [true, false] {
            let (next, effects) = route(s, &click("quit"), found);
            assert_eq!(next, WindowState::Terminated);
            assert_eq!(effects, vec![Effect::Exit(0)]);
        }
    }
}

#[test]
fn nothing_is_handled_after_quit() {
    let mut app = TrayApp::new();
    assert_eq!(app.dispatch(&click("quit"), true), vec![Effect::Exit(0)]);
    assert!(!app.is_running());
    let later = [
        click("show"),
        click("hide"),
        click("quit"),
        AppEvent::CloseRequested,
        AppEvent::OtherWindowEvent,
    ];
    for e in later.iter() {
        assert!(app.dispatch(e, true).is_empty());
        assert_eq!(app.state(), WindowState::Terminated);
    }
}

#[test]
fn missing_window_makes_show_and_hide_no_ops() {
    for s in [WindowState::Visible, WindowState::Hidden] {
        for id in ["show", "hide"] {
            let (next, effects) = route(s, &click(id), false);
            assert_eq!(next, s);
            assert!(effects.is_empty());
        }
    }
}
