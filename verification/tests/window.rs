use quicknote::window::{Command, Desktop, FrontEndEvent, WindowId, WindowState};

fn hidden() -> WindowState {
    WindowState { visible: false, focused: false }
}

fn shown() -> WindowState {
    WindowState { visible: true, focused: false }
}

fn active() -> WindowState {
    WindowState { visible: true, focused: true }
}

#[test]
fn window_labels() {
    assert_eq!(WindowId::Main.label(), "main");
    assert_eq!(WindowId::Settings.label(), "settings");
    assert_eq!(WindowId::from_label("main"), Some(WindowId::Main));
    assert_eq!(WindowId::from_label("settings"), Some(WindowId::Settings));
    assert_eq!(WindowId::from_label("Main"), None);
    assert_eq!(WindowId::from_label(""), None);
    assert_eq!(WindowId::from_label("splash"), None);
}

#[test]
fn front_end_event_names() {
    assert_eq!(FrontEndEvent::OpenMain.name(), "open_main");
    assert_eq!(FrontEndEvent::NewNote.name(), "new_note");
    assert_eq!(FrontEndEvent::OpenSettings.name(), "open_settings");
}

#[test]
fn new_desktop_has_what_the_front_end_created() {
    let desktop = Desktop::new(Some(false), None);
    assert_eq!(desktop.state_of(WindowId::Main), Some(hidden()));
    assert_eq!(desktop.state_of(WindowId::Settings), None);
    assert!(desktop.is_running());
    assert!(!desktop.is_visible(WindowId::Main));
    assert!(!desktop.is_visible(WindowId::Settings));

    let desktop = Desktop::new(Some(true), Some(false));
    assert_eq!(desktop.state_of(WindowId::Main), Some(shown()));
    assert_eq!(desktop.state_of(WindowId::Settings), Some(hidden()));
    assert!(!desktop.is_focused(WindowId::Main));
}

#[test]
fn show_then_hide() {
    let mut desktop = Desktop::new(Some(false), None);
    desktop.apply(Command::Show(WindowId::Main));
    assert!(desktop.is_visible(WindowId::Main));
    assert!(!desktop.is_focused(WindowId::Main));
    desktop.apply(Command::Hide(WindowId::Main));
    assert!(!desktop.is_visible(WindowId::Main));
}

#[test]
fn hide_takes_the_focus_away() {
    let mut desktop = Desktop { main: Some(active()), settings: None, exit: None };
    desktop.apply(Command::Hide(WindowId::Main));
    assert_eq!(desktop.state_of(WindowId::Main), Some(hidden()));
}

#[test]
fn show_keeps_the_focus_where_it_is() {
    let mut desktop = Desktop { main: Some(active()), settings: Some(hidden()), exit: None };
    desktop.apply(Command::Show(WindowId::Settings));
    assert_eq!(desktop.state_of(WindowId::Main), Some(active()));
    assert_eq!(desktop.state_of(WindowId::Settings), Some(shown()));
}

#[test]
fn focus_moves_between_visible_windows() {
    let mut desktop = Desktop { main: Some(active()), settings: Some(shown()), exit: None };
    desktop.apply(Command::Focus(WindowId::Settings));
    assert_eq!(desktop.state_of(WindowId::Main), Some(shown()));
    assert_eq!(desktop.state_of(WindowId::Settings), Some(active()));
    desktop.apply(Command::Focus(WindowId::Main));
    assert_eq!(desktop.state_of(WindowId::Main), Some(active()));
    assert_eq!(desktop.state_of(WindowId::Settings), Some(shown()));
}

#[test]
fn focus_does_not_reach_a_hidden_window() {
    let mut desktop = Desktop { main: Some(active()), settings: Some(hidden()), exit: None };
    let before = desktop;
    desktop.apply(Command::Focus(WindowId::Settings));
    assert_eq!(desktop, before);
}

#[test]
fn commands_for_a_missing_window_do_nothing() {
    let mut desktop = Desktop::new(Some(true), None);
    let before = desktop;
    desktop.apply(Command::Show(WindowId::Settings));
    desktop.apply(Command::Focus(WindowId::Settings));
    desktop.apply(Command::Hide(WindowId::Settings));
    desktop.apply(Command::Notify(WindowId::Settings, FrontEndEvent::OpenSettings));
    assert_eq!(desktop, before);

    let mut empty = Desktop::new(None, None);
    empty.run(&vec![Command::Show(WindowId::Main), Command::Focus(WindowId::Main)]);
    assert_eq!(empty, Desktop::new(None, None));
}

#[test]
fn commands_that_change_no_window() {
    let mut desktop = Desktop { main: Some(active()), settings: Some(hidden()), exit: None };
    let before = desktop;
    desktop.apply(Command::PreventClose(WindowId::Main));
    desktop.apply(Command::Notify(WindowId::Main, FrontEndEvent::NewNote));
    desktop.apply(Command::OpenHomepage);
    assert_eq!(desktop, before);
}

#[test]
fn exit_records_the_code_and_stops_everything() {
    let mut desktop = Desktop::new(Some(true), Some(true));
    desktop.apply(Command::Exit(0));
    assert!(!desktop.is_running());
    assert_eq!(desktop.exit, Some(0));
    let ended = desktop;
    desktop.run(&vec![
        Command::Hide(WindowId::Main),
        Command::Focus(WindowId::Settings),
        Command::Exit(3),
    ]);
    assert_eq!(desktop, ended);
}

#[test]
fn run_applies_commands_in_order() {
    let mut desktop = Desktop::new(Some(false), Some(true));
    desktop.run(&vec![
        Command::Show(WindowId::Main),
        Command::Focus(WindowId::Main),
        Command::Hide(WindowId::Settings),
    ]);
    assert_eq!(desktop.state_of(WindowId::Main), Some(active()));
    assert_eq!(desktop.state_of(WindowId::Settings), Some(hidden()));

    let mut other = Desktop::new(Some(false), Some(true));
    other.run(&vec![Command::Focus(WindowId::Main), Command::Show(WindowId::Main)]);
    assert_eq!(other.state_of(WindowId::Main), Some(shown()));

    let mut same = Desktop::new(Some(false), Some(true));
    same.run(&Vec::new());
    assert_eq!(same, Desktop::new(Some(false), Some(true)));
}
