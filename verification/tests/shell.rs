use fixmytex::shell::{
    on_menu_event, on_tray_icon_event, on_window_event, show_main_window, tray_menu, MenuEntry,
    MouseButton, MouseButtonState, ShellAction, WindowStep, MAIN_WINDOW, SETTINGS_EVENT, TRAY_ID,
};

#[test]
fn tray_menu_has_three_entries_in_order() {
    let entries = tray_menu();
    assert_eq!(entries, vec![MenuEntry::Open, MenuEntry::Settings, MenuEntry::Quit]);
    let ids: Vec<&str> = entries.iter().map(|entry| entry.id()).collect();
    let labels: Vec<&str> = entries.iter().map(|entry| entry.label()).collect();
    assert_eq!(ids, vec!["open", "settings", "quit"]);
    assert_eq!(labels, vec!["Open", "Settings", "Quit"]);
}

#[test]
fn menu_entries_lead_to_their_actions() {
    assert_eq!(on_menu_event("open"), ShellAction::ShowMainWindow);
    assert_eq!(on_menu_event("settings"), ShellAction::ShowSettings);
    assert_eq!(on_menu_event("quit"), ShellAction::Quit);
}

#[test]
fn unknown_menu_entries_do_nothing() {
    assert_eq!(on_menu_event(""), ShellAction::Nothing);
    assert_eq!(on_menu_event("Open"), ShellAction::Nothing);
    assert_eq!(on_menu_event("quit "), ShellAction::Nothing);
    assert_eq!(on_menu_event("about"), ShellAction::Nothing);
}

#[test]
fn left_button_release_shows_the_main_window() {
    assert_eq!(
        on_tray_icon_event(MouseButton::Left, MouseButtonState::Up),
        ShellAction::ShowMainWindow
    );
}

#[test]
fn other_clicks_are_left_alone() {
    assert_eq!(on_tray_icon_event(MouseButton::Left, MouseButtonState::Down), ShellAction::Nothing);
    assert_eq!(on_tray_icon_event(MouseButton::Right, MouseButtonState::Up), ShellAction::Nothing);
    assert_eq!(on_tray_icon_event(MouseButton::Middle, MouseButtonState::Up), ShellAction::Nothing);
    assert_eq!(on_tray_icon_event(MouseButton::Right, MouseButtonState::Down), ShellAction::Nothing);
}

#[test]
fn close_request_hides_the_main_window() {
    assert_eq!(on_window_event(true), ShellAction::HideMainWindow);
    assert_eq!(on_window_event(false), ShellAction::Nothing);
}

#[test]
fn main_window_is_shown_in_four_steps() {
    assert_eq!(
        show_main_window(),
        vec![
            WindowStep::Unminimize,
            WindowStep::Show,
            WindowStep::SetFocus,
            WindowStep::ShowInTaskbar
        ]
    );
}

#[test]
fn shell_names_are_fixed() {
    assert_eq!(TRAY_ID, "main-tray");
    assert_eq!(MAIN_WINDOW, "main");
    assert_eq!(SETTINGS_EVENT, "navigate-to-settings");
}
