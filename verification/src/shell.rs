//! What the window shell does with the tray menu, the tray icon and the main
//! window: which menu entry leads to which action, and in which order the
//! main window is brought back.

use vstd::prelude::*;

use crate::text::str_equal;

verus! {

/// Identifier of the tray icon.
pub const TRAY_ID: &'static str = "main-tray";

/// Label of the main window.
pub const MAIN_WINDOW: &'static str = "main";

/// Name of the event that tells the user interface to show its settings.
pub const SETTINGS_EVENT: &'static str = "navigate-to-settings";

/// An entry of the tray menu.
#[derive(Clone, Copy, Debug, PartialEq, Eq, Structural)]
pub enum MenuEntry {
    Open,
    Settings,
    Quit,
}

/// What the shell does in answer to an event.
#[derive(Clone, Copy, Debug, PartialEq, Eq, Structural)]
pub enum ShellAction {
    /// Show and focus the main window.
    ShowMainWindow,
    /// Show and focus the main window, then have it open its settings.
    ShowSettings,
    /// End the process with exit code zero.
    Quit,
    /// Keep the main window alive: hide it where it would close.
    HideMainWindow,
    /// Leave the event to its default handling.
    Nothing,
}

/// One request made of the main window.
#[derive(Clone, Copy, Debug, PartialEq, Eq, Structural)]
pub enum WindowStep {
    Unminimize,
    Show,
    SetFocus,
    /// List the window in the task bar again.
    ShowInTaskbar,
}

/// A button of the pointing device.
#[derive(Clone, Copy, Debug, PartialEq, Eq, Structural)]
pub enum MouseButton {
    Left,
    Right,
    Middle,
}

/// Whether a button was pressed or let go.
#[derive(Clone, Copy, Debug, PartialEq, Eq, Structural)]
pub enum MouseButtonState {
    Up,
    Down,
}

impl MenuEntry {
    /// The identifier under which the entry is registered.
    pub open spec fn id_text(self) -> Seq<char> {
        match self {
            MenuEntry::Open => "open"@,
            MenuEntry::Settings => "settings"@,
            MenuEntry::Quit => "quit"@,
        }
    }

    /// The text the entry shows.
    pub open spec fn label_text(self) -> Seq<char> {
        match self {
            MenuEntry::Open => "Open"@,
            MenuEntry::Settings => "Settings"@,
            MenuEntry::Quit => "Quit"@,
        }
    }

    /// What choosing the entry leads to.
    pub open spec fn action(self) -> ShellAction {
        match self {
            MenuEntry::Open => ShellAction::ShowMainWindow,
            MenuEntry::Settings => ShellAction::ShowSettings,
            MenuEntry::Quit => ShellAction::Quit,
        }
    }

    /// The identifier under which the entry is registered.
    pub fn id(self) -> (id: &'static str)
        ensures
            id@ == self.id_text(),
    {
        match self {
            MenuEntry::Open => "open",
            MenuEntry::Settings => "settings",
            MenuEntry::Quit => "quit",
        }
    }

    /// The text the entry shows.
    pub fn label(self) -> (label: &'static str)
        ensures
            label@ == self.label_text(),
    {
        match self {
            MenuEntry::Open => "Open",
            MenuEntry::Settings => "Settings",
            MenuEntry::Quit => "Quit",
        }
    }
}

/// The entries of the tray menu, from top to bottom.
pub open spec fn menu_entries() -> Seq<MenuEntry> {
    seq![MenuEntry::Open, MenuEntry::Settings, MenuEntry::Quit]
}

/// The entries of the tray menu, from top to bottom.
pub fn tray_menu() -> (entries: Vec<MenuEntry>)
    ensures
        entries@ == menu_entries(),
{
    let mut entries: Vec<MenuEntry> = Vec::new();
    entries.push(MenuEntry::Open);
    entries.push(MenuEntry::Settings);
    entries.push(MenuEntry::Quit);
    assert(entries@ =~= menu_entries());
    entries
}

/// The action for the menu entry with identifier `id`; nothing for an
/// identifier that no entry has.
pub open spec fn menu_action(id: Seq<char>) -> ShellAction {
    if id == MenuEntry::Open.id_text() {
        ShellAction::ShowMainWindow
    } else if id == MenuEntry::Settings.id_text() {
        ShellAction::ShowSettings
    } else if id == MenuEntry::Quit.id_text() {
        ShellAction::Quit
    } else {
        ShellAction::Nothing
    }
}

/// Answers the choice of a tray menu entry.
pub fn on_menu_event(id: &str) -> (action: ShellAction)
    ensures
        action == menu_action(id@),
{
    if str_equal(id, MenuEntry::Open.id()) {
        ShellAction::ShowMainWindow
    } else if str_equal(id, MenuEntry::Settings.id()) {
        ShellAction::ShowSettings
    } else if str_equal(id, MenuEntry::Quit.id()) {
        ShellAction::Quit
    } else {
        ShellAction::Nothing
    }
}

/// Answers a click on the tray icon: letting go of the left button brings
/// the main window back, every other click is left alone.
pub fn on_tray_icon_event(button: MouseButton, state: MouseButtonState) -> (action: ShellAction)
    ensures
        action == if button == MouseButton::Left && state == MouseButtonState::Up {
            ShellAction::ShowMainWindow
        } else {
            ShellAction::Nothing
        },
{
    match (button, state) {
        (MouseButton::Left, MouseButtonState::Up) => ShellAction::ShowMainWindow,
        _ => ShellAction::Nothing,
    }
}

/// Answers an event of the main window: a request to close it hides it
/// instead, so that the application lives on in the tray.
pub fn on_window_event(close_requested: bool) -> (action: ShellAction)
    ensures
        action == if close_requested {
            ShellAction::HideMainWindow
        } else {
            ShellAction::Nothing
        },
{
    if close_requested {
        ShellAction::HideMainWindow
    } else {
        ShellAction::Nothing
    }
}

/// The requests that show and focus the main window, in order.
pub open spec fn show_steps() -> Seq<WindowStep> {
    seq![WindowStep::Unminimize, WindowStep::Show, WindowStep::SetFocus, WindowStep::ShowInTaskbar]
}

/// The requests that show and focus the main window, in order. Each is made
/// whether or not the one before it succeeded.
pub fn show_main_window() -> (steps: Vec<WindowStep>)
    ensures
        steps@ == show_steps(),
{
    let mut steps: Vec<WindowStep> = Vec::new();
    steps.push(WindowStep::Unminimize);
    steps.push(WindowStep::Show);
    steps.push(WindowStep::SetFocus);
    steps.push(WindowStep::ShowInTaskbar);
    assert(steps@ =~= show_steps());
    steps
}

/// Every entry of the tray menu leads to its own action when it is chosen by
/// its identifier.
pub proof fn lemma_menu_entries_lead_to_their_actions(entry: MenuEntry)
    ensures
        menu_action(entry.id_text()) == entry.action(),
        menu_action(entry.id_text()) != ShellAction::Nothing,
{
    reveal_strlit("open");
    reveal_strlit("settings");
    reveal_strlit("quit");
    assert("open"@[0] != "settings"@[0]);
    assert("open"@[0] != "quit"@[0]);
    assert("settings"@[0] != "quit"@[0]);
}

} // verus!
