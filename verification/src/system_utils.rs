//! Focus inspection and keyboard shortcuts, independent of the platform that
//! carries them out.
//!
//! The library never touches the system itself. A command is a small state
//! machine: it names the next [`Action`] for the caller to perform, and moves
//! on when the caller reports the [`Event`] that the action produced.

use vstd::prelude::*;

use crate::error::ErrorKind;
use internal::{
    focused_title, get_focused_app_name_windows, injection_result, key_down, key_up,
    send_keyboard_shortcut_windows, shortcut_events, KeyEvent, WindowText, VK_C, VK_CONTROL, VK_V,
};

pub mod internal;

verus! {

/// The shortcuts the backend can synthesize.
#[derive(Clone, Copy, Debug, PartialEq, Eq, Structural)]
pub enum KeyboardShortcut {
    /// Ctrl+C.
    Copy,
    /// Ctrl+V.
    Paste,
}

/// The family of operating system the backend runs on, fixed when the
/// application starts.
#[derive(Clone, Copy, Debug, PartialEq, Eq, Structural)]
pub enum Platform {
    /// Window handles, a foreground window and input injection exist.
    Windows,
    /// None of them exist; nothing is emulated.
    Unsupported,
}

/// The question for the focused application, in progress.
#[derive(Debug, PartialEq, Eq)]
pub enum Inspection {
    /// The caller is to read the foreground window and its title.
    AwaitingForeground,
    /// The question is answered.
    Finished { result: Result<String, ErrorKind> },
}

/// An [`Inspection`] with its text as a mathematical sequence.
pub ghost enum InspectionView {
    AwaitingForeground,
    Finished { result: Result<Seq<char>, ErrorKind> },
}

/// A result with its text as a mathematical sequence.
pub open spec fn text_result(result: Result<String, ErrorKind>) -> Result<Seq<char>, ErrorKind> {
    match result {
        Ok(text) => Ok(text@),
        Err(kind) => Err(kind),
    }
}

impl View for Inspection {
    type V = InspectionView;

    open spec fn view(&self) -> InspectionView {
        match *self {
            Inspection::AwaitingForeground => InspectionView::AwaitingForeground,
            Inspection::Finished { result } => InspectionView::Finished {
                result: text_result(result),
            },
        }
    }
}

/// Where the question for the focused application starts: with reading the
/// foreground window on Windows, already failed elsewhere.
pub open spec fn inspection(platform: Platform) -> InspectionView {
    match platform {
        Platform::Windows => InspectionView::AwaitingForeground,
        Platform::Unsupported => InspectionView::Finished {
            result: Err(ErrorKind::UnsupportedPlatform),
        },
    }
}

/// The inspection after the system has answered with `foreground`: `None`
/// for no foreground window, otherwise the title buffer of that window. An
/// answer that was not asked for changes nothing.
pub open spec fn inspection_after(
    inspection: InspectionView,
    foreground: Option<WindowText>,
) -> InspectionView {
    match inspection {
        InspectionView::AwaitingForeground => InspectionView::Finished {
            result: focused_title(foreground),
        },
        InspectionView::Finished { result } => inspection,
    }
}

/// Starts the question for the name of the application that has the focus.
pub fn get_focused_app_name(platform: Platform) -> (started: Inspection)
    ensures
        started@ == inspection(platform),
{
    match platform {
        Platform::Windows => Inspection::AwaitingForeground,
        Platform::Unsupported => Inspection::Finished {
            result: Err(ErrorKind::UnsupportedPlatform),
        },
    }
}

impl Inspection {
    /// Moves on with what the system answered.
    pub fn advance(self, foreground: Option<WindowText>) -> (next: Inspection)
        ensures
            next@ == inspection_after(self@, foreground),
    {
        match self {
            Inspection::AwaitingForeground => Inspection::Finished {
                result: get_focused_app_name_windows(foreground),
            },
            Inspection::Finished { result } => Inspection::Finished { result },
        }
    }
}

/// What the caller is asked to do next for a command.
#[derive(Debug, PartialEq, Eq)]
pub enum Action {
    /// Look for a window whose title contains `name` and bring it to the
    /// foreground; report the outcome as [`Event::FocusAttempted`].
    FocusWindow { name: String },
    /// Hand `events` to the system's input queue; report the number it
    /// accepted as [`Event::InputSent`].
    SendInput { events: Vec<KeyEvent> },
    /// Nothing more: the command ended with `result`.
    Finish { result: Result<(), ErrorKind> },
}

/// An [`Action`] with its text and events as mathematical sequences.
pub ghost enum ActionView {
    FocusWindow { name: Seq<char> },
    SendInput { events: Seq<KeyEvent> },
    Finish { result: Result<(), ErrorKind> },
}

impl View for Action {
    type V = ActionView;

    open spec fn view(&self) -> ActionView {
        match *self {
            Action::FocusWindow { name } => ActionView::FocusWindow { name: name@ },
            Action::SendInput { events } => ActionView::SendInput { events: events@ },
            Action::Finish { result } => ActionView::Finish { result },
        }
    }
}

/// What came of the action that a command asked for.
#[derive(Debug, PartialEq, Eq)]
pub enum Event {
    /// The focus change was tried, with this outcome.
    FocusAttempted { result: Result<(), ErrorKind> },
    /// The key events were handed over; the system accepted this many.
    InputSent { accepted: u32 },
}

/// A copy or paste command in progress.
#[derive(Debug, PartialEq, Eq)]
pub enum Command {
    /// The window named `name` is to be focused before `shortcut` is sent.
    AwaitingFocus { name: String, shortcut: KeyboardShortcut },
    /// `shortcut` is to be sent to whatever window has the focus.
    AwaitingInput { shortcut: KeyboardShortcut },
    /// The command is over.
    Finished { result: Result<(), ErrorKind> },
}

/// A [`Command`] with its text as a mathematical sequence.
pub ghost enum CommandView {
    AwaitingFocus { name: Seq<char>, shortcut: KeyboardShortcut },
    AwaitingInput { shortcut: KeyboardShortcut },
    Finished { result: Result<(), ErrorKind> },
}

impl View for Command {
    type V = CommandView;

    open spec fn view(&self) -> CommandView {
        match *self {
            Command::AwaitingFocus { name, shortcut } => CommandView::AwaitingFocus {
                name: name@,
                shortcut,
            },
            Command::AwaitingInput { shortcut } => CommandView::AwaitingInput { shortcut },
            Command::Finished { result } => CommandView::Finished { result },
        }
    }
}

/// Where a command that sends `shortcut` starts: ready to send on Windows,
/// already failed elsewhere.
pub open spec fn shortcut_command(platform: Platform, shortcut: KeyboardShortcut) -> CommandView {
    match platform {
        Platform::Windows => CommandView::AwaitingInput { shortcut },
        Platform::Unsupported => CommandView::Finished {
            result: Err(ErrorKind::UnsupportedPlatform),
        },
    }
}

/// Where a paste command starts: with the focus change when a source
/// application is named and the platform can change the focus, otherwise as
/// the plain shortcut does.
pub open spec fn paste_command(platform: Platform, source_app_name: Option<Seq<char>>)
    -> CommandView {
    match (platform, source_app_name) {
        (Platform::Windows, Some(name)) => CommandView::AwaitingFocus {
            name,
            shortcut: KeyboardShortcut::Paste,
        },
        _ => shortcut_command(platform, KeyboardShortcut::Paste),
    }
}

/// The action a command is waiting for.
pub open spec fn pending_action(command: CommandView) -> ActionView {
    match command {
        CommandView::AwaitingFocus { name, shortcut } => ActionView::FocusWindow { name },
        CommandView::AwaitingInput { shortcut } => ActionView::SendInput {
            events: shortcut_events(shortcut),
        },
        CommandView::Finished { result } => ActionView::Finish { result },
    }
}

/// What the number of accepted events means for a command.
pub open spec fn injection_outcome(accepted: u32) -> Result<(), ErrorKind> {
    if accepted == 0 {
        Err(ErrorKind::InjectionFailed)
    } else {
        Ok(())
    }
}

/// The command after `event`.
///
/// A focus attempt leads to the injection whatever its outcome was. The
/// injection ends the command. An event that the command did not ask for
/// leaves it as it is.
pub open spec fn command_after(command: CommandView, event: Event) -> CommandView {
    match (command, event) {
        (
            CommandView::AwaitingFocus { name, shortcut },
            Event::FocusAttempted { result },
        ) => CommandView::AwaitingInput { shortcut },
        (CommandView::AwaitingInput { shortcut }, Event::InputSent { accepted }) => {
            CommandView::Finished { result: injection_outcome(accepted) }
        },
        _ => command,
    }
}

/// Starts the command that sends `shortcut` to the focused window.
pub fn send_keyboard_shortcut(platform: Platform, shortcut: KeyboardShortcut) -> (command: Command)
    ensures
        command@ == shortcut_command(platform, shortcut),
{
    match platform {
        Platform::Windows => Command::AwaitingInput { shortcut },
        Platform::Unsupported => Command::Finished { result: Err(ErrorKind::UnsupportedPlatform) },
    }
}

/// Starts the command that sends Ctrl+C to the focused window.
pub fn send_copy_command(platform: Platform) -> (command: Command)
    ensures
        command@ == shortcut_command(platform, KeyboardShortcut::Copy),
{
    send_keyboard_shortcut(platform, KeyboardShortcut::Copy)
}

/// Starts the command that sends Ctrl+V, after trying to focus the window of
/// `source_app_name` if one is given.
pub fn send_paste_command(platform: Platform, source_app_name: Option<String>) -> (command: Command)
    ensures
        command@ == paste_command(
            platform,
            match source_app_name {
                Some(name) => Some(name@),
                None => None,
            },
        ),
{
    match platform {
        Platform::Windows => match source_app_name {
            Some(name) => Command::AwaitingFocus { name, shortcut: KeyboardShortcut::Paste },
            None => send_keyboard_shortcut(platform, KeyboardShortcut::Paste),
        },
        Platform::Unsupported => send_keyboard_shortcut(platform, KeyboardShortcut::Paste),
    }
}

impl Command {
    /// The action the caller is to perform now.
    pub fn action(&self) -> (action: Action)
        ensures
            action@ == pending_action(self@),
    {
        match self {
            Command::AwaitingFocus { name, shortcut } => Action::FocusWindow { name: name.clone() },
            Command::AwaitingInput { shortcut } => Action::SendInput {
                events: send_keyboard_shortcut_windows(*shortcut),
            },
            Command::Finished { result } => Action::Finish { result: *result },
        }
    }

    /// Moves on with what came of the pending action.
    pub fn advance(self, event: Event) -> (next: Command)
        ensures
            next@ == command_after(self@, event),
    {
        match self {
            Command::AwaitingFocus { name, shortcut } => match event {
                Event::FocusAttempted { result } => Command::AwaitingInput { shortcut },
                Event::InputSent { accepted } => Command::AwaitingFocus { name, shortcut },
            },
            Command::AwaitingInput { shortcut } => match event {
                Event::InputSent { accepted } => Command::Finished {
                    result: injection_result(accepted),
                },
                Event::FocusAttempted { result } => Command::AwaitingInput { shortcut },
            },
            Command::Finished { result } => Command::Finished { result },
        }
    }
}

/// A shortcut is exactly four events: Ctrl down, the letter down, the letter
/// up, Ctrl up. Copy uses the letter C, paste the letter V.
pub proof fn lemma_shortcut_is_four_events_in_order(shortcut: KeyboardShortcut)
    ensures
        shortcut_events(shortcut).len() == 4,
        shortcut_events(KeyboardShortcut::Copy) == seq![
            key_down(VK_CONTROL),
            key_down(VK_C),
            key_up(VK_C),
            key_up(VK_CONTROL),
        ],
        shortcut_events(KeyboardShortcut::Paste) == seq![
            key_down(VK_CONTROL),
            key_down(VK_V),
            key_up(VK_V),
            key_up(VK_CONTROL),
        ],
        pending_action(shortcut_command(Platform::Windows, shortcut)) == (ActionView::SendInput {
            events: shortcut_events(shortcut),
        }),
{
}

/// A paste command that names a source application asks for the focus
/// change first and then, whatever came of it, for the paste events; its
/// result is that of the injection alone.
pub proof fn lemma_paste_is_sent_whatever_the_focus(
    name: Seq<char>,
    focus: Result<(), ErrorKind>,
    accepted: u32,
)
    ensures
        ({
            let started = paste_command(Platform::Windows, Some(name));
            let focused = command_after(started, Event::FocusAttempted { result: focus });
            let sent = command_after(focused, Event::InputSent { accepted });
            &&& pending_action(started) == (ActionView::FocusWindow { name })
            &&& pending_action(focused) == (ActionView::SendInput {
                events: shortcut_events(KeyboardShortcut::Paste),
            })
            &&& sent == (CommandView::Finished { result: injection_outcome(accepted) })
        }),
{
}

/// On an unsupported platform the focused application cannot be named and
/// every command is over before it asks for anything: the system is never
/// touched.
pub proof fn lemma_unsupported_platform_asks_for_nothing(
    foreground: Option<WindowText>,
    shortcut: KeyboardShortcut,
    source_app_name: Option<Seq<char>>,
)
    ensures
        inspection(Platform::Unsupported) == (InspectionView::Finished {
            result: Err(ErrorKind::UnsupportedPlatform),
        }),
        inspection_after(inspection(Platform::Unsupported), foreground) == inspection(
            Platform::Unsupported,
        ),
        pending_action(shortcut_command(Platform::Unsupported, shortcut)) == (ActionView::Finish {
            result: Err(ErrorKind::UnsupportedPlatform),
        }),
        pending_action(paste_command(Platform::Unsupported, source_app_name)) == (
        ActionView::Finish { result: Err(ErrorKind::UnsupportedPlatform) }),
{
}

/// A command never needs more than two reports: after a focus attempt and an
/// injection, in this order, every command is finished, and a finished
/// command stays as it is.
pub proof fn lemma_command_finishes(
    command: CommandView,
    focus: Result<(), ErrorKind>,
    accepted: u32,
    later: Event,
)
    ensures
        ({
            let focused = command_after(command, Event::FocusAttempted { result: focus });
            let sent = command_after(focused, Event::InputSent { accepted });
            &&& sent is Finished
            &&& command_after(sent, later) == sent
        }),
{
}

} // verus!
