//! The kinds of failure that the backend reports to its caller.

use vstd::prelude::*;

verus! {

/// Why an operation of the backend did not succeed.
#[derive(Clone, Copy, Debug, PartialEq, Eq, Structural)]
pub enum ErrorKind {
    /// The credential store could not be reached.
    StoreUnavailable,
    /// The credential store holds nothing for the provider.
    NotFound,
    /// The credential store refused to save the secret.
    WriteFailed,
    /// The credential store refused to remove the credential.
    DeleteFailed,
    /// No top-level window has the focus.
    NoFocusedWindow,
    /// The focused window exists but its title could not be read.
    TitleReadFailed,
    /// The platform offers neither window inspection nor input injection.
    UnsupportedPlatform,
    /// No window title contains the name that was asked for.
    WindowNotFound,
    /// The system refused to bring the chosen window to the foreground.
    FocusFailed,
    /// The system accepted none of the injected key events.
    InjectionFailed,
}

impl ErrorKind {
    /// The sentence shown to the user for this kind of failure.
    pub open spec fn message_text(self) -> Seq<char> {
        match self {
            ErrorKind::StoreUnavailable => "Credential store is unavailable"@,
            ErrorKind::NotFound => "No API key is stored for this provider"@,
            ErrorKind::WriteFailed => "Failed to store API key"@,
            ErrorKind::DeleteFailed => "Failed to delete API key"@,
            ErrorKind::NoFocusedWindow => "No foreground window found"@,
            ErrorKind::TitleReadFailed => "Failed to get window title"@,
            ErrorKind::UnsupportedPlatform => "Not implemented for this platform"@,
            ErrorKind::WindowNotFound => "No window with a matching title found"@,
            ErrorKind::FocusFailed => "Failed to set foreground window"@,
            ErrorKind::InjectionFailed => "Failed to send keyboard input"@,
        }
    }

    /// Renders the failure as the human-readable string that crosses the
    /// boundary to the user interface.
    pub fn message(&self) -> (text: String)
        ensures
            text@ == self.message_text(),
    {
        let literal: &str = match self {
            ErrorKind::StoreUnavailable => "Credential store is unavailable",
            ErrorKind::NotFound => "No API key is stored for this provider",
            ErrorKind::WriteFailed => "Failed to store API key",
            ErrorKind::DeleteFailed => "Failed to delete API key",
            ErrorKind::NoFocusedWindow => "No foreground window found",
            ErrorKind::TitleReadFailed => "Failed to get window title",
            ErrorKind::UnsupportedPlatform => "Not implemented for this platform",
            ErrorKind::WindowNotFound => "No window with a matching title found",
            ErrorKind::FocusFailed => "Failed to set foreground window",
            ErrorKind::InjectionFailed => "Failed to send keyboard input",
        };
        literal.to_owned()
    }
}

} // verus!
