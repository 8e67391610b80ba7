//! Native backend rules of a desktop text-fixing utility: where provider API
//! keys live in the credential store, which window owns the keyboard focus,
//! and which key events make up a copy or paste shortcut.

pub mod error;
pub mod keyring_utils;
pub mod shell;
pub mod system_utils;
pub mod text;
