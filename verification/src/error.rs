//! The failures that the session logic reports.

use vstd::prelude::*;

verus! {

/// Why an operation of the session did not happen.
#[derive(Clone, Copy, Debug, PartialEq, Eq, Structural)]
pub enum SessionError {
    /// The operation needs a selected note and the visible list is empty.
    NoSelection,
    /// No text buffer belongs to the active mode.
    NoTextInput,
    /// The storage has no note at the given position.
    NotFound,
    /// Reading, writing, deleting or editing a note failed.
    Io,
    /// The terminal could not be configured or drawn to.
    Terminal,
}

impl SessionError {
    /// A short description for the user.
    pub fn message(&self) -> (text: &'static str)
        ensures
            text@ == match *self {
                SessionError::NoSelection => "no note is selected"@,
                SessionError::NoTextInput => "no text input is active"@,
                SessionError::NotFound => "file not found"@,
                SessionError::Io => "storage operation failed"@,
                SessionError::Terminal => "terminal operation failed"@,
            },
    {
        match self {
            SessionError::NoSelection => "no note is selected",
            SessionError::NoTextInput => "no text input is active",
            SessionError::NotFound => "file not found",
            SessionError::Io => "storage operation failed",
            SessionError::Terminal => "terminal operation failed",
        }
    }
}

} // verus!
