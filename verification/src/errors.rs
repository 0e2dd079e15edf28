//! The error taxonomy of the note store.

use vstd::prelude::*;

verus! {

/// Every failure of the library falls under one of these causes.
///
/// Each variant is surfaced to a caller as a descriptive message string
/// through [`NoteError::message`].
#[derive(Clone, Copy, Debug, PartialEq, Eq, Structural)]
pub enum NoteError {
    /// The platform's per-user data directory could not be determined
    /// while no configured override was available.
    ConfigurationError,
    /// A file or directory could not be created, read or written.
    IoError,
    /// The user dismissed a picker dialog without making a selection.
    Cancelled,
    /// The picker subsystem failed for a reason unrelated to the user's
    /// choice, such as its completion channel closing unexpectedly.
    DialogError,
    /// The host file-browser launcher could not be started.
    ProcessSpawnError,
}

impl NoteError {
    /// The descriptive message of this error.
    pub open spec fn message_spec(self) -> Seq<char> {
        match self {
            NoteError::ConfigurationError => "Could not find data directory"@,
            NoteError::IoError => "File system operation failed"@,
            NoteError::Cancelled => "No selection was made"@,
            NoteError::DialogError => "Dialog was closed"@,
            NoteError::ProcessSpawnError => "Could not open the file browser"@,
        }
    }

    /// Renders the error as the message string that crosses the caller
    /// boundary.
    pub fn message(&self) -> (r: String)
        ensures
            r@ == self.message_spec(),
    {
        match self {
            NoteError::ConfigurationError => String::from_str("Could not find data directory"),
            NoteError::IoError => String::from_str("File system operation failed"),
            NoteError::Cancelled => String::from_str("No selection was made"),
            NoteError::DialogError => String::from_str("Dialog was closed"),
            NoteError::ProcessSpawnError => String::from_str("Could not open the file browser"),
        }
    }
}

} // verus!
