//! Failures of the two shell commands.
//!
//! Only two kinds exist. Cancelling the chooser during an open is
//! `UserCancelled`; it is a failure for open only (a cancelled save simply
//! does nothing and succeeds, so no error is built for it). Any read or
//! write error is `IoFailure`, carrying the underlying error already turned
//! into a message string.

use vstd::prelude::*;

verus! {

/// A failed command: the user cancelled the open chooser, or the single
/// read or write failed with the carried message.
#[derive(Debug, PartialEq, Eq)]
pub enum FileError {
    UserCancelled,
    IoFailure(String),
}

/// The message a cancelled open reports.
pub open spec fn no_file_selected_message() -> Seq<char> {
    "No file selected"@
}

impl FileError {
    /// The message string handed to the shell's caller.
    pub fn message(&self) -> (r: String)
        ensures
            self is UserCancelled ==> r@ == no_file_selected_message(),
            self matches FileError::IoFailure(m) ==> r@ == m@,
    {
        match self {
            FileError::UserCancelled => String::from_str("No file selected"),
            FileError::IoFailure(m) => m.clone(),
        }
    }
}

} // verus!
