//! The decisions behind the two shell commands.
//!
//! Each command runs as: show the file chooser, look at its answer, then
//! perform at most one whole-file read or write. The chooser and the
//! filesystem belong to the host shell; the functions here take their
//! answers as plain values and decide everything else. A chooser answer is
//! an `Option`: `Some` carries the chosen path as bytes, `None` means the
//! user cancelled. A read or write outcome is a `Result` whose error is the
//! underlying I/O error already turned into a message string.

use vstd::prelude::*;

use crate::errors::FileError;
use crate::extension::{ensure_icd_extension, with_icd_extension};
use crate::text::{is_valid_utf8_text, valid_utf8};

verus! {

/// What a save does after the chooser answered: write the full content to
/// the repaired path, or skip the write entirely.
#[derive(Debug, PartialEq, Eq)]
pub enum SaveAction {
    Write(Vec<u8>),
    Skip,
}

/// The message an open reports for a file that is not valid UTF-8 text.
pub open spec fn invalid_text_message() -> Seq<char> {
    "file did not contain valid UTF-8 text"@
}

/// Decides an open from the chooser's answer: a chosen path is the path to
/// read, and cancellation fails with `UserCancelled` — never with an empty
/// success.
pub fn open_dialog_outcome(choice: Option<Vec<u8>>) -> (r: Result<Vec<u8>, FileError>)
    ensures
        choice matches Some(p) ==> r == Ok::<Vec<u8>, FileError>(p),
        choice is None ==> r == Err::<Vec<u8>, FileError>(FileError::UserCancelled),
{
    match choice {
        Some(p) => Ok(p),
        None => Err(FileError::UserCancelled),
    }
}

/// Decides an open from the read's outcome: bytes that are valid UTF-8 text
/// are the content returned, bytes that are not yield an encoding failure,
/// and a failed read yields its own message. Success comes exactly on a
/// successful read of valid text.
pub fn open_read_outcome(read: Result<Vec<u8>, String>) -> (r: Result<Vec<u8>, FileError>)
    ensures
        read matches Ok(bytes) ==> {
            &&& valid_utf8(bytes@) ==> r == Ok::<Vec<u8>, FileError>(bytes)
            &&& !valid_utf8(bytes@) ==> (r matches Err(FileError::IoFailure(m)) && m@
                == invalid_text_message())
        },
        read matches Err(m) ==> r == Err::<Vec<u8>, FileError>(FileError::IoFailure(m)),
{
    match read {
        Ok(bytes) => {
            if is_valid_utf8_text(&bytes) {
                Ok(bytes)
            } else {
                Err(FileError::IoFailure(String::from_str("file did not contain valid UTF-8 text")))
            }
        },
        Err(m) => Err(FileError::IoFailure(m)),
    }
}

/// Decides a save from the chooser's answer: a chosen path is repaired to
/// carry the `.icd` extension and written to; cancellation skips the write,
/// so a cancelled save has no effect and is no error.
pub fn save_dialog_outcome(choice: Option<Vec<u8>>) -> (r: SaveAction)
    ensures
        choice matches Some(p) ==> (r matches SaveAction::Write(q) && q@ == with_icd_extension(
            p@,
        )),
        choice is None ==> r == SaveAction::Skip,
{
    match choice {
        Some(p) => SaveAction::Write(ensure_icd_extension(p)),
        None => SaveAction::Skip,
    }
}

/// Decides a save from the write's outcome: a completed write succeeds, and
/// a failed one yields its message as an I/O failure — the command returns,
/// it never escalates.
pub fn save_write_outcome(write: Result<(), String>) -> (r: Result<(), FileError>)
    ensures
        write is Ok ==> r == Ok::<(), FileError>(()),
        write matches Err(m) ==> r == Err::<(), FileError>(FileError::IoFailure(m)),
{
    match write {
        Ok(()) => Ok(()),
        Err(m) => Err(FileError::IoFailure(m)),
    }
}

} // verus!
