//! What holds of a save or open as a whole.
//!
//! The host shell performs the single read or write that a command decides
//! on; a filesystem is modelled as a map from paths to the bytes stored
//! there, a write as inserting under the written path, and a read as
//! succeeding exactly on paths present in the map. Over that model, the
//! proof functions here state the properties of whole commands: the
//! save/open round trip, and that cancellation fails an open but leaves a
//! save without any effect.

use vstd::prelude::*;

use crate::extension::with_icd_extension;
use crate::text::valid_utf8;

verus! {

/// What an open yields under the filesystem model: the stored text, or the
/// reason none is returned.
pub enum OpenOutcome {
    /// The chosen file held valid UTF-8 text, returned in full.
    Content(Seq<u8>),
    /// The user cancelled the chooser.
    Cancelled,
    /// No file is stored at the chosen path, so the read fails.
    ReadFailed,
    /// The stored bytes are not valid UTF-8 text.
    NotText,
}

/// The filesystem after a save: unchanged on cancellation, and otherwise
/// holding the full content under the repaired path.
pub open spec fn save_effect(
    fs: Map<Seq<u8>, Seq<u8>>,
    choice: Option<Seq<u8>>,
    content: Seq<u8>,
) -> Map<Seq<u8>, Seq<u8>> {
    match choice {
        Option::None => fs,
        Option::Some(p) => fs.insert(with_icd_extension(p), content),
    }
}

/// What an open returns against a filesystem: cancellation fails, a path
/// with no stored file fails as a read error, stored bytes that are not
/// text fail as an encoding error, and stored text is returned in full.
pub open spec fn open_result(fs: Map<Seq<u8>, Seq<u8>>, choice: Option<Seq<u8>>) -> OpenOutcome {
    match choice {
        Option::None => OpenOutcome::Cancelled,
        Option::Some(p) => if !fs.contains_key(p) {
            OpenOutcome::ReadFailed
        } else if valid_utf8(fs[p]) {
            OpenOutcome::Content(fs[p])
        } else {
            OpenOutcome::NotText
        },
    }
}

/// Round trip: a save confirmed at `path` followed by an open of the file
/// that save wrote returns exactly the saved content. The content of a
/// save is text handed over by the shell, so its byte form is valid UTF-8.
pub proof fn lemma_save_then_open_round_trip(
    fs: Map<Seq<u8>, Seq<u8>>,
    path: Seq<u8>,
    content: Seq<u8>,
)
    requires
        valid_utf8(content),
    ensures
        open_result(
            save_effect(fs, Option::Some(path), content),
            Option::Some(with_icd_extension(path)),
        ) == OpenOutcome::Content(content),
{
}

/// Cancelling an open yields a cancellation failure, never content — in
/// particular never an empty success.
pub proof fn lemma_open_cancelled_is_failure(fs: Map<Seq<u8>, Seq<u8>>)
    ensures
        open_result(fs, Option::None) == OpenOutcome::Cancelled,
        forall|c: Seq<u8>| open_result(fs, Option::None) != OpenOutcome::Content(c),
{
}

/// Cancelling a save leaves every file exactly as it was: nothing is
/// created and nothing is modified.
pub proof fn lemma_save_cancelled_no_effect(fs: Map<Seq<u8>, Seq<u8>>, content: Seq<u8>)
    ensures
        save_effect(fs, Option::None, content) == fs,
{
}

/// A stored file that is not valid UTF-8 text makes an open of it fail as
/// an encoding error; raw bytes are never returned.
pub proof fn lemma_open_rejects_non_text(fs: Map<Seq<u8>, Seq<u8>>, path: Seq<u8>)
    requires
        fs.contains_key(path),
        !valid_utf8(fs[path]),
    ensures
        open_result(fs, Option::Some(path)) == OpenOutcome::NotText,
{
}

} // verus!
