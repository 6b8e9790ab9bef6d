//! Decision core of a small desktop file shell.
//!
//! The shell exposes two commands, `save_file` and `open_file`, that show a
//! native file chooser restricted to the `.icd` extension and then perform a
//! single whole-file write or read. The chooser and the filesystem live in
//! the host shell; this crate holds everything the shell has to decide:
//! what to do with the chooser's answer, how a chosen save path is repaired
//! to carry the extension, which read results count as text, and how every
//! failure is reported.

pub mod commands;
pub mod errors;
pub mod extension;
pub mod laws;
pub mod text;
