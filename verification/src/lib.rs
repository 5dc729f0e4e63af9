//! The rules behind a feedback dialog.
//!
//! A user types a report and, if they wish, an email address. This crate decides when the report
//! may be submitted, what the dialog shows, what leaves the machine and in which order, and when
//! the dialog may close. Drawing, prompting, storing and sending are the host's part: it hands in
//! plain values and performs the actions that come back.

pub mod dialog_laws;
pub mod email;
pub mod laws;
pub mod modal;
pub mod prompt;
pub mod state;
pub mod store;
pub mod submission;
pub mod submission_laws;
pub mod text;
pub mod transport;
