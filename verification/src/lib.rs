//! Plumbing for a one-shot command-line filter: path resolution for the
//! `~` and `.` prefixes, the choice between file and standard streams, and
//! the mapping from error kinds to exit status and diagnostic text. All
//! file and terminal I/O stays with the binary that uses this crate; the
//! crate itself only decides what that binary should open, create and
//! report.

pub mod args;
pub mod errors;
pub mod resolve;
pub mod stream;
