use vstd::prelude::*;

verus! {

/// The ways a run can fail before or while the streams are set up.
/// Every kind is surfaced to the process boundary; none is retried or
/// recovered locally.
#[derive(Debug, Clone, Copy, PartialEq, Eq, Structural)]
pub enum AppError {
    /// A `~`-prefixed path needed the home directory and it could not be
    /// determined.
    PathResolution,
    /// The source file could not be opened for reading.
    InputOpen,
    /// The destination file, or a directory on the way to it, could not be
    /// created.
    OutputCreate,
    /// No source path was given while standard input is attached to an
    /// interactive terminal, under the policy that rejects that.
    InputMissingInteractive,
}

/// The diagnostic line that belongs to each error kind.
pub open spec fn diagnostic_spec(e: AppError) -> Seq<char> {
    match e {
        AppError::PathResolution => "Failed to determine the home directory"@,
        AppError::InputOpen => "Failed to open the input file"@,
        AppError::OutputCreate => "Failed to create the output file"@,
        AppError::InputMissingInteractive => "No input given"@,
    }
}

/// The diagnostic text for an error, written to the error stream by the
/// entry point just before it exits.
pub fn diagnostic(e: &AppError) -> (m: String)
    ensures
        m@ == diagnostic_spec(*e),
{
    match e {
        AppError::PathResolution => "Failed to determine the home directory".to_owned(),
        AppError::InputOpen => "Failed to open the input file".to_owned(),
        AppError::OutputCreate => "Failed to create the output file".to_owned(),
        AppError::InputMissingInteractive => "No input given".to_owned(),
    }
}

/// The process exit status for an outcome: zero for success, one for every
/// error kind.
pub fn exit_code(outcome: &Result<(), AppError>) -> (c: u8)
    ensures
        c == 0 <==> outcome is Ok,
        c == 1 <==> outcome is Err,
{
    match outcome {
        Ok(()) => 0,
        Err(_) => 1,
    }
}

} // verus!
