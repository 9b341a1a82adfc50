use vstd::prelude::*;

verus! {

/// The two optional command-line arguments that the entry point accepts:
/// an input path and an output path. An absent source means "read standard
/// input"; an absent destination means "write standard output".
#[derive(Debug, Clone)]
pub struct Args {
    /// The source file to read from, if one was given.
    pub source: Option<String>,
    /// The destination file to write to, if one was given.
    pub destination: Option<String>,
}

} // verus!
