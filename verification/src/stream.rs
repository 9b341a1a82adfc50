use vstd::prelude::*;

use crate::args::Args;
use crate::errors::AppError;
use crate::resolve::{opt_str_view, parent_spec, resolve, resolved, starts_with_tilde};
use crate::resolve::parent_dir;

verus! {

/// Where the input stream comes from. The entry point owns exactly one of
/// these per run and opens it once.
#[derive(Debug, Clone, PartialEq, Eq)]
pub enum InputTarget {
    /// Read the file at this resolved path.
    File(String),
    /// Read standard input.
    Stdin,
}

/// Where the output stream goes. The entry point owns exactly one of these
/// per run, creates what it names, and flushes it before exit.
#[derive(Debug, Clone, PartialEq, Eq)]
pub enum OutputTarget {
    /// Create the directory chain named by `parent` (when there is one),
    /// then create or truncate the file at `path`.
    File { path: String, parent: Option<String> },
    /// Write standard output.
    Stdout,
}

/// What to do when no source path was given.
#[derive(Debug, Clone, Copy, PartialEq, Eq, Structural)]
pub enum SourcePolicy {
    /// Fall back to standard input.
    StdinFallback,
    /// Fail when standard input is attached to an interactive terminal;
    /// fall back to standard input otherwise.
    RejectInteractive,
}

/// Everything the entry point must set up before the transformation runs:
/// one input target and one output target.
#[derive(Debug, Clone, PartialEq, Eq)]
pub struct RunPlan {
    pub input: InputTarget,
    pub output: OutputTarget,
}

/// Whether the run is refused for want of a source: none was given, the
/// policy rejects that on a terminal, and standard input is one.
pub open spec fn missing_source_rejected(
    args: Args,
    stdin_interactive: bool,
    policy: SourcePolicy,
) -> bool {
    args.source is None && policy == SourcePolicy::RejectInteractive && stdin_interactive
}

/// Whether an optional raw path asks for home-directory expansion.
pub open spec fn needs_home(o: Option<String>) -> bool {
    o matches Some(s) && starts_with_tilde(s@)
}

/// The home directory the resolver sees: the one the environment gave, or
/// nothing. Paths that never ask for it resolve the same either way.
pub open spec fn effective_home(home: Option<&str>) -> Seq<char> {
    match home {
        Some(h) => h@,
        None => Seq::empty(),
    }
}

/// The input target that belongs to an optional resolved source path.
pub open spec fn input_for(source: Option<String>, home: Seq<char>, cwd: Seq<char>, t: InputTarget) -> bool {
    match source {
        Some(s) => t matches InputTarget::File(q) && q@ == resolved(s@, home, cwd),
        None => t is Stdin,
    }
}

/// The output target that belongs to an optional resolved destination path.
pub open spec fn output_for(dest: Option<String>, home: Seq<char>, cwd: Seq<char>, t: OutputTarget) -> bool {
    match dest {
        Some(s) => t matches OutputTarget::File { path, parent } && path@ == resolved(s@, home, cwd)
            && opt_str_view(parent) == parent_spec(resolved(s@, home, cwd)),
        None => t is Stdout,
    }
}

/// Choose the input target for an already resolved source path: the file
/// when one was named, standard input when none was.
pub fn select_input(resolved_path: Option<String>) -> (t: InputTarget)
    ensures
        resolved_path matches Some(p) ==> t matches InputTarget::File(q) && q == p,
        resolved_path is None ==> t is Stdin,
{
    match resolved_path {
        Some(p) => InputTarget::File(p),
        None => InputTarget::Stdin,
    }
}

/// Choose the output target for an already resolved destination path: the
/// file, with the directory chain that must exist first, when one was named;
/// standard output when none was.
pub fn select_output(resolved_path: Option<String>) -> (t: OutputTarget)
    ensures
        resolved_path matches Some(p) ==> t matches OutputTarget::File { path, parent }
            && path == p && opt_str_view(parent) == parent_spec(p@),
        resolved_path is None ==> t is Stdout,
{
    match resolved_path {
        Some(p) => {
            let parent = parent_dir(p.as_str());
            OutputTarget::File { path: p, parent }
        },
        None => OutputTarget::Stdout,
    }
}

/// Turn the parsed arguments into the run plan: reject a missing source
/// under the interactive policy, resolve both paths, and pick the targets.
/// The source is handled before the destination, so a failure to resolve
/// the source is reported even when the destination would fail too.
pub fn plan_streams(
    args: &Args,
    home: Option<&str>,
    cwd: &str,
    stdin_interactive: bool,
    policy: SourcePolicy,
) -> (r: Result<RunPlan, AppError>)
    ensures
        r is Ok <==> !missing_source_rejected(*args, stdin_interactive, policy) && !(home is None
            && (needs_home(args.source) || needs_home(args.destination))),
        missing_source_rejected(*args, stdin_interactive, policy) ==> (r matches Err(e) && e
            == AppError::InputMissingInteractive),
        !missing_source_rejected(*args, stdin_interactive, policy) ==> (r matches Err(e) ==> e
            == AppError::PathResolution),
        r matches Ok(plan) ==> input_for(
            args.source,
            effective_home(home),
            cwd@,
            plan.input,
        ),
        r matches Ok(plan) ==> output_for(
            args.destination,
            effective_home(home),
            cwd@,
            plan.output,
        ),
{
    if args.source.is_none() && policy == SourcePolicy::RejectInteractive && stdin_interactive {
        return Err(AppError::InputMissingInteractive);
    }
    let source_resolved: Option<String> = match &args.source {
        Some(s) => match resolve(s.as_str(), home, cwd) {
            Ok(p) => Some(p),
            Err(e) => {
                return Err(e);
            },
        },
        None => None,
    };
    let dest_resolved: Option<String> = match &args.destination {
        Some(d) => match resolve(d.as_str(), home, cwd) {
            Ok(p) => Some(p),
            Err(e) => {
                return Err(e);
            },
        },
        None => None,
    };
    Ok(RunPlan { input: select_input(source_resolved), output: select_output(dest_resolved) })
}

} // verus!
