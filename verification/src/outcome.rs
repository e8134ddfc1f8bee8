//! Outcomes of a command invocation and their mapping to exit statuses.
//!
//! Every command ends in exactly one [`RunOutcome`]; [`exit_code`] encodes it
//! into the small fixed vocabulary of statuses consumed by calling shells and
//! automation: `0` converged, `1` changes pending or differences/validation
//! failures found, `102` the unrecognized-registry advisory, `101` any other
//! failure.

use vstd::prelude::*;

verus! {

/// The error taxonomy of the crate. Every failure surfaced to the user
/// carries enough context (path, package identity, underlying cause) to act
/// on without re-running.
#[derive(Debug)]
pub enum CommandError {
    /// Neither the primary nor the fallback configuration path exists.
    ConfigNotFound { primary: String, fallback: String },
    /// The configuration document is malformed; `path` names the file read.
    ConfigParseError { path: String, cause: String },
    /// The external planner refused the parsed configuration.
    PlanBuilderError { cause: String },
    /// The resolved path is not a descendant of the workspace root.
    PathOutsideWorkspace { path: String, workspace_root: String },
    /// A path could not be represented in the required text encoding.
    InvalidEncoding,
    /// A requested package name is not a workspace package.
    UnknownPackage { name: String },
    /// The target path for a new aggregation package is already populated.
    PackageAlreadyExists { path: String },
    /// A derived or explicit package name violates the naming rules.
    InvalidPackageName { name: String },
    /// A resolved dependency lives in a registry with no configured alias.
    /// Advisory: a one-line configuration fix, not a tool defect.
    UnrecognizedRegistry { package: String, version: String, registry_url: String },
    /// Any other failure while computing new generated contents.
    GenerationError { cause: String },
    /// A named dependency is absent from the generated package's table.
    DependencyNotFound { name: String },
    /// An operation of a plan failed; operations after it were not applied.
    ApplyFailed { op_index: usize, cause: String },
    /// The post-apply lock regeneration failed. Warning-level: it is layered
    /// on top of an already successful apply and undoes nothing.
    LockRegenerationFailed { cause: String },
    /// Reading the interactive confirmation failed.
    UserInputError { cause: String },
}

/// One validation failure reported by `verify`: the offending dependency and
/// the conflicting build configurations observed for it.
#[derive(Debug)]
pub struct ValidationFailure {
    pub dependency: String,
    pub details: String,
}

/// Outcome of a single command invocation.
#[derive(Debug)]
pub enum RunOutcome {
    /// The workspace already matches the target; nothing was written.
    NoOpNeeded,
    /// The plan was applied in full.
    AppliedSuccessfully,
    /// Dry-run was requested and the plan is non-empty: nothing was mutated.
    PendingDryRun,
    /// The interactive confirmation was declined: nothing was mutated.
    UserDeclined,
    /// Diff mode found a non-empty hunk set; nothing was written.
    DifferencesPresent,
    /// Verification found at least one validation failure.
    ValidationFailed,
    /// The command failed outright.
    Failed(CommandError),
}

/// Exit status for an outcome.
///
/// `0` means converged (the workspace already matched, or the plan was
/// applied); `1` means not converged (dry-run or declined confirmation with a
/// non-empty plan, differences present in diff mode, validation failures);
/// `102` is the unrecognized-registry advisory, distinct from `101`, the
/// general failure status.
pub open spec fn exit_code_spec(outcome: RunOutcome) -> int {
    match outcome {
        RunOutcome::NoOpNeeded => 0,
        RunOutcome::AppliedSuccessfully => 0,
        RunOutcome::PendingDryRun => 1,
        RunOutcome::UserDeclined => 1,
        RunOutcome::DifferencesPresent => 1,
        RunOutcome::ValidationFailed => 1,
        RunOutcome::Failed(err) => match err {
            CommandError::UnrecognizedRegistry { .. } => 102,
            _ => 101,
        },
    }
}

/// Maps an outcome to the exit status handed back to the calling shell.
pub fn exit_code(outcome: &RunOutcome) -> (code: i32)
    ensures
        code == exit_code_spec(*outcome),
        code == 0 <==> (outcome is NoOpNeeded || outcome is AppliedSuccessfully),
{
    match outcome {
        RunOutcome::NoOpNeeded => 0,
        RunOutcome::AppliedSuccessfully => 0,
        RunOutcome::PendingDryRun => 1,
        RunOutcome::UserDeclined => 1,
        RunOutcome::DifferencesPresent => 1,
        RunOutcome::ValidationFailed => 1,
        RunOutcome::Failed(err) => match err {
            CommandError::UnrecognizedRegistry { .. } => 102,
            _ => 101,
        },
    }
}

/// Maps the result of the `verify` command: success when the external
/// validation reported no failures, `ValidationFailed` otherwise.
pub fn verify_outcome(failures: &Vec<ValidationFailure>) -> (outcome: RunOutcome)
    ensures
        failures@.len() == 0 ==> outcome is NoOpNeeded,
        failures@.len() != 0 ==> outcome is ValidationFailed,
{
    if failures.len() == 0 {
        RunOutcome::NoOpNeeded
    } else {
        RunOutcome::ValidationFailed
    }
}

} // verus!
