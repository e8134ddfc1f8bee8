//! The confirmation-and-apply controller: the state machine that takes a
//! freshly computed plan through dry-run, auto-confirm or interactive
//! confirmation to application.
//!
//! The interactive confirmation is a capability injected from outside: the
//! caller asks the question and hands the boolean answer in. Everything the
//! controller decides is a pure function of the plan, the two flags and that
//! answer, so a dry run provably never mutates anything.

use vstd::prelude::*;

use crate::graph::WorkspaceGraph;
use crate::outcome::{CommandError, RunOutcome};
use crate::plan::{apply_ops_edges, apply_plan, edges_of, plan_valid, Plan};

verus! {

/// What the caller must do next with a freshly computed plan.
pub enum Directive {
    /// The plan is empty: finish with `NoOpNeeded`, whatever the flags say.
    FinishNoOp,
    /// Dry-run with a non-empty plan: finish with `PendingDryRun`; nothing
    /// may be mutated.
    FinishDryRun,
    /// The confirmation was declined: finish with `UserDeclined`; nothing
    /// may be mutated.
    FinishDeclined,
    /// Ask the interactive confirmation whether to proceed.
    AskConfirmation,
    /// Apply the plan.
    Apply,
}

/// First transition of the state machine: from a rendered plan and the two
/// mutually exclusive flags to the next step. An empty plan terminates
/// immediately, independent of the flags.
pub fn plan_directive(plan: &Plan, dry_run: bool, yes: bool) -> (directive: Directive)
    requires
        !(dry_run && yes),
    ensures
        directive is FinishNoOp <==> plan.ops@.len() == 0,
        directive is FinishDryRun <==> (plan.ops@.len() > 0 && dry_run),
        directive is Apply <==> (plan.ops@.len() > 0 && yes),
        directive is AskConfirmation <==> (plan.ops@.len() > 0 && !dry_run && !yes),
{
    if plan.is_empty() {
        Directive::FinishNoOp
    } else if dry_run {
        Directive::FinishDryRun
    } else if yes {
        Directive::Apply
    } else {
        Directive::AskConfirmation
    }
}

/// Second transition: the interactive confirmation has answered. Affirmative
/// proceeds to application; negative finishes with nothing mutated.
pub fn confirmation_directive(answer: bool) -> (directive: Directive)
    ensures
        directive is Apply <==> answer,
        directive is FinishDeclined <==> !answer,
{
    if answer {
        Directive::Apply
    } else {
        Directive::FinishDeclined
    }
}

/// The whole controller as one pure function over the model state.
///
/// `confirm_answer` is the answer the interactive confirmation provider
/// would give if asked; it is consulted only on the interactive path. The
/// returned graph is the state after the run: unchanged unless the plan was
/// actually applied.
pub fn run_controller(
    graph: WorkspaceGraph,
    plan: &Plan,
    dry_run: bool,
    yes: bool,
    confirm_answer: bool,
) -> (result: (RunOutcome, WorkspaceGraph))
    requires
        !(dry_run && yes),
        graph.wf(),
        plan_valid(graph, *plan),
    ensures
        plan.ops@.len() == 0 ==> result.0 is NoOpNeeded && result.1 == graph,
        plan.ops@.len() > 0 && dry_run ==> result.0 is PendingDryRun && result.1 == graph,
        plan.ops@.len() > 0 && !dry_run && !yes && !confirm_answer ==> result.0 is UserDeclined
            && result.1 == graph,
        plan.ops@.len() > 0 && !dry_run && (yes || confirm_answer) ==> result.0
            is AppliedSuccessfully,
        result.0 is AppliedSuccessfully ==> {
            &&& result.1.wf()
            &&& result.1.packages@.len() == graph.packages@.len()
            &&& result.1.aggregation_index == graph.aggregation_index
            &&& forall|i: int|
                0 <= i < graph.packages@.len() ==> result.1.packages@[i].name@
                    == #[trigger] graph.packages@[i].name@
            &&& edges_of(result.1) == apply_ops_edges(edges_of(graph), plan.ops@)
        },
        // Dry-run purity: a dry run never mutates the state, whatever the
        // plan holds.
        dry_run ==> result.1 == graph,
        !(result.0 is AppliedSuccessfully) ==> result.1 == graph,
{
    if plan.is_empty() {
        (RunOutcome::NoOpNeeded, graph)
    } else if dry_run {
        (RunOutcome::PendingDryRun, graph)
    } else if yes || confirm_answer {
        let applied = apply_plan(graph, plan);
        (RunOutcome::AppliedSuccessfully, applied)
    } else {
        (RunOutcome::UserDeclined, graph)
    }
}

/// Outcome of the application phase, as reported by the caller executing
/// the operations in order: `None` when every operation succeeded, or the
/// index of the first failing operation and its cause. On a failure no
/// later operation may have been executed, and nothing already applied is
/// rolled back — operations are individually idempotent, so re-running the
/// command converges.
pub fn apply_outcome(failure: Option<(usize, String)>) -> (outcome: RunOutcome)
    ensures
        failure is None <==> outcome is AppliedSuccessfully,
        failure matches Some((index, cause)) ==> (outcome matches RunOutcome::Failed(
            CommandError::ApplyFailed { op_index, cause: c },
        ) && op_index == index && c@ == cause@),
{
    match failure {
        None => RunOutcome::AppliedSuccessfully,
        Some((op_index, cause)) => RunOutcome::Failed(
            CommandError::ApplyFailed { op_index, cause },
        ),
    }
}

/// Outcome of the mandatory post-apply hook (lock-artifact regeneration).
/// A failure there is a warning layered on top of the already successful
/// apply: the outcome stays `AppliedSuccessfully` and nothing is undone.
pub fn post_apply_outcome(lock_regenerated: bool, cause: String) -> (result: (
    RunOutcome,
    Option<CommandError>,
))
    ensures
        result.0 is AppliedSuccessfully,
        lock_regenerated <==> result.1 is None,
        !lock_regenerated ==> (result.1 matches Some(
            CommandError::LockRegenerationFailed { cause: c },
        ) && c@ == cause@),
{
    if lock_regenerated {
        (RunOutcome::AppliedSuccessfully, None)
    } else {
        (
            RunOutcome::AppliedSuccessfully,
            Some(CommandError::LockRegenerationFailed { cause }),
        )
    }
}

} // verus!
