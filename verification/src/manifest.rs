//! The aggregation package's manifest: its generated region, the semantic
//! change check, the textual diff, and the reconcile decision.
//!
//! The manifest file itself is demarcated by a recognizable header/footer
//! pair so regeneration can replace the generated region without disturbing
//! hand-written content elsewhere in the file. Locating the region, the
//! change check and the diff are done by the `hakari` crate; this module
//! states their behaviour and proves the reconcile protocol against it.

use vstd::prelude::*;

use crate::outcome::RunOutcome;
use hakari::HakariCargoToml;

verus! {

#[verifier::external_type_specification]
#[verifier::external_body]
pub struct ExHakariCargoToml(HakariCargoToml);

/// The characters of the generated region of a manifest, as
/// `hakari::HakariCargoToml` demarcates it at construction time.
pub uninterp spec fn generated_region(manifest: HakariCargoToml) -> Seq<char>;

/// The header that opens the generated region.
pub open spec fn begin_marker() -> Seq<char> {
    "\n### BEGIN HAKARI SECTION\n"@
}

/// The footer that closes the generated region.
pub open spec fn end_marker() -> Seq<char> {
    "\n### END HAKARI SECTION\n"@
}

/// The slice `[start, end)` of `contents` is a generated region: the header
/// ends right before `start`, and the footer begins at `end - 1` (its
/// leading newline is shared with the region).
pub open spec fn marks_region(contents: Seq<char>, start: int, end: int) -> bool {
    &&& begin_marker().len() <= start <= end <= contents.len()
    &&& contents.subrange(start - begin_marker().len(), start) == begin_marker()
    &&& 1 <= end
    &&& end - 1 + end_marker().len() <= contents.len()
    &&& contents.subrange(end - 1, end - 1 + end_marker().len()) == end_marker()
}

/// Whether the contents hold a header/footer pair in order.
pub open spec fn has_generated_section(contents: Seq<char>) -> bool {
    exists|start: int, end: int| marks_region(contents, start, end)
}

/// Relies on `hakari::HakariCargoToml::new_in_memory`: it locates the
/// generated region between the begin/end markers and fails exactly when no
/// such marker pair exists in order.
#[verifier::external_body]
pub(crate) fn manifest_from_contents(path: &str, contents: String) -> (result: Option<HakariCargoToml>)
    ensures
        result is Some <==> has_generated_section(contents@),
        result matches Some(m) ==> exists|start: int, end: int|
            marks_region(contents@, start, end) && generated_region(m) == contents@.subrange(
                start,
                end,
            ),
{
    HakariCargoToml::new_in_memory(path, contents).ok()
}

/// Relies on `hakari::HakariCargoToml::is_changed`: true exactly when the
/// generated region read from disk differs from the proposed contents.
#[verifier::external_body]
pub(crate) fn manifest_is_changed(manifest: &HakariCargoToml, new_contents: &String) -> (changed: bool)
    ensures
        changed == (generated_region(*manifest) != new_contents@),
{
    manifest.is_changed(new_contents.as_str())
}

/// Relies on `hakari::HakariCargoToml::diff_toml`, a line diff of the
/// generated region against the proposed contents via `diffy`: the patch
/// has an empty hunk set exactly when the two texts are equal.
#[verifier::external_body]
pub(crate) fn manifest_diff_has_hunks(manifest: &HakariCargoToml, new_contents: &String) -> (has_hunks:
    bool)
    ensures
        has_hunks == (generated_region(*manifest) != new_contents@),
{
    !manifest.diff_toml(new_contents.as_str()).hunks().is_empty()
}

/// What the caller of [`reconcile`] must do, and how the command ends if
/// doing it succeeds.
pub struct ReconcileDecision {
    /// The outcome owed for this command, provided the write (if one is
    /// needed) succeeds.
    pub outcome: RunOutcome,
    /// Whether the proposed contents must be written into the generated
    /// region — and, afterwards, the lock artifact regenerated. Never set
    /// in diff mode, and never set when nothing changed.
    pub write_needed: bool,
}

/// What reconciliation promises, for a generated region and proposed new
/// contents.
///
/// The diff's hunk set is empty if and only if the semantic change check
/// reports unchanged: both modes call the outcome `NoOpNeeded` exactly when
/// the region already equals the proposed contents.
pub open spec fn reconcile_post(
    region: Seq<char>,
    new_contents: Seq<char>,
    diff_only: bool,
    decision: ReconcileDecision,
) -> bool {
    &&& (decision.write_needed <==> (!diff_only && region != new_contents))
    &&& (decision.outcome is NoOpNeeded <==> region == new_contents)
    &&& (diff_only && region != new_contents ==> decision.outcome is DifferencesPresent)
    &&& (!diff_only && region != new_contents ==> decision.outcome is AppliedSuccessfully)
}

/// Reconciles the manifest's generated region with newly computed contents.
///
/// In diff mode nothing is ever written: the outcome is `NoOpNeeded` when
/// the hunk set is empty and `DifferencesPresent` otherwise. Outside diff
/// mode, semantically unchanged contents end as `NoOpNeeded` with no write;
/// changed contents demand a write and end as `AppliedSuccessfully`.
pub fn reconcile(manifest: &HakariCargoToml, new_contents: &String, diff_only: bool) -> (decision:
    ReconcileDecision)
    ensures
        reconcile_post(generated_region(*manifest), new_contents@, diff_only, decision),
{
    if diff_only {
        if manifest_diff_has_hunks(manifest, new_contents) {
            ReconcileDecision { outcome: RunOutcome::DifferencesPresent, write_needed: false }
        } else {
            ReconcileDecision { outcome: RunOutcome::NoOpNeeded, write_needed: false }
        }
    } else {
        if manifest_is_changed(manifest, new_contents) {
            ReconcileDecision { outcome: RunOutcome::AppliedSuccessfully, write_needed: true }
        } else {
            ReconcileDecision { outcome: RunOutcome::NoOpNeeded, write_needed: false }
        }
    }
}

/// Reconciles a manifest handed over as its raw file contents: locates the
/// generated region between the markers, then decides as [`reconcile`]
/// does. Returns `None` when the contents hold no marker pair in order.
pub fn reconcile_contents(
    path: &str,
    contents: String,
    new_contents: &String,
    diff_only: bool,
) -> (decision: Option<ReconcileDecision>)
    ensures
        decision is Some <==> has_generated_section(contents@),
        decision matches Some(d) ==> exists|start: int, end: int|
            marks_region(contents@, start, end) && reconcile_post(
                contents@.subrange(start, end),
                new_contents@,
                diff_only,
                d,
            ),
{
    let ghost contents_view = contents@;
    let manifest = match manifest_from_contents(path, contents) {
        Some(manifest) => manifest,
        None => {
            return None;
        },
    };
    let decision = reconcile(&manifest, new_contents, diff_only);
    proof {
        let (start, end) = choose|start: int, end: int|
            marks_region(contents_view, start, end) && generated_region(manifest)
                == contents_view.subrange(start, end);
        assert(reconcile_post(
            contents_view.subrange(start, end),
            new_contents@,
            diff_only,
            decision,
        ));
    }
    Some(decision)
}

} // verus!
