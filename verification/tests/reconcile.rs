//! Reconciliation of the manifest's generated region, against real
//! `hakari` manifests built in memory.

use cargo_hakari::commands::{disable_contents, disable_plan, generation_triage, GenerationResult};
use cargo_hakari::controller::{apply_outcome, post_apply_outcome};
use cargo_hakari::manifest::{reconcile, reconcile_contents};
use cargo_hakari::outcome::{exit_code, CommandError, RunOutcome};
use cargo_hakari::plan::Operation;

const BEGIN: &str = "\n### BEGIN HAKARI SECTION\n";
const END: &str = "\n### END HAKARI SECTION\n";

/// A manifest whose generated region reads `region` (the region always ends
/// with the newline it shares with the footer).
fn manifest_with_region(region_without_final_newline: &str) -> hakari::HakariCargoToml {
    hakari::HakariCargoToml::new_in_memory("Cargo.toml", contents_with_region(region_without_final_newline))
        .expect("markers are present")
}

fn contents_with_region(region_without_final_newline: &str) -> String {
    let mut contents = String::from("[package]\nname = \"workspace-hack\"\n");
    contents.push_str(BEGIN);
    contents.push_str(region_without_final_newline);
    contents.push_str(END);
    contents
}

#[test]
fn generate_unchanged_writes_nothing() {
    let manifest = manifest_with_region("[dependencies]");
    let decision = reconcile(&manifest, &"[dependencies]\n".to_string(), false);
    assert!(matches!(&decision.outcome, RunOutcome::NoOpNeeded));
    assert!(!decision.write_needed);
    assert_eq!(exit_code(&decision.outcome), 0);
}

#[test]
fn generate_changed_demands_write() {
    let manifest = manifest_with_region("[dependencies]");
    let new_contents = "[dependencies]\nserde = \"1\"\n".to_string();
    let decision = reconcile(&manifest, &new_contents, false);
    assert!(matches!(&decision.outcome, RunOutcome::AppliedSuccessfully));
    assert!(decision.write_needed);
    assert_eq!(exit_code(&decision.outcome), 0);
}

#[test]
fn diff_mode_reports_differences_without_writing() {
    let manifest = manifest_with_region("[dependencies]");
    let new_contents = "[dependencies]\nserde = \"1\"\n".to_string();
    let decision = reconcile(&manifest, &new_contents, true);
    assert!(matches!(&decision.outcome, RunOutcome::DifferencesPresent));
    assert!(!decision.write_needed);
    assert_eq!(exit_code(&decision.outcome), 1);
}

#[test]
fn diff_mode_agrees_with_semantic_check() {
    // The hunk set is empty exactly when the semantic check reports
    // unchanged: same pair, both modes.
    let manifest = manifest_with_region("[dependencies]");
    let same = "[dependencies]\n".to_string();
    let different = "[dependencies] \n".to_string();
    assert!(matches!(reconcile(&manifest, &same, true).outcome, RunOutcome::NoOpNeeded));
    assert!(matches!(reconcile(&manifest, &same, false).outcome, RunOutcome::NoOpNeeded));
    assert!(!matches!(reconcile(&manifest, &different, true).outcome, RunOutcome::NoOpNeeded));
    assert!(!matches!(reconcile(&manifest, &different, false).outcome, RunOutcome::NoOpNeeded));
}

#[test]
fn missing_markers_are_rejected() {
    let contents = "[package]\nname = \"workspace-hack\"\n".to_string();
    assert!(reconcile_contents("Cargo.toml", contents, &"x\n".to_string(), false).is_none());
}

#[test]
fn reconcile_from_raw_contents_matches_reconcile() {
    let contents = contents_with_region("[dependencies]");
    let decision = reconcile_contents("Cargo.toml", contents, &"[dependencies]\n".to_string(), false)
        .expect("markers are present");
    assert!(matches!(&decision.outcome, RunOutcome::NoOpNeeded));
    assert!(!decision.write_needed);
}

#[test]
fn disable_overwrites_generated_region() {
    let manifest = manifest_with_region("[dependencies]\nserde = \"1\"");
    let decision = reconcile(&manifest, &disable_contents(), false);
    assert!(matches!(&decision.outcome, RunOutcome::AppliedSuccessfully));
    assert!(decision.write_needed);
}

#[test]
fn unrecognized_registry_is_advisory_and_writes_nothing() {
    let generated = GenerationResult::UnrecognizedRegistry {
        package: "internal-dep".to_string(),
        version: "0.3.1".to_string(),
        registry_url: "https://registry.example.com".to_string(),
    };
    let err = match generation_triage(generated) {
        Err(err) => err,
        Ok(_) => panic!("expected the advisory error"),
    };
    match &err {
        CommandError::UnrecognizedRegistry { package, registry_url, .. } => {
            assert_eq!(package, "internal-dep");
            assert_eq!(registry_url, "https://registry.example.com");
        }
        _ => panic!("expected UnrecognizedRegistry"),
    }
    // The advisory exit status, distinct from the general failure status;
    // no contents were produced, so nothing can be written.
    assert_eq!(exit_code(&RunOutcome::Failed(err)), 102);
}

#[test]
fn generation_success_passes_contents_through() {
    let generated = GenerationResult::Generated {
        contents: "[dependencies]\n".to_string(),
    };
    assert_eq!(generation_triage(generated).unwrap(), "[dependencies]\n");
}

#[test]
fn generation_failure_is_general() {
    let generated = GenerationResult::Failed {
        cause: "metadata went away".to_string(),
    };
    match generation_triage(generated) {
        Err(CommandError::GenerationError { cause }) => {
            assert_eq!(cause, "metadata went away");
        }
        _ => panic!("expected GenerationError"),
    }
}

#[test]
fn lock_regeneration_failure_is_a_warning() {
    let (outcome, warning) = post_apply_outcome(false, "cargo update failed".to_string());
    assert!(matches!(&outcome, RunOutcome::AppliedSuccessfully));
    match warning {
        Some(CommandError::LockRegenerationFailed { cause }) => {
            assert_eq!(cause, "cargo update failed");
        }
        _ => panic!("expected the lock-regeneration warning"),
    }
    let (outcome_ok, none) = post_apply_outcome(true, String::new());
    assert!(matches!(&outcome_ok, RunOutcome::AppliedSuccessfully));
    assert!(none.is_none());
}

#[test]
fn disable_plan_holds_the_placeholder() {
    let plan = disable_plan();
    assert_eq!(plan.ops.len(), 1);
    match &plan.ops[0] {
        Operation::SetGeneratedContents { contents } => {
            assert!(contents.starts_with("\n# Disabled by running"));
            assert_eq!(contents, &disable_contents());
        }
        _ => panic!("expected the generated-contents overwrite"),
    }
}

#[test]
fn first_failing_operation_stops_the_apply() {
    let outcome = apply_outcome(Some((2, "permission denied".to_string())));
    match &outcome {
        RunOutcome::Failed(CommandError::ApplyFailed { op_index, cause }) => {
            assert_eq!(*op_index, 2);
            assert_eq!(cause, "permission denied");
        }
        _ => panic!("expected ApplyFailed"),
    }
    assert_eq!(exit_code(&outcome), 101);
    assert!(matches!(apply_outcome(None), RunOutcome::AppliedSuccessfully));
}
