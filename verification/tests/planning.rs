//! Selection, membership planning, and the confirmation state machine on
//! concrete workspaces.

use cargo_hakari::controller::{plan_directive, run_controller, Directive};
use cargo_hakari::graph::{select, PackageInfo, WorkspaceGraph};
use cargo_hakari::outcome::{
    exit_code, verify_outcome, CommandError, RunOutcome, ValidationFailure,
};
use cargo_hakari::plan::{apply_plan, manage_deps_plan, remove_deps_plan, Operation};

fn pkg(name: &str, has_edge: bool) -> PackageInfo {
    PackageInfo {
        name: name.to_string(),
        has_edge,
    }
}

/// {a, b, c, workspace-hack}; a and b lack the edge, c has it.
fn sample_graph() -> WorkspaceGraph {
    WorkspaceGraph {
        packages: vec![
            pkg("a", false),
            pkg("b", false),
            pkg("c", true),
            pkg("workspace-hack", false),
        ],
        aggregation_index: 3,
    }
}

fn names(list: &[&str]) -> Vec<String> {
    list.iter().map(|s| s.to_string()).collect()
}

#[test]
fn select_empty_selects_all() {
    let graph = sample_graph();
    let sel = select(&Vec::new(), &graph).unwrap();
    assert_eq!(sel.member, vec![true, true, true, true]);
}

#[test]
fn select_named_selects_exactly_those() {
    let graph = sample_graph();
    let sel = select(&names(&["a", "b"]), &graph).unwrap();
    assert_eq!(sel.member, vec![true, true, false, false]);
}

#[test]
fn select_unknown_name_fails() {
    let graph = sample_graph();
    match select(&names(&["missing"]), &graph) {
        Err(CommandError::UnknownPackage { name }) => assert_eq!(name, "missing"),
        _ => panic!("expected UnknownPackage"),
    }
}

#[test]
fn manage_deps_with_exclusions() {
    // a and b gain the edge; c, excluded from the selection, loses it.
    let graph = sample_graph();
    let sel = select(&names(&["a", "b"]), &graph).unwrap();
    let plan = manage_deps_plan(&graph, &sel);
    assert_eq!(plan.ops.len(), 3);
    assert!(matches!(plan.ops[0], Operation::AddDependency { package_index: 0 }));
    assert!(matches!(plan.ops[1], Operation::AddDependency { package_index: 1 }));
    assert!(matches!(plan.ops[2], Operation::RemoveDependency { package_index: 2 }));

    // Dry-run: exit status 1, no edge mutated.
    let (outcome, after) = run_controller(graph, &plan, true, false, false);
    assert!(matches!(&outcome, RunOutcome::PendingDryRun));
    assert_eq!(exit_code(&outcome), 1);
    let edges: Vec<bool> = after.packages.iter().map(|p| p.has_edge).collect();
    assert_eq!(edges, vec![false, false, true, false]);
}

#[test]
fn manage_deps_apply_then_recompute_is_empty() {
    let graph = sample_graph();
    let sel = select(&names(&["a", "b"]), &graph).unwrap();
    let plan = manage_deps_plan(&graph, &sel);
    let applied = apply_plan(graph, &plan);
    let edges: Vec<bool> = applied.packages.iter().map(|p| p.has_edge).collect();
    assert_eq!(edges, vec![true, true, false, false]);
    let again = manage_deps_plan(&applied, &sel);
    assert!(again.ops.is_empty());
}

#[test]
fn remove_deps_apply_then_recompute_is_empty() {
    let graph = sample_graph();
    let sel = select(&names(&["c"]), &graph).unwrap();
    let plan = remove_deps_plan(&graph, &sel);
    assert_eq!(plan.ops.len(), 1);
    assert!(matches!(plan.ops[0], Operation::RemoveDependency { package_index: 2 }));
    let applied = apply_plan(graph, &plan);
    let again = remove_deps_plan(&applied, &sel);
    assert!(again.ops.is_empty());
}

#[test]
fn full_workspace_selection_never_removes() {
    // The default full-workspace selection adds missing edges but removes
    // nothing, even though c is the only package with an edge.
    let graph = sample_graph();
    let sel = select(&Vec::new(), &graph).unwrap();
    let plan = manage_deps_plan(&graph, &sel);
    assert_eq!(plan.ops.len(), 2);
    assert!(matches!(plan.ops[0], Operation::AddDependency { package_index: 0 }));
    assert!(matches!(plan.ops[1], Operation::AddDependency { package_index: 1 }));
}

#[test]
fn converged_graph_yields_empty_plan_and_no_op() {
    let graph = WorkspaceGraph {
        packages: vec![pkg("a", true), pkg("b", true), pkg("workspace-hack", false)],
        aggregation_index: 2,
    };
    let sel = select(&Vec::new(), &graph).unwrap();
    let plan = manage_deps_plan(&graph, &sel);
    assert!(plan.ops.is_empty());
    let (outcome, after) = run_controller(graph, &plan, false, true, false);
    assert!(matches!(&outcome, RunOutcome::NoOpNeeded));
    assert_eq!(exit_code(&outcome), 0);
    assert!(after.packages.iter().all(|p| p.name != "a" || p.has_edge));
}

#[test]
fn declined_confirmation_mutates_nothing() {
    let graph = sample_graph();
    let sel = select(&Vec::new(), &graph).unwrap();
    let plan = manage_deps_plan(&graph, &sel);
    assert!(!plan.ops.is_empty());
    let (outcome, after) = run_controller(graph, &plan, false, false, false);
    assert!(matches!(&outcome, RunOutcome::UserDeclined));
    assert_eq!(exit_code(&outcome), 1);
    let edges: Vec<bool> = after.packages.iter().map(|p| p.has_edge).collect();
    assert_eq!(edges, vec![false, false, true, false]);
}

#[test]
fn auto_confirm_applies() {
    let graph = sample_graph();
    let sel = select(&Vec::new(), &graph).unwrap();
    let plan = manage_deps_plan(&graph, &sel);
    let (outcome, after) = run_controller(graph, &plan, false, true, false);
    assert!(matches!(&outcome, RunOutcome::AppliedSuccessfully));
    assert_eq!(exit_code(&outcome), 0);
    let edges: Vec<bool> = after.packages.iter().map(|p| p.has_edge).collect();
    assert_eq!(edges, vec![true, true, true, false]);
}

#[test]
fn plan_directive_transitions() {
    let graph = sample_graph();
    let sel = select(&Vec::new(), &graph).unwrap();
    let plan = manage_deps_plan(&graph, &sel);
    assert!(matches!(plan_directive(&plan, true, false), Directive::FinishDryRun));
    assert!(matches!(plan_directive(&plan, false, true), Directive::Apply));
    assert!(matches!(plan_directive(&plan, false, false), Directive::AskConfirmation));
    let empty = remove_deps_plan(&graph, &select(&names(&["a"]), &graph).unwrap());
    assert!(matches!(plan_directive(&empty, true, false), Directive::FinishNoOp));
}

#[test]
fn verify_outcome_maps_failures() {
    let ok = verify_outcome(&Vec::new());
    assert_eq!(exit_code(&ok), 0);
    let failures = vec![ValidationFailure {
        dependency: "serde".to_string(),
        details: "two feature sets".to_string(),
    }];
    let bad = verify_outcome(&failures);
    assert!(matches!(&bad, RunOutcome::ValidationFailed));
    assert_eq!(exit_code(&bad), 1);
}

#[test]
fn failure_exit_codes() {
    let advisory = RunOutcome::Failed(CommandError::UnrecognizedRegistry {
        package: "dep".to_string(),
        version: "1.0.0".to_string(),
        registry_url: "https://example.com".to_string(),
    });
    assert_eq!(exit_code(&advisory), 102);
    let general = RunOutcome::Failed(CommandError::GenerationError {
        cause: "broken".to_string(),
    });
    assert_eq!(exit_code(&general), 101);
}

#[test]
fn first_unknown_name_is_reported() {
    let graph = sample_graph();
    match select(&names(&["a", "zzz", "yyy"]), &graph) {
        Err(CommandError::UnknownPackage { name }) => assert_eq!(name, "zzz"),
        _ => panic!("expected UnknownPackage"),
    }
}
