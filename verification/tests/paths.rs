//! The workspace locator, initialization planning, and configuration
//! resolution.

use cargo_hakari::commands::{
    choose_config, default_config_path, derive_package_name, explain_lookup, init_plan,
};
use cargo_hakari::controller::run_controller;
use cargo_hakari::graph::{PackageInfo, WorkspaceGraph};
use cargo_hakari::locate::cwd_rel_to_workspace_rel;
use cargo_hakari::outcome::{exit_code, CommandError, RunOutcome};
use cargo_hakari::plan::Operation;

#[test]
fn absolute_path_inside_workspace() {
    let result = cwd_rel_to_workspace_rel(
        &"/ws/crates/foo".to_string(),
        &None,
        &"/ws".to_string(),
    );
    assert_eq!(result.unwrap(), "crates/foo");
}

#[test]
fn relative_path_joined_to_cwd() {
    let result = cwd_rel_to_workspace_rel(
        &"crates/foo".to_string(),
        &Some("/ws".to_string()),
        &"/ws".to_string(),
    );
    assert_eq!(result.unwrap(), "crates/foo");
}

#[test]
fn workspace_root_itself_resolves_to_empty() {
    let result = cwd_rel_to_workspace_rel(&"/ws".to_string(), &None, &"/ws".to_string());
    assert_eq!(result.unwrap(), "");
}

#[test]
fn path_outside_workspace_fails() {
    let result = cwd_rel_to_workspace_rel(&"/other/x".to_string(), &None, &"/ws".to_string());
    match result {
        Err(CommandError::PathOutsideWorkspace { path, workspace_root }) => {
            assert_eq!(path, "/other/x");
            assert_eq!(workspace_root, "/ws");
        }
        _ => panic!("expected PathOutsideWorkspace"),
    }
}

#[test]
fn sibling_prefix_is_not_inside() {
    // "/wsx" continues "/ws" without a separator: outside.
    let result = cwd_rel_to_workspace_rel(&"/wsx/foo".to_string(), &None, &"/ws".to_string());
    assert!(matches!(result, Err(CommandError::PathOutsideWorkspace { .. })));
}

#[test]
fn unrepresentable_cwd_fails_for_relative_paths() {
    let result = cwd_rel_to_workspace_rel(&"crates/foo".to_string(), &None, &"/ws".to_string());
    assert!(matches!(result, Err(CommandError::InvalidEncoding)));
}

#[test]
fn package_name_derived_from_path() {
    let name = derive_package_name(&"crates/ws-hack".to_string(), &None).unwrap();
    assert_eq!(name, "ws-hack");
    let explicit =
        derive_package_name(&"crates/ws-hack".to_string(), &Some("other".to_string())).unwrap();
    assert_eq!(explicit, "other");
}

#[test]
fn trailing_separator_gives_no_name() {
    assert!(matches!(
        derive_package_name(&"crates/".to_string(), &None),
        Err(CommandError::InvalidPackageName { .. })
    ));
}

#[test]
fn init_on_fresh_path_plans_skeleton_and_config() {
    // Fresh workspace-relative path, no existing configuration, default
    // flags: the plan creates the skeleton and writes the stub config, and
    // with auto-confirm both apply, exiting 0.
    let path = "crates/ws-hack".to_string();
    let name = derive_package_name(&path, &None).unwrap();
    let plan = init_plan(&path, &name, false, false).unwrap();
    assert_eq!(plan.ops.len(), 2);
    match &plan.ops[0] {
        Operation::CreatePackage { path: p, name: n } => {
            assert_eq!(p, "crates/ws-hack");
            assert_eq!(n, "ws-hack");
        }
        _ => panic!("expected the package skeleton"),
    }
    match &plan.ops[1] {
        Operation::WriteConfig { path: p } => assert_eq!(p, ".config/hakari.toml"),
        _ => panic!("expected the stub configuration"),
    }
    let graph = WorkspaceGraph {
        packages: vec![PackageInfo { name: "a".to_string(), has_edge: false }],
        aggregation_index: 0,
    };
    let (outcome, _) = run_controller(graph, &plan, false, true, false);
    assert!(matches!(&outcome, RunOutcome::AppliedSuccessfully));
    assert_eq!(exit_code(&outcome), 0);
}

#[test]
fn init_skip_config_plans_only_the_skeleton() {
    let plan = init_plan(&"crates/ws-hack".to_string(), &"ws-hack".to_string(), true, false)
        .unwrap();
    assert_eq!(plan.ops.len(), 1);
    assert!(matches!(&plan.ops[0], Operation::CreatePackage { .. }));
}

#[test]
fn init_on_occupied_path_fails() {
    match init_plan(&"crates/ws-hack".to_string(), &"ws-hack".to_string(), false, true) {
        Err(CommandError::PackageAlreadyExists { path }) => assert_eq!(path, "crates/ws-hack"),
        _ => panic!("expected PackageAlreadyExists"),
    }
}

#[test]
fn init_rejects_bad_names() {
    for bad in ["", "9lives", "-dash", "has space", "dot.name"] {
        assert!(matches!(
            init_plan(&"crates/x".to_string(), &bad.to_string(), false, false),
            Err(CommandError::InvalidPackageName { .. })
        ));
    }
    assert!(init_plan(&"crates/x".to_string(), &"Ok_name-2".to_string(), false, false).is_ok());
}

#[test]
fn config_prefers_primary_then_fallback() {
    let picked = choose_config(Some("primary".to_string()), Some("fallback".to_string()));
    assert_eq!(picked.unwrap(), (true, "primary".to_string()));
    let picked = choose_config(None, Some("fallback".to_string()));
    assert_eq!(picked.unwrap(), (false, "fallback".to_string()));
    match choose_config(None, None) {
        Err(CommandError::ConfigNotFound { primary, fallback }) => {
            assert_eq!(primary, default_config_path());
            assert_eq!(fallback, ".guppy/hakari.toml");
        }
        _ => panic!("expected ConfigNotFound"),
    }
}

#[test]
fn explain_finds_dependency_by_name() {
    let deps = vec!["serde".to_string(), "rand".to_string()];
    assert_eq!(explain_lookup(&deps, &"rand".to_string()).unwrap(), 1);
    match explain_lookup(&deps, &"tokio".to_string()) {
        Err(CommandError::DependencyNotFound { name }) => assert_eq!(name, "tokio"),
        _ => panic!("expected DependencyNotFound"),
    }
}

#[test]
fn cwd_with_trailing_separator_joins_cleanly() {
    let result = cwd_rel_to_workspace_rel(
        &"crates/foo".to_string(),
        &Some("/ws/".to_string()),
        &"/ws".to_string(),
    );
    assert_eq!(result.unwrap(), "crates/foo");
}
