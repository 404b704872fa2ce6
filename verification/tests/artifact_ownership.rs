use commandagent::artifact_graph::{ArtifactGraph, ArtifactLifecycle, ArtifactRole};
use commandagent::artifact_ownership::{
    classify_artifact_ownership, source_of_truth_for, ArtifactOwnership,
};
use commandagent::workspace_scope::WorkspaceScope;

#[test]
fn artifact_ownership_rejects_dependency_cache() {
    let graph = ArtifactGraph::new();
    let scope = WorkspaceScope::greenfield();

    let decision = classify_artifact_ownership(
        &graph,
        &scope,
        "node_modules/react/index.js",
        ArtifactRole::DependencyCache,
        "failure_evidence",
        &[],
    );

    assert_eq!(decision.ownership, ArtifactOwnership::OutOfScope);
    assert!(decision.reason.contains("dependency_cache"));
    assert!(!decision.admissible_for_repair);
    assert_eq!(decision.ownership_subreason, "dependency_cache");
}

#[test]
fn artifact_ownership_promotes_edited_path() {
    let graph = ArtifactGraph::new();
    let scope = WorkspaceScope::greenfield();

    let decision = classify_artifact_ownership(
        &graph,
        &scope,
        "src/main.rs",
        ArtifactRole::Implementation,
        "artifact_graph_relation",
        &["src/main.rs".to_string()],
    );

    assert_eq!(decision.ownership, ArtifactOwnership::Owned);
    assert_eq!(decision.reason, "changed_by_tool");
    assert_eq!(decision.source_of_truth, "artifact_graph_relation");
    assert!(decision.admissible_for_repair);
}

#[test]
fn graph_node_owns_required_artifact() {
    let mut graph = ArtifactGraph::new();
    graph.add_path(
        "app/page.tsx",
        ArtifactLifecycle::Required,
        "contract.required_paths",
    );
    let scope = WorkspaceScope::from_graph(&graph);

    let decision = classify_artifact_ownership(
        &graph,
        &scope,
        "app/page.tsx",
        ArtifactRole::Entrypoint,
        "artifact_graph_relation",
        &[],
    );

    assert_eq!(decision.ownership, ArtifactOwnership::Owned);
    assert!(decision.reason.contains("contract.required_paths"));
    assert_eq!(
        decision.workspace_scope,
        "kind=single_project_root roots=[.]"
    );
}

#[test]
fn read_only_observation_is_not_owned_without_graph_or_change() {
    let graph = ArtifactGraph::new();
    let scope = WorkspaceScope::greenfield();

    let decision = classify_artifact_ownership(
        &graph,
        &scope,
        "src/lib.rs",
        ArtifactRole::Implementation,
        "tool_read_record",
        &[],
    );

    assert_eq!(decision.ownership, ArtifactOwnership::CandidateOnly);
    assert_eq!(decision.source_of_truth, "tool_record");
    assert_eq!(decision.ownership_subreason, "read_only_observation");
}

#[test]
fn step_targets_are_owned_and_outside_paths_are_not() {
    let graph = ArtifactGraph::new();
    let scope = WorkspaceScope::greenfield();
    let step = classify_artifact_ownership(&graph, &scope, "step:build", ArtifactRole::Unknown, "plan.steps", &[]);
    assert_eq!(step.ownership, ArtifactOwnership::Owned);
    assert_eq!(step.reason, "step_contract_target");
    let outside = classify_artifact_ownership(&graph, &scope, "/etc/hosts", ArtifactRole::Implementation, "failure_evidence", &[]);
    assert_eq!(outside.ownership, ArtifactOwnership::OutOfScope);
    assert_eq!(outside.reason, "outside_workspace_scope");
    assert_eq!(outside.ownership_subreason, "outside_workspace_scope");
    assert_eq!(outside.workspace_scope, "kind=greenfield roots=[.]");
}

#[test]
fn deterministic_sources_own_their_targets() {
    let graph = ArtifactGraph::new();
    let scope = WorkspaceScope::greenfield();
    let decision = classify_artifact_ownership(&graph, &scope, "src/a.rs", ArtifactRole::Implementation, "plan_lint.required", &[]);
    assert_eq!(decision.ownership, ArtifactOwnership::Owned);
    assert_eq!(decision.reason, "deterministic_source:plan_lint.required");
    assert_eq!(decision.source_of_truth, "plan_lint.required");
    assert_eq!(source_of_truth_for("contract.required_paths"), "artifact_graph");
    assert_eq!(source_of_truth_for("setup_manifest"), "setup_contract");
    assert_eq!(source_of_truth_for("workspace_observation"), "filesystem");
}
