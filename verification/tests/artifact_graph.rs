use commandagent::artifact_graph::{
    lifecycle_for_path, recovery_target_admissible, role_for_path, source_like_paths, ArtifactGraph,
    ArtifactLifecycle, ArtifactRole,
};
use commandagent::plan::{ExpectedResult, StepKind, StepPlan, StepPlanStep, WorkIntent};
use commandagent::correction_evidence::ContractEvidence;

fn strings(values: &[&str]) -> Vec<String> {
    values.iter().map(|v| v.to_string()).collect()
}

#[test]
fn contract_evidence_graph_names_manifest_and_route_edges() {
    let evidence = ContractEvidence::new("profile_verification")
        .with_violated_contract("nextjs_route_not_integrated")
        .with_reason_code("nextjs_route_not_integrated")
        .with_active_job("route_integration_repair")
        .with_required_paths(strings(&["app/page.tsx"]))
        .with_candidate_artifacts(strings(&[
            "app/page.tsx",
            "components/Game.tsx",
            "components/GameBoard.tsx",
        ]))
        .with_repair_target("components/GameBoard.tsx");

    let graph = ArtifactGraph::from_contract_evidence(&evidence);

    assert_eq!(
        graph.node("components/GameBoard.tsx").unwrap().lifecycle,
        ArtifactLifecycle::IntegrationTarget
    );
    assert_eq!(
        graph.integration_targets_for("components/Game.tsx"),
        vec!["app/page.tsx"]
    );
}

#[test]
fn dependency_evidence_points_to_manifest() {
    let evidence = ContractEvidence::new("verifier")
        .with_reason_code("dependency_missing")
        .with_active_job("setup_bootstrap")
        .with_setup_implication("setup_blocker");

    let graph = ArtifactGraph::from_contract_evidence(&evidence);

    assert_eq!(
        graph.setup_manifest_for("app/page.tsx").as_deref(),
        Some("package.json")
    );
}

#[test]
fn generated_outputs_are_not_recovery_targets() {
    let role = role_for_path("node_modules/react/index.js", ArtifactLifecycle::Existing);

    assert_eq!(role, ArtifactRole::DependencyCache);
    assert!(!recovery_target_admissible(role));
}

#[test]
fn adding_a_path_twice_keeps_one_node_and_merges_lifecycle() {
    let mut graph = ArtifactGraph::new();
    graph.add_path("./src/lib.rs", ArtifactLifecycle::Required, "first");
    graph.add_path("src/lib.rs", ArtifactLifecycle::Existing, "second");
    graph.add_path("   ", ArtifactLifecycle::Required, "blank");
    assert_eq!(graph.nodes().len(), 1);
    let node = graph.node("src\\lib.rs").unwrap();
    assert_eq!(node.lifecycle, ArtifactLifecycle::Existing);
    assert_eq!(node.source, "first");
    assert_eq!(node.role, ArtifactRole::Implementation);
    assert!(!graph.is_future_required("src/lib.rs"));
}

#[test]
fn summary_names_role_lifecycle_and_source_of_first_eight_nodes() {
    let mut graph = ArtifactGraph::new();
    for i in 0..10 {
        graph.add_path(&format!("docs/page{i}.md"), ArtifactLifecycle::ToBeCreated, "plan");
    }
    let summary = graph.summary();
    assert_eq!(summary.len(), 8);
    assert_eq!(
        summary[0],
        "docs/page0.md role=docs lifecycle=to_be_created source=plan"
    );
    assert!(graph.is_future_required("docs/page9.md"));
}

#[test]
fn roles_follow_path_shape() {
    assert_eq!(role_for_path("package.json", ArtifactLifecycle::Required), ArtifactRole::SetupManifest);
    assert_eq!(role_for_path("tsconfig.json", ArtifactLifecycle::Required), ArtifactRole::SetupConfig);
    assert_eq!(role_for_path("app/page.tsx", ArtifactLifecycle::Required), ArtifactRole::Entrypoint);
    assert_eq!(role_for_path("tests/cli.rs", ArtifactLifecycle::Required), ArtifactRole::Test);
    assert_eq!(role_for_path("README.md", ArtifactLifecycle::Required), ArtifactRole::Docs);
    assert_eq!(
        role_for_path("components/Panel.tsx", ArtifactLifecycle::IntegrationTarget),
        ArtifactRole::IntegrationTarget
    );
    assert_eq!(role_for_path("dist/app.js", ArtifactLifecycle::Required), ArtifactRole::GeneratedOutput);
    assert_eq!(role_for_path("step:verify", ArtifactLifecycle::Required), ArtifactRole::Unknown);
    assert_eq!(role_for_path("notes.bin", ArtifactLifecycle::Required), ArtifactRole::Unknown);
}

#[test]
fn relations_are_not_duplicated() {
    let evidence = ContractEvidence::new("g")
        .with_reason_code("nextjs_route_not_integrated")
        .with_candidate_artifacts(strings(&["app/page.tsx", "components/A.tsx"]));
    let graph = ArtifactGraph::from_contract_evidence(&evidence);
    assert_eq!(graph.integration_targets_for("./components/A.tsx"), vec!["app/page.tsx"]);
    assert_eq!(graph.setup_manifest_for("x"), None);
}

fn inspect_plan(goal: &str) -> StepPlan {
    StepPlan {
        goal: goal.to_string(),
        profile: "rust".to_string(),
        style: "default".to_string(),
        intent: WorkIntent::Modify,
        required_artifacts: Vec::new(),
        steps: vec![StepPlanStep {
            id: "inspect-lib".to_string(),
            kind: StepKind::Inspect,
            instruction: "Inspect src/lib.rs".to_string(),
            expected_result: ExpectedResult::Pass,
            expected_paths: vec!["src/lib.rs".to_string()],
            verify: Vec::new(),
        }],
    }
}

#[test]
fn future_required_artifact_is_visible_for_inspect_violation() {
    let plan = inspect_plan("inspect missing future file");

    let workspace: Vec<String> = Vec::new();
    let graph = ArtifactGraph::from_step_plan(&plan, Some(&workspace));

    assert!(graph.is_future_required("src/lib.rs"));
    assert_eq!(graph.node("src/lib.rs").unwrap().role, ArtifactRole::Implementation);
}

#[test]
fn existing_artifact_is_not_future_required() {
    let plan = inspect_plan("inspect existing file");

    let workspace = strings(&["src/lib.rs"]);
    let graph = ArtifactGraph::from_step_plan(&plan, Some(&workspace));

    assert!(!graph.is_future_required("src/lib.rs"));
    assert_eq!(graph.node("src/lib.rs").unwrap().lifecycle, ArtifactLifecycle::Existing);
}

#[test]
fn plan_graph_collects_required_expected_and_verified_paths() {
    let plan = StepPlan {
        goal: "build".to_string(),
        profile: "rust".to_string(),
        style: "default".to_string(),
        intent: WorkIntent::New,
        required_artifacts: strings(&["README.md"]),
        steps: vec![StepPlanStep {
            id: "write-main".to_string(),
            kind: StepKind::Create,
            instruction: "Create src/main.rs".to_string(),
            expected_result: ExpectedResult::Pass,
            expected_paths: strings(&["./src/main.rs", "Cargo.toml"]),
            verify: strings(&["cargo run --bin demo (src/main.rs) tests/smoke.rs."]),
        }],
    };
    let graph = ArtifactGraph::from_step_plan(&plan, None);
    let paths: Vec<&str> = graph.nodes().iter().map(|n| n.path.as_str()).collect();
    assert_eq!(paths, vec!["README.md", "src/main.rs", "Cargo.toml", "tests/smoke.rs"]);
    assert_eq!(graph.node("README.md").unwrap().lifecycle, ArtifactLifecycle::Required);
    assert_eq!(graph.node("src/main.rs").unwrap().lifecycle, ArtifactLifecycle::ToBeCreated);
    assert_eq!(graph.node("Cargo.toml").unwrap().lifecycle, ArtifactLifecycle::SetupManifest);
    assert_eq!(graph.node("tests/smoke.rs").unwrap().lifecycle, ArtifactLifecycle::Required);
    assert_eq!(graph.node("README.md").unwrap().source, "plan.required_artifacts");
    assert_eq!(graph.node("tests/smoke.rs").unwrap().source, "write-main");
}

#[test]
fn lifecycles_of_planned_paths() {
    assert_eq!(lifecycle_for_path(None, "dist/app.js", StepKind::Create), ArtifactLifecycle::GeneratedOutput);
    assert_eq!(lifecycle_for_path(None, "package.json", StepKind::Inspect), ArtifactLifecycle::SetupManifest);
    let ws = strings(&["src/lib.rs"]);
    assert_eq!(lifecycle_for_path(Some(&ws), "src/lib.rs", StepKind::Create), ArtifactLifecycle::Existing);
    assert_eq!(lifecycle_for_path(Some(&ws), "src/new.rs", StepKind::Repair), ArtifactLifecycle::ToBeCreated);
    assert_eq!(lifecycle_for_path(Some(&ws), "src/new.rs", StepKind::Verify), ArtifactLifecycle::Required);
}

#[test]
fn source_like_paths_trim_punctuation_and_keep_sources() {
    assert_eq!(
        source_like_paths("node ./scripts/check.js, (src/app.tsx) README.md `lib/x.py`"),
        strings(&["/scripts/check.js", "src/app.tsx", "lib/x.py"])
    );
    assert!(source_like_paths("npm run build").is_empty());
}
