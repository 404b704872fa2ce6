use commandagent::minimal_loop::session::missing_artifacts;
use commandagent::plan::{ExpectedResult, StepKind, StepPlan, StepPlanStep, WorkIntent};
use commandagent::plan_lint::{lint_step_plan_with_workspace, PlanLintError};

fn strings(values: &[&str]) -> Vec<String> {
    values.iter().map(|v| v.to_string()).collect()
}

fn plan(
    goal: &str,
    profile: &str,
    intent: WorkIntent,
    required: &[&str],
    step: (&str, StepKind, &str, &[&str], &[&str]),
) -> StepPlan {
    let (id, kind, instruction, paths, verify) = step;
    StepPlan {
        goal: goal.to_string(),
        profile: profile.to_string(),
        style: "default".to_string(),
        intent,
        required_artifacts: strings(required),
        steps: vec![StepPlanStep {
            id: id.to_string(),
            kind,
            instruction: instruction.to_string(),
            expected_result: ExpectedResult::Pass,
            expected_paths: strings(paths),
            verify: strings(verify),
        }],
    }
}

#[test]
fn rejects_inspect_expected_paths_missing_from_workspace() {
    let workspace = strings(&["Cargo.toml"]);
    let plan = plan(
        "inspect rust project",
        "rust",
        WorkIntent::Modify,
        &["Cargo.toml", "src/lib.rs"],
        (
            "inspect-project-structure",
            StepKind::Inspect,
            "Inspect existing Cargo.toml, src/lib.rs, and src/main.rs.",
            &["Cargo.toml", "src/lib.rs"],
            &["test -f Cargo.toml", "test -f src/lib.rs"],
        ),
    );

    let err = lint_step_plan_with_workspace(&plan, Some(&workspace)).unwrap_err();

    match err {
        PlanLintError::ContractViolation { step_id, reason, evidence } => {
            assert_eq!(step_id, "inspect-project-structure");
            assert!(reason.contains("missing src/lib.rs"));
            assert_eq!(evidence.violated_contract.as_deref(), Some("inspect_future_artifact"));
            assert_eq!(evidence.missing_paths, vec!["src/lib.rs"]);
            assert_eq!(evidence.active_job.as_deref(), Some("explicit_stop"));
            assert_eq!(evidence.explicit_stop_reason.as_deref(), Some("inspect_future_artifact"));
            assert!(evidence.artifact_graph_summary.iter().any(|line| line.contains("src/lib.rs")));
        }
        other => panic!("expected artifact graph contract violation, got {other:?}"),
    }
}

#[test]
fn accepts_inspect_expected_paths_that_exist_in_workspace() {
    let workspace = strings(&["Cargo.toml"]);
    let plan = plan(
        "inspect rust project",
        "rust",
        WorkIntent::Modify,
        &[],
        ("inspect-cargo", StepKind::Inspect, "Inspect existing Cargo.toml.", &["Cargo.toml"], &["test -f Cargo.toml"]),
    );

    lint_step_plan_with_workspace(&plan, Some(&workspace)).unwrap();
}

#[test]
fn rejects_required_artifact_without_mutation_step_owner() {
    let workspace: Vec<String> = Vec::new();
    let plan = plan(
        "create rust app",
        "rust",
        WorkIntent::New,
        &["Cargo.toml", "src/main.rs"],
        ("write-main", StepKind::Create, "Create src/main.rs.", &["src/main.rs"], &["test -f src/main.rs"]),
    );

    let err = lint_step_plan_with_workspace(&plan, Some(&workspace)).unwrap_err();

    match err {
        PlanLintError::ContractViolation { step_id, reason, evidence } => {
            assert_eq!(step_id, "plan");
            assert!(reason.contains("required_artifact `Cargo.toml` is not owned"), "{reason}");
            assert_eq!(evidence.violated_contract.as_deref(), Some("required_artifact_step_ownership"));
            assert_eq!(evidence.reason_code.as_deref(), Some("required_artifact_missing_step_owner"));
            assert_eq!(evidence.target_field.as_deref(), Some("steps.expected_paths"));
            assert_eq!(evidence.target_path.as_deref(), Some("Cargo.toml"));
            assert_eq!(evidence.repair_target.as_deref(), Some("Cargo.toml"));
            assert_eq!(evidence.repair_action.as_deref(), Some("add_required_artifact_owner_step"));
        }
        other => panic!("expected required artifact ownership violation, got {other:?}"),
    }
}

#[test]
fn accepts_required_artifact_that_already_exists_without_owner_step() {
    let workspace = strings(&["Cargo.toml"]);
    let plan = plan(
        "update rust app",
        "rust",
        WorkIntent::Modify,
        &["Cargo.toml", "src/main.rs"],
        ("write-main", StepKind::Create, "Create src/main.rs.", &["src/main.rs"], &["test -f src/main.rs"]),
    );

    lint_step_plan_with_workspace(&plan, Some(&workspace)).unwrap();
}

#[test]
fn rejects_new_artifact_create_step_with_build_verifier() {
    let workspace: Vec<String> = Vec::new();
    let plan = plan(
        "create panel",
        "nextjs",
        WorkIntent::Modify,
        &[],
        (
            "create-panel",
            StepKind::Create,
            "Create components/AnalyticsPanel.tsx.",
            &["components/AnalyticsPanel.tsx"],
            &["test -f components/AnalyticsPanel.tsx", "npm run build"],
        ),
    );

    let err = lint_step_plan_with_workspace(&plan, Some(&workspace)).unwrap_err();

    assert_eq!(err, PlanLintError::MixedSetupAndVerify { step_id: "create-panel".to_string() });
}

#[test]
fn workspace_lint_accepts_existing_paths_in_verify_step() {
    let workspace = strings(&["app", "package.json", "app/page.tsx"]);
    let plan = plan(
        "verify app",
        "nextjs",
        WorkIntent::Modify,
        &[],
        (
            "verify-build",
            StepKind::Verify,
            "Verify npm run build.",
            &["package.json", "app/page.tsx"],
            &["npm run build"],
        ),
    );

    lint_step_plan_with_workspace(&plan, Some(&workspace)).unwrap();
}

#[test]
fn workspace_lint_accepts_existing_paths_in_verify_like_step() {
    let workspace = strings(&["app", "package.json", "app/page.tsx"]);
    let plan = plan(
        "verify app",
        "nextjs",
        WorkIntent::Modify,
        &[],
        (
            "install-and-build",
            StepKind::Setup,
            "Install dependencies if needed and verify npm run build.",
            &["package.json", "app/page.tsx"],
            &["npm run build"],
        ),
    );

    lint_step_plan_with_workspace(&plan, Some(&workspace)).unwrap();
}

#[test]
fn rejects_nextjs_root_drift_from_src_app_to_app() {
    let workspace = strings(&["src", "src/app", "src/app/page.tsx"]);
    let plan = plan(
        "add route",
        "nextjs",
        WorkIntent::Modify,
        &[],
        ("create-page", StepKind::Create, "Create app/page.tsx.", &["app/page.tsx"], &["test -f app/page.tsx"]),
    );

    let err = lint_step_plan_with_workspace(&plan, Some(&workspace)).unwrap_err();

    assert_eq!(
        err,
        PlanLintError::InvalidStepInstruction {
            step_id: "create-page".to_string(),
            reason: "Next.js workspace already uses src/app; creating app/page.tsx would split the app root unless this is an explicit migration"
                .to_string(),
        }
    );
}

#[test]
fn rejects_nextjs_root_drift_from_app_to_src_app() {
    let workspace = strings(&["app", "app/page.tsx"]);
    let plan = plan(
        "add route",
        "nextjs",
        WorkIntent::Modify,
        &[],
        (
            "create-page",
            StepKind::Create,
            "Create src/app/page.tsx.",
            &["src/app/page.tsx"],
            &["test -f src/app/page.tsx"],
        ),
    );

    let err = lint_step_plan_with_workspace(&plan, Some(&workspace)).unwrap_err();

    assert_eq!(
        err,
        PlanLintError::InvalidStepInstruction {
            step_id: "create-page".to_string(),
            reason: "Next.js workspace already uses app; creating src/app/page.tsx would split the app root unless this is an explicit migration"
                .to_string(),
        }
    );
}

#[test]
fn accepts_nextjs_explicit_root_migration() {
    let workspace = strings(&["src", "src/app", "src/app/page.tsx"]);
    let plan = plan(
        "migrate route",
        "nextjs",
        WorkIntent::Modify,
        &[],
        (
            "migrate-page",
            StepKind::Create,
            "Migrate the app root by creating app/page.tsx.",
            &["app/page.tsx"],
            &["test -f app/page.tsx"],
        ),
    );

    lint_step_plan_with_workspace(&plan, Some(&workspace)).unwrap();
}

#[test]
fn missing_artifacts_reports_only_absent_paths() {
    let expected = strings(&["present.txt", "missing.txt"]);

    let missing = missing_artifacts(&expected, &vec![true, false]);

    assert_eq!(missing, vec!["missing.txt"]);
}
