use commandagent::plan::{ExpectedResult, StepKind, StepPlan, StepPlanStep, WorkIntent};
use commandagent::plan_store::{plan_file_path, plans_dir, slug};
use commandagent::plan_yaml::{parse_step_plan_yaml, render_step_plan_yaml, validate_step_plan};

fn sample_plan() -> StepPlan {
    StepPlan {
        goal: "Build docs".to_string(),
        profile: "docs".to_string(),
        style: "default".to_string(),
        intent: WorkIntent::Document,
        required_artifacts: vec!["README.md".to_string()],
        steps: vec![StepPlanStep {
            id: "write-readme".to_string(),
            kind: StepKind::Create,
            instruction: "Create README.md with usage notes.".to_string(),
            expected_result: ExpectedResult::Pass,
            expected_paths: vec!["README.md".to_string()],
            verify: vec!["cat README.md".to_string()],
        }],
    }
}

#[test]
fn saves_plan_under_commandagent_plans() {
    let plan = sample_plan();
    validate_step_plan(&plan).unwrap();

    let path = plan_file_path(1700000000123, &plan.goal);

    assert!(path.starts_with(".commandagent/plans"));
    assert_eq!(path, ".commandagent/plans/plan-1700000000123-build-docs.yaml");
    let loaded = parse_step_plan_yaml(&render_step_plan_yaml(&plan)).unwrap();
    assert_eq!(loaded, plan);
}

#[test]
fn slug_rules() {
    assert_eq!(slug("Build docs"), Some("build-docs".to_string()));
    assert_eq!(slug("  --Hello__World!!  "), Some("hello-world".to_string()));
    assert_eq!(slug("a - b"), Some("a-b".to_string()));
    assert_eq!(slug("!!!"), None);
    assert_eq!(slug(""), None);
    assert_eq!(slug("Ünïcode ok"), Some("ncode-ok".to_string()));
    let long = "a".repeat(60);
    assert_eq!(slug(&long), Some("a".repeat(48)));
    let dashed = format!("{}-tail", "b".repeat(47));
    assert_eq!(slug(&dashed), Some("b".repeat(47)));
}

#[test]
fn plan_path_without_slug() {
    assert_eq!(plans_dir(), ".commandagent/plans");
    assert_eq!(plan_file_path(0, "???"), ".commandagent/plans/plan-0-step-plan.yaml");
    assert_eq!(plan_file_path(u128::MAX, "x"), format!(".commandagent/plans/plan-{}-x.yaml", u128::MAX));
}
