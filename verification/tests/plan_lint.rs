use commandagent::plan::{ExpectedResult, StepKind, StepPlan, StepPlanStep, WorkIntent};
use commandagent::plan_lint::{lint_step_plan, lint_step_plan_with_workspace, PlanLintError};


#[test]
fn plan_lint_accepts_generic_file_paths() {
    let plan = plan_with_paths("generic", vec!["README.md", "src/main.rs"]);

    lint_step_plan(&plan).unwrap();
}

#[test]
fn plan_lint_accepts_nextjs_verification_step_without_naming_every_file_in_instruction() {
    let plan = StepPlan {
        goal: "verify app".to_string(),
        profile: "nextjs".to_string(),
        style: "default".to_string(),
        intent: WorkIntent::New,
        required_artifacts: Vec::new(),
        steps: vec![StepPlanStep {
            id: "final-build-check".to_string(),
            kind: StepKind::Verify,
            instruction: "Run npm run build.".to_string(),
            expected_result: ExpectedResult::Pass,
            expected_paths: vec![
                "package.json".to_string(),
                "app/page.tsx".to_string(),
                "next.config.js".to_string(),
            ],
            verify: vec!["npm run build".to_string()],
        }],
    };

    lint_step_plan(&plan).unwrap();
}

#[test]
fn plan_lint_rejects_package_identifiers_as_expected_paths() {
    let plan = plan_with_paths("nextjs", vec!["next"]);

    let err = lint_step_plan(&plan).unwrap_err();

    assert!(matches!(err, PlanLintError::InvalidExpectedPath { .. }));
}

#[test]
fn plan_lint_rejects_json_property_paths_as_expected_paths() {
    let plan = plan_with_paths("nextjs", vec!["package.json:scripts.build"]);

    let err = lint_step_plan(&plan).unwrap_err();

    assert!(matches!(err, PlanLintError::InvalidExpectedPath { .. }));
}

#[test]
fn plan_lint_rejects_globs_as_expected_paths() {
    let plan = plan_with_paths("python", vec!["app/routes/*.py"]);

    let err = lint_step_plan(&plan).unwrap_err();

    assert!(matches!(err, PlanLintError::InvalidExpectedPath { .. }));
}

#[test]
fn plan_lint_rejects_alternative_paths_as_expected_paths() {
    let plan = plan_with_paths("nextjs", vec!["app/layout.tsx or app/layout.ts"]);

    let err = lint_step_plan(&plan).unwrap_err();

    assert!(matches!(err, PlanLintError::InvalidExpectedPath { .. }));
}

#[test]
fn plan_lint_rejects_version_strings_as_expected_paths() {
    let plan = plan_with_paths("nextjs", vec!["18.2.0"]);

    let err = lint_step_plan(&plan).unwrap_err();

    assert!(matches!(err, PlanLintError::InvalidExpectedPath { .. }));
}

#[test]
fn plan_lint_rejects_dependency_cache_paths_as_expected_paths() {
    let plan = plan_with_paths("nextjs", vec!["node_modules/.package-lock.json"]);

    let err = lint_step_plan(&plan).unwrap_err();

    assert!(matches!(err, PlanLintError::InvalidExpectedPath { .. }));
}

#[test]
fn plan_lint_rejects_compound_verifier_commands() {
    let mut plan = plan_with_paths("generic", vec!["README.md"]);
    plan.steps[0].verify = vec!["test -f README.md && grep -q usage README.md".to_string()];

    let err = lint_step_plan(&plan).unwrap_err();

    assert!(matches!(err, PlanLintError::InvalidVerifierCommand { .. }));
}

#[test]
fn plan_lint_accepts_quoted_semicolon_in_python_verifier() {
    let mut plan = plan_with_paths("python", vec!["app/main.py"]);
    plan.steps[0].verify =
        vec![r#"python -c "import ast; ast.parse(open('app/main.py').read())""#.to_string()];

    lint_step_plan(&plan).unwrap();
}

#[test]
fn plan_lint_rejects_unquoted_semicolon_in_verifier() {
    let mut plan = plan_with_paths("generic", vec!["README.md"]);
    plan.steps[0].verify = vec!["test -f README.md; cat README.md".to_string()];

    let err = lint_step_plan(&plan).unwrap_err();

    assert!(matches!(err, PlanLintError::InvalidVerifierCommand { .. }));
}

#[test]
fn plan_lint_rejects_unquoted_or_in_verifier() {
    let mut plan = plan_with_paths("generic", vec!["README.md"]);
    plan.steps[0].verify = vec!["test -f README.md || cat README.md".to_string()];

    let err = lint_step_plan(&plan).unwrap_err();

    assert!(matches!(err, PlanLintError::InvalidVerifierCommand { .. }));
}

#[test]
fn plan_lint_rejects_noop_true_verifier() {
    let mut plan = plan_with_paths("generic", vec!["README.md"]);
    plan.steps[0].verify = vec!["true".to_string()];

    let err = lint_step_plan(&plan).unwrap_err();

    assert!(matches!(err, PlanLintError::InvalidVerifierCommand { .. }));
}

#[test]
fn plan_lint_rejects_optional_inspection_expected_paths() {
    let mut plan = plan_with_paths("rust", vec!["src/lib.rs"]);
    plan.steps[0].kind = StepKind::Inspect;
    plan.steps[0].instruction = "Read src/lib.rs if it exists.".to_string();
    plan.steps[0].verify = vec!["test -f src/lib.rs".to_string()];

    let err = lint_step_plan(&plan).unwrap_err();

    assert_eq!(
        err,
        PlanLintError::InvalidStepInstruction {
            step_id: "step".to_string(),
            reason: "optional inspection targets must not be placed in expected_paths; use Read/Glob inspection and an empty expected_paths list".to_string(),
        }
    );
}

#[test]
fn plan_lint_rejects_source_code_grep_verifier() {
    let mut plan = plan_with_paths("rust", vec!["src/main.rs"]);
    plan.steps[0].verify = vec![r##"grep -q "#\[derive(Parser)\]" src/main.rs"##.to_string()];

    let err = lint_step_plan(&plan).unwrap_err();

    assert!(matches!(err, PlanLintError::InvalidVerifierCommand { .. }));
}

#[test]
fn plan_lint_accepts_literal_grep_for_docs() {
    let mut plan = plan_with_paths("docs", vec!["README.md"]);
    plan.steps[0].verify = vec!["grep -q Usage README.md".to_string()];

    lint_step_plan(&plan).unwrap();
}

#[test]
fn plan_lint_rejects_dependency_install_steps() {
    let mut plan = plan_with_paths("nextjs", vec!["package.json"]);
    plan.steps[0].instruction = "Run npm install to download dependencies.".to_string();
    plan.steps[0].expected_paths.clear();

    let err = lint_step_plan(&plan).unwrap_err();

    assert!(matches!(err, PlanLintError::InvalidStepInstruction { .. }));
}

#[test]
fn plan_lint_rejects_directory_only_steps() {
    let mut plan = plan_with_paths("rust", vec!["Cargo.toml"]);
    plan.steps[0].kind = StepKind::Setup;
    plan.steps[0].instruction = "Create the src directory.".to_string();
    plan.steps[0].expected_paths.clear();

    let err = lint_step_plan(&plan).unwrap_err();

    assert!(matches!(err, PlanLintError::InvalidStepInstruction { .. }));
}

#[test]
fn plan_lint_rejects_obvious_setup_and_verify_mix() {
    let plan = StepPlan {
        goal: "build app".to_string(),
        profile: "generic".to_string(),
        style: "default".to_string(),
        intent: WorkIntent::New,
        required_artifacts: Vec::new(),
        steps: vec![StepPlanStep {
            id: "create-and-build".to_string(),
            kind: StepKind::Create,
            instruction: "Create app/page.tsx and run build.".to_string(),
            expected_result: ExpectedResult::Pass,
            expected_paths: vec!["app/page.tsx".to_string()],
            verify: vec!["npm run build".to_string()],
        }],
    };

    let err = lint_step_plan(&plan).unwrap_err();

    assert_eq!(
        err,
        PlanLintError::MixedSetupAndVerify {
            step_id: "create-and-build".to_string()
        }
    );
}

#[test]
fn plan_lint_rejects_rust_cargo_init_scaffolding() {
    let plan = StepPlan {
        goal: "create rust app".to_string(),
        profile: "rust".to_string(),
        style: "default".to_string(),
        intent: WorkIntent::New,
        required_artifacts: Vec::new(),
        steps: vec![StepPlanStep {
            id: "init-project".to_string(),
            kind: StepKind::Create,
            instruction: "Initialize a new Rust project using cargo init.".to_string(),
            expected_result: ExpectedResult::Pass,
            expected_paths: vec!["Cargo.toml".to_string(), "src/main.rs".to_string()],
            verify: vec!["test -f Cargo.toml".to_string()],
        }],
    };

    let err = lint_step_plan(&plan).unwrap_err();

    assert_eq!(
        err,
        PlanLintError::ShellScaffold {
            step_id: "init-project".to_string(),
            command: "cargo init/new".to_string(),
            guidance: "create Cargo.toml and src/main.rs with Write/Edit".to_string()
        }
    );
}

#[test]
fn mod_accepts_generic_file_paths() {
    let plan = plan_with_paths("generic", vec!["README.md", "src/main.rs"]);

    lint_step_plan(&plan).unwrap();
}

#[test]
fn mod_accepts_nextjs_verification_step_without_naming_every_file_in_instruction() {
    let plan = StepPlan {
        goal: "verify app".to_string(),
        profile: "nextjs".to_string(),
        style: "default".to_string(),
        intent: WorkIntent::New,
        required_artifacts: Vec::new(),
        steps: vec![StepPlanStep {
            id: "final-build-check".to_string(),
            kind: StepKind::Verify,
            instruction: "Run npm run build.".to_string(),
            expected_result: ExpectedResult::Pass,
            expected_paths: vec![
                "package.json".to_string(),
                "app/page.tsx".to_string(),
                "next.config.js".to_string(),
            ],
            verify: vec!["npm run build".to_string()],
        }],
    };

    lint_step_plan(&plan).unwrap();
}

#[test]
fn rejects_setup_step_owning_nextjs_global_css() {
    let mut plan = plan_with_paths("nextjs", vec!["package.json", "app/globals.css"]);
    plan.steps[0].kind = StepKind::Setup;
    plan.steps[0].instruction =
        "Create package.json and app/globals.css for Tailwind styling.".to_string();

    let err = lint_step_plan(&plan).unwrap_err();

    assert_setup_ownership_violation(err, "step", "app/globals.css", "source/style");
}

#[test]
fn rejects_setup_step_owning_nextjs_route_source() {
    let mut plan = plan_with_paths("nextjs", vec!["src/app/page.tsx"]);
    plan.steps[0].kind = StepKind::Setup;
    plan.steps[0].instruction = "Prepare src/app/page.tsx.".to_string();

    let err = lint_step_plan(&plan).unwrap_err();

    assert_setup_ownership_violation(err, "step", "src/app/page.tsx", "route_entry");
}

#[test]
fn accepts_setup_step_owning_nextjs_manifest_and_config() {
    let mut plan = plan_with_paths("nextjs", vec!["package.json", "tailwind.config.js"]);
    plan.steps[0].kind = StepKind::Setup;
    plan.steps[0].instruction = "Create package.json and tailwind.config.js.".to_string();

    lint_step_plan(&plan).unwrap();
}

#[test]
fn mod_rejects_package_identifiers_as_expected_paths() {
    let plan = plan_with_paths("nextjs", vec!["next"]);

    let err = lint_step_plan(&plan).unwrap_err();

    assert!(matches!(err, PlanLintError::InvalidExpectedPath { .. }));
}

#[test]
fn mod_rejects_json_property_paths_as_expected_paths() {
    let plan = plan_with_paths("nextjs", vec!["package.json:scripts.build"]);

    let err = lint_step_plan(&plan).unwrap_err();

    assert!(matches!(err, PlanLintError::InvalidExpectedPath { .. }));
}

#[test]
fn mod_rejects_globs_as_expected_paths() {
    let plan = plan_with_paths("python", vec!["app/routes/*.py"]);

    let err = lint_step_plan(&plan).unwrap_err();

    assert!(matches!(err, PlanLintError::InvalidExpectedPath { .. }));
}

#[test]
fn mod_rejects_alternative_paths_as_expected_paths() {
    let plan = plan_with_paths("nextjs", vec!["app/layout.tsx or app/layout.ts"]);

    let err = lint_step_plan(&plan).unwrap_err();

    assert!(matches!(err, PlanLintError::InvalidExpectedPath { .. }));
}

#[test]
fn generic_lint_error_has_no_contract_evidence() {
    let plan = plan_with_paths("nextjs", vec!["app/layout.tsx or app/layout.ts"]);

    let err = lint_step_plan(&plan).unwrap_err();

    assert!(err.correction_evidence().is_none(), "{err:?}");
}

#[test]
fn mod_rejects_version_strings_as_expected_paths() {
    let plan = plan_with_paths("nextjs", vec!["18.2.0"]);

    let err = lint_step_plan(&plan).unwrap_err();

    assert!(matches!(err, PlanLintError::InvalidExpectedPath { .. }));
}

#[test]
fn mod_rejects_dependency_cache_paths_as_expected_paths() {
    let plan = plan_with_paths("nextjs", vec!["node_modules/.package-lock.json"]);

    let err = lint_step_plan(&plan).unwrap_err();

    assert!(matches!(err, PlanLintError::InvalidExpectedPath { .. }));
}

#[test]
fn mod_rejects_compound_verifier_commands() {
    let mut plan = plan_with_paths("generic", vec!["README.md"]);
    plan.steps[0].verify = vec!["test -f README.md && grep -q usage README.md".to_string()];

    let err = lint_step_plan(&plan).unwrap_err();

    assert!(matches!(err, PlanLintError::InvalidVerifierCommand { .. }));
}

#[test]
fn mod_accepts_quoted_semicolon_in_python_verifier() {
    let mut plan = plan_with_paths("python", vec!["app/main.py"]);
    plan.steps[0].verify =
        vec![r#"python -c "import ast; ast.parse(open('app/main.py').read())""#.to_string()];

    lint_step_plan(&plan).unwrap();
}

#[test]
fn mod_rejects_unquoted_semicolon_in_verifier() {
    let mut plan = plan_with_paths("generic", vec!["README.md"]);
    plan.steps[0].verify = vec!["test -f README.md; cat README.md".to_string()];

    let err = lint_step_plan(&plan).unwrap_err();

    assert!(matches!(err, PlanLintError::InvalidVerifierCommand { .. }));
}

#[test]
fn mod_rejects_unquoted_or_in_verifier() {
    let mut plan = plan_with_paths("generic", vec!["README.md"]);
    plan.steps[0].verify = vec!["test -f README.md || cat README.md".to_string()];

    let err = lint_step_plan(&plan).unwrap_err();

    assert!(matches!(err, PlanLintError::InvalidVerifierCommand { .. }));
}

#[test]
fn mod_rejects_noop_true_verifier() {
    let mut plan = plan_with_paths("generic", vec!["README.md"]);
    plan.steps[0].verify = vec!["true".to_string()];

    let err = lint_step_plan(&plan).unwrap_err();

    assert!(matches!(err, PlanLintError::InvalidVerifierCommand { .. }));
}

#[test]
fn mod_rejects_optional_inspection_expected_paths() {
    let mut plan = plan_with_paths("rust", vec!["src/lib.rs"]);
    plan.steps[0].kind = StepKind::Inspect;
    plan.steps[0].instruction = "Read src/lib.rs if it exists.".to_string();
    plan.steps[0].verify = vec!["test -f src/lib.rs".to_string()];

    let err = lint_step_plan(&plan).unwrap_err();

    assert_eq!(
        err,
        PlanLintError::InvalidStepInstruction {
            step_id: "step".to_string(),
            reason: "optional inspection targets must not be placed in expected_paths; use Read/Glob inspection and an empty expected_paths list".to_string(),
        }
    );
}

#[test]
fn rejects_inspect_test_verifier_without_required_paths() {
    let plan = StepPlan {
        goal: "inspect components".to_string(),
        profile: "nextjs".to_string(),
        style: "default".to_string(),
        intent: WorkIntent::Modify,
        required_artifacts: Vec::new(),
        steps: vec![StepPlanStep {
            id: "inspect-components".to_string(),
            kind: StepKind::Inspect,
            instruction: "Glob components directory to check if AnalyticsPanel already exists."
                .to_string(),
            expected_result: ExpectedResult::Pass,
            expected_paths: Vec::new(),
            verify: vec!["test -d components".to_string()],
        }],
    };

    let err = lint_step_plan(&plan).unwrap_err();

    assert_eq!(
        err,
        PlanLintError::InvalidStepInstruction {
            step_id: "inspect-components".to_string(),
            reason: "inspect steps must not make optional file or directory discovery a fatal verifier; use verify: [] and observe with Read/Glob"
                .to_string(),
        }
    );
}

#[test]
fn rejects_py_compile_for_non_python_source() {
    let mut plan = plan_with_paths("rust", vec!["src/main.rs"]);
    plan.steps[0].verify = vec!["python -m py_compile src/main.rs".to_string()];

    let err = lint_step_plan(&plan).unwrap_err();

    assert!(matches!(err, PlanLintError::InvalidVerifierCommand { .. }));
}

#[test]
fn accepts_py_compile_for_python_source() {
    let mut plan = plan_with_paths("python", vec!["app/main.py"]);
    plan.steps[0].verify = vec!["python -m py_compile app/main.py".to_string()];

    lint_step_plan(&plan).unwrap();
}

#[test]
fn mod_rejects_source_code_grep_verifier() {
    let mut plan = plan_with_paths("rust", vec!["src/main.rs"]);
    plan.steps[0].verify = vec![r##"grep -q "#\[derive(Parser)\]" src/main.rs"##.to_string()];

    let err = lint_step_plan(&plan).unwrap_err();

    assert!(matches!(err, PlanLintError::InvalidVerifierCommand { .. }));
}

#[test]
fn mod_accepts_literal_grep_for_docs() {
    let mut plan = plan_with_paths("docs", vec!["README.md"]);
    plan.steps[0].verify = vec!["grep -q Usage README.md".to_string()];

    lint_step_plan(&plan).unwrap();
}

#[test]
fn mod_rejects_dependency_install_steps() {
    let mut plan = plan_with_paths("nextjs", vec!["package.json"]);
    plan.steps[0].instruction = "Run npm install to download dependencies.".to_string();
    plan.steps[0].expected_paths.clear();

    let err = lint_step_plan(&plan).unwrap_err();

    assert!(matches!(err, PlanLintError::InvalidStepInstruction { .. }));
}

#[test]
fn rejects_dependency_cache_verifiers() {
    let mut plan = plan_with_paths("nextjs", vec!["package.json"]);
    plan.steps[0].kind = StepKind::Verify;
    plan.steps[0].instruction = "Verify local dependencies are available.".to_string();
    plan.steps[0].expected_paths.clear();
    plan.steps[0].verify = vec!["test -f node_modules/.package-lock.json".to_string()];

    let err = lint_step_plan(&plan).unwrap_err();

    assert_eq!(
        err,
        PlanLintError::InvalidVerifierCommand {
            step_id: "step".to_string(),
            command: "test -f node_modules/.package-lock.json".to_string(),
            reason: "verifier commands must not require generated dependency caches; report dependency_missing when local dependencies are unavailable".to_string(),
        }
    );
}

#[test]
fn mod_rejects_directory_only_steps() {
    let mut plan = plan_with_paths("rust", vec!["Cargo.toml"]);
    plan.steps[0].kind = StepKind::Setup;
    plan.steps[0].instruction = "Create the src directory.".to_string();
    plan.steps[0].expected_paths.clear();

    let err = lint_step_plan(&plan).unwrap_err();

    assert!(matches!(err, PlanLintError::InvalidStepInstruction { .. }));
}

#[test]
fn rejects_inspect_step_that_creates_files() {
    let mut plan = plan_with_paths("nextjs", vec!["package.json"]);
    plan.steps[0].kind = StepKind::Inspect;
    plan.steps[0].instruction = "Inspect the workspace and create package.json.".to_string();
    plan.steps[0].expected_paths.clear();

    let err = lint_step_plan(&plan).unwrap_err();

    assert_eq!(
        err,
        PlanLintError::InvalidStepInstruction {
            step_id: "step".to_string(),
            reason: "inspect steps are read-only; move file creation or edits into create/edit/repair steps".to_string(),
        }
    );
}

#[test]
fn rejects_verify_step_that_fixes_files() {
    let mut plan = plan_with_paths("nextjs", vec!["package.json"]);
    plan.steps[0].kind = StepKind::Verify;
    plan.steps[0].instruction = "Run npm run build and fix package.json if needed.".to_string();
    plan.steps[0].expected_paths.clear();
    plan.steps[0].verify = vec!["npm run build".to_string()];

    let err = lint_step_plan(&plan).unwrap_err();

    assert_eq!(
        err,
        PlanLintError::InvalidStepInstruction {
            step_id: "step".to_string(),
            reason:
                "verify steps must not mutate files; move fixes into create/edit/repair steps"
                    .to_string(),
        }
    );
}

#[test]
fn mod_rejects_obvious_setup_and_verify_mix() {
    let plan = StepPlan {
        goal: "build app".to_string(),
        profile: "generic".to_string(),
        style: "default".to_string(),
        intent: WorkIntent::New,
        required_artifacts: Vec::new(),
        steps: vec![StepPlanStep {
            id: "create-and-build".to_string(),
            kind: StepKind::Create,
            instruction: "Create app/page.tsx and run build.".to_string(),
            expected_result: ExpectedResult::Pass,
            expected_paths: vec!["app/page.tsx".to_string()],
            verify: vec!["npm run build".to_string()],
        }],
    };

    let err = lint_step_plan(&plan).unwrap_err();

    assert_eq!(
        err,
        PlanLintError::MixedSetupAndVerify {
            step_id: "create-and-build".to_string()
        }
    );
}

#[test]
fn mod_rejects_rust_cargo_init_scaffolding() {
    let plan = StepPlan {
        goal: "create rust app".to_string(),
        profile: "rust".to_string(),
        style: "default".to_string(),
        intent: WorkIntent::New,
        required_artifacts: Vec::new(),
        steps: vec![StepPlanStep {
            id: "init-project".to_string(),
            kind: StepKind::Create,
            instruction: "Initialize a new Rust project using cargo init.".to_string(),
            expected_result: ExpectedResult::Pass,
            expected_paths: vec!["Cargo.toml".to_string(), "src/main.rs".to_string()],
            verify: vec!["test -f Cargo.toml".to_string()],
        }],
    };

    let err = lint_step_plan(&plan).unwrap_err();

    assert_eq!(
        err,
        PlanLintError::ShellScaffold {
            step_id: "init-project".to_string(),
            command: "cargo init/new".to_string(),
            guidance: "create Cargo.toml and src/main.rs with Write/Edit".to_string()
        }
    );
}

#[test]
fn rejects_nextjs_create_next_app_scaffolding() {
    let plan = StepPlan {
        goal: "create next app".to_string(),
        profile: "nextjs".to_string(),
        style: "default".to_string(),
        intent: WorkIntent::New,
        required_artifacts: Vec::new(),
        steps: vec![StepPlanStep {
            id: "setup-project".to_string(),
            kind: StepKind::Setup,
            instruction:
                "Initialize a new Next.js project using create-next-app with TypeScript."
                    .to_string(),
            expected_result: ExpectedResult::Pass,
            expected_paths: vec!["package.json".to_string(), "app/page.tsx".to_string()],
            verify: vec!["test -f package.json".to_string()],
        }],
    };

    let err = lint_step_plan(&plan).unwrap_err();

    assert_eq!(
        err,
        PlanLintError::ShellScaffold {
            step_id: "setup-project".to_string(),
            command: "create-next-app".to_string(),
            guidance: "create package.json and app/page.tsx with Write/Edit".to_string()
        }
    );
}

fn assert_setup_ownership_violation(
    err: PlanLintError,
    expected_step: &str,
    expected_path: &str,
    expected_role: &str,
) {
    match err {
        PlanLintError::ContractViolation {
            step_id,
            reason,
            evidence,
        } => {
            assert_eq!(step_id, expected_step);
            assert!(reason.contains("setup step cannot own"), "{reason}");
            assert!(reason.contains(expected_path), "{reason}");
            assert_eq!(evidence.failed_step.as_deref(), Some(expected_step));
            assert_eq!(
                evidence.violated_contract.as_deref(),
                Some("step_kind_artifact_role")
            );
            assert_eq!(
                evidence.reason_code.as_deref(),
                Some("setup_step_owns_non_setup_artifact")
            );
            assert_eq!(evidence.target_field.as_deref(), Some("expected_paths"));
            assert_eq!(evidence.target_path.as_deref(), Some(expected_path));
            assert_eq!(evidence.rejected_value.as_deref(), Some(expected_path));
            assert!(
                evidence
                    .observed_expected_pairs
                    .iter()
                    .any(|value| value.contains(expected_role)),
                "{evidence:?}"
            );
            assert_eq!(
                evidence.required_literals,
                vec!["setup/manifest".to_string(), "setup/config".to_string()]
            );
            let rendered = evidence.render().unwrap();
            assert!(rendered.contains(expected_path), "{rendered}");
            assert!(rendered.contains(expected_role), "{rendered}");
            assert!(
                rendered.contains("change this step kind to create/edit"),
                "{rendered}"
            );
        }
        other => panic!("expected step ownership contract violation, got {other:?}"),
    }
}

fn plan_with_paths(profile: &str, paths: Vec<&str>) -> StepPlan {
    StepPlan {
        goal: "goal".to_string(),
        profile: profile.to_string(),
        style: "default".to_string(),
        intent: WorkIntent::Unknown,
        required_artifacts: Vec::new(),
        steps: vec![StepPlanStep {
            id: "step".to_string(),
            kind: StepKind::Create,
            instruction: "Create files.".to_string(),
            expected_result: ExpectedResult::Pass,
            expected_paths: paths.into_iter().map(|p| p.to_string()).collect(),
            verify: Vec::new(),
        }],
    }
}

fn one_step(profile: &str, id: &str, kind: StepKind, instruction: &str, paths: &[&str], verify: &[&str]) -> StepPlan {
    StepPlan {
        goal: "goal".to_string(),
        profile: profile.to_string(),
        style: "default".to_string(),
        intent: WorkIntent::Modify,
        required_artifacts: Vec::new(),
        steps: vec![StepPlanStep {
            id: id.to_string(),
            kind,
            instruction: instruction.to_string(),
            expected_result: ExpectedResult::Pass,
            expected_paths: paths.iter().map(|p| p.to_string()).collect(),
            verify: verify.iter().map(|p| p.to_string()).collect(),
        }],
    }
}

#[test]
fn workspace_lint_rejects_inspect_of_missing_file_with_graph_evidence() {
    let mut plan = one_step(
        "rust",
        "inspect-project-structure",
        StepKind::Inspect,
        "Inspect existing Cargo.toml and src/lib.rs.",
        &["Cargo.toml", "src/lib.rs"],
        &[],
    );
    plan.required_artifacts = vec!["Cargo.toml".to_string()];
    let existing = vec!["Cargo.toml".to_string()];
    let err = lint_step_plan_with_workspace(&plan, Some(&existing)).unwrap_err();
    match err {
        PlanLintError::ContractViolation { step_id, reason, evidence } => {
            assert_eq!(step_id, "inspect-project-structure");
            assert!(reason.contains("missing src/lib.rs"));
            assert_eq!(evidence.violated_contract.as_deref(), Some("inspect_future_artifact"));
            assert_eq!(evidence.missing_paths, vec!["src/lib.rs"]);
            assert_eq!(evidence.active_job.as_deref(), Some("explicit_stop"));
            assert_eq!(
                evidence.artifact_graph_summary,
                vec!["src/lib.rs role=implementation lifecycle=required source=plan_lint.inspect_expected_paths"]
            );
        }
        other => panic!("unexpected {other:?}"),
    }
    let both = vec!["Cargo.toml".to_string(), "src/lib.rs".to_string()];
    lint_step_plan_with_workspace(&plan, Some(&both)).unwrap();
}

#[test]
fn workspace_lint_requires_an_owner_for_each_required_artifact() {
    let mut plan = one_step("rust", "write-main", StepKind::Create, "Create src/main.rs.", &["src/main.rs"], &["test -f src/main.rs"]);
    plan.required_artifacts = vec!["Cargo.toml".to_string(), "./src/main.rs".to_string()];
    let err = lint_step_plan_with_workspace(&plan, Some(&Vec::new())).unwrap_err();
    match err {
        PlanLintError::ContractViolation { step_id, reason, evidence } => {
            assert_eq!(step_id, "plan");
            assert_eq!(
                reason,
                "required_artifact `Cargo.toml` is not owned by any create/edit/setup/repair step expected_paths"
            );
            assert_eq!(evidence.repair_target.as_deref(), Some("Cargo.toml"));
            assert_eq!(evidence.required_paths, vec!["Cargo.toml"]);
        }
        other => panic!("unexpected {other:?}"),
    }
    let existing = vec!["Cargo.toml".to_string()];
    lint_step_plan_with_workspace(&plan, Some(&existing)).unwrap();
}

#[test]
fn workspace_lint_rejects_split_nextjs_app_root() {
    let plan = one_step("nextjs", "create-page", StepKind::Create, "Create app/page.tsx.", &["app/page.tsx"], &["test -f app/page.tsx"]);
    let existing = vec!["src/app/page.tsx".to_string()];
    assert_eq!(
        lint_step_plan_with_workspace(&plan, Some(&existing)).unwrap_err(),
        PlanLintError::InvalidStepInstruction {
            step_id: "create-page".to_string(),
            reason: "Next.js workspace already uses src/app; creating app/page.tsx would split the app root unless this is an explicit migration".to_string(),
        }
    );
    lint_step_plan(&plan).unwrap();
    let migrate = one_step("nextjs", "migrate", StepKind::Create, "Migrate the app root by creating app/page.tsx.", &["app/page.tsx"], &[]);
    lint_step_plan_with_workspace(&migrate, Some(&existing)).unwrap();
}

#[test]
fn existing_paths_let_a_step_build_after_editing() {
    let plan = one_step(
        "nextjs",
        "create-panel",
        StepKind::Create,
        "Create components/AnalyticsPanel.tsx.",
        &["components/AnalyticsPanel.tsx"],
        &["test -f components/AnalyticsPanel.tsx", "npm run build"],
    );
    assert_eq!(
        lint_step_plan(&plan).unwrap_err(),
        PlanLintError::MixedSetupAndVerify { step_id: "create-panel".to_string() }
    );
    let existing = vec!["components/AnalyticsPanel.tsx".to_string()];
    lint_step_plan_with_workspace(&plan, Some(&existing)).unwrap();
}

#[test]
fn lint_errors_render_their_messages() {
    let err = PlanLintError::InvalidExpectedPath { path: "a b".to_string(), reason: "why".to_string() };
    assert_eq!(err.to_string(), "invalid expected path `a b`: why");
    let err = PlanLintError::MixedSetupAndVerify { step_id: "s".to_string() };
    assert_eq!(
        err.to_string(),
        "step `s` mixes setup/editing work with verification; split it into separate steps"
    );
    let err = PlanLintError::ShellScaffold { step_id: "s".to_string(), command: "c".to_string(), guidance: "g".to_string() };
    assert_eq!(err.to_string(), "step `s` uses shell scaffolding `c`; g");
}

#[test]
fn expected_path_edge_cases() {
    for (path, ok) in [
        (".env", true),
        ("Dockerfile", true),
        ("docs/", false),
        ("/etc/passwd", false),
        ("src/../x.rs", false),
        ("notes", false),
        (".git/config", false),
        ("  ", false),
        ("app.ts", true),
    ] {
        let plan = plan_with_paths("generic", vec![path]);
        assert_eq!(lint_step_plan(&plan).is_ok(), ok, "{path}");
    }
}
