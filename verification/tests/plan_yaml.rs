use commandagent::plan::{ExpectedResult, StepKind, StepPlan, StepPlanStep, WorkIntent};
use commandagent::plan_error::PlanError;
use commandagent::plan_yaml::{
    extract_plan_from_response, parse_step_plan_yaml, render_step_plan_yaml, validate_step_plan,
};


#[test]
fn renders_and_loads_step_plan_yaml() {
    let plan = sample_plan();

    let yaml = render_step_plan_yaml(&plan);
    let parsed = parse_step_plan_yaml(&yaml).unwrap();

    assert_eq!(parsed, plan);
}

#[test]
fn extracts_plan_from_yaml_code_fence() {
    let yaml = render_step_plan_yaml(&sample_plan());
    let response = format!("```yaml\n{yaml}```");

    let parsed = extract_plan_from_response(&response).unwrap();

    assert_eq!(parsed.goal, "Build docs");
    assert_eq!(parsed.steps.len(), 1);
}

#[test]
fn accepts_inline_empty_step_lists() {
    let yaml = "goal: \"Run check\"\nprofile: \"python\"\nstyle: \"default\"\nsteps:\n  - id: \"inspect\"\n    instruction: \"Inspect workspace.\"\n    expected_paths: []\n    verify: []\n";

    let plan = parse_step_plan_yaml(yaml).unwrap();

    assert!(plan.steps[0].expected_paths.is_empty());
    assert!(plan.steps[0].verify.is_empty());
}

#[test]
fn accepts_common_model_step_indentation_drift() {
    let yaml = "goal: \"Create Rust CLI\"\nprofile: \"rust\"\nstyle: \"default\"\nsteps:\n- id: create-cargo-toml\n  instruction: \"Create Cargo.toml.\"\n  expected_paths:\n    - Cargo.toml\n  verify:\n    - test -f Cargo.toml\n";

    let plan = parse_step_plan_yaml(yaml).unwrap();

    assert_eq!(plan.steps[0].id, "create-cargo-toml");
    assert_eq!(plan.steps[0].expected_paths, vec!["Cargo.toml"]);
    assert_eq!(plan.steps[0].verify, vec!["test -f Cargo.toml"]);
}

#[test]
fn accepts_unindented_step_fields() {
    let yaml = "goal: \"Create schemas\"\nprofile: \"python\"\nstyle: \"default\"\nintent: modify\nrequired_artifacts:\n- app/main.py\nsteps:\n- id: create-schemas\nkind: create\ninstruction: Create app/schemas.py.\nexpected_result: pass\nexpected_paths:\n- app/schemas.py\nverify:\n- test -f app/schemas.py\n";

    let plan = parse_step_plan_yaml(yaml).unwrap();

    assert_eq!(plan.required_artifacts, vec!["app/main.py"]);
    assert_eq!(plan.steps[0].kind, StepKind::Create);
    assert_eq!(plan.steps[0].expected_paths, vec!["app/schemas.py"]);
}

#[test]
fn accepts_literal_block_scalar_instruction() {
    let yaml = r#"
goal: Create Next app
profile: nextjs
style: default
steps:
  - id: create-package-json
kind: create
instruction: |
  Create the package.json file and configure the dev script to use port 3011.
  The package.json work must mention next, react, and react-dom.
expected_paths:
  - package.json
verify:
  - test -f package.json
"#;

    let plan = parse_step_plan_yaml(yaml).unwrap();

    assert_eq!(
        plan.steps[0].instruction,
        "Create the package.json file and configure the dev script to use port 3011.\nThe package.json work must mention next, react, and react-dom."
    );
}

#[test]
fn accepts_folded_block_scalar_instruction() {
    let yaml = r#"
goal: Create docs
profile: docs
style: default
steps:
  - id: write-readme
kind: create
instruction: >
  Create README.md with usage notes.
  Include setup instructions.
expected_paths:
  - README.md
verify:
  - test -f README.md
"#;

    let plan = parse_step_plan_yaml(yaml).unwrap();

    assert_eq!(
        plan.steps[0].instruction,
        "Create README.md with usage notes. Include setup instructions."
    );
}

#[test]
fn accepts_folded_strip_block_scalar_instruction() {
    let yaml = r#"
goal: Create Next app
profile: nextjs
style: default
steps:
  - id: create-package-json
kind: create
instruction: >-
  Create package.json.
  Include next, react, and react-dom.
expected_paths:
  - package.json
verify:
  - test -f package.json
"#;

    let plan = parse_step_plan_yaml(yaml).unwrap();
    let rendered = render_step_plan_yaml(&plan);
    let reparsed = parse_step_plan_yaml(&rendered).unwrap();

    assert_eq!(
        plan.steps[0].instruction,
        "Create package.json. Include next, react, and react-dom."
    );
    assert_eq!(reparsed, plan);
}

#[test]
fn accepts_literal_block_scalar_goal_and_canonicalizes() {
    let yaml = r#"
goal: |
  Build docs.
  Keep the output concise.
profile: docs
style: default
steps:
  - id: write-readme
instruction: Create README.md.
expected_paths:
  - README.md
verify:
  - test -f README.md
"#;

    let plan = parse_step_plan_yaml(yaml).unwrap();
    let rendered = render_step_plan_yaml(&plan);
    let reparsed = parse_step_plan_yaml(&rendered).unwrap();

    assert_eq!(plan.goal, "Build docs.\nKeep the output concise.");
    assert_eq!(reparsed, plan);
    assert!(rendered.contains("goal: \"Build docs.\\nKeep the output concise.\""));
}

#[test]
fn accepts_literal_strip_block_scalar_goal_and_canonicalizes() {
    let yaml = r#"
goal: |-
  Build docs.
  Keep the output concise.
profile: docs
style: default
steps:
  - id: write-readme
instruction: Create README.md.
expected_paths:
  - README.md
verify:
  - test -f README.md
"#;

    let plan = parse_step_plan_yaml(yaml).unwrap();
    let rendered = render_step_plan_yaml(&plan);
    let reparsed = parse_step_plan_yaml(&rendered).unwrap();

    assert_eq!(plan.goal, "Build docs.\nKeep the output concise.");
    assert_eq!(reparsed, plan);
}

#[test]
fn accepts_common_expected_result_aliases_but_renders_canonical_values() {
    let yaml = "goal: \"Check availability\"
profile: \"generic\"
style: \"default\"
steps:
- id: inspect-tooling
kind: inspect
instruction: Inspect whether local tooling is available.
expected_result: available
expected_paths: []
verify: []
- id: red-test
kind: verify
instruction: Run an expected failing check.
expected_result: expected_failure
expected_paths: []
verify:
- cargo test
- id: dependency-blocker
kind: report
instruction: Report unavailable dependency.
expected_result: not_available
expected_paths: []
verify: []
";

    let plan = parse_step_plan_yaml(yaml).unwrap();
    let rendered = render_step_plan_yaml(&plan);

    assert_eq!(plan.steps[0].expected_result, ExpectedResult::Pass);
    assert_eq!(plan.steps[1].expected_result, ExpectedResult::Fail);
    assert_eq!(plan.steps[2].expected_result, ExpectedResult::Unavailable);
    assert!(rendered.contains("expected_result: \"pass\""));
    assert!(rendered.contains("expected_result: \"fail\""));
    assert!(rendered.contains("expected_result: \"unavailable\""));
    assert!(!rendered.contains("expected_result: \"available\""));
    assert!(!rendered.contains("expected_failure"));
    assert!(!rendered.contains("not_available"));
}

#[test]
fn accepts_common_step_kind_aliases_but_renders_canonical_values() {
    let yaml = "goal: \"Inspect and verify\"\nprofile: \"rust\"\nstyle: \"default\"\nsteps:\n- id: inspect-source\nkind: read\ninstruction: Read src/main.rs.\nexpected_paths:\n- src/main.rs\nverify:\n- test -f src/main.rs\n- id: analyze-source\nkind: analyze\ninstruction: Analyze source layout.\nexpected_paths: []\nverify: []\n- id: run-tests\nkind: shell\ninstruction: Run cargo test.\nexpected_paths: []\nverify:\n- cargo test\n";

    let plan = parse_step_plan_yaml(yaml).unwrap();
    let rendered = render_step_plan_yaml(&plan);

    assert_eq!(plan.steps[0].kind, StepKind::Inspect);
    assert_eq!(plan.steps[1].kind, StepKind::Inspect);
    assert_eq!(plan.steps[2].kind, StepKind::Verify);
    assert!(rendered.contains("kind: \"inspect\""));
    assert!(rendered.contains("kind: \"verify\""));
    assert!(!rendered.contains("kind: \"shell\""));
}

#[test]
fn accepts_common_model_list_item_indentation_drift() {
    let yaml = "goal: \"Create Next app\"\nprofile: \"nextjs\"\nstyle: \"default\"\nsteps:\n  - id: create-files\n    instruction: \"Create Next.js files.\"\n    expected_paths:\n  - package.json\n  - app/page.tsx\n    verify:\n  - cat package.json\n";

    let plan = parse_step_plan_yaml(yaml).unwrap();

    assert_eq!(
        plan.steps[0].expected_paths,
        vec!["package.json", "app/page.tsx"]
    );
    assert_eq!(plan.steps[0].verify, vec!["cat package.json"]);
}

#[test]
fn accepts_arbitrary_list_item_indentation_drift() {
    let yaml = "goal: \"Create Python app\"\nprofile: \"python\"\nstyle: \"default\"\nsteps:\n- id: create-init\n  instruction: Create init files.\n  expected_paths:\n     - app/__init__.py\n     - tests/__init__.py\n  verify:\n     - test -f app/__init__.py\n";

    let plan = parse_step_plan_yaml(yaml).unwrap();

    assert_eq!(
        plan.steps[0].expected_paths,
        vec!["app/__init__.py", "tests/__init__.py"]
    );
}

#[test]
fn accepts_three_space_list_item_indentation_drift() {
    let yaml = r#"
goal: Build app
profile: nextjs
style: default
steps:
  - id: create-files
instruction: Create files.
expected_paths:
   - package.json
   - app/page.tsx
verify: []
"#;

    let plan = parse_step_plan_yaml(yaml).unwrap();

    assert_eq!(
        plan.steps[0].expected_paths,
        vec!["package.json", "app/page.tsx"]
    );
}

#[test]
fn ignores_common_model_action_annotation() {
    let yaml = "goal: \"Create docs\"\nprofile: \"docs\"\nstyle: \"default\"\nsteps:\n  - id: create-readme\n    action: write\n    instruction: \"Create README.md.\"\n    expected_paths:\n      - README.md\n    verify:\n      - cat README.md\n";

    let plan = parse_step_plan_yaml(yaml).unwrap();

    assert_eq!(plan.steps[0].id, "create-readme");
    assert_eq!(plan.steps[0].instruction, "Create README.md.");
}

#[test]
fn validates_duplicate_step_ids() {
    let mut plan = sample_plan();
    plan.steps.push(plan.steps[0].clone());

    let err = validate_step_plan(&plan).unwrap_err();

    assert_eq!(err, PlanError::DuplicateStepId("write-readme".to_string()));
}

fn sample_plan() -> StepPlan {
    StepPlan {
        goal: "Build docs".to_string(),
        profile: "docs".to_string(),
        style: "default".to_string(),
        intent: WorkIntent::Document,
        required_artifacts: vec!["README.md".to_string()],
        steps: vec![StepPlanStep {
            id: "write-readme".to_string(),
            kind: StepKind::Create,
            instruction: "Create README.md with usage notes.".to_string(),
            expected_result: ExpectedResult::Pass,
            expected_paths: vec!["README.md".to_string()],
            verify: vec!["cat README.md".to_string()],
        }],
    }
}

#[test]
fn round_trips_strings_that_need_escaping() {
    let mut plan = sample_plan();
    plan.goal = "Say \"hi\"\n\tthen: leave | > - id: x".to_string();
    plan.steps[0].instruction = "Use C:\\path and emoji \u{1F600}\r\nsecond line".to_string();
    plan.steps[0].expected_paths = vec!["- weird.md".to_string(), "a b.txt".to_string()];
    plan.steps[0].verify = Vec::new();
    plan.required_artifacts = vec!["  spaced  ".to_string()];
    let yaml = render_step_plan_yaml(&plan);
    assert_eq!(parse_step_plan_yaml(&yaml).unwrap(), plan);
}

#[test]
fn duplicate_required_artifacts_read_back_once() {
    let mut plan = sample_plan();
    plan.required_artifacts = vec!["README.md".to_string(), "README.md".to_string()];
    let parsed = parse_step_plan_yaml(&render_step_plan_yaml(&plan)).unwrap();
    assert_eq!(parsed.required_artifacts, vec!["README.md"]);
}

#[test]
fn reports_missing_fields_and_bad_lines() {
    assert_eq!(
        parse_step_plan_yaml("profile: docs\nsteps:\n- id: a\n  instruction: x\n").unwrap_err(),
        PlanError::MissingField("goal".to_string())
    );
    assert_eq!(
        parse_step_plan_yaml("goal: g\nsteps:\n- id: a\n  instruction: x\n").unwrap_err(),
        PlanError::MissingField("profile".to_string())
    );
    assert_eq!(
        parse_step_plan_yaml("goal: g\nprofile: p\nwhatever\n").unwrap_err(),
        PlanError::InvalidYaml("unexpected line: whatever".to_string())
    );
    assert_eq!(
        parse_step_plan_yaml("goal: g\nprofile: p\nkind: create\n").unwrap_err(),
        PlanError::InvalidYaml("kind appears before step id".to_string())
    );
    assert_eq!(
        parse_step_plan_yaml("goal: g\nprofile: p\nsteps:\n- id: a\n  kind: dance\n").unwrap_err(),
        PlanError::InvalidEnum { field: "step.kind".to_string(), value: "dance".to_string() }
    );
    assert_eq!(
        parse_step_plan_yaml("goal: \"unterminated\nprofile: p\n").unwrap_err(),
        PlanError::InvalidYaml("invalid string: \"unterminated".to_string())
    );
    assert_eq!(
        parse_step_plan_yaml("goal: g\nprofile: p\nrequired_artifacts: [a]\n").unwrap_err(),
        PlanError::InvalidYaml("unsupported inline list value: [a]".to_string())
    );
    assert_eq!(
        parse_step_plan_yaml("goal: |\nprofile: p\n").unwrap_err(),
        PlanError::InvalidYaml("goal block scalar has no content".to_string())
    );
    assert_eq!(
        parse_step_plan_yaml("goal: g\nprofile: p\nsteps:\n").unwrap_err(),
        PlanError::NoSteps
    );
}

#[test]
fn infers_step_kinds_and_defaults() {
    let yaml = "goal: g\r\nprofile: p\r\nsteps:\r\n- id: a\r\n  instruction: Run the tests\r\n- id: b\r\n  instruction: Summarize\r\n- id: c\r\n  instruction: Look around\r\n  expected_paths:\r\n  - x.md\r\n";
    let plan = parse_step_plan_yaml(yaml).unwrap();
    assert_eq!(plan.style, "default");
    assert_eq!(plan.intent, WorkIntent::Unknown);
    assert_eq!(plan.steps[0].kind, StepKind::Verify);
    assert_eq!(plan.steps[1].kind, StepKind::Report);
    assert_eq!(plan.steps[2].kind, StepKind::Create);
}

#[test]
fn validation_names_the_first_fault() {
    let mut plan = sample_plan();
    plan.steps[0].id = "bad id".to_string();
    assert_eq!(validate_step_plan(&plan).unwrap_err(), PlanError::InvalidStepId("bad id".to_string()));
    let mut plan = sample_plan();
    plan.steps[0].instruction = "  ".to_string();
    assert_eq!(
        validate_step_plan(&plan).unwrap_err(),
        PlanError::EmptyField("step.write-readme.instruction".to_string())
    );
    let mut plan = sample_plan();
    plan.style = "".to_string();
    assert_eq!(validate_step_plan(&plan).unwrap_err(), PlanError::EmptyField("style".to_string()));
}

#[test]
fn renders_every_value_as_a_json_string() {
    let yaml = render_step_plan_yaml(&sample_plan());
    assert_eq!(
        yaml,
        "goal: \"Build docs\"\nprofile: \"docs\"\nstyle: \"default\"\nintent: \"document\"\nrequired_artifacts:\n  - \"README.md\"\nsteps:\n  - id: \"write-readme\"\n    kind: \"create\"\n    instruction: \"Create README.md with usage notes.\"\n    expected_result: \"pass\"\n    expected_paths:\n      - \"README.md\"\n    verify:\n      - \"cat README.md\"\n"
    );
}

#[test]
fn fenced_and_bare_responses_parse_as_their_yaml() {
    let yaml = render_step_plan_yaml(&sample_plan());
    let direct = parse_step_plan_yaml(&yaml);
    assert_eq!(extract_plan_from_response(&yaml), direct);
    assert_eq!(extract_plan_from_response(&format!("```yaml\n{yaml}```")), direct);
    let broken = "goal: \"g\"\nsteps:\n  - oops";
    assert_eq!(extract_plan_from_response(broken), parse_step_plan_yaml(broken));
    assert_eq!(
        extract_plan_from_response(&format!("```yaml\n{broken}```")),
        parse_step_plan_yaml(broken)
    );
}

#[test]
fn renders_strings_with_json_escapes() {
    let mut plan = sample_plan();
    plan.goal = "a\"b\\c\u{1}\u{8}\u{c}\t\r\n\u{1f}\u{7f}é".to_string();
    let yaml = render_step_plan_yaml(&plan);
    let goal_line = yaml.lines().find(|line| line.starts_with("goal: ")).unwrap();
    assert_eq!(goal_line, "goal: \"a\\\"b\\\\c\\u0001\\b\\f\\t\\r\\n\\u001f\u{7f}é\"");
}
