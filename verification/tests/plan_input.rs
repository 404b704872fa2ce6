use commandagent::json_value::JsonValue;
use commandagent::plan::{StepKind, WorkIntent};
use commandagent::plan_input::{
    looks_like_json_plan_input, parse_json_plan_value, parse_json_step_plan, parse_step_plan_input,
    parse_step_plan_input_with_defaults, plan_input_text, StepPlanInputDefaults,
};

#[test]
fn parses_json_plan_object() {
    let text = r#"{
              "goal": "Create docs",
              "profile": "docs",
              "steps": [
                {
                  "id": "write-readme",
                  "kind": "create",
                  "instruction": "Create README.md with usage.",
                  "expected_paths": ["README.md"],
                  "verify": ["test -f README.md"]
                }
              ]
            }"#;
    let plan = parse_step_plan_input(text).unwrap();

    assert_eq!(plan.goal, "Create docs");
    assert_eq!(plan.steps[0].id, "write-readme");
    assert_eq!(plan.steps[0].kind, StepKind::Create);
    assert_eq!(plan.steps[0].expected_paths, vec!["README.md"]);
}

#[test]
fn parses_json_steps_array_with_defaults() {
    let defaults = StepPlanInputDefaults {
        goal: "Create app",
        profile: "nextjs",
        style: "default",
        intent: WorkIntent::New,
        required_artifacts: &["package.json".to_string()],
    };

    let text = r#"[{"step": "Create package.json", "expected_paths": ["package.json"]}]"#;
    let plan = parse_step_plan_input_with_defaults(text, Some(defaults)).unwrap();

    assert_eq!(plan.goal, "Create app");
    assert_eq!(plan.profile, "nextjs");
    assert_eq!(plan.steps[0].id, "step-1");
    assert_eq!(plan.steps[0].kind, StepKind::Create);
}

#[test]
fn rejects_unknown_json_shape() {
    let text = r#"{"goal":"x","profile":"generic","steps":42}"#;
    let err = parse_step_plan_input(text).unwrap_err();

    assert!(err.to_string().contains("invalid plan input"));
}

#[test]
fn fenced_json_is_detected_and_yaml_is_not() {
    assert!(looks_like_json_plan_input("```json\n{\"goal\": \"x\"}\n```"));
    assert!(looks_like_json_plan_input("  [1]"));
    assert!(!looks_like_json_plan_input("goal: x\nprofile: y"));
    assert_eq!(plan_input_text("```json\n [1] \n```"), "[1]");
}

#[test]
fn json_parse_failure_is_reported() {
    let text = "{not json";
    let err = parse_step_plan_input(text).unwrap_err();
    let message = serde_json::from_str::<serde_json::Value>(text).unwrap_err().to_string();
    assert_eq!(err.to_string(), format!("invalid plan input: json parse error: {message}"));
    assert_eq!(
        parse_json_step_plan("[1,", None).unwrap_err().to_string(),
        format!(
            "invalid plan input: json parse error: {}",
            serde_json::from_str::<serde_json::Value>("[1,").unwrap_err()
        )
    );
}

#[test]
fn steps_array_without_defaults_needs_a_goal() {
    let text = r#"[{"step": "Inspect"}]"#;
    let err = parse_step_plan_input(text).unwrap_err();
    assert_eq!(err.to_string(), "missing required field: goal");
}

#[test]
fn step_kinds_are_inferred_from_instructions_and_commands() {
    let text = r#"{"goal":"g","profile":"p","intent":"fix","plan":[
        {"task": "Install dependencies"},
        {"instruction": "Run it", "verify": "npm test"},
        {"instruction": "Summarize findings"},
        {"instruction": "Update the handler"},
        {"instruction": "Look around", "expected_paths": "notes.md"},
        {"instruction": "Look around"}
    ]}"#;
    let plan = parse_step_plan_input(text).unwrap();
    let kinds: Vec<StepKind> = plan.steps.iter().map(|s| s.kind).collect();
    assert_eq!(
        kinds,
        vec![
            StepKind::Setup,
            StepKind::Verify,
            StepKind::Report,
            StepKind::Edit,
            StepKind::Create,
            StepKind::Inspect
        ]
    );
    assert_eq!(plan.intent, WorkIntent::Modify);
    assert_eq!(plan.style, "default");
    assert_eq!(plan.steps[1].verify, vec!["npm test"]);
    assert_eq!(plan.steps[4].id, "step-5");
}

#[test]
fn malformed_fields_report_their_errors() {
    let bad_list = JsonValue::Object(vec![
        ("goal".to_string(), JsonValue::Str("g".to_string())),
        ("profile".to_string(), JsonValue::Str("p".to_string())),
        ("required_artifacts".to_string(), JsonValue::Number("3".to_string())),
        ("steps".to_string(), JsonValue::Array(vec![])),
    ]);
    assert_eq!(
        parse_json_plan_value(&bad_list, None).unwrap_err().to_string(),
        "invalid plan input: required_artifacts must be a string or array"
    );
    let no_instruction = JsonValue::Object(vec![
        ("goal".to_string(), JsonValue::Str("g".to_string())),
        ("profile".to_string(), JsonValue::Str("p".to_string())),
        ("steps".to_string(), JsonValue::Array(vec![JsonValue::Object(vec![(
            "id".to_string(),
            JsonValue::Number("7".to_string()),
        )])])),
    ]);
    assert_eq!(
        parse_json_plan_value(&no_instruction, None).unwrap_err().to_string(),
        "missing required field: step.7.instruction"
    );
    let scalar = JsonValue::Bool(true);
    assert!(parse_json_plan_value(&scalar, None)
        .unwrap_err()
        .to_string()
        .contains("top-level JSON plan must be an object or steps array"));
}

#[test]
fn json_text_plan_reads_the_text_itself() {
    let text = r#"{"goal":"g","profile":"p","steps":[{"instruction":"Create a.md","expected_paths":["a.md"]}]}"#;
    let plan = parse_json_step_plan(text, None).unwrap();
    assert_eq!(plan.goal, "g");
    assert_eq!(plan.steps[0].kind, StepKind::Create);
    assert_eq!(plan.steps[0].expected_paths, vec!["a.md"]);
}
