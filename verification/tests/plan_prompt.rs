use commandagent::plan::{ExpectedResult, StepKind, WorkIntent};
use commandagent::plan_error::PlanError;
use commandagent::plan_prompt::{
    detect_work_intent, invalid_plan_correction_prompt, plan_generation_prompt,
};

#[test]
fn generation_prompt_demands_yaml_only() {
    let prompt = plan_generation_prompt("Build docs", "docs", "default", WorkIntent::Document, &[]);

    assert!(prompt.contains("Return only YAML"));
    assert!(prompt.contains("Goal: Build docs"));
    assert!(prompt.contains("Profile: docs"));
    assert!(prompt.contains("Intent: document"));
    assert!(prompt.contains("Do not include tool-call fields"));
    assert!(prompt.contains("YAML block scalars"));
    assert!(prompt.contains("do not use anchors"));
}

#[test]
fn generation_prompt_warns_rust_against_shell_scaffolding() {
    let prompt = plan_generation_prompt("Build Rust CLI", "rust", "default", WorkIntent::New, &[]);

    assert!(prompt.contains("Cargo.toml"));
    assert!(prompt.contains("src/main.rs"));
    assert!(prompt.contains("Do not plan cargo init or cargo new"));
}

#[test]
fn generation_prompt_lists_canonical_verifier_commands() {
    let prompt = plan_generation_prompt("Build app", "generic", "default", WorkIntent::New, &[]);

    assert!(prompt.contains("test -f <path>"));
    assert!(prompt.contains("python -m py_compile"));
    assert!(prompt.contains("cargo test"));
    assert!(prompt.contains("npm run build"));
    assert!(prompt.contains("grep -q"));
    assert!(prompt.contains("use build/test/check commands"));
    assert!(prompt.contains("active profile"));
    assert!(prompt.contains("not source-code semantics"));
    assert!(prompt.contains("if it exists"));
    assert!(prompt.contains("Inspect steps are observation-only"));
    assert!(prompt.contains("Do not use true as a verifier"));
}

#[test]
fn generation_prompt_includes_nextjs_tailwind_plan_guidance() {
    let prompt = plan_generation_prompt("Build app", "nextjs", "default", WorkIntent::New, &[]);

    assert!(prompt.contains("React 18.2 or newer compatibility"));
    assert!(prompt.contains("Do not use exact React pins below 18.2"));
    assert!(prompt.contains("typescript 5.x compatibility"));
    assert!(prompt.contains("stable TypeScript 5.x range such as ^5.4.0"));
    assert!(prompt.contains("exact TypeScript pins such as 5.0.0"));
    assert!(prompt.contains("@types/react 18.x compatibility"));
    assert!(prompt.contains("If source imports use @/*"));
    assert!(prompt.contains("latest as the compatibility strategy"));
    assert!(prompt.contains("Use plain CSS unless"));
    assert!(prompt.contains("same step plan must also include"));
    assert!(prompt.contains("tailwindcss, postcss, and autoprefixer"));
    assert!(prompt.contains("tailwind.config.js and postcss.config.js"));
    assert!(prompt.contains("Do not plan npm install"));
}

#[test]
fn correction_prompt_contains_error_and_invalid_plan() {
    let err = PlanError::NoSteps;
    let prompt = invalid_plan_correction_prompt("goal", "goal: x", &err);

    assert!(prompt.contains("Validation error"));
    assert!(prompt.contains("step plan must contain at least one step"));
    assert!(prompt.contains("goal: x"));
}

#[test]
fn generation_prompt_lists_required_artifacts() {
    let prompt = plan_generation_prompt(
        "Build app",
        "generic",
        "default",
        WorkIntent::New,
        &["README.md".to_string(), "src/main.rs".to_string()],
    );
    assert!(prompt.contains("Required final artifacts:\n- README.md\n- src/main.rs\nProfile guidance:"));
    let empty = plan_generation_prompt("Build app", "generic", "default", WorkIntent::New, &[]);
    assert!(empty.contains("Required final artifacts:\n- none\n"));
    assert!(empty.ends_with("No additional profile-specific plan guidance."));
}

#[test]
fn work_intent_detection_follows_keyword_order() {
    assert_eq!(detect_work_intent("Debug the crash and fix it"), WorkIntent::Investigate);
    assert_eq!(detect_work_intent("Update the README"), WorkIntent::Document);
    assert_eq!(detect_work_intent("FIX the parser"), WorkIntent::Modify);
    assert_eq!(detect_work_intent("Clean this CSV"), WorkIntent::Data);
    assert_eq!(detect_work_intent("Build a CLI"), WorkIntent::New);
    assert_eq!(detect_work_intent("バグの原因"), WorkIntent::Investigate);
    assert_eq!(detect_work_intent("hello"), WorkIntent::Unknown);
}

#[test]
fn enum_parsing_accepts_aliases_and_reports_normalized_value() {
    assert_eq!(WorkIntent::parse("  Create "), Ok(WorkIntent::New));
    assert_eq!(WorkIntent::parse(""), Ok(WorkIntent::Unknown));
    assert_eq!(
        WorkIntent::parse(" Odd "),
        Err(PlanError::InvalidEnum {
            field: "intent".to_string(),
            value: "odd".to_string()
        })
    );
    assert_eq!(StepKind::parse("SHELL"), Ok(StepKind::Verify));
    assert_eq!(StepKind::parse("Analyse"), Ok(StepKind::Inspect));
    assert_eq!(ExpectedResult::parse("Not_Available"), Ok(ExpectedResult::Unavailable));
    assert_eq!(
        ExpectedResult::parse("maybe_later"),
        Err(PlanError::InvalidEnum {
            field: "step.expected_result".to_string(),
            value: "maybe-later".to_string()
        })
    );
    assert_eq!(StepKind::Report.as_str(), "report");
    assert_eq!(ExpectedResult::Fail.as_str(), "fail");
    assert_eq!(
        PlanError::InvalidEnum {
            field: "step.kind".to_string(),
            value: "x".to_string()
        }
        .to_string(),
        "invalid step.kind: x"
    );
}
