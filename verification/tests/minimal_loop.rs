use commandagent::minimal_loop::config::{
    ActionRequirement, DependencySetupPolicy, MinimalLoopConfig, StepToolPolicy,
};
use commandagent::minimal_loop::guards::{
    completion_without_write_feedback, future_action_feedback, is_file_change_tool,
    requested_artifact_feedback,
};
use commandagent::minimal_loop::prompt::{
    parser_failure_feedback, system_prompt, violates_final_answer_contract, xml_tool_call_format,
};
use commandagent::minimal_loop::result::{MinimalLoopError, ToolArgError};
use commandagent::minimal_loop::{ToolCallMode, ToolSpec};

fn spec(name: &str, description: &str) -> ToolSpec {
    ToolSpec { name: name.to_string(), description: description.to_string() }
}

fn file_tool_specs() -> Vec<ToolSpec> {
    vec![
        spec("Read", "Read a text file inside the workspace."),
        spec("Write", "Write a text file inside the workspace."),
        spec("Edit", "Replace text in a file inside the workspace."),
    ]
}

#[test]
fn file_change_tool_detection_is_narrow() {
    assert!(is_file_change_tool("Write"));
    assert!(is_file_change_tool("Edit"));
    assert!(!is_file_change_tool("Read"));
    assert!(!is_file_change_tool("Bash"));
}

#[test]
fn native_prompt_contains_final_answer_contract_without_xml_fallback() {
    let prompt = system_prompt(ToolCallMode::Native, &file_tool_specs());

    assert!(prompt.contains("Final answers must describe completed work"));
    assert!(prompt.contains("Write creates parent directories"));
    assert!(!prompt.contains("commandagent_tool_call"));
}

#[test]
fn xml_fallback_prompt_contains_tool_contract() {
    let prompt = system_prompt(ToolCallMode::XmlFallback, &file_tool_specs());

    assert!(prompt.contains("commandagent_tool_call"));
    assert!(prompt.contains("\"args\""));
    assert!(prompt.contains("- Write: {\"path\":\"README.md\",\"content\":\"text\"}"));
    assert!(
        prompt
            .contains("- Edit: {\"path\":\"README.md\",\"old\":\"before\",\"new\":\"after\"}")
    );
    assert!(prompt.contains("- Bash: {\"command\":\"cargo test\"}"));
    assert!(prompt.contains("- Read: Read a text file inside the workspace."));
}

#[test]
fn detects_planned_next_step_as_invalid_final() {
    assert!(violates_final_answer_contract("Now I'll create the files."));
    assert!(violates_final_answer_contract("Let me verify the build."));
    assert!(!violates_final_answer_contract(
        "Created the files and verified the build."
    ));
}

#[test]
fn tool_arg_error_display_missing_required_field() {
    let err = ToolArgError::MissingRequiredStringField {
        tool: "Write".to_string(),
        field: "path".to_string(),
        required_fields: vec!["path".to_string(), "content".to_string()],
    };

    assert_eq!(err.reason_code(), "tool_args_missing_required_field");
    assert_eq!(err.tool_name(), "Write");
    assert_eq!(err.missing_field(), Some("path"));
    assert_eq!(err.required_fields().len(), 2);
    assert_eq!(err.required_fields()[0], "path");
    assert_eq!(err.required_fields()[1], "content");
    assert!(
        err.to_string()
            .contains("Write missing string field `path`")
    );
    assert!(err.to_string().contains("required fields: path, content"));
    assert!(
        err.diagnostic_excerpt()
            .contains("Write requires: path, content")
    );
}

#[test]
fn tool_arg_error_display_invalid_json() {
    let err = ToolArgError::InvalidJson {
        tool: "Write".to_string(),
        message: "expected value".to_string(),
    };

    assert_eq!(err.reason_code(), "tool_args_invalid_json");
    assert_eq!(err.tool_name(), "Write");
    assert_eq!(err.missing_field(), None);
    assert!(err.required_fields().is_empty());
    assert!(
        err.to_string()
            .contains("Write arguments are not valid JSON")
    );
    assert!(
        err.diagnostic_excerpt()
            .contains("invalid JSON arguments: expected value")
    );
}

#[test]
fn requested_artifact_feedback_lists_each_missing_path() {
    let text = requested_artifact_feedback(&["a.txt".to_string(), "b/c.rs".to_string()]);
    assert_eq!(
        text,
        "The requested artifact paths are still missing:\n- a.txt\n- b/c.rs\nCreate the missing paths with Write/Edit now, or explain why they are not required."
    );
    assert!(future_action_feedback().starts_with("You described a future tool action"));
    assert!(completion_without_write_feedback().contains("use Write or Edit now"));
}

#[test]
fn xml_prompt_lists_tools_in_order() {
    let prompt = system_prompt(ToolCallMode::XmlFallback, &[spec("A", "first"), spec("B", "second")]);
    assert!(prompt.contains("\nAvailable tools:\n- A: first\n- B: second\n\nArgument shapes:\n"));
    assert!(prompt.ends_with("- Bash: {\"command\":\"cargo test\"}"));
    let native = system_prompt(ToolCallMode::Native, &[spec("A", "first")]);
    assert!(!native.contains("Available tools"));
}

#[test]
fn parser_failure_feedback_quotes_error_and_format() {
    let text = parser_failure_feedback("missing name");
    assert_eq!(
        text,
        format!(
            "The previous tool call was malformed: missing name\nUse XML fallback format exactly like this:\n{}",
            xml_tool_call_format()
        )
    );
}

#[test]
fn future_marker_without_action_word_is_allowed() {
    assert!(!violates_final_answer_contract("I will be brief: done."));
    assert!(violates_final_answer_contract("I\u{2019}m going to run the tests"));
    assert!(violates_final_answer_contract("LET ME CHECK"));
}

#[test]
fn loop_errors_render_their_messages() {
    assert_eq!(MinimalLoopError::MaxIterations.to_string(), "minimal loop reached max iterations");
    assert_eq!(
        MinimalLoopError::MissingArtifacts(vec!["a".to_string(), "b".to_string()]).to_string(),
        "missing expected artifacts: a, b"
    );
    let args = ToolArgError::MissingRequiredStringField {
        tool: "Edit".to_string(),
        field: "old".to_string(),
        required_fields: vec![],
    };
    assert_eq!(
        MinimalLoopError::ToolArgs(args.clone()).to_string(),
        "invalid tool arguments: Edit missing string field `old`"
    );
    assert!(args.diagnostic_excerpt().contains("Edit requires: unknown."));
}

#[test]
fn default_config_enables_feedback_and_file_mutation() {
    let config = MinimalLoopConfig::default();
    assert_eq!(config.model, "default");
    assert_eq!(config.max_iterations, 8);
    assert_eq!(config.initial_tool_call_mode, ToolCallMode::Native);
    assert_eq!(config.action_requirement, ActionRequirement::Optional);
    assert_eq!(config.step_tool_policy, StepToolPolicy::FileMutationAllowed);
    assert_eq!(
        config.dependency_setup_policy,
        DependencySetupPolicy { auto_approve: false, offline: false, timeout_secs: 600 }
    );
    assert!(config.enable_future_action_feedback);
}
