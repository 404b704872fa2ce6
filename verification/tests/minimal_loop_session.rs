use commandagent::events::{ArtifactScope, ArtifactStatus, RuntimeEvent};
use commandagent::json_value::JsonValue;
use commandagent::minimal_loop::config::{ActionRequirement, StepToolPolicy};
use commandagent::minimal_loop::result::{MinimalLoopError, ToolArgError};
use commandagent::minimal_loop::session::{
    action_requirement_satisfied, artifact_status_events, assistant_history_content,
    compact_tool_args_summary, is_repository_evidence_tool, missing_artifacts, tool_args_summary,
    tool_calls_from_response, ActionFeedback, FinalAnswerPolicy, FinalDecision, SessionState,
};
use commandagent::minimal_loop::tool_policy::{
    enforce_step_tool_policy, is_setup_or_config_path, parse_tool_args, required_str, BashVerdict,
};
use commandagent::minimal_loop::ToolCallMode;

fn object(fields: &[(&str, &str)]) -> JsonValue {
    JsonValue::Object(
        fields
            .iter()
            .map(|(k, v)| (k.to_string(), JsonValue::Str(v.to_string())))
            .collect(),
    )
}

fn no_bash() -> BashVerdict {
    BashVerdict { allowed: false, read_only: false, detail: String::new() }
}

fn default_policy() -> FinalAnswerPolicy {
    FinalAnswerPolicy {
        action_requirement: ActionRequirement::Optional,
        enable_completion_without_write_feedback: true,
        enable_requested_artifact_feedback: true,
        enable_future_action_feedback: true,
    }
}

#[test]
fn read_only_policy_blocks_write() {
    let err = enforce_step_tool_policy(
        StepToolPolicy::ReadOnly,
        "Write",
        &object(&[("path", "README.md"), ("content", "x")]),
        &no_bash(),
    )
    .unwrap_err();

    assert!(err.to_string().contains("tool_policy_violation"));
    assert_eq!(
        err,
        MinimalLoopError::Tool("tool_policy_violation: Write is not allowed in a read-only step".to_string())
    );
}

#[test]
fn read_only_policy_allows_read() {
    assert_eq!(
        enforce_step_tool_policy(StepToolPolicy::ReadOnly, "Read", &object(&[("path", "README.md")]), &no_bash()),
        Ok(())
    );
}

#[test]
fn no_mutation_policy_blocks_write() {
    let err = enforce_step_tool_policy(
        StepToolPolicy::NoMutation,
        "Write",
        &object(&[("path", "README.md"), ("content", "x")]),
        &no_bash(),
    )
    .unwrap_err();

    assert!(err.to_string().contains("no-mutation"));
}

#[test]
fn setup_policy_allows_manifest_write_but_blocks_source_write() {
    assert_eq!(
        enforce_step_tool_policy(
            StepToolPolicy::SetupMutationOnly,
            "Write",
            &object(&[("path", "package.json"), ("content", "{}")]),
            &no_bash(),
        ),
        Ok(())
    );
    let err = enforce_step_tool_policy(
        StepToolPolicy::SetupMutationOnly,
        "Write",
        &object(&[("path", "app/page.tsx"), ("content", "export default function Page() { return null }")]),
        &no_bash(),
    )
    .unwrap_err();

    assert!(err.to_string().contains("tool_policy_violation"));
    assert_eq!(
        err,
        MinimalLoopError::Tool(
            "tool_policy_violation: Write may only change setup/config files in a setup step: app/page.tsx"
                .to_string()
        )
    );
}

#[test]
fn read_only_bash_follows_the_shell_verdict() {
    let args = object(&[("command", "ls")]);
    let ok = BashVerdict { allowed: true, read_only: true, detail: "ReadOnly".to_string() };
    assert_eq!(enforce_step_tool_policy(StepToolPolicy::ReadOnly, "Bash", &args, &ok), Ok(()));
    let mutating = BashVerdict { allowed: true, read_only: false, detail: "Mutating".to_string() };
    assert_eq!(
        enforce_step_tool_policy(StepToolPolicy::SetupMutationOnly, "Bash", &args, &mutating),
        Err(MinimalLoopError::Tool(
            "tool_policy_violation: Bash command is not read-only for this step: Mutating".to_string()
        ))
    );
    let err = enforce_step_tool_policy(StepToolPolicy::ReadOnly, "Bash", &object(&[]), &ok).unwrap_err();
    assert_eq!(
        err,
        MinimalLoopError::ToolArgs(ToolArgError::MissingRequiredStringField {
            tool: "Bash".to_string(),
            field: "command".to_string(),
            required_fields: Vec::new(),
        })
    );
}

#[test]
fn mutation_allowed_admits_everything() {
    for tool in ["Write", "Edit", "Bash", "Other"] {
        assert_eq!(
            enforce_step_tool_policy(StepToolPolicy::FileMutationAllowed, tool, &JsonValue::Null, &no_bash()),
            Ok(())
        );
    }
}

#[test]
fn setup_or_config_paths() {
    assert!(is_setup_or_config_path("package.json"));
    assert!(is_setup_or_config_path("Cargo.toml"));
    assert!(is_setup_or_config_path(".eslintrc"));
    assert!(is_setup_or_config_path("tsconfig.json/"));
    assert!(!is_setup_or_config_path("./package.json"));
    assert!(!is_setup_or_config_path("/package.json"));
    assert!(!is_setup_or_config_path("app/package.json"));
    assert!(!is_setup_or_config_path("../package.json"));
    assert!(!is_setup_or_config_path("README.md"));
    assert!(!is_setup_or_config_path(""));
}

#[test]
fn required_string_arguments() {
    let args = object(&[("path", "a.txt")]);
    assert_eq!(required_str("Read", &args, "path"), Ok("a.txt".to_string()));
    let err = required_str("Read", &args, "content").unwrap_err();
    assert_eq!(err.to_string(), "invalid tool arguments: Read missing string field `content`");
}

#[test]
fn future_action_feedback_prompts_for_tool_call() {
    let mut state = SessionState::new(ToolCallMode::Native);
    let policy = default_policy();
    let first = state.decide_final_answer(&policy, "Now I'll create the files.", &Vec::new());
    assert_eq!(first, FinalDecision::FutureActionFeedback);
    assert!(state.future_action_feedback_sent);
    state.record_tool_result("Write", true, StepToolPolicy::FileMutationAllowed);
    assert_eq!(state.file_change_count, 1);
    let last = state.decide_final_answer(&policy, "Created created.txt.", &Vec::new());
    assert_eq!(last, FinalDecision::Accept);
}

#[test]
fn repeated_future_action_after_feedback_is_rejected() {
    let mut state = SessionState::new(ToolCallMode::Native);
    let policy = default_policy();
    assert_eq!(
        state.decide_final_answer(&policy, "Now I'll create the files.", &Vec::new()),
        FinalDecision::FutureActionFeedback
    );
    assert_eq!(
        state.decide_final_answer(&policy, "Let me write the file now.", &Vec::new()),
        FinalDecision::FinalAnswerContract
    );
}

#[test]
fn direct_conversation_accepts_prose_without_action_required() {
    let mut state = SessionState::new(ToolCallMode::Native);
    assert_eq!(state.decide_final_answer(&default_policy(), "Done.", &Vec::new()), FinalDecision::Accept);
    assert_eq!(state, SessionState::new(ToolCallMode::Native));
}

#[test]
fn action_required_feedback_prompts_for_tool_call() {
    let mut state = SessionState::new(ToolCallMode::Native);
    let policy = FinalAnswerPolicy { action_requirement: ActionRequirement::Required, ..default_policy() };
    assert_eq!(
        state.decide_final_answer(&policy, "Done.", &Vec::new()),
        FinalDecision::ActionRequiredFeedback(ActionFeedback::Action)
    );
    state.record_tool_result("Write", true, StepToolPolicy::FileMutationAllowed);
    assert_eq!(state.decide_final_answer(&policy, "Created created.txt.", &Vec::new()), FinalDecision::Accept);
}

#[test]
fn repeated_action_required_prose_returns_explicit_error() {
    let mut state = SessionState::new(ToolCallMode::Native);
    let policy = FinalAnswerPolicy { action_requirement: ActionRequirement::Required, ..default_policy() };
    state.decide_final_answer(&policy, "Done.", &Vec::new());
    assert_eq!(
        state.decide_final_answer(&policy, "Still done.", &Vec::new()),
        FinalDecision::ActionRequiredNoEvidence
    );
}

#[test]
fn repository_evidence_required_accepts_read_tool() {
    let mut state = SessionState::new(ToolCallMode::Native);
    let policy =
        FinalAnswerPolicy { action_requirement: ActionRequirement::RepositoryEvidenceRequired, ..default_policy() };
    assert_eq!(
        state.decide_final_answer(&policy, "Already checked package.json.", &Vec::new()),
        FinalDecision::ActionRequiredFeedback(ActionFeedback::RepositoryEvidence)
    );
    state.record_tool_result("Read", true, StepToolPolicy::ReadOnly);
    assert_eq!(state.repository_evidence_count, 1);
    assert_eq!(state.file_change_count, 0);
    assert_eq!(
        state.decide_final_answer(&policy, "Read package.json and confirmed the build script.", &Vec::new()),
        FinalDecision::Accept
    );
}

#[test]
fn repository_evidence_required_rejects_repeated_prose() {
    let mut state = SessionState::new(ToolCallMode::Native);
    let policy =
        FinalAnswerPolicy { action_requirement: ActionRequirement::RepositoryEvidenceRequired, ..default_policy() };
    state.decide_final_answer(&policy, "package.json looks fine.", &Vec::new());
    assert_eq!(
        state.decide_final_answer(&policy, "I already inspected package.json.", &Vec::new()),
        FinalDecision::ActionRequiredNoEvidence
    );
}

#[test]
fn requested_artifact_feedback_prompts_for_missing_path() {
    let mut state = SessionState::new(ToolCallMode::Native);
    let missing = vec!["dist/report.md".to_string()];
    assert_eq!(
        state.decide_final_answer(&default_policy(), "Done.", &missing),
        FinalDecision::RequestedArtifactFeedback
    );
    assert_eq!(state.decide_final_answer(&default_policy(), "Created dist/report.md.", &Vec::new()), FinalDecision::Accept);
}

#[test]
fn requested_artifact_missing_after_feedback_is_error() {
    let mut state = SessionState::new(ToolCallMode::Native);
    let missing = vec!["dist/report.md".to_string()];
    state.decide_final_answer(&default_policy(), "Done.", &missing);
    assert_eq!(
        state.decide_final_answer(&default_policy(), "No changes needed.", &missing),
        FinalDecision::MissingArtifacts
    );
}

#[test]
fn disabled_feedback_accepts_or_stops_at_once() {
    let policy = FinalAnswerPolicy {
        action_requirement: ActionRequirement::Required,
        enable_completion_without_write_feedback: false,
        enable_requested_artifact_feedback: false,
        enable_future_action_feedback: false,
    };
    let mut state = SessionState::new(ToolCallMode::XmlFallback);
    assert_eq!(state.decide_final_answer(&policy, "I will create it.", &Vec::new()), FinalDecision::FinalAnswerContract);
    assert_eq!(
        state.decide_final_answer(&policy, "Done.", &vec!["a.md".to_string()]),
        FinalDecision::Accept
    );
}

#[test]
fn tool_results_move_counters() {
    let mut state = SessionState::new(ToolCallMode::Native);
    state.record_tool_result("Edit", true, StepToolPolicy::FileMutationAllowed);
    state.record_tool_result("Write", false, StepToolPolicy::FileMutationAllowed);
    state.record_tool_result("Bash", true, StepToolPolicy::NoMutation);
    state.record_tool_result("Bash", true, StepToolPolicy::ReadOnly);
    state.record_tool_result("Grep", true, StepToolPolicy::NoMutation);
    assert_eq!(state.file_change_count, 1);
    assert_eq!(state.repository_evidence_count, 2);
    assert!(is_repository_evidence_tool("Glob", StepToolPolicy::FileMutationAllowed));
    assert!(!is_repository_evidence_tool("Bash", StepToolPolicy::SetupMutationOnly));
    assert!(action_requirement_satisfied(ActionRequirement::Optional, 0, 0));
    assert!(!action_requirement_satisfied(ActionRequirement::Required, 0, 3));
    assert!(action_requirement_satisfied(ActionRequirement::RepositoryEvidenceRequired, 0, 3));
}

#[test]
fn observer_reports_step_expected_artifact_status_and_guard_feedback() {
    let expected = vec!["dist/report.md".to_string(), "README.md".to_string()];
    let missing = missing_artifacts(&expected, &vec![false, true]);
    assert_eq!(missing, vec!["dist/report.md".to_string()]);
    let events = artifact_status_events(&expected, &missing);
    assert_eq!(
        events,
        vec![
            RuntimeEvent::ArtifactStatus {
                scope: ArtifactScope::StepExpectedPath,
                path: "dist/report.md".to_string(),
                status: ArtifactStatus::Missing,
            },
            RuntimeEvent::ArtifactStatus {
                scope: ArtifactScope::StepExpectedPath,
                path: "README.md".to_string(),
                status: ArtifactStatus::Present,
            },
        ]
    );
}

#[test]
fn args_summaries() {
    let write = object(&[("path", "nested/hello.txt"), ("content", "héllo")]);
    assert_eq!(tool_args_summary("Write", "", &write), "nested/hello.txt 6B");
    let edit = object(&[("path", "a.rs"), ("old", "x"), ("new", "yz")]);
    assert_eq!(tool_args_summary("Edit", "", &edit), "a.rs 2B");
    assert_eq!(tool_args_summary("Read", "", &object(&[("path", "README.md")])), "README.md");
    assert_eq!(tool_args_summary("Bash", "", &object(&[("command", "ls -la")])), "ls -la");
    assert_eq!(tool_args_summary("Glob", "", &object(&[("pattern", "*.rs")])), "*.rs");
    assert_eq!(tool_args_summary("Read", "", &JsonValue::Null), "");
    assert_eq!(tool_args_summary("Other", "{\"a\":1}", &JsonValue::Null), "{\"a\":1}");
    let long = "x".repeat(200);
    let summary = tool_args_summary("Bash", "", &object(&[("command", long.as_str())]));
    assert_eq!(summary, format!("{}...", "x".repeat(160)));
}

#[test]
fn compact_summaries_read_the_json_arguments() {
    assert_eq!(
        compact_tool_args_summary("Write", r#"{"path":"nested/hello.txt","content":"hello"}"#),
        "nested/hello.txt 5B"
    );
    assert_eq!(compact_tool_args_summary("Read", r#"{"path":"README.md"}"#), "README.md");
    assert_eq!(compact_tool_args_summary("Other", r#"{"a":1}"#), r#"{"a":1}"#);
    assert_eq!(compact_tool_args_summary("Read", "{"), "invalid args");
    assert_eq!(compact_tool_args_summary("Read", "[]"), "");
}

#[test]
fn response_tool_call_selection() {
    let native: Vec<u8> = vec![1];
    assert_eq!(tool_calls_from_response(Some("bad".to_string()), native.clone(), Ok(vec![2])), Err("bad".to_string()));
    assert_eq!(tool_calls_from_response(None, native, Ok(vec![2])), Ok(vec![1]));
    assert_eq!(tool_calls_from_response::<u8>(None, Vec::new(), Ok(vec![2])), Ok(vec![2]));
    assert_eq!(tool_calls_from_response::<u8>(None, Vec::new(), Err("unclosed".to_string())), Err("unclosed".to_string()));
}

#[test]
fn history_content_keeps_native_content_or_appends_rendered_calls() {
    assert_eq!(assistant_history_content("text", true, ToolCallMode::Native, "<call/>"), "text");
    assert_eq!(assistant_history_content("text", true, ToolCallMode::XmlFallback, "<call/>"), "text\n<call/>");
    assert_eq!(assistant_history_content("  ", false, ToolCallMode::Native, "<call/>"), "<call/>");
}

#[test]
fn parse_failure_downgrades_next_request_to_xml_fallback() {
    let mut state = SessionState::new(ToolCallMode::Native);
    state.record_tool_result("Write", true, StepToolPolicy::FileMutationAllowed);
    state.record_parse_failure();
    assert_eq!(state.mode, ToolCallMode::XmlFallback);
    assert_eq!(state.file_change_count, 1);
    state.record_parse_failure();
    assert_eq!(state.mode, ToolCallMode::XmlFallback);
}

#[test]
fn tool_arguments_are_read_as_json() {
    let args = parse_tool_args("Write", r#"{"path":"a.txt","content":"x"}"#).unwrap();
    assert_eq!(args, object(&[("content", "x"), ("path", "a.txt")]));
    let err = parse_tool_args("Write", "{\"path\":").unwrap_err();
    let message = serde_json::from_str::<serde_json::Value>("{\"path\":").unwrap_err().to_string();
    assert_eq!(
        err,
        MinimalLoopError::ToolArgs(ToolArgError::InvalidJson { tool: "Write".to_string(), message })
    );
}
