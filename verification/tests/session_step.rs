use commandagent::events::{ArtifactScope, ArtifactStatus, GuardFeedbackKind, RuntimeEvent};
use commandagent::minimal_loop::config::{ActionRequirement, StepToolPolicy};
use commandagent::minimal_loop::result::MinimalLoopError;
use commandagent::minimal_loop::session::{
    answer_events, next_iteration, parser_feedback_event, stop_error, tool_failure_events,
    tool_result_events, ActionFeedback,
    FinalAnswerPolicy, FinalDecision, ResponseKind, SessionAction, SessionState,
};
use commandagent::minimal_loop::ToolCallMode;

fn policy(requirement: ActionRequirement) -> FinalAnswerPolicy {
    FinalAnswerPolicy {
        action_requirement: requirement,
        enable_completion_without_write_feedback: true,
        enable_requested_artifact_feedback: true,
        enable_future_action_feedback: true,
    }
}

fn none() -> Vec<String> {
    Vec::new()
}

#[test]
fn iterations_run_from_one_to_the_cap() {
    assert_eq!(next_iteration(0, 8), Some(1));
    assert_eq!(next_iteration(7, 8), Some(8));
    assert_eq!(next_iteration(8, 8), None);
    assert_eq!(next_iteration(0, 0), None);
}

#[test]
fn tool_calls_are_run_and_leave_the_state_alone() {
    let mut state = SessionState::new(ToolCallMode::Native);
    let before = state;
    let action = state.session_step(&policy(ActionRequirement::Optional), ResponseKind::ToolCalls, "", &none());
    assert_eq!(action, SessionAction::RunTools);
    assert!(action.continues());
    assert_eq!(state, before);
}

#[test]
fn unparsable_response_switches_to_the_fallback_format() {
    let mut state = SessionState::new(ToolCallMode::Native);
    let before = state;
    let action =
        state.session_step(&policy(ActionRequirement::Optional), ResponseKind::Unparsable, "<bad", &none());
    assert_eq!(action, SessionAction::ParserFeedback);
    assert!(action.continues());
    assert_eq!(state.mode, ToolCallMode::XmlFallback);
    match parser_feedback_event(3, &before, &state, "unclosed tool call\n") {
        RuntimeEvent::ParserFeedbackSent { iteration, previous_tool_call_mode, next_tool_call_mode, error } => {
            assert_eq!(iteration, 3);
            assert_eq!(previous_tool_call_mode, ToolCallMode::Native);
            assert_eq!(next_tool_call_mode, ToolCallMode::XmlFallback);
            assert_eq!(error, "unclosed tool call");
        }
        other => panic!("unexpected event {other:?}"),
    }
}

#[test]
fn plain_answer_is_accepted_with_its_length() {
    let mut state = SessionState::new(ToolCallMode::Native);
    let action = state.session_step(&policy(ActionRequirement::Optional), ResponseKind::Answer, "Done.", &none());
    assert_eq!(action, SessionAction::Final(FinalDecision::Accept));
    assert!(!action.continues());
    assert_eq!(stop_error(FinalDecision::Accept, "Done.", &none()), None);
    assert_eq!(
        answer_events(1, ToolCallMode::Native, FinalDecision::Accept, "Done.", &none(), &none()),
        vec![RuntimeEvent::FinalAnswerAccepted { iteration: 1, answer_chars: 5 }]
    );
}

#[test]
fn future_action_gets_feedback_then_stops_the_run() {
    let mut state = SessionState::new(ToolCallMode::Native);
    let p = policy(ActionRequirement::Optional);
    let first = state.session_step(&p, ResponseKind::Answer, "Now I'll create the files.", &none());
    assert_eq!(first, SessionAction::Final(FinalDecision::FutureActionFeedback));
    assert!(first.continues());
    assert_eq!(
        answer_events(1, ToolCallMode::Native, FinalDecision::FutureActionFeedback, "x", &none(), &none()),
        vec![RuntimeEvent::GuardFeedbackSent {
            iteration: 1,
            kind: GuardFeedbackKind::FutureAction,
            tool_call_mode: ToolCallMode::Native,
            missing_artifacts: Vec::new(),
        }]
    );
    let second = state.session_step(&p, ResponseKind::Answer, "Let me write the file now.", &none());
    assert_eq!(second, SessionAction::Final(FinalDecision::FinalAnswerContract));
    assert!(!second.continues());
    let err = stop_error(FinalDecision::FinalAnswerContract, "Let me write the file now.", &none());
    assert_eq!(err, Some(MinimalLoopError::FinalAnswerContract("Let me write the file now.".to_string())));
    assert_eq!(
        answer_events(2, ToolCallMode::Native, FinalDecision::FinalAnswerContract, "Let me write the file now.", &none(), &none()),
        vec![RuntimeEvent::SessionError {
            message: "assistant violated final answer contract: Let me write the file now.".to_string()
        }]
    );
}

#[test]
fn required_action_gets_feedback_then_a_write_is_accepted() {
    let mut state = SessionState::new(ToolCallMode::Native);
    let p = policy(ActionRequirement::Required);
    let first = state.session_step(&p, ResponseKind::Answer, "Done.", &none());
    assert_eq!(first, SessionAction::Final(FinalDecision::ActionRequiredFeedback(ActionFeedback::Action)));
    assert_eq!(
        answer_events(1, ToolCallMode::Native, FinalDecision::ActionRequiredFeedback(ActionFeedback::Action), "Done.", &none(), &none()),
        vec![RuntimeEvent::GuardFeedbackSent {
            iteration: 1,
            kind: GuardFeedbackKind::ActionRequired,
            tool_call_mode: ToolCallMode::Native,
            missing_artifacts: Vec::new(),
        }]
    );
    assert_eq!(state.session_step(&p, ResponseKind::ToolCalls, "", &none()), SessionAction::RunTools);
    state.record_tool_result("Write", true, StepToolPolicy::FileMutationAllowed);
    let last = state.session_step(&p, ResponseKind::Answer, "Created created.txt.", &none());
    assert_eq!(last, SessionAction::Final(FinalDecision::Accept));
}

#[test]
fn repeated_prose_without_action_stops_with_the_answer() {
    let mut state = SessionState::new(ToolCallMode::Native);
    let p = policy(ActionRequirement::RepositoryEvidenceRequired);
    let first = state.session_step(&p, ResponseKind::Answer, "package.json looks fine.", &none());
    assert_eq!(
        first,
        SessionAction::Final(FinalDecision::ActionRequiredFeedback(ActionFeedback::RepositoryEvidence))
    );
    let second = state.session_step(&p, ResponseKind::Answer, "I already inspected package.json.", &none());
    assert_eq!(second, SessionAction::Final(FinalDecision::ActionRequiredNoEvidence));
    assert_eq!(
        stop_error(FinalDecision::ActionRequiredNoEvidence, "I already inspected package.json.", &none()),
        Some(MinimalLoopError::ActionRequiredNoEvidence("I already inspected package.json.".to_string()))
    );
}

#[test]
fn missing_artifact_gets_feedback_then_stops_with_its_path() {
    let expected = vec!["dist/report.md".to_string()];
    let missing = vec!["dist/report.md".to_string()];
    let mut state = SessionState::new(ToolCallMode::Native);
    let p = policy(ActionRequirement::Optional);
    let first = state.session_step(&p, ResponseKind::Answer, "Done.", &missing);
    assert_eq!(first, SessionAction::Final(FinalDecision::RequestedArtifactFeedback));
    let status = RuntimeEvent::ArtifactStatus {
        scope: ArtifactScope::StepExpectedPath,
        path: "dist/report.md".to_string(),
        status: ArtifactStatus::Missing,
    };
    assert_eq!(
        answer_events(1, ToolCallMode::Native, FinalDecision::RequestedArtifactFeedback, "Done.", &expected, &missing),
        vec![
            status.clone(),
            RuntimeEvent::GuardFeedbackSent {
                iteration: 1,
                kind: GuardFeedbackKind::RequestedArtifacts,
                tool_call_mode: ToolCallMode::Native,
                missing_artifacts: vec!["dist/report.md".to_string()],
            },
        ]
    );
    let second = state.session_step(&p, ResponseKind::Answer, "Still done.", &missing);
    assert_eq!(second, SessionAction::Final(FinalDecision::MissingArtifacts));
    assert_eq!(
        stop_error(FinalDecision::MissingArtifacts, "Still done.", &missing),
        Some(MinimalLoopError::MissingArtifacts(vec!["dist/report.md".to_string()]))
    );
    assert_eq!(
        answer_events(2, ToolCallMode::Native, FinalDecision::MissingArtifacts, "Still done.", &expected, &missing),
        vec![
            status,
            RuntimeEvent::SessionError { message: "missing expected artifacts: dist/report.md".to_string() },
        ]
    );
}

#[test]
fn present_artifact_is_reported_before_the_accepted_answer() {
    let expected = vec!["dist/report.md".to_string()];
    assert_eq!(
        answer_events(4, ToolCallMode::XmlFallback, FinalDecision::Accept, "Created.", &expected, &none()),
        vec![
            RuntimeEvent::ArtifactStatus {
                scope: ArtifactScope::StepExpectedPath,
                path: "dist/report.md".to_string(),
                status: ArtifactStatus::Present,
            },
            RuntimeEvent::FinalAnswerAccepted { iteration: 4, answer_chars: 8 },
        ]
    );
}

#[test]
fn finished_tool_reports_its_result_and_any_truncation() {
    assert_eq!(
        tool_result_events(2, "Read", true, 40, false, 40),
        vec![RuntimeEvent::ToolCallFinished {
            iteration: 2,
            tool_name: "Read".to_string(),
            ok: true,
            output_chars: 40,
            error: None,
        }]
    );
    let events = tool_result_events(3, "Bash", false, 100, true, 5000);
    assert_eq!(events.len(), 2);
    assert_eq!(
        events[1],
        RuntimeEvent::ToolResultTruncated {
            iteration: 3,
            tool_name: "Bash".to_string(),
            original_chars: 5000,
            returned_chars: 100,
            reason: "max_output_chars".to_string(),
        }
    );
}

#[test]
fn failed_tool_reports_the_error_then_stops() {
    let err = MinimalLoopError::Tool("path escapes workspace".to_string());
    assert_eq!(
        tool_failure_events(1, "Write", &err),
        vec![
            RuntimeEvent::ToolCallFinished {
                iteration: 1,
                tool_name: "Write".to_string(),
                ok: false,
                output_chars: 0,
                error: Some("tool error: path escapes workspace".to_string()),
            },
            RuntimeEvent::SessionError { message: "tool error: path escapes workspace".to_string() },
        ]
    );
}
