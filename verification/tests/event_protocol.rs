use commandagent::event_protocol::{
    command_response_event, project_job_state, EventProtocolContext, EventSource, JobManifest,
    JobStatus, PayloadValue, RuntimeJobCompletionSource, RuntimeJobLifecycleStage,
    RuntimeJobReport, VersionedCommand, VersionedEvent, EVENT_SCHEMA_VERSION,
};
use commandagent::events::{ModelUsage, PlanKind, RuntimeEvent, ToolCallMode};

fn field<'a>(event: &'a VersionedEvent, key: &str) -> &'a PayloadValue {
    &event
        .payload
        .iter()
        .find(|field| field.key == key)
        .expect("payload key")
        .value
}

fn text(value: &PayloadValue) -> &str {
    match value {
        PayloadValue::Text(text) => text,
        PayloadValue::OptionalText(Some(text)) => text,
        other => panic!("not text: {other:?}"),
    }
}

#[test]
fn versioned_event_adapter_adds_identity_and_payload() {
    let mut context = EventProtocolContext::new(
        "run1",
        "job1",
        EventSource::commandagent("worker", Some("ollama".to_string()), Some("qwen".to_string())),
    );

    let event = context.next_runtime_event(
        &RuntimeEvent::VerifierFinished {
            step_id: "verify-build".to_string(),
            command: "npm run build".to_string(),
            ok: false,
            failure_count: 1,
        },
        1_700_000_000_000,
    );

    assert_eq!(event.schema_version, EVENT_SCHEMA_VERSION);
    assert_eq!(event.sequence, 1);
    assert_eq!(event.job_id, "job1");
    assert_eq!(event.step_id.as_deref(), Some("verify-build"));
    assert_eq!(event.event_type, "verifier.finished");
    assert_eq!(text(field(&event, "command")), "npm run build");
    assert_eq!(event.event_id, "evt_run1_1");
    assert_eq!(event.timestamp, "1700000000000");
    assert_eq!(event.source.provider.as_deref(), Some("ollama"));
}

#[test]
fn job_state_projector_replays_core_statuses() {
    let mut context =
        EventProtocolContext::new("run1", "job1", EventSource::commandagent("worker", None, None));
    let events = vec![
        context.next_runtime_event(
            &RuntimeEvent::PlanGenerationStarted {
                kind: PlanKind::StepPlan,
                goal: "goal".to_string(),
                profile: "generic".to_string(),
            },
            1,
        ),
        context.next_runtime_event(
            &RuntimeEvent::StepStarted {
                index: 1,
                total: 1,
                step_id: "write-readme".to_string(),
            },
            2,
        ),
        context.next_runtime_event(
            &RuntimeEvent::FinalAnswerAccepted {
                iteration: 1,
                answer_chars: 4,
            },
            3,
        ),
    ];

    let state = project_job_state(&events).unwrap();

    assert_eq!(state.status, JobStatus::Completed);
    assert_eq!(state.active_step.as_deref(), Some("write-readme"));
}

#[test]
fn recovery_task_started_projects_repairing_state() {
    let mut context =
        EventProtocolContext::new("run1", "job1", EventSource::commandagent("worker", None, None));

    let event = context.next_runtime_event(
        &RuntimeEvent::RecoveryTaskStarted {
            step_id: "write-readme".to_string(),
            attempt: 1,
            active_job: "scaffold_materialization".to_string(),
            dispatch_status: "selected".to_string(),
            execution_envelope: Some("file_mutation_repair".to_string()),
            target_path: Some("README.md".to_string()),
        },
        5,
    );
    let state = project_job_state(std::slice::from_ref(&event)).unwrap();

    assert_eq!(event.event_type, "recovery_task.started");
    assert_eq!(event.step_id.as_deref(), Some("write-readme"));
    assert_eq!(event.attempt_id.as_deref(), Some("attempt_1"));
    assert_eq!(text(field(&event, "active_job")), "scaffold_materialization");
    assert_eq!(text(field(&event, "dispatch_status")), "selected");
    assert_eq!(text(field(&event, "execution_envelope")), "file_mutation_repair");
    assert_eq!(text(field(&event, "target_path")), "README.md");
    assert_eq!(state.status, JobStatus::Repairing);
    assert_eq!(state.active_step.as_deref(), Some("write-readme"));
}

#[test]
fn runtime_job_report_serializes_lifecycle_projection() {
    let mut report = RuntimeJobReport::new("job1", RuntimeJobLifecycleStage::Rechecking);
    report.active_owner = "setup".to_string();
    report.selected_action = "run_verifier_owned_setup".to_string();
    report.completion_source = RuntimeJobCompletionSource::RecheckSuccess;

    assert_eq!(report.schema_version, EVENT_SCHEMA_VERSION);
    assert_eq!(report.job_id, "job1");
    assert_eq!(report.lifecycle_stage, RuntimeJobLifecycleStage::Rechecking);
    assert_eq!(report.active_owner, "setup");
    assert_eq!(report.completion_source, RuntimeJobCompletionSource::RecheckSuccess);
    assert_eq!(report.attempt_outcome, "unknown");
}

#[test]
fn model_response_event_records_usage_unavailable_boundary() {
    let mut context =
        EventProtocolContext::new("run1", "job1", EventSource::commandagent("worker", None, None));

    let event = context.next_runtime_event(
        &RuntimeEvent::ModelResponseReceived {
            iteration: 1,
            tool_call_mode: ToolCallMode::Native,
            tool_call_count: 0,
            content_chars: 12,
            elapsed_ms: 30,
            usage: ModelUsage::unavailable("provider_usage_missing"),
        },
        7,
    );

    assert_eq!(event.event_type, "model_response.received");
    match field(&event, "usage") {
        PayloadValue::Usage(usage) => {
            assert!(!usage.available);
            assert_eq!(usage.reason.as_deref(), Some("provider_usage_missing"));
        }
        other => panic!("unexpected usage: {other:?}"),
    }
}

#[test]
fn model_response_event_records_attached_usage() {
    let mut context = EventProtocolContext::new(
        "run1",
        "job1",
        EventSource::commandagent("worker", Some("gemini".to_string()), None),
    );

    let event = context.next_runtime_event(
        &RuntimeEvent::ModelResponseReceived {
            iteration: 1,
            tool_call_mode: ToolCallMode::Native,
            tool_call_count: 0,
            content_chars: 12,
            elapsed_ms: 30,
            usage: ModelUsage {
                input_tokens: Some(10),
                output_tokens: Some(5),
                total_tokens: Some(15),
                request_count: 1,
                ..ModelUsage::default()
            },
        },
        7,
    );

    assert_eq!(event.event_type, "model_response.received");
    assert_eq!(event.attempt_id.as_deref(), Some("iteration_1"));
    match field(&event, "usage") {
        PayloadValue::Usage(usage) => {
            assert!(usage.available);
            assert_eq!(usage.usage.input_tokens, Some(10));
            assert_eq!(usage.usage.output_tokens, Some(5));
            assert_eq!(usage.usage.total_tokens, Some(15));
        }
        other => panic!("unexpected usage: {other:?}"),
    }
}

#[test]
fn command_response_event_is_versioned() {
    let command = VersionedCommand {
        schema_version: EVENT_SCHEMA_VERSION.to_string(),
        command_id: "cmd1".to_string(),
        job_id: "job1".to_string(),
        command_type: "job.retry".to_string(),
        payload: Vec::new(),
    };

    let event = command_response_event(&command, false, "unsupported", 9);

    assert_eq!(event.event_type, "command.rejected");
    assert_eq!(text(field(&event, "reason")), "unsupported");
    assert_eq!(event.event_id, "evt_cmd1_command_rejected");
}

#[test]
fn failed_dependency_setup_blocks_job_with_status() {
    let mut context =
        EventProtocolContext::new("run1", "job1", EventSource::commandagent("worker", None, None));
    let event = context.next_runtime_event(
        &RuntimeEvent::DependencySetupFinished {
            step_id: "setup".to_string(),
            command: "npm install".to_string(),
            ok: false,
            elapsed_ms: 12,
            status: "offline".to_string(),
        },
        1,
    );
    let state = project_job_state(std::slice::from_ref(&event)).unwrap();
    assert_eq!(state.status, JobStatus::Blocked);
    assert_eq!(state.last_failure.as_deref(), Some("offline"));
    assert_eq!(project_job_state(&[]), None);
    let manifest = JobManifest::new("job1", "goal", "/ws");
    assert_eq!(manifest.schema_version, EVENT_SCHEMA_VERSION);
    assert!(manifest.plan_references.is_empty());
}
