//! Versioned event, job and command records built from runtime events.
use crate::events::{
    ArtifactScope, ArtifactStatus, GuardFeedbackKind, ModelUsage, PlanKind, RuntimeEvent,
    ToolCallMode,
};
use crate::text::{
    copy_opt, copy_strings, decimal, opt_view, owned, push_str, str_eq, usize_to_string, views,
};
use vstd::prelude::*;

verus! {

/// The version of the event, job and command schemas.
pub const EVENT_SCHEMA_VERSION: &'static str = "1.0";

/// Who emitted an event.
#[derive(Debug, Clone, PartialEq, Eq)]
pub struct EventSource {
    pub component: String,
    pub role: String,
    pub provider: Option<String>,
    pub model: Option<String>,
}

impl EventSource {
    /// A source inside this agent with the given role.
    pub fn commandagent(role: &str, provider: Option<String>, model: Option<String>) -> (r: Self)
        ensures
            r.component@ == "commandagent"@,
            r.role@ == role@,
            r.provider == provider,
            r.model == model,
    {
        EventSource { component: owned("commandagent"), role: owned(role), provider, model }
    }
}

/// Usage as reported in an event payload, with whether token metadata is
/// available and, when it is not, why.
#[derive(Debug, Clone, PartialEq, Eq)]
pub struct UsagePayload {
    pub usage: ModelUsage,
    pub available: bool,
    pub reason: Option<String>,
}

/// A value of an event payload.
#[derive(Debug, Clone, PartialEq, Eq)]
pub enum PayloadValue {
    Bool(bool),
    Number(u128),
    Text(String),
    OptionalText(Option<String>),
    TextList(Vec<String>),
    Usage(UsagePayload),
}

/// A key and value of an event payload.
#[derive(Debug, Clone, PartialEq, Eq)]
pub struct PayloadField {
    pub key: String,
    pub value: PayloadValue,
}

/// The mathematical content of a payload value.
pub enum ValueView {
    Bool(bool),
    Number(int),
    Text(Seq<char>),
    OptionalText(Option<Seq<char>>),
    TextList(Seq<Seq<char>>),
    Usage(ModelUsage, bool, Option<Seq<char>>),
}

/// The content of a payload value.
pub open spec fn value_view(v: PayloadValue) -> ValueView {
    match v {
        PayloadValue::Bool(b) => ValueView::Bool(b),
        PayloadValue::Number(n) => ValueView::Number(n as int),
        PayloadValue::Text(s) => ValueView::Text(s@),
        PayloadValue::OptionalText(o) => ValueView::OptionalText(opt_view(o)),
        PayloadValue::TextList(l) => ValueView::TextList(views(l@)),
        PayloadValue::Usage(u) => ValueView::Usage(u.usage, u.available, opt_view(u.reason)),
    }
}

/// The content of a payload: its keys and values in order.
pub open spec fn payload_view(p: Seq<PayloadField>) -> Seq<(Seq<char>, ValueView)> {
    p.map_values(|f: PayloadField| (f.key@, value_view(f.value)))
}

/// A versioned record of one runtime event.
#[derive(Debug, Clone, PartialEq, Eq)]
pub struct VersionedEvent {
    pub schema_version: String,
    pub event_id: String,
    pub sequence: u64,
    pub timestamp: String,
    pub run_id: String,
    pub job_id: String,
    pub phase_id: Option<String>,
    pub step_id: Option<String>,
    pub attempt_id: Option<String>,
    pub event_type: String,
    pub source: EventSource,
    pub payload: Vec<PayloadField>,
}

/// Numbers the events of one run and job.
#[derive(Debug, Clone, PartialEq, Eq)]
pub struct EventProtocolContext {
    run_id: String,
    job_id: String,
    sequence: u64,
    source: EventSource,
}

impl EventProtocolContext {
    /// A context that has numbered no event yet.
    pub fn new(run_id: &str, job_id: &str, source: EventSource) -> (r: Self)
        ensures
            r.run_id()@ == run_id@,
            r.job_id()@ == job_id@,
            r.sequence() == 0,
            r.source() == source,
    {
        EventProtocolContext { run_id: owned(run_id), job_id: owned(job_id), sequence: 0, source }
    }

    /// The run the events belong to.
    pub closed spec fn run_id(&self) -> String {
        self.run_id
    }

    /// The job the events belong to.
    pub closed spec fn job_id(&self) -> String {
        self.job_id
    }

    /// The sequence number of the last event.
    pub closed spec fn sequence(&self) -> u64 {
        self.sequence
    }

    /// The source stamped on every event.
    pub closed spec fn source(&self) -> EventSource {
        self.source
    }

    /// The sequence number of the last event numbered.
    pub fn last_sequence(&self) -> (r: u64)
        ensures
            r == self.sequence(),
    {
        self.sequence
    }

    /// Numbers the next event and records it with its identity, type, ids
    /// and payload; `timestamp_ms` is the wall-clock time in milliseconds.
    pub fn next_runtime_event(&mut self, event: &RuntimeEvent, timestamp_ms: u128) -> (r: VersionedEvent)
        requires
            old(self).sequence() < u64::MAX,
        ensures
            final(self).sequence() == old(self).sequence() + 1,
            final(self).run_id() == old(self).run_id(),
            final(self).job_id() == old(self).job_id(),
            final(self).source() == old(self).source(),
            r.schema_version@ == EVENT_SCHEMA_VERSION@,
            r.sequence == final(self).sequence(),
            r.event_id@ == "evt_"@ + old(self).run_id()@ + "_"@ + decimal(r.sequence as nat),
            r.timestamp@ == decimal(timestamp_ms as nat),
            r.run_id@ == old(self).run_id()@,
            r.job_id@ == old(self).job_id()@,
            r.source.component@ == old(self).source().component@,
            r.source.role@ == old(self).source().role@,
            opt_view(r.source.provider) == opt_view(old(self).source().provider),
            opt_view(r.source.model) == opt_view(old(self).source().model),
            (r.event_type@, opt_view(r.phase_id), opt_view(r.step_id), opt_view(r.attempt_id), payload_view(r.payload@))
                == event_record(*event),
    {
        self.sequence = self.sequence + 1;
        let sequence = self.sequence;
        let (event_type, phase_id, step_id, attempt_id, payload) = runtime_event_payload(event);
        let mut event_id = owned("evt_");
        push_str(&mut event_id, self.run_id.as_str());
        push_str(&mut event_id, "_");
        let seq_text = crate::text::u64_to_string(sequence);
        push_str(&mut event_id, seq_text.as_str());
        VersionedEvent {
            schema_version: owned(EVENT_SCHEMA_VERSION),
            event_id,
            sequence,
            timestamp: u128_to_string(timestamp_ms),
            run_id: self.run_id.clone(),
            job_id: self.job_id.clone(),
            phase_id,
            step_id,
            attempt_id,
            event_type,
            source: copy_source(&self.source),
            payload,
        }
    }
}

/// A copy of an event source.
fn copy_source(s: &EventSource) -> (r: EventSource)
    ensures
        r.component@ == s.component@,
        r.role@ == s.role@,
        opt_view(r.provider) == opt_view(s.provider),
        opt_view(r.model) == opt_view(s.model),
{
    EventSource {
        component: s.component.clone(),
        role: s.role.clone(),
        provider: copy_opt(&s.provider),
        model: copy_opt(&s.model),
    }
}

/// The decimal rendering of a `u128`.
pub fn u128_to_string(n: u128) -> (s: String)
    ensures
        s@ == decimal(n as nat),
    decreases n,
{
    if n < 10 {
        crate::text::u64_to_string(n as u64)
    } else {
        let mut s = u128_to_string(n / 10);
        let d = crate::text::u64_to_string((n % 10) as u64);
        push_str(&mut s, d.as_str());
        s
    }
}

/// What a job manifest declares about a job.
#[derive(Debug, Clone, PartialEq, Eq)]
pub struct JobManifest {
    pub schema_version: String,
    pub job_id: String,
    pub goal: String,
    pub workspace: String,
    pub worktree: Option<String>,
    pub profile: Option<String>,
    pub planner_model: Option<String>,
    pub worker_model: Option<String>,
    pub execution_policy: Vec<String>,
    pub approval_policy: Vec<String>,
    pub budget_policy: Vec<String>,
    pub plan_references: Vec<String>,
    pub artifact_references: Vec<String>,
    pub diff_references: Vec<String>,
    pub failure_evidence_references: Vec<String>,
}

impl JobManifest {
    /// A manifest with identity, goal and workspace and nothing else.
    pub fn new(job_id: &str, goal: &str, workspace: &str) -> (r: Self)
        ensures
            r.schema_version@ == EVENT_SCHEMA_VERSION@,
            r.job_id@ == job_id@,
            r.goal@ == goal@,
            r.workspace@ == workspace@,
            r.worktree is None,
            r.profile is None,
            r.planner_model is None,
            r.worker_model is None,
            r.execution_policy@.len() == 0,
            r.approval_policy@.len() == 0,
            r.budget_policy@.len() == 0,
            r.plan_references@.len() == 0,
            r.artifact_references@.len() == 0,
            r.diff_references@.len() == 0,
            r.failure_evidence_references@.len() == 0,
    {
        JobManifest {
            schema_version: owned(EVENT_SCHEMA_VERSION),
            job_id: owned(job_id),
            goal: owned(goal),
            workspace: owned(workspace),
            worktree: None,
            profile: None,
            planner_model: None,
            worker_model: None,
            execution_policy: Vec::new(),
            approval_policy: Vec::new(),
            budget_policy: Vec::new(),
            plan_references: Vec::new(),
            artifact_references: Vec::new(),
            diff_references: Vec::new(),
            failure_evidence_references: Vec::new(),
        }
    }
}

/// The status of a job as projected from its events.
#[derive(Debug, Clone, Copy, PartialEq, Eq)]
pub enum JobStatus {
    Queued,
    Planning,
    WaitingApproval,
    Running,
    Verifying,
    Repairing,
    Blocked,
    Completed,
    Failed,
    Cancelled,
}

/// The state of a job as projected from its events.
#[derive(Debug, Clone, PartialEq, Eq)]
pub struct JobState {
    pub schema_version: String,
    pub job_id: String,
    pub status: JobStatus,
    pub active_phase: Option<String>,
    pub active_step: Option<String>,
    pub last_failure: Option<String>,
    pub token_cost_summary: Vec<PayloadField>,
    pub artifact_references: Vec<String>,
    pub diff_references: Vec<String>,
}

impl JobState {
    /// A queued job with nothing recorded yet.
    pub fn new(job_id: &str) -> (r: Self)
        ensures
            r.schema_version@ == EVENT_SCHEMA_VERSION@,
            r.job_id@ == job_id@,
            r.status == JobStatus::Queued,
            r.active_phase is None,
            r.active_step is None,
            r.last_failure is None,
            r.token_cost_summary@.len() == 0,
            r.artifact_references@.len() == 0,
            r.diff_references@.len() == 0,
    {
        JobState {
            schema_version: owned(EVENT_SCHEMA_VERSION),
            job_id: owned(job_id),
            status: JobStatus::Queued,
            active_phase: None,
            active_step: None,
            last_failure: None,
            token_cost_summary: Vec::new(),
            artifact_references: Vec::new(),
            diff_references: Vec::new(),
        }
    }
}

/// Where a runtime job is in its lifecycle.
#[derive(Debug, Clone, Copy, PartialEq, Eq)]
pub enum RuntimeJobLifecycleStage {
    Planning,
    Running,
    Setup,
    Verifying,
    Repairing,
    Rechecking,
    Completed,
    Failed,
    Blocked,
    ExplicitStop,
    DryRunPlaceholder,
}

/// What a job's completion rests on.
#[derive(Debug, Clone, Copy, PartialEq, Eq)]
pub enum RuntimeJobCompletionSource {
    RuntimeSuccess,
    ExistingSuccess,
    DryRunPlaceholderSuccess,
    EvidenceOnlySuccess,
    RecheckSuccess,
    RecheckFailure,
    NoCompletion,
    Unknown,
}

/// A report of a runtime job's lifecycle projection.
#[derive(Debug, Clone, PartialEq, Eq)]
pub struct RuntimeJobReport {
    pub schema_version: String,
    pub job_id: String,
    pub lifecycle_stage: RuntimeJobLifecycleStage,
    pub active_owner: String,
    pub selected_action: String,
    pub target_admission_status: String,
    pub repair_action_plan_status: String,
    pub attempt_outcome: String,
    pub evidence_runner_status: String,
    pub verifier_rerun_result: String,
    pub explicit_stop_reason: String,
    pub completion_source: RuntimeJobCompletionSource,
}

impl RuntimeJobReport {
    /// A report in the given stage with every other fact unknown.
    pub fn new(job_id: &str, lifecycle_stage: RuntimeJobLifecycleStage) -> (r: Self)
        ensures
            r.schema_version@ == EVENT_SCHEMA_VERSION@,
            r.job_id@ == job_id@,
            r.lifecycle_stage == lifecycle_stage,
            r.active_owner@ == "unknown"@,
            r.selected_action@ == "unknown"@,
            r.target_admission_status@ == "unknown"@,
            r.repair_action_plan_status@ == "unknown"@,
            r.attempt_outcome@ == "unknown"@,
            r.evidence_runner_status@ == "unknown"@,
            r.verifier_rerun_result@ == "unknown"@,
            r.explicit_stop_reason@.len() == 0,
            r.completion_source == RuntimeJobCompletionSource::Unknown,
    {
        RuntimeJobReport {
            schema_version: owned(EVENT_SCHEMA_VERSION),
            job_id: owned(job_id),
            lifecycle_stage,
            active_owner: owned("unknown"),
            selected_action: owned("unknown"),
            target_admission_status: owned("unknown"),
            repair_action_plan_status: owned("unknown"),
            attempt_outcome: owned("unknown"),
            evidence_runner_status: owned("unknown"),
            verifier_rerun_result: owned("unknown"),
            explicit_stop_reason: String::new(),
            completion_source: RuntimeJobCompletionSource::Unknown,
        }
    }
}

/// The name of a plan kind in event payloads.
pub open spec fn plan_kind_name(k: PlanKind) -> Seq<char> {
    match k {
        PlanKind::StepPlan => "step_plan"@,
        PlanKind::UltraPlan => "ultra_plan"@,
        PlanKind::PhaseStepPlan => "phase_step_plan"@,
    }
}

/// The name of a tool call mode in event payloads.
pub open spec fn tool_call_mode_name(m: ToolCallMode) -> Seq<char> {
    match m {
        ToolCallMode::Native => "native"@,
        ToolCallMode::XmlFallback => "xml_fallback"@,
    }
}

/// The name of a guard feedback kind in event payloads.
pub open spec fn guard_feedback_kind_name(k: GuardFeedbackKind) -> Seq<char> {
    match k {
        GuardFeedbackKind::FutureAction => "future_action"@,
        GuardFeedbackKind::RequestedArtifacts => "requested_artifacts"@,
        GuardFeedbackKind::ActionRequired => "action_required"@,
    }
}

/// The name of an artifact scope in event payloads.
pub open spec fn artifact_scope_name(s: ArtifactScope) -> Seq<char> {
    match s {
        ArtifactScope::StepExpectedPath => "step_expected_path"@,
        ArtifactScope::FinalRequiredArtifact => "final_required_artifact"@,
    }
}

/// The name of an artifact status in event payloads.
pub open spec fn artifact_status_name(s: ArtifactStatus) -> Seq<char> {
    match s {
        ArtifactStatus::Present => "ok"@,
        ArtifactStatus::Missing => "missing"@,
        ArtifactStatus::Unchecked => "unchecked"@,
    }
}

/// Token metadata is available when no reason says otherwise and some
/// token count is present.
pub open spec fn usage_available(u: ModelUsage) -> bool {
    u.unavailable_reason is None && (u.input_tokens is Some || u.cached_input_tokens is Some
        || u.output_tokens is Some || u.reasoning_tokens is Some || u.total_tokens is Some)
}

/// The payload value of model usage: the usage, whether it is available and,
/// when not, the provider's reason or `usage_metadata_missing`.
pub open spec fn usage_view(u: ModelUsage) -> ValueView {
    ValueView::Usage(
        u,
        usage_available(u),
        if usage_available(u) {
            None
        } else {
            Some(
                match u.unavailable_reason {
                    Some(r) => r@,
                    None => "usage_metadata_missing"@,
                },
            )
        },
    )
}

/// The record of a runtime event: its type, phase, step and attempt ids,
/// and its payload.
pub open spec fn event_record(e: RuntimeEvent) -> (
    Seq<char>,
    Option<Seq<char>>,
    Option<Seq<char>>,
    Option<Seq<char>>,
    Seq<(Seq<char>, ValueView)>,
) {
    match e {
        RuntimeEvent::PlanGenerationStarted { kind, goal, profile } => (
            "plan_generation.started"@,
            None,
            None,
            None,
            seq![("kind"@, ValueView::Text(plan_kind_name(kind))), ("goal"@, ValueView::Text(goal@)), ("profile"@, ValueView::Text(profile@))],
        ),
        RuntimeEvent::PlanGenerationFinished { kind, item_count } => (
            "plan_generation.finished"@,
            None,
            None,
            None,
            seq![("kind"@, ValueView::Text(plan_kind_name(kind))), ("item_count"@, ValueView::Number(item_count as int))],
        ),
        RuntimeEvent::PlanSaved { kind, path, item_ids } => (
            "plan.saved"@,
            None,
            None,
            None,
            seq![("kind"@, ValueView::Text(plan_kind_name(kind))), ("path"@, ValueView::Text(path@)), ("item_ids"@, ValueView::TextList(views(item_ids@)))],
        ),
        RuntimeEvent::UltraPhaseStarted { index, total, phase_id } => (
            "ultra_phase.started"@,
            Some(phase_id@),
            None,
            None,
            seq![("index"@, ValueView::Number(index as int)), ("total"@, ValueView::Number(total as int))],
        ),
        RuntimeEvent::UltraPhaseFinished { index, total, phase_id } => (
            "ultra_phase.finished"@,
            Some(phase_id@),
            None,
            None,
            seq![("index"@, ValueView::Number(index as int)), ("total"@, ValueView::Number(total as int))],
        ),
        RuntimeEvent::UltraPhaseFailed { index, total, phase_id, error } => (
            "ultra_phase.failed"@,
            Some(phase_id@),
            None,
            None,
            seq![("index"@, ValueView::Number(index as int)), ("total"@, ValueView::Number(total as int)), ("error"@, ValueView::Text(error@))],
        ),
        RuntimeEvent::ProfileVerificationFailed { profile, failures } => (
            "profile_verification.failed"@,
            None,
            None,
            None,
            seq![("profile"@, ValueView::Text(profile@)), ("failures"@, ValueView::TextList(views(failures@)))],
        ),
        RuntimeEvent::StepStarted { index, total, step_id } => (
            "step.started"@,
            None,
            Some(step_id@),
            None,
            seq![("index"@, ValueView::Number(index as int)), ("total"@, ValueView::Number(total as int))],
        ),
        RuntimeEvent::StepFinished { index, total, step_id } => (
            "step.finished"@,
            None,
            Some(step_id@),
            None,
            seq![("index"@, ValueView::Number(index as int)), ("total"@, ValueView::Number(total as int))],
        ),
        RuntimeEvent::StepFailed { index, total, step_id, error, missing_expected_paths } => (
            "step.failed"@,
            None,
            Some(step_id@),
            None,
            seq![("index"@, ValueView::Number(index as int)), ("total"@, ValueView::Number(total as int)), ("error"@, ValueView::Text(error@)), ("missing_expected_paths"@, ValueView::TextList(views(missing_expected_paths@)))],
        ),
        RuntimeEvent::VerifierStarted { step_id, command } => (
            "verifier.started"@,
            None,
            Some(step_id@),
            None,
            seq![("command"@, ValueView::Text(command@))],
        ),
        RuntimeEvent::VerifierFinished { step_id, command, ok, failure_count } => (
            "verifier.finished"@,
            None,
            Some(step_id@),
            None,
            seq![("command"@, ValueView::Text(command@)), ("ok"@, ValueView::Bool(ok)), ("failure_count"@, ValueView::Number(failure_count as int))],
        ),
        RuntimeEvent::DependencySetupStarted { step_id, command } => (
            "dependency_setup.started"@,
            None,
            Some(step_id@),
            None,
            seq![("command"@, ValueView::Text(command@))],
        ),
        RuntimeEvent::DependencySetupFinished { step_id, command, ok, elapsed_ms, status } => (
            "dependency_setup.finished"@,
            None,
            Some(step_id@),
            None,
            seq![("command"@, ValueView::Text(command@)), ("ok"@, ValueView::Bool(ok)), ("elapsed_ms"@, ValueView::Number(elapsed_ms as int)), ("status"@, ValueView::Text(status@))],
        ),
        RuntimeEvent::RecoveryTaskStarted { step_id, attempt, active_job, dispatch_status, execution_envelope, target_path } => (
            "recovery_task.started"@,
            None,
            Some(step_id@),
            Some("attempt_"@ + decimal(attempt as nat)),
            seq![("attempt"@, ValueView::Number(attempt as int)), ("active_job"@, ValueView::Text(active_job@)), ("dispatch_status"@, ValueView::Text(dispatch_status@)), ("execution_envelope"@, ValueView::OptionalText(opt_view(execution_envelope))), ("target_path"@, ValueView::OptionalText(opt_view(target_path)))],
        ),
        RuntimeEvent::RepairAttemptStarted { step_id, attempt, max_attempts, missing_expected_paths } => (
            "repair_attempt.started"@,
            None,
            Some(step_id@),
            Some("attempt_"@ + decimal(attempt as nat)),
            seq![("attempt"@, ValueView::Number(attempt as int)), ("max_attempts"@, ValueView::Number(max_attempts as int)), ("missing_expected_paths"@, ValueView::TextList(views(missing_expected_paths@)))],
        ),
        RuntimeEvent::RepairExhausted { step_id, repair_path, suggested_command, missing_expected_paths } => (
            "repair.exhausted"@,
            None,
            Some(step_id@),
            None,
            seq![("repair_path"@, ValueView::Text(repair_path@)), ("suggested_command"@, ValueView::Text(suggested_command@)), ("missing_expected_paths"@, ValueView::TextList(views(missing_expected_paths@)))],
        ),
        RuntimeEvent::ModelRequestStarted { iteration, model, tool_call_mode } => (
            "model_request.started"@,
            None,
            None,
            Some("iteration_"@ + decimal(iteration as nat)),
            seq![("iteration"@, ValueView::Number(iteration as int)), ("model"@, ValueView::Text(model@)), ("tool_call_mode"@, ValueView::Text(tool_call_mode_name(tool_call_mode)))],
        ),
        RuntimeEvent::ModelResponseReceived { iteration, tool_call_mode, tool_call_count, content_chars, elapsed_ms, usage } => (
            "model_response.received"@,
            None,
            None,
            Some("iteration_"@ + decimal(iteration as nat)),
            seq![("iteration"@, ValueView::Number(iteration as int)), ("tool_call_mode"@, ValueView::Text(tool_call_mode_name(tool_call_mode))), ("tool_call_count"@, ValueView::Number(tool_call_count as int)), ("content_chars"@, ValueView::Number(content_chars as int)), ("elapsed_ms"@, ValueView::Number(elapsed_ms as int)), ("usage"@, usage_view(usage))],
        ),
        RuntimeEvent::ParserFeedbackSent { iteration, previous_tool_call_mode, next_tool_call_mode, error } => (
            "parser_feedback.sent"@,
            None,
            None,
            Some("iteration_"@ + decimal(iteration as nat)),
            seq![("iteration"@, ValueView::Number(iteration as int)), ("previous_tool_call_mode"@, ValueView::Text(tool_call_mode_name(previous_tool_call_mode))), ("next_tool_call_mode"@, ValueView::Text(tool_call_mode_name(next_tool_call_mode))), ("error"@, ValueView::Text(error@))],
        ),
        RuntimeEvent::GuardFeedbackSent { iteration, kind, tool_call_mode, missing_artifacts } => (
            "guard_feedback.sent"@,
            None,
            None,
            Some("iteration_"@ + decimal(iteration as nat)),
            seq![("iteration"@, ValueView::Number(iteration as int)), ("kind"@, ValueView::Text(guard_feedback_kind_name(kind))), ("tool_call_mode"@, ValueView::Text(tool_call_mode_name(tool_call_mode))), ("missing_artifacts"@, ValueView::TextList(views(missing_artifacts@)))],
        ),
        RuntimeEvent::ArtifactStatus { scope, path, status } => (
            "artifact.status"@,
            None,
            None,
            None,
            seq![("scope"@, ValueView::Text(artifact_scope_name(scope))), ("path"@, ValueView::Text(path@)), ("status"@, ValueView::Text(artifact_status_name(status)))],
        ),
        RuntimeEvent::ToolCallStarted { iteration, tool_name, args_summary } => (
            "tool_call.started"@,
            None,
            None,
            Some("iteration_"@ + decimal(iteration as nat)),
            seq![("iteration"@, ValueView::Number(iteration as int)), ("tool_name"@, ValueView::Text(tool_name@)), ("args_summary"@, ValueView::Text(args_summary@))],
        ),
        RuntimeEvent::ToolCallFinished { iteration, tool_name, ok, output_chars, error } => (
            "tool_call.finished"@,
            None,
            None,
            Some("iteration_"@ + decimal(iteration as nat)),
            seq![("iteration"@, ValueView::Number(iteration as int)), ("tool_name"@, ValueView::Text(tool_name@)), ("ok"@, ValueView::Bool(ok)), ("output_chars"@, ValueView::Number(output_chars as int)), ("error"@, ValueView::OptionalText(opt_view(error)))],
        ),
        RuntimeEvent::ToolResultTruncated { iteration, tool_name, original_chars, returned_chars, reason } => (
            "tool_result.truncated"@,
            None,
            None,
            Some("iteration_"@ + decimal(iteration as nat)),
            seq![("iteration"@, ValueView::Number(iteration as int)), ("tool_name"@, ValueView::Text(tool_name@)), ("truncated"@, ValueView::Bool(true)), ("original_chars"@, ValueView::Number(original_chars as int)), ("returned_chars"@, ValueView::Number(returned_chars as int)), ("reason"@, ValueView::Text(reason@))],
        ),
        RuntimeEvent::FinalAnswerAccepted { iteration, answer_chars } => (
            "final_answer.accepted"@,
            None,
            None,
            Some("iteration_"@ + decimal(iteration as nat)),
            seq![("iteration"@, ValueView::Number(iteration as int)), ("answer_chars"@, ValueView::Number(answer_chars as int))],
        ),
        RuntimeEvent::SessionError { message } => (
            "session.error"@,
            None,
            None,
            None,
            seq![("message"@, ValueView::Text(message@))],
        ),    }
}

/// Appends a field to a payload.
fn push_payload(p: &mut Vec<PayloadField>, f: PayloadField)
    ensures
        payload_view(final(p)@) == payload_view(old(p)@).push((f.key@, value_view(f.value))),
{
    let ghost before = p@;
    p.push(f);
    assert(payload_view(p@) =~= payload_view(before).push((f.key@, value_view(f.value))));
}

fn field_text(key: &str, value: &str) -> (f: PayloadField)
    ensures
        f.key@ == key@,
        value_view(f.value) == ValueView::Text(value@),
{
    PayloadField { key: owned(key), value: PayloadValue::Text(owned(value)) }
}

fn field_number(key: &str, value: u128) -> (f: PayloadField)
    ensures
        f.key@ == key@,
        value_view(f.value) == ValueView::Number(value as int),
{
    PayloadField { key: owned(key), value: PayloadValue::Number(value) }
}

fn field_bool(key: &str, value: bool) -> (f: PayloadField)
    ensures
        f.key@ == key@,
        value_view(f.value) == ValueView::Bool(value),
{
    PayloadField { key: owned(key), value: PayloadValue::Bool(value) }
}

fn field_list(key: &str, value: &Vec<String>) -> (f: PayloadField)
    ensures
        f.key@ == key@,
        value_view(f.value) == ValueView::TextList(views(value@)),
{
    PayloadField { key: owned(key), value: PayloadValue::TextList(copy_strings(value)) }
}

fn field_optional(key: &str, value: &Option<String>) -> (f: PayloadField)
    ensures
        f.key@ == key@,
        value_view(f.value) == ValueView::OptionalText(opt_view(*value)),
{
    PayloadField { key: owned(key), value: PayloadValue::OptionalText(copy_opt(value)) }
}

/// A copy of model usage.
fn copy_usage(u: &ModelUsage) -> (r: ModelUsage)
    ensures
        r.input_tokens == u.input_tokens,
        r.cached_input_tokens == u.cached_input_tokens,
        r.output_tokens == u.output_tokens,
        r.reasoning_tokens == u.reasoning_tokens,
        r.total_tokens == u.total_tokens,
        r.request_count == u.request_count,
        r.unavailable_reason == u.unavailable_reason,
{
    ModelUsage {
        input_tokens: u.input_tokens,
        cached_input_tokens: u.cached_input_tokens,
        output_tokens: u.output_tokens,
        reasoning_tokens: u.reasoning_tokens,
        total_tokens: u.total_tokens,
        request_count: u.request_count,
        unavailable_reason: match &u.unavailable_reason {
            Some(s) => Some(s.clone()),
            None => None,
        },
    }
}

fn field_usage(key: &str, usage: &ModelUsage) -> (f: PayloadField)
    ensures
        f.key@ == key@,
        value_view(f.value) == usage_view(*usage),
{
    let available = usage.unavailable_reason.is_none() && (usage.input_tokens.is_some()
        || usage.cached_input_tokens.is_some() || usage.output_tokens.is_some()
        || usage.reasoning_tokens.is_some() || usage.total_tokens.is_some());
    let reason = if available {
        None
    } else {
        match &usage.unavailable_reason {
            Some(r) => Some(r.clone()),
            None => Some(owned("usage_metadata_missing")),
        }
    };
    let copied = copy_usage(usage);
    assert(copied == *usage);
    PayloadField {
        key: owned(key),
        value: PayloadValue::Usage(UsagePayload { usage: copied, available, reason }),
    }
}

/// `prefix` followed by the decimal number.
fn numbered(prefix: &str, n: usize) -> (r: String)
    ensures
        r@ == prefix@ + decimal(n as nat),
{
    let mut s = owned(prefix);
    let d = usize_to_string(n);
    push_str(&mut s, d.as_str());
    s
}

fn plan_kind(kind: PlanKind) -> (r: &'static str)
    ensures
        r@ == plan_kind_name(kind),
{
    match kind {
        PlanKind::StepPlan => "step_plan",
        PlanKind::UltraPlan => "ultra_plan",
        PlanKind::PhaseStepPlan => "phase_step_plan",
    }
}

fn tool_call_mode_text(mode: ToolCallMode) -> (r: &'static str)
    ensures
        r@ == tool_call_mode_name(mode),
{
    match mode {
        ToolCallMode::Native => "native",
        ToolCallMode::XmlFallback => "xml_fallback",
    }
}

fn guard_feedback_kind(kind: GuardFeedbackKind) -> (r: &'static str)
    ensures
        r@ == guard_feedback_kind_name(kind),
{
    match kind {
        GuardFeedbackKind::FutureAction => "future_action",
        GuardFeedbackKind::RequestedArtifacts => "requested_artifacts",
        GuardFeedbackKind::ActionRequired => "action_required",
    }
}

fn artifact_scope(scope: ArtifactScope) -> (r: &'static str)
    ensures
        r@ == artifact_scope_name(scope),
{
    match scope {
        ArtifactScope::StepExpectedPath => "step_expected_path",
        ArtifactScope::FinalRequiredArtifact => "final_required_artifact",
    }
}

fn artifact_status(status: ArtifactStatus) -> (r: &'static str)
    ensures
        r@ == artifact_status_name(status),
{
    match status {
        ArtifactStatus::Present => "ok",
        ArtifactStatus::Missing => "missing",
        ArtifactStatus::Unchecked => "unchecked",
    }
}

/// The type, ids and payload of the record of a runtime event.
pub fn runtime_event_payload(event: &RuntimeEvent) -> (r: (
    String,
    Option<String>,
    Option<String>,
    Option<String>,
    Vec<PayloadField>,
))
    ensures
        (r.0@, opt_view(r.1), opt_view(r.2), opt_view(r.3), payload_view(r.4@)) == event_record(*event),
{
    match event {
        RuntimeEvent::PlanGenerationStarted { kind, goal, profile } => {
            let mut p: Vec<PayloadField> = Vec::new();
            push_payload(&mut p, field_text("kind", plan_kind(*kind)));
            push_payload(&mut p, field_text("goal", goal.as_str()));
            push_payload(&mut p, field_text("profile", profile.as_str()));
            (owned("plan_generation.started"), None, None, None, p)
        },
        RuntimeEvent::PlanGenerationFinished { kind, item_count } => {
            let mut p: Vec<PayloadField> = Vec::new();
            push_payload(&mut p, field_text("kind", plan_kind(*kind)));
            push_payload(&mut p, field_number("item_count", *item_count as u128));
            (owned("plan_generation.finished"), None, None, None, p)
        },
        RuntimeEvent::PlanSaved { kind, path, item_ids } => {
            let mut p: Vec<PayloadField> = Vec::new();
            push_payload(&mut p, field_text("kind", plan_kind(*kind)));
            push_payload(&mut p, field_text("path", path.as_str()));
            push_payload(&mut p, field_list("item_ids", item_ids));
            (owned("plan.saved"), None, None, None, p)
        },
        RuntimeEvent::UltraPhaseStarted { index, total, phase_id } => {
            let mut p: Vec<PayloadField> = Vec::new();
            push_payload(&mut p, field_number("index", *index as u128));
            push_payload(&mut p, field_number("total", *total as u128));
            (owned("ultra_phase.started"), Some(phase_id.clone()), None, None, p)
        },
        RuntimeEvent::UltraPhaseFinished { index, total, phase_id } => {
            let mut p: Vec<PayloadField> = Vec::new();
            push_payload(&mut p, field_number("index", *index as u128));
            push_payload(&mut p, field_number("total", *total as u128));
            (owned("ultra_phase.finished"), Some(phase_id.clone()), None, None, p)
        },
        RuntimeEvent::UltraPhaseFailed { index, total, phase_id, error } => {
            let mut p: Vec<PayloadField> = Vec::new();
            push_payload(&mut p, field_number("index", *index as u128));
            push_payload(&mut p, field_number("total", *total as u128));
            push_payload(&mut p, field_text("error", error.as_str()));
            (owned("ultra_phase.failed"), Some(phase_id.clone()), None, None, p)
        },
        RuntimeEvent::ProfileVerificationFailed { profile, failures } => {
            let mut p: Vec<PayloadField> = Vec::new();
            push_payload(&mut p, field_text("profile", profile.as_str()));
            push_payload(&mut p, field_list("failures", failures));
            (owned("profile_verification.failed"), None, None, None, p)
        },
        RuntimeEvent::StepStarted { index, total, step_id } => {
            let mut p: Vec<PayloadField> = Vec::new();
            push_payload(&mut p, field_number("index", *index as u128));
            push_payload(&mut p, field_number("total", *total as u128));
            (owned("step.started"), None, Some(step_id.clone()), None, p)
        },
        RuntimeEvent::StepFinished { index, total, step_id } => {
            let mut p: Vec<PayloadField> = Vec::new();
            push_payload(&mut p, field_number("index", *index as u128));
            push_payload(&mut p, field_number("total", *total as u128));
            (owned("step.finished"), None, Some(step_id.clone()), None, p)
        },
        RuntimeEvent::StepFailed { index, total, step_id, error, missing_expected_paths } => {
            let mut p: Vec<PayloadField> = Vec::new();
            push_payload(&mut p, field_number("index", *index as u128));
            push_payload(&mut p, field_number("total", *total as u128));
            push_payload(&mut p, field_text("error", error.as_str()));
            push_payload(&mut p, field_list("missing_expected_paths", missing_expected_paths));
            (owned("step.failed"), None, Some(step_id.clone()), None, p)
        },
        RuntimeEvent::VerifierStarted { step_id, command } => {
            let mut p: Vec<PayloadField> = Vec::new();
            push_payload(&mut p, field_text("command", command.as_str()));
            (owned("verifier.started"), None, Some(step_id.clone()), None, p)
        },
        RuntimeEvent::VerifierFinished { step_id, command, ok, failure_count } => {
            let mut p: Vec<PayloadField> = Vec::new();
            push_payload(&mut p, field_text("command", command.as_str()));
            push_payload(&mut p, field_bool("ok", *ok));
            push_payload(&mut p, field_number("failure_count", *failure_count as u128));
            (owned("verifier.finished"), None, Some(step_id.clone()), None, p)
        },
        RuntimeEvent::DependencySetupStarted { step_id, command } => {
            let mut p: Vec<PayloadField> = Vec::new();
            push_payload(&mut p, field_text("command", command.as_str()));
            (owned("dependency_setup.started"), None, Some(step_id.clone()), None, p)
        },
        RuntimeEvent::DependencySetupFinished { step_id, command, ok, elapsed_ms, status } => {
            let mut p: Vec<PayloadField> = Vec::new();
            push_payload(&mut p, field_text("command", command.as_str()));
            push_payload(&mut p, field_bool("ok", *ok));
            push_payload(&mut p, field_number("elapsed_ms", *elapsed_ms));
            push_payload(&mut p, field_text("status", status.as_str()));
            (owned("dependency_setup.finished"), None, Some(step_id.clone()), None, p)
        },
        RuntimeEvent::RecoveryTaskStarted { step_id, attempt, active_job, dispatch_status, execution_envelope, target_path } => {
            let mut p: Vec<PayloadField> = Vec::new();
            push_payload(&mut p, field_number("attempt", *attempt as u128));
            push_payload(&mut p, field_text("active_job", active_job.as_str()));
            push_payload(&mut p, field_text("dispatch_status", dispatch_status.as_str()));
            push_payload(&mut p, field_optional("execution_envelope", execution_envelope));
            push_payload(&mut p, field_optional("target_path", target_path));
            (owned("recovery_task.started"), None, Some(step_id.clone()), Some(numbered("attempt_", *attempt)), p)
        },
        RuntimeEvent::RepairAttemptStarted { step_id, attempt, max_attempts, missing_expected_paths } => {
            let mut p: Vec<PayloadField> = Vec::new();
            push_payload(&mut p, field_number("attempt", *attempt as u128));
            push_payload(&mut p, field_number("max_attempts", *max_attempts as u128));
            push_payload(&mut p, field_list("missing_expected_paths", missing_expected_paths));
            (owned("repair_attempt.started"), None, Some(step_id.clone()), Some(numbered("attempt_", *attempt)), p)
        },
        RuntimeEvent::RepairExhausted { step_id, repair_path, suggested_command, missing_expected_paths } => {
            let mut p: Vec<PayloadField> = Vec::new();
            push_payload(&mut p, field_text("repair_path", repair_path.as_str()));
            push_payload(&mut p, field_text("suggested_command", suggested_command.as_str()));
            push_payload(&mut p, field_list("missing_expected_paths", missing_expected_paths));
            (owned("repair.exhausted"), None, Some(step_id.clone()), None, p)
        },
        RuntimeEvent::ModelRequestStarted { iteration, model, tool_call_mode } => {
            let mut p: Vec<PayloadField> = Vec::new();
            push_payload(&mut p, field_number("iteration", *iteration as u128));
            push_payload(&mut p, field_text("model", model.as_str()));
            push_payload(&mut p, field_text("tool_call_mode", tool_call_mode_text(*tool_call_mode)));
            (owned("model_request.started"), None, None, Some(numbered("iteration_", *iteration)), p)
        },
        RuntimeEvent::ModelResponseReceived { iteration, tool_call_mode, tool_call_count, content_chars, elapsed_ms, usage } => {
            let mut p: Vec<PayloadField> = Vec::new();
            push_payload(&mut p, field_number("iteration", *iteration as u128));
            push_payload(&mut p, field_text("tool_call_mode", tool_call_mode_text(*tool_call_mode)));
            push_payload(&mut p, field_number("tool_call_count", *tool_call_count as u128));
            push_payload(&mut p, field_number("content_chars", *content_chars as u128));
            push_payload(&mut p, field_number("elapsed_ms", *elapsed_ms));
            push_payload(&mut p, field_usage("usage", usage));
            (owned("model_response.received"), None, None, Some(numbered("iteration_", *iteration)), p)
        },
        RuntimeEvent::ParserFeedbackSent { iteration, previous_tool_call_mode, next_tool_call_mode, error } => {
            let mut p: Vec<PayloadField> = Vec::new();
            push_payload(&mut p, field_number("iteration", *iteration as u128));
            push_payload(&mut p, field_text("previous_tool_call_mode", tool_call_mode_text(*previous_tool_call_mode)));
            push_payload(&mut p, field_text("next_tool_call_mode", tool_call_mode_text(*next_tool_call_mode)));
            push_payload(&mut p, field_text("error", error.as_str()));
            (owned("parser_feedback.sent"), None, None, Some(numbered("iteration_", *iteration)), p)
        },
        RuntimeEvent::GuardFeedbackSent { iteration, kind, tool_call_mode, missing_artifacts } => {
            let mut p: Vec<PayloadField> = Vec::new();
            push_payload(&mut p, field_number("iteration", *iteration as u128));
            push_payload(&mut p, field_text("kind", guard_feedback_kind(*kind)));
            push_payload(&mut p, field_text("tool_call_mode", tool_call_mode_text(*tool_call_mode)));
            push_payload(&mut p, field_list("missing_artifacts", missing_artifacts));
            (owned("guard_feedback.sent"), None, None, Some(numbered("iteration_", *iteration)), p)
        },
        RuntimeEvent::ArtifactStatus { scope, path, status } => {
            let mut p: Vec<PayloadField> = Vec::new();
            push_payload(&mut p, field_text("scope", artifact_scope(*scope)));
            push_payload(&mut p, field_text("path", path.as_str()));
            push_payload(&mut p, field_text("status", artifact_status(*status)));
            (owned("artifact.status"), None, None, None, p)
        },
        RuntimeEvent::ToolCallStarted { iteration, tool_name, args_summary } => {
            let mut p: Vec<PayloadField> = Vec::new();
            push_payload(&mut p, field_number("iteration", *iteration as u128));
            push_payload(&mut p, field_text("tool_name", tool_name.as_str()));
            push_payload(&mut p, field_text("args_summary", args_summary.as_str()));
            (owned("tool_call.started"), None, None, Some(numbered("iteration_", *iteration)), p)
        },
        RuntimeEvent::ToolCallFinished { iteration, tool_name, ok, output_chars, error } => {
            let mut p: Vec<PayloadField> = Vec::new();
            push_payload(&mut p, field_number("iteration", *iteration as u128));
            push_payload(&mut p, field_text("tool_name", tool_name.as_str()));
            push_payload(&mut p, field_bool("ok", *ok));
            push_payload(&mut p, field_number("output_chars", *output_chars as u128));
            push_payload(&mut p, field_optional("error", error));
            (owned("tool_call.finished"), None, None, Some(numbered("iteration_", *iteration)), p)
        },
        RuntimeEvent::ToolResultTruncated { iteration, tool_name, original_chars, returned_chars, reason } => {
            let mut p: Vec<PayloadField> = Vec::new();
            push_payload(&mut p, field_number("iteration", *iteration as u128));
            push_payload(&mut p, field_text("tool_name", tool_name.as_str()));
            push_payload(&mut p, field_bool("truncated", true));
            push_payload(&mut p, field_number("original_chars", *original_chars as u128));
            push_payload(&mut p, field_number("returned_chars", *returned_chars as u128));
            push_payload(&mut p, field_text("reason", reason.as_str()));
            (owned("tool_result.truncated"), None, None, Some(numbered("iteration_", *iteration)), p)
        },
        RuntimeEvent::FinalAnswerAccepted { iteration, answer_chars } => {
            let mut p: Vec<PayloadField> = Vec::new();
            push_payload(&mut p, field_number("iteration", *iteration as u128));
            push_payload(&mut p, field_number("answer_chars", *answer_chars as u128));
            (owned("final_answer.accepted"), None, None, Some(numbered("iteration_", *iteration)), p)
        },
        RuntimeEvent::SessionError { message } => {
            let mut p: Vec<PayloadField> = Vec::new();
            push_payload(&mut p, field_text("message", message.as_str()));
            (owned("session.error"), None, None, None, p)
        },    }
}


/// The value of the first field with the key, if any.
pub open spec fn payload_get(p: Seq<(Seq<char>, ValueView)>, key: Seq<char>) -> Option<ValueView>
    decreases p.len(),
{
    if p.len() == 0 {
        None
    } else if p[0].0 == key {
        Some(p[0].1)
    } else {
        payload_get(p.drop_first(), key)
    }
}

/// The boolean stored under the key, if the key holds a boolean.
pub open spec fn payload_bool_view(p: Seq<(Seq<char>, ValueView)>, key: Seq<char>) -> Option<bool> {
    match payload_get(p, key) {
        Some(ValueView::Bool(b)) => Some(b),
        _ => None,
    }
}

/// The text stored under the key, if the key holds text.
pub open spec fn payload_text_view(p: Seq<(Seq<char>, ValueView)>, key: Seq<char>) -> Option<Seq<char>> {
    match payload_get(p, key) {
        Some(ValueView::Text(s)) => Some(s),
        Some(ValueView::OptionalText(o)) => o,
        _ => None,
    }
}

/// The projected content of a job state.
pub struct JobStateView {
    pub status: JobStatus,
    pub active_phase: Option<Seq<char>>,
    pub active_step: Option<Seq<char>>,
    pub last_failure: Option<Seq<char>>,
}

/// The state after one event of the job.
pub open spec fn apply_event(s: JobStateView, e: VersionedEvent) -> JobStateView {
    let s1 = JobStateView {
        active_phase: if e.phase_id is Some { opt_view(e.phase_id) } else { s.active_phase },
        active_step: if e.step_id is Some { opt_view(e.step_id) } else { s.active_step },
        ..s
    };
    let t = e.event_type@;
    let p = payload_view(e.payload@);
    if t == "plan_generation.started"@ {
        JobStateView { status: JobStatus::Planning, ..s1 }
    } else if t == "ultra_phase.started"@ || t == "step.started"@ {
        JobStateView { status: JobStatus::Running, ..s1 }
    } else if t == "verifier.started"@ {
        JobStateView { status: JobStatus::Verifying, ..s1 }
    } else if t == "repair_attempt.started"@ || t == "recovery_task.started"@ {
        JobStateView { status: JobStatus::Repairing, ..s1 }
    } else if t == "dependency_setup.finished"@ && payload_bool_view(p, "ok"@) == Some(false) {
        JobStateView {
            status: JobStatus::Blocked,
            last_failure: payload_text_view(p, "status"@),
            ..s1
        }
    } else if t == "profile_verification.failed"@ {
        JobStateView {
            status: JobStatus::Blocked,
            last_failure: Some("profile_verification_failed"@),
            ..s1
        }
    } else if t == "ultra_phase.failed"@ || t == "step.failed"@ || t == "session.error"@ {
        JobStateView {
            status: JobStatus::Failed,
            last_failure: if payload_text_view(p, "error"@) is Some {
                payload_text_view(p, "error"@)
            } else {
                payload_text_view(p, "message"@)
            },
            ..s1
        }
    } else if t == "job.cancelled"@ {
        JobStateView { status: JobStatus::Cancelled, ..s1 }
    } else if t == "final_answer.accepted"@ {
        JobStateView { status: JobStatus::Completed, ..s1 }
    } else {
        s1
    }
}

/// The state after replaying the events of the job in order; events of other
/// jobs are skipped.
pub open spec fn replay(events: Seq<VersionedEvent>, job: Seq<char>) -> JobStateView
    decreases events.len(),
{
    if events.len() == 0 {
        JobStateView {
            status: JobStatus::Queued,
            active_phase: None,
            active_step: None,
            last_failure: None,
        }
    } else {
        let prev = replay(events.drop_last(), job);
        if events.last().job_id@ == job {
            apply_event(prev, events.last())
        } else {
            prev
        }
    }
}

/// The content of a job state.
pub open spec fn job_state_view(s: JobState) -> JobStateView {
    JobStateView {
        status: s.status,
        active_phase: opt_view(s.active_phase),
        active_step: opt_view(s.active_step),
        last_failure: opt_view(s.last_failure),
    }
}

/// The boolean stored under the key.
fn payload_bool(payload: &Vec<PayloadField>, key: &str) -> (r: Option<bool>)
    ensures
        r == payload_bool_view(payload_view(payload@), key@),
{
    match payload_lookup(payload, key) {
        Some(i) => match &payload[i].value {
            PayloadValue::Bool(b) => Some(*b),
            _ => None,
        },
        None => None,
    }
}

/// The text stored under the key.
fn payload_string(payload: &Vec<PayloadField>, key: &str) -> (r: Option<String>)
    ensures
        opt_view(r) == payload_text_view(payload_view(payload@), key@),
{
    match payload_lookup(payload, key) {
        Some(i) => match &payload[i].value {
            PayloadValue::Text(s) => Some(s.clone()),
            PayloadValue::OptionalText(o) => copy_opt(o),
            _ => None,
        },
        None => None,
    }
}

/// The index of the first field with the key.
fn payload_lookup(payload: &Vec<PayloadField>, key: &str) -> (r: Option<usize>)
    ensures
        match r {
            Some(i) => i < payload@.len() && payload_get(payload_view(payload@), key@) == Some(
                value_view(payload@[i as int].value),
            ),
            None => payload_get(payload_view(payload@), key@) is None,
        },
{
    let ghost pv = payload_view(payload@);
    assert(pv.skip(0) == pv);
    let mut i: usize = 0;
    while i < payload.len()
        invariant
            i <= payload@.len(),
            pv == payload_view(payload@),
            payload_get(pv, key@) == payload_get(pv.skip(i as int), key@),
        decreases payload.len() - i,
    {
        assert(pv.skip(i as int)[0] == pv[i as int]);
        if str_eq(payload[i].key.as_str(), key) {
            return Some(i);
        }
        assert(pv.skip(i as int).drop_first() == pv.skip(i + 1));
        i = i + 1;
    }
    None
}

/// Replays the events of the first event's job into a job state; `None`
/// when there is no event.
pub fn project_job_state(events: &[VersionedEvent]) -> (r: Option<JobState>)
    ensures
        events@.len() == 0 <==> r is None,
        match r {
            Some(s) => {
                &&& s.job_id@ == events@[0].job_id@
                &&& s.schema_version@ == EVENT_SCHEMA_VERSION@
                &&& job_state_view(s) == replay(events@, events@[0].job_id@)
            },
            None => true,
        },
{
    if events.len() == 0 {
        return None;
    }
    let mut state = JobState::new(events[0].job_id.as_str());
    let ghost job = events@[0].job_id@;
    let mut i: usize = 0;
    while i < events.len()
        invariant
            i <= events@.len(),
            job == events@[0].job_id@,
            state.job_id@ == job,
            state.schema_version@ == EVENT_SCHEMA_VERSION@,
            job_state_view(state) == replay(events@.take(i as int), job),
        decreases events.len() - i,
    {
        let event = &events[i];
        proof {
            assert(events@.take(i + 1).drop_last() == events@.take(i as int));
            assert(events@.take(i + 1).last() == events@[i as int]);
        }
        if str_eq(event.job_id.as_str(), state.job_id.as_str()) {
            let ghost before = job_state_view(state);
            match &event.phase_id {
                Some(phase) => {
                    state.active_phase = Some(phase.clone());
                },
                None => {},
            }
            match &event.step_id {
                Some(step) => {
                    state.active_step = Some(step.clone());
                },
                None => {},
            }
            let t = event.event_type.as_str();
            if str_eq(t, "plan_generation.started") {
                state.status = JobStatus::Planning;
            } else if str_eq(t, "ultra_phase.started") || str_eq(t, "step.started") {
                state.status = JobStatus::Running;
            } else if str_eq(t, "verifier.started") {
                state.status = JobStatus::Verifying;
            } else if str_eq(t, "repair_attempt.started") || str_eq(t, "recovery_task.started") {
                state.status = JobStatus::Repairing;
            } else if str_eq(t, "dependency_setup.finished") && payload_bool_is_false(&event.payload) {
                state.status = JobStatus::Blocked;
                state.last_failure = payload_string(&event.payload, "status");
            } else if str_eq(t, "profile_verification.failed") {
                state.status = JobStatus::Blocked;
                state.last_failure = Some(owned("profile_verification_failed"));
            } else if str_eq(t, "ultra_phase.failed") || str_eq(t, "step.failed") || str_eq(
                t,
                "session.error",
            ) {
                state.status = JobStatus::Failed;
                state.last_failure = match payload_string(&event.payload, "error") {
                    Some(e) => Some(e),
                    None => payload_string(&event.payload, "message"),
                };
            } else if str_eq(t, "job.cancelled") {
                state.status = JobStatus::Cancelled;
            } else if str_eq(t, "final_answer.accepted") {
                state.status = JobStatus::Completed;
            }
            assert(job_state_view(state) == apply_event(before, *event));
        }
        i = i + 1;
    }
    assert(events@.take(events@.len() as int) == events@);
    Some(state)
}

/// Whether the payload's `ok` field is `false`.
fn payload_bool_is_false(payload: &Vec<PayloadField>) -> (r: bool)
    ensures
        r == (payload_bool_view(payload_view(payload@), "ok"@) == Some(false)),
{
    match payload_bool(payload, "ok") {
        Some(b) => !b,
        None => false,
    }
}

/// A versioned command sent to a running job.
#[derive(Debug, Clone, PartialEq, Eq)]
pub struct VersionedCommand {
    pub schema_version: String,
    pub command_id: String,
    pub job_id: String,
    pub command_type: String,
    pub payload: Vec<PayloadField>,
}

/// The event that answers a command, accepted or rejected with a reason;
/// `timestamp_ms` is the wall-clock time in milliseconds.
pub fn command_response_event(
    command: &VersionedCommand,
    accepted: bool,
    reason: &str,
    timestamp_ms: u128,
) -> (r: VersionedEvent)
    ensures
        r.schema_version@ == EVENT_SCHEMA_VERSION@,
        r.event_type@ == (if accepted { "command.accepted"@ } else { "command.rejected"@ }),
        r.event_id@ == "evt_"@ + command.command_id@ + (if accepted {
            "_command_accepted"@
        } else {
            "_command_rejected"@
        }),
        r.sequence == 0,
        r.timestamp@ == decimal(timestamp_ms as nat),
        r.run_id@ == command.job_id@,
        r.job_id@ == command.job_id@,
        r.phase_id is None,
        r.step_id is None,
        r.attempt_id is None,
        r.source.component@ == "commandagent"@,
        r.source.role@ == "runtime"@,
        r.source.provider is None,
        r.source.model is None,
        payload_view(r.payload@) == seq![
            ("command_id"@, ValueView::Text(command.command_id@)),
            ("command_type"@, ValueView::Text(command.command_type@)),
            ("accepted"@, ValueView::Bool(accepted)),
            ("reason"@, ValueView::Text(reason@)),
        ],
{
    let event_type = if accepted { "command.accepted" } else { "command.rejected" };
    let mut event_id = owned("evt_");
    push_str(&mut event_id, command.command_id.as_str());
    push_str(&mut event_id, if accepted { "_command_accepted" } else { "_command_rejected" });
    let mut p: Vec<PayloadField> = Vec::new();
    push_payload(&mut p, field_text("command_id", command.command_id.as_str()));
    push_payload(&mut p, field_text("command_type", command.command_type.as_str()));
    push_payload(&mut p, field_bool("accepted", accepted));
    push_payload(&mut p, field_text("reason", reason));
    VersionedEvent {
        schema_version: owned(EVENT_SCHEMA_VERSION),
        event_id,
        sequence: 0,
        timestamp: u128_to_string(timestamp_ms),
        run_id: command.job_id.clone(),
        job_id: command.job_id.clone(),
        phase_id: None,
        step_id: None,
        attempt_id: None,
        event_type: owned(event_type),
        source: EventSource::commandagent("runtime", None, None),
        payload: p,
    }
}

} // verus!
