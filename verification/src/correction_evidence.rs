//! Structured facts from deterministic guards.
//!
//! Evidence is rendered into bounded correction or repair paths. It carries
//! no retry state, target authority, semantic guesses or provider policy.
use crate::text::{
    collapse_ws, collapse_ws_str, decimal, is_blank, is_blank_str, join, join_strings, owned,
    push_str, take_chars, usize_to_string, views, char_count,
};
use vstd::prelude::*;

verus! {

/// The longest rendered value, in characters.
pub const MAX_FIELD_CHARS: usize = 240;

/// The most list items rendered for one key.
pub const MAX_LIST_ITEMS: usize = 8;

/// Evidence produced by plan lint; the same structure as [`ContractEvidence`].
pub type PlanCorrectionEvidence = ContractEvidence;

/// Bounded data produced by a deterministic contract guard.
#[derive(Debug, Clone, PartialEq, Eq, Default)]
pub struct ContractEvidence {
    pub guard: String,
    pub failed_step: Option<String>,
    pub violated_contract: Option<String>,
    pub reason_code: Option<String>,
    pub failure_signature: Option<String>,
    pub failure_kind: Option<String>,
    pub diagnostic_code: Option<String>,
    pub command: Option<String>,
    pub tool: Option<String>,
    pub target_field: Option<String>,
    pub target_path: Option<String>,
    pub candidate_artifacts: Vec<String>,
    pub repair_target: Option<String>,
    pub required_fields: Vec<String>,
    pub required_literals: Vec<String>,
    pub missing_literals: Vec<String>,
    pub required_paths: Vec<String>,
    pub missing_paths: Vec<String>,
    pub affected_cases: Vec<String>,
    pub observed_expected_pairs: Vec<String>,
    pub rejected_value: Option<String>,
    pub active_job: Option<String>,
    pub artifact_role: Option<String>,
    pub required_action: Option<String>,
    pub disallowed_actions: Vec<String>,
    pub related_source_excerpt: Option<String>,
    pub prior_attempts: Vec<String>,
    pub repair_attempt_ledger: Vec<String>,
    pub repair_focus: Option<String>,
    pub repair_kind: Option<String>,
    pub repair_action: Option<String>,
    pub semantic_failure_kind: Option<String>,
    pub source_of_truth: Option<String>,
    pub allowed_change_kind: Option<String>,
    pub expected_evidence_delta: Option<String>,
    pub setup_implication: Option<String>,
    pub tool_policy_projection: Option<String>,
    pub target_admission: Option<String>,
    pub target_priority: Option<String>,
    pub workspace_scope: Option<String>,
    pub artifact_ownership: Option<String>,
    pub active_job_priority: Option<String>,
    pub loop_control_action: Option<String>,
    pub dispatch_status: Option<String>,
    pub dispatch_reason: Option<String>,
    pub candidate_jobs: Vec<String>,
    pub tie_break_reason: Option<String>,
    pub explicit_stop_reason: Option<String>,
    pub recovery_owner: Option<String>,
    pub completion_evidence: Vec<String>,
    pub evidence_binding: Vec<String>,
    pub deliverable_obligations: Vec<String>,
    pub repair_action_plan: Vec<String>,
    pub semantic_failure_report: Vec<String>,
    pub repair_job_state: Vec<String>,
    pub attempt_outcomes: Vec<String>,
    pub patch_validation: Vec<String>,
    pub eval_report_fields: Vec<String>,
    pub artifact_graph_summary: Vec<String>,
    pub rerun_authority: Vec<String>,
    pub proposed_targets: Vec<String>,
    pub admitted_targets: Vec<String>,
    pub rejected_targets: Vec<String>,
    pub repair_brief: Vec<String>,
    pub selected_failure_cluster: Option<String>,
    pub repair_brief_status: Option<String>,
    pub action_envelope_status: Option<String>,
    pub diagnostic: Option<String>,
    pub weak_verifier_reason: Option<String>,
    pub no_progress_strategy: Option<String>,
    pub verifier_diagnostic_payload: Vec<String>,
}

/// A value as rendered: whitespace collapsed, then cut to
/// `MAX_FIELD_CHARS` characters with `...` appended when it was longer.
pub open spec fn bounded(s: Seq<char>) -> Seq<char> {
    let n = collapse_ws(s);
    if n.len() > MAX_FIELD_CHARS {
        n.take(MAX_FIELD_CHARS as int) + "..."@
    } else {
        n
    }
}

/// The line rendered for a single-valued key: nothing when the value is
/// absent or blank.
#[verifier::opaque]
pub open spec fn field_line(key: Seq<char>, value: Option<Seq<char>>) -> Seq<Seq<char>> {
    match value {
        Some(v) => if is_blank(v) {
            Seq::empty()
        } else {
            seq!["- "@ + key + ": "@ + bounded(v)]
        },
        None => Seq::empty(),
    }
}

/// The rendered items of a list: at most `MAX_LIST_ITEMS` bounded values,
/// then a `... (N more)` marker when items were left out.
pub open spec fn list_items(values: Seq<Seq<char>>) -> Seq<Seq<char>> {
    let shown = values.take(
        if values.len() > MAX_LIST_ITEMS { MAX_LIST_ITEMS as int } else { values.len() as int },
    ).map_values(|v: Seq<char>| bounded(v));
    if values.len() > MAX_LIST_ITEMS {
        shown.push("... ("@ + decimal((values.len() - MAX_LIST_ITEMS) as nat) + " more)"@)
    } else {
        shown
    }
}

/// The line rendered for a list-valued key: nothing when the list is empty.
#[verifier::opaque]
pub open spec fn list_line(key: Seq<char>, values: Seq<Seq<char>>) -> Seq<Seq<char>> {
    if values.len() == 0 {
        Seq::empty()
    } else {
        seq!["- "@ + key + ": "@ + join(list_items(values), ", "@)]
    }
}

/// The lines of the rendered evidence, in rendering order.
pub open spec fn render_lines(e: ContractEvidence) -> Seq<Seq<char>> {
    render_chunk_6(
        e,
        render_chunk_5(
        e,
        render_chunk_4(
        e,
        render_chunk_3(
        e,
        render_chunk_2(
        e,
        render_chunk_1(
        e,
        render_chunk_0(e, seq!["Contract correction evidence:"@]),
    ),
    ),
    ),
    ),
    ),
    )
}

/// `acc` followed by lines 1 to 10 of the rendered facts.
pub open spec fn render_chunk_0(e: ContractEvidence, acc: Seq<Seq<char>>) -> Seq<Seq<char>> {
    acc
        + field_line("guard"@, Some(e.guard@))
        + field_line("failed_step"@, crate::text::opt_view(e.failed_step))
        + field_line("violated_contract"@, crate::text::opt_view(e.violated_contract))
        + field_line("reason_code"@, crate::text::opt_view(e.reason_code))
        + field_line("failure_signature"@, crate::text::opt_view(e.failure_signature))
        + field_line("failure_kind"@, crate::text::opt_view(e.failure_kind))
        + field_line("diagnostic_code"@, crate::text::opt_view(e.diagnostic_code))
        + field_line("command"@, crate::text::opt_view(e.command))
        + field_line("tool"@, crate::text::opt_view(e.tool))
        + field_line("target_field"@, crate::text::opt_view(e.target_field))
}

/// `acc` followed by lines 11 to 20 of the rendered facts.
pub open spec fn render_chunk_1(e: ContractEvidence, acc: Seq<Seq<char>>) -> Seq<Seq<char>> {
    acc
        + field_line("target_path"@, crate::text::opt_view(e.target_path))
        + list_line("candidate_artifacts"@, views(e.candidate_artifacts@))
        + field_line("repair_target"@, crate::text::opt_view(e.repair_target))
        + list_line("required_fields"@, views(e.required_fields@))
        + list_line("required_literals"@, views(e.required_literals@))
        + list_line("missing_literals"@, views(e.missing_literals@))
        + list_line("required_paths"@, views(e.required_paths@))
        + list_line("missing_paths"@, views(e.missing_paths@))
        + list_line("affected_cases"@, views(e.affected_cases@))
        + list_line("observed_expected_pairs"@, views(e.observed_expected_pairs@))
}

/// `acc` followed by lines 21 to 30 of the rendered facts.
pub open spec fn render_chunk_2(e: ContractEvidence, acc: Seq<Seq<char>>) -> Seq<Seq<char>> {
    acc
        + field_line("rejected_value"@, crate::text::opt_view(e.rejected_value))
        + field_line("active_job"@, crate::text::opt_view(e.active_job))
        + field_line("artifact_role"@, crate::text::opt_view(e.artifact_role))
        + field_line("required_action"@, crate::text::opt_view(e.required_action))
        + list_line("disallowed_actions"@, views(e.disallowed_actions@))
        + field_line("related_source_excerpt"@, crate::text::opt_view(e.related_source_excerpt))
        + list_line("prior_attempts"@, views(e.prior_attempts@))
        + list_line("repair_attempt_ledger"@, views(e.repair_attempt_ledger@))
        + field_line("repair_focus"@, crate::text::opt_view(e.repair_focus))
        + field_line("repair_kind"@, crate::text::opt_view(e.repair_kind))
}

/// `acc` followed by lines 31 to 40 of the rendered facts.
pub open spec fn render_chunk_3(e: ContractEvidence, acc: Seq<Seq<char>>) -> Seq<Seq<char>> {
    acc
        + field_line("repair_action"@, crate::text::opt_view(e.repair_action))
        + field_line("semantic_failure_kind"@, crate::text::opt_view(e.semantic_failure_kind))
        + field_line("source_of_truth"@, crate::text::opt_view(e.source_of_truth))
        + field_line("allowed_change_kind"@, crate::text::opt_view(e.allowed_change_kind))
        + field_line("expected_evidence_delta"@, crate::text::opt_view(e.expected_evidence_delta))
        + field_line("setup_implication"@, crate::text::opt_view(e.setup_implication))
        + list_line("rerun_authority"@, views(e.rerun_authority@))
        + field_line("tool_policy_projection"@, crate::text::opt_view(e.tool_policy_projection))
        + field_line("target_admission"@, crate::text::opt_view(e.target_admission))
        + field_line("target_priority"@, crate::text::opt_view(e.target_priority))
}

/// `acc` followed by lines 41 to 50 of the rendered facts.
pub open spec fn render_chunk_4(e: ContractEvidence, acc: Seq<Seq<char>>) -> Seq<Seq<char>> {
    acc
        + field_line("workspace_scope"@, crate::text::opt_view(e.workspace_scope))
        + field_line("artifact_ownership"@, crate::text::opt_view(e.artifact_ownership))
        + field_line("active_job_priority"@, crate::text::opt_view(e.active_job_priority))
        + field_line("loop_control_action"@, crate::text::opt_view(e.loop_control_action))
        + field_line("dispatch_status"@, crate::text::opt_view(e.dispatch_status))
        + field_line("dispatch_reason"@, crate::text::opt_view(e.dispatch_reason))
        + list_line("candidate_jobs"@, views(e.candidate_jobs@))
        + field_line("tie_break_reason"@, crate::text::opt_view(e.tie_break_reason))
        + field_line("explicit_stop_reason"@, crate::text::opt_view(e.explicit_stop_reason))
        + field_line("recovery_owner"@, crate::text::opt_view(e.recovery_owner))
}

/// `acc` followed by lines 51 to 60 of the rendered facts.
pub open spec fn render_chunk_5(e: ContractEvidence, acc: Seq<Seq<char>>) -> Seq<Seq<char>> {
    acc
        + list_line("completion_evidence"@, views(e.completion_evidence@))
        + list_line("evidence_binding"@, views(e.evidence_binding@))
        + list_line("deliverable_obligations"@, views(e.deliverable_obligations@))
        + list_line("repair_action_plan"@, views(e.repair_action_plan@))
        + list_line("semantic_failure_report"@, views(e.semantic_failure_report@))
        + list_line("repair_job_state"@, views(e.repair_job_state@))
        + list_line("attempt_outcomes"@, views(e.attempt_outcomes@))
        + list_line("patch_validation"@, views(e.patch_validation@))
        + list_line("eval_report_fields"@, views(e.eval_report_fields@))
        + list_line("artifact_graph_summary"@, views(e.artifact_graph_summary@))
}

/// `acc` followed by lines 61 to 67 of the rendered facts.
pub open spec fn render_chunk_6(e: ContractEvidence, acc: Seq<Seq<char>>) -> Seq<Seq<char>> {
    acc
        + list_line("proposed_targets"@, views(e.proposed_targets@))
        + list_line("admitted_targets"@, views(e.admitted_targets@))
        + list_line("rejected_targets"@, views(e.rejected_targets@))
        + field_line("selected_failure_cluster"@, crate::text::opt_view(e.selected_failure_cluster))
        + field_line("repair_brief_status"@, crate::text::opt_view(e.repair_brief_status))
        + field_line("action_envelope_status"@, crate::text::opt_view(e.action_envelope_status))
        + field_line("diagnostic"@, crate::text::opt_view(e.diagnostic))
}

/// No field carries a value, leaving aside `guard` and the three fields
/// that are not counted here: `weak_verifier_reason`,
/// `no_progress_strategy` and `verifier_diagnostic_payload`.
pub open spec fn empty_without_guard(e: ContractEvidence) -> bool {
    e.failed_step.is_none()
    && e.violated_contract.is_none()
    && e.reason_code.is_none()
    && e.failure_signature.is_none()
    && e.failure_kind.is_none()
    && e.diagnostic_code.is_none()
    && e.command.is_none()
    && e.tool.is_none()
    && e.target_field.is_none()
    && e.target_path.is_none()
    && e.candidate_artifacts@.len() == 0
    && e.repair_target.is_none()
    && e.required_fields@.len() == 0
    && e.required_literals@.len() == 0
    && e.missing_literals@.len() == 0
    && e.required_paths@.len() == 0
    && e.missing_paths@.len() == 0
    && e.affected_cases@.len() == 0
    && e.observed_expected_pairs@.len() == 0
    && e.rejected_value.is_none()
    && e.active_job.is_none()
    && e.artifact_role.is_none()
    && e.required_action.is_none()
    && e.disallowed_actions@.len() == 0
    && e.related_source_excerpt.is_none()
    && e.prior_attempts@.len() == 0
    && e.repair_attempt_ledger@.len() == 0
    && e.repair_focus.is_none()
    && e.repair_kind.is_none()
    && e.repair_action.is_none()
    && e.semantic_failure_kind.is_none()
    && e.source_of_truth.is_none()
    && e.allowed_change_kind.is_none()
    && e.expected_evidence_delta.is_none()
    && e.setup_implication.is_none()
    && e.tool_policy_projection.is_none()
    && e.target_admission.is_none()
    && e.target_priority.is_none()
    && e.workspace_scope.is_none()
    && e.artifact_ownership.is_none()
    && e.active_job_priority.is_none()
    && e.loop_control_action.is_none()
    && e.dispatch_status.is_none()
    && e.dispatch_reason.is_none()
    && e.candidate_jobs@.len() == 0
    && e.tie_break_reason.is_none()
    && e.explicit_stop_reason.is_none()
    && e.recovery_owner.is_none()
    && e.completion_evidence@.len() == 0
    && e.evidence_binding@.len() == 0
    && e.deliverable_obligations@.len() == 0
    && e.repair_action_plan@.len() == 0
    && e.semantic_failure_report@.len() == 0
    && e.repair_job_state@.len() == 0
    && e.attempt_outcomes@.len() == 0
    && e.patch_validation@.len() == 0
    && e.eval_report_fields@.len() == 0
    && e.artifact_graph_summary@.len() == 0
    && e.rerun_authority@.len() == 0
    && e.proposed_targets@.len() == 0
    && e.admitted_targets@.len() == 0
    && e.rejected_targets@.len() == 0
    && e.repair_brief@.len() == 0
    && e.selected_failure_cluster.is_none()
    && e.repair_brief_status.is_none()
    && e.action_envelope_status.is_none()
    && e.diagnostic.is_none()
}


/// Every fact other than `guard` and the named fields is absent.
pub open spec fn only_facts(e: ContractEvidence, keep: Seq<Seq<char>>) -> bool {
    (keep.contains("failed_step"@) || e.failed_step is None)
    && (keep.contains("violated_contract"@) || e.violated_contract is None)
    && (keep.contains("reason_code"@) || e.reason_code is None)
    && (keep.contains("failure_signature"@) || e.failure_signature is None)
    && (keep.contains("failure_kind"@) || e.failure_kind is None)
    && (keep.contains("diagnostic_code"@) || e.diagnostic_code is None)
    && (keep.contains("command"@) || e.command is None)
    && (keep.contains("tool"@) || e.tool is None)
    && (keep.contains("target_field"@) || e.target_field is None)
    && (keep.contains("target_path"@) || e.target_path is None)
    && (keep.contains("candidate_artifacts"@) || e.candidate_artifacts@.len() == 0)
    && (keep.contains("repair_target"@) || e.repair_target is None)
    && (keep.contains("required_fields"@) || e.required_fields@.len() == 0)
    && (keep.contains("required_literals"@) || e.required_literals@.len() == 0)
    && (keep.contains("missing_literals"@) || e.missing_literals@.len() == 0)
    && (keep.contains("required_paths"@) || e.required_paths@.len() == 0)
    && (keep.contains("missing_paths"@) || e.missing_paths@.len() == 0)
    && (keep.contains("affected_cases"@) || e.affected_cases@.len() == 0)
    && (keep.contains("observed_expected_pairs"@) || e.observed_expected_pairs@.len() == 0)
    && (keep.contains("rejected_value"@) || e.rejected_value is None)
    && (keep.contains("active_job"@) || e.active_job is None)
    && (keep.contains("artifact_role"@) || e.artifact_role is None)
    && (keep.contains("required_action"@) || e.required_action is None)
    && (keep.contains("disallowed_actions"@) || e.disallowed_actions@.len() == 0)
    && (keep.contains("related_source_excerpt"@) || e.related_source_excerpt is None)
    && (keep.contains("prior_attempts"@) || e.prior_attempts@.len() == 0)
    && (keep.contains("repair_attempt_ledger"@) || e.repair_attempt_ledger@.len() == 0)
    && (keep.contains("repair_focus"@) || e.repair_focus is None)
    && (keep.contains("repair_kind"@) || e.repair_kind is None)
    && (keep.contains("repair_action"@) || e.repair_action is None)
    && (keep.contains("semantic_failure_kind"@) || e.semantic_failure_kind is None)
    && (keep.contains("source_of_truth"@) || e.source_of_truth is None)
    && (keep.contains("allowed_change_kind"@) || e.allowed_change_kind is None)
    && (keep.contains("expected_evidence_delta"@) || e.expected_evidence_delta is None)
    && (keep.contains("setup_implication"@) || e.setup_implication is None)
    && (keep.contains("tool_policy_projection"@) || e.tool_policy_projection is None)
    && (keep.contains("target_admission"@) || e.target_admission is None)
    && (keep.contains("target_priority"@) || e.target_priority is None)
    && (keep.contains("workspace_scope"@) || e.workspace_scope is None)
    && (keep.contains("artifact_ownership"@) || e.artifact_ownership is None)
    && (keep.contains("active_job_priority"@) || e.active_job_priority is None)
    && (keep.contains("loop_control_action"@) || e.loop_control_action is None)
    && (keep.contains("dispatch_status"@) || e.dispatch_status is None)
    && (keep.contains("dispatch_reason"@) || e.dispatch_reason is None)
    && (keep.contains("candidate_jobs"@) || e.candidate_jobs@.len() == 0)
    && (keep.contains("tie_break_reason"@) || e.tie_break_reason is None)
    && (keep.contains("explicit_stop_reason"@) || e.explicit_stop_reason is None)
    && (keep.contains("recovery_owner"@) || e.recovery_owner is None)
    && (keep.contains("completion_evidence"@) || e.completion_evidence@.len() == 0)
    && (keep.contains("evidence_binding"@) || e.evidence_binding@.len() == 0)
    && (keep.contains("deliverable_obligations"@) || e.deliverable_obligations@.len() == 0)
    && (keep.contains("repair_action_plan"@) || e.repair_action_plan@.len() == 0)
    && (keep.contains("semantic_failure_report"@) || e.semantic_failure_report@.len() == 0)
    && (keep.contains("repair_job_state"@) || e.repair_job_state@.len() == 0)
    && (keep.contains("attempt_outcomes"@) || e.attempt_outcomes@.len() == 0)
    && (keep.contains("patch_validation"@) || e.patch_validation@.len() == 0)
    && (keep.contains("eval_report_fields"@) || e.eval_report_fields@.len() == 0)
    && (keep.contains("artifact_graph_summary"@) || e.artifact_graph_summary@.len() == 0)
    && (keep.contains("rerun_authority"@) || e.rerun_authority@.len() == 0)
    && (keep.contains("proposed_targets"@) || e.proposed_targets@.len() == 0)
    && (keep.contains("admitted_targets"@) || e.admitted_targets@.len() == 0)
    && (keep.contains("rejected_targets"@) || e.rejected_targets@.len() == 0)
    && (keep.contains("repair_brief"@) || e.repair_brief@.len() == 0)
    && (keep.contains("selected_failure_cluster"@) || e.selected_failure_cluster is None)
    && (keep.contains("repair_brief_status"@) || e.repair_brief_status is None)
    && (keep.contains("action_envelope_status"@) || e.action_envelope_status is None)
    && (keep.contains("diagnostic"@) || e.diagnostic is None)
    && (keep.contains("weak_verifier_reason"@) || e.weak_verifier_reason is None)
    && (keep.contains("no_progress_strategy"@) || e.no_progress_strategy is None)
    && (keep.contains("verifier_diagnostic_payload"@) || e.verifier_diagnostic_payload@.len() == 0)
}

/// The rendered evidence, or nothing when the guard is blank and no counted
/// field carries a value (see [`empty_without_guard`]); the weak-verifier
/// reason, the no-progress strategy and the verifier diagnostic payload
/// alone are not rendered.
pub open spec fn render_spec(e: ContractEvidence) -> Option<Seq<char>> {
    if is_blank(e.guard@) && empty_without_guard(e) {
        None
    } else {
        Some(join(render_lines(e), "\n"@))
    }
}

impl ContractEvidence {
    /// Evidence of the named guard with no other fact.
    pub fn new(guard: &str) -> (r: Self)
        ensures
            r.guard@ == guard@,
            empty_without_guard(r),
            r.weak_verifier_reason is None,
            r.no_progress_strategy is None,
            r.verifier_diagnostic_payload@.len() == 0,
    {
        ContractEvidence {
            guard: owned(guard),
            failed_step: None,
            violated_contract: None,
            reason_code: None,
            failure_signature: None,
            failure_kind: None,
            diagnostic_code: None,
            command: None,
            tool: None,
            target_field: None,
            target_path: None,
            candidate_artifacts: Vec::new(),
            repair_target: None,
            required_fields: Vec::new(),
            required_literals: Vec::new(),
            missing_literals: Vec::new(),
            required_paths: Vec::new(),
            missing_paths: Vec::new(),
            affected_cases: Vec::new(),
            observed_expected_pairs: Vec::new(),
            rejected_value: None,
            active_job: None,
            artifact_role: None,
            required_action: None,
            disallowed_actions: Vec::new(),
            related_source_excerpt: None,
            prior_attempts: Vec::new(),
            repair_attempt_ledger: Vec::new(),
            repair_focus: None,
            repair_kind: None,
            repair_action: None,
            semantic_failure_kind: None,
            source_of_truth: None,
            allowed_change_kind: None,
            expected_evidence_delta: None,
            setup_implication: None,
            tool_policy_projection: None,
            target_admission: None,
            target_priority: None,
            workspace_scope: None,
            artifact_ownership: None,
            active_job_priority: None,
            loop_control_action: None,
            dispatch_status: None,
            dispatch_reason: None,
            candidate_jobs: Vec::new(),
            tie_break_reason: None,
            explicit_stop_reason: None,
            recovery_owner: None,
            completion_evidence: Vec::new(),
            evidence_binding: Vec::new(),
            deliverable_obligations: Vec::new(),
            repair_action_plan: Vec::new(),
            semantic_failure_report: Vec::new(),
            repair_job_state: Vec::new(),
            attempt_outcomes: Vec::new(),
            patch_validation: Vec::new(),
            eval_report_fields: Vec::new(),
            artifact_graph_summary: Vec::new(),
            rerun_authority: Vec::new(),
            proposed_targets: Vec::new(),
            admitted_targets: Vec::new(),
            rejected_targets: Vec::new(),
            repair_brief: Vec::new(),
            selected_failure_cluster: None,
            repair_brief_status: None,
            action_envelope_status: None,
            diagnostic: None,
            weak_verifier_reason: None,
            no_progress_strategy: None,
            verifier_diagnostic_payload: Vec::new(),
        }
    }

    /// Sets `failed_step`.
    pub fn with_failed_step(self, failed_step: &str) -> (r: Self)
        ensures
            crate::text::opt_view(r.failed_step) == Some(failed_step@),
            r == (ContractEvidence { failed_step: r.failed_step, ..self }),
    {
        ContractEvidence { failed_step: Some(owned(failed_step)), ..self }
    }

    /// Sets `violated_contract`.
    pub fn with_violated_contract(self, violated_contract: &str) -> (r: Self)
        ensures
            crate::text::opt_view(r.violated_contract) == Some(violated_contract@),
            r == (ContractEvidence { violated_contract: r.violated_contract, ..self }),
    {
        ContractEvidence { violated_contract: Some(owned(violated_contract)), ..self }
    }

    /// Sets `reason_code`.
    pub fn with_reason_code(self, reason_code: &str) -> (r: Self)
        ensures
            crate::text::opt_view(r.reason_code) == Some(reason_code@),
            r == (ContractEvidence { reason_code: r.reason_code, ..self }),
    {
        ContractEvidence { reason_code: Some(owned(reason_code)), ..self }
    }

    /// Sets `failure_signature`.
    pub fn with_failure_signature(self, failure_signature: &str) -> (r: Self)
        ensures
            crate::text::opt_view(r.failure_signature) == Some(failure_signature@),
            r == (ContractEvidence { failure_signature: r.failure_signature, ..self }),
    {
        ContractEvidence { failure_signature: Some(owned(failure_signature)), ..self }
    }

    /// Sets `failure_kind`.
    pub fn with_failure_kind(self, failure_kind: &str) -> (r: Self)
        ensures
            crate::text::opt_view(r.failure_kind) == Some(failure_kind@),
            r == (ContractEvidence { failure_kind: r.failure_kind, ..self }),
    {
        ContractEvidence { failure_kind: Some(owned(failure_kind)), ..self }
    }

    /// Sets `diagnostic_code`.
    pub fn with_diagnostic_code(self, diagnostic_code: &str) -> (r: Self)
        ensures
            crate::text::opt_view(r.diagnostic_code) == Some(diagnostic_code@),
            r == (ContractEvidence { diagnostic_code: r.diagnostic_code, ..self }),
    {
        ContractEvidence { diagnostic_code: Some(owned(diagnostic_code)), ..self }
    }

    /// Sets `command`.
    pub fn with_command(self, command: &str) -> (r: Self)
        ensures
            crate::text::opt_view(r.command) == Some(command@),
            r == (ContractEvidence { command: r.command, ..self }),
    {
        ContractEvidence { command: Some(owned(command)), ..self }
    }

    /// Sets `tool`.
    pub fn with_tool(self, tool: &str) -> (r: Self)
        ensures
            crate::text::opt_view(r.tool) == Some(tool@),
            r == (ContractEvidence { tool: r.tool, ..self }),
    {
        ContractEvidence { tool: Some(owned(tool)), ..self }
    }

    /// Sets `target_field`.
    pub fn with_target_field(self, target_field: &str) -> (r: Self)
        ensures
            crate::text::opt_view(r.target_field) == Some(target_field@),
            r == (ContractEvidence { target_field: r.target_field, ..self }),
    {
        ContractEvidence { target_field: Some(owned(target_field)), ..self }
    }

    /// Sets `target_path`.
    pub fn with_target_path(self, target_path: &str) -> (r: Self)
        ensures
            crate::text::opt_view(r.target_path) == Some(target_path@),
            r == (ContractEvidence { target_path: r.target_path, ..self }),
    {
        ContractEvidence { target_path: Some(owned(target_path)), ..self }
    }

    /// Sets `repair_target`.
    pub fn with_repair_target(self, repair_target: &str) -> (r: Self)
        ensures
            crate::text::opt_view(r.repair_target) == Some(repair_target@),
            r == (ContractEvidence { repair_target: r.repair_target, ..self }),
    {
        ContractEvidence { repair_target: Some(owned(repair_target)), ..self }
    }

    /// Sets `rejected_value`.
    pub fn with_rejected_value(self, rejected_value: &str) -> (r: Self)
        ensures
            crate::text::opt_view(r.rejected_value) == Some(rejected_value@),
            r == (ContractEvidence { rejected_value: r.rejected_value, ..self }),
    {
        ContractEvidence { rejected_value: Some(owned(rejected_value)), ..self }
    }

    /// Sets `active_job`.
    pub fn with_active_job(self, active_job: &str) -> (r: Self)
        ensures
            crate::text::opt_view(r.active_job) == Some(active_job@),
            r == (ContractEvidence { active_job: r.active_job, ..self }),
    {
        ContractEvidence { active_job: Some(owned(active_job)), ..self }
    }

    /// Sets `artifact_role`.
    pub fn with_artifact_role(self, artifact_role: &str) -> (r: Self)
        ensures
            crate::text::opt_view(r.artifact_role) == Some(artifact_role@),
            r == (ContractEvidence { artifact_role: r.artifact_role, ..self }),
    {
        ContractEvidence { artifact_role: Some(owned(artifact_role)), ..self }
    }

    /// Sets `required_action`.
    pub fn with_required_action(self, required_action: &str) -> (r: Self)
        ensures
            crate::text::opt_view(r.required_action) == Some(required_action@),
            r == (ContractEvidence { required_action: r.required_action, ..self }),
    {
        ContractEvidence { required_action: Some(owned(required_action)), ..self }
    }

    /// Appends one entry to the repair attempt ledger.
    pub fn with_repair_attempt(self, repair_attempt: &str) -> (r: Self)
        ensures
            views(r.repair_attempt_ledger@) == views(self.repair_attempt_ledger@).push(repair_attempt@),
            r == (ContractEvidence { repair_attempt_ledger: r.repair_attempt_ledger, ..self }),
    {
        let mut ledger = self.repair_attempt_ledger;
        let ghost before = ledger@;
        ledger.push(owned(repair_attempt));
        proof {
            assert(views(ledger@) == views(before).push(repair_attempt@));
        }
        ContractEvidence { repair_attempt_ledger: ledger, ..self }
    }

    /// Sets `related_source_excerpt`.
    pub fn with_related_source_excerpt(self, related_source_excerpt: &str) -> (r: Self)
        ensures
            crate::text::opt_view(r.related_source_excerpt) == Some(related_source_excerpt@),
            r == (ContractEvidence { related_source_excerpt: r.related_source_excerpt, ..self }),
    {
        ContractEvidence { related_source_excerpt: Some(owned(related_source_excerpt)), ..self }
    }

    /// Sets `repair_focus`.
    pub fn with_repair_focus(self, repair_focus: &str) -> (r: Self)
        ensures
            crate::text::opt_view(r.repair_focus) == Some(repair_focus@),
            r == (ContractEvidence { repair_focus: r.repair_focus, ..self }),
    {
        ContractEvidence { repair_focus: Some(owned(repair_focus)), ..self }
    }

    /// Sets `repair_kind`.
    pub fn with_repair_kind(self, repair_kind: &str) -> (r: Self)
        ensures
            crate::text::opt_view(r.repair_kind) == Some(repair_kind@),
            r == (ContractEvidence { repair_kind: r.repair_kind, ..self }),
    {
        ContractEvidence { repair_kind: Some(owned(repair_kind)), ..self }
    }

    /// Sets `repair_action`.
    pub fn with_repair_action(self, repair_action: &str) -> (r: Self)
        ensures
            crate::text::opt_view(r.repair_action) == Some(repair_action@),
            r == (ContractEvidence { repair_action: r.repair_action, ..self }),
    {
        ContractEvidence { repair_action: Some(owned(repair_action)), ..self }
    }

    /// Sets `semantic_failure_kind`.
    pub fn with_semantic_failure_kind(self, semantic_failure_kind: &str) -> (r: Self)
        ensures
            crate::text::opt_view(r.semantic_failure_kind) == Some(semantic_failure_kind@),
            r == (ContractEvidence { semantic_failure_kind: r.semantic_failure_kind, ..self }),
    {
        ContractEvidence { semantic_failure_kind: Some(owned(semantic_failure_kind)), ..self }
    }

    /// Sets `source_of_truth`.
    pub fn with_source_of_truth(self, source_of_truth: &str) -> (r: Self)
        ensures
            crate::text::opt_view(r.source_of_truth) == Some(source_of_truth@),
            r == (ContractEvidence { source_of_truth: r.source_of_truth, ..self }),
    {
        ContractEvidence { source_of_truth: Some(owned(source_of_truth)), ..self }
    }

    /// Sets `allowed_change_kind`.
    pub fn with_allowed_change_kind(self, allowed_change_kind: &str) -> (r: Self)
        ensures
            crate::text::opt_view(r.allowed_change_kind) == Some(allowed_change_kind@),
            r == (ContractEvidence { allowed_change_kind: r.allowed_change_kind, ..self }),
    {
        ContractEvidence { allowed_change_kind: Some(owned(allowed_change_kind)), ..self }
    }

    /// Sets `expected_evidence_delta`.
    pub fn with_expected_evidence_delta(self, expected_evidence_delta: &str) -> (r: Self)
        ensures
            crate::text::opt_view(r.expected_evidence_delta) == Some(expected_evidence_delta@),
            r == (ContractEvidence { expected_evidence_delta: r.expected_evidence_delta, ..self }),
    {
        ContractEvidence { expected_evidence_delta: Some(owned(expected_evidence_delta)), ..self }
    }

    /// Sets `setup_implication`.
    pub fn with_setup_implication(self, setup_implication: &str) -> (r: Self)
        ensures
            crate::text::opt_view(r.setup_implication) == Some(setup_implication@),
            r == (ContractEvidence { setup_implication: r.setup_implication, ..self }),
    {
        ContractEvidence { setup_implication: Some(owned(setup_implication)), ..self }
    }

    /// Sets `tool_policy_projection`.
    pub fn with_tool_policy_projection(self, tool_policy_projection: &str) -> (r: Self)
        ensures
            crate::text::opt_view(r.tool_policy_projection) == Some(tool_policy_projection@),
            r == (ContractEvidence { tool_policy_projection: r.tool_policy_projection, ..self }),
    {
        ContractEvidence { tool_policy_projection: Some(owned(tool_policy_projection)), ..self }
    }

    /// Sets `target_admission`.
    pub fn with_target_admission(self, target_admission: &str) -> (r: Self)
        ensures
            crate::text::opt_view(r.target_admission) == Some(target_admission@),
            r == (ContractEvidence { target_admission: r.target_admission, ..self }),
    {
        ContractEvidence { target_admission: Some(owned(target_admission)), ..self }
    }

    /// Sets `target_priority`.
    pub fn with_target_priority(self, target_priority: &str) -> (r: Self)
        ensures
            crate::text::opt_view(r.target_priority) == Some(target_priority@),
            r == (ContractEvidence { target_priority: r.target_priority, ..self }),
    {
        ContractEvidence { target_priority: Some(owned(target_priority)), ..self }
    }

    /// Sets `workspace_scope`.
    pub fn with_workspace_scope(self, workspace_scope: &str) -> (r: Self)
        ensures
            crate::text::opt_view(r.workspace_scope) == Some(workspace_scope@),
            r == (ContractEvidence { workspace_scope: r.workspace_scope, ..self }),
    {
        ContractEvidence { workspace_scope: Some(owned(workspace_scope)), ..self }
    }

    /// Sets `artifact_ownership`.
    pub fn with_artifact_ownership(self, artifact_ownership: &str) -> (r: Self)
        ensures
            crate::text::opt_view(r.artifact_ownership) == Some(artifact_ownership@),
            r == (ContractEvidence { artifact_ownership: r.artifact_ownership, ..self }),
    {
        ContractEvidence { artifact_ownership: Some(owned(artifact_ownership)), ..self }
    }

    /// Sets `active_job_priority`.
    pub fn with_active_job_priority(self, active_job_priority: &str) -> (r: Self)
        ensures
            crate::text::opt_view(r.active_job_priority) == Some(active_job_priority@),
            r == (ContractEvidence { active_job_priority: r.active_job_priority, ..self }),
    {
        ContractEvidence { active_job_priority: Some(owned(active_job_priority)), ..self }
    }

    /// Sets `loop_control_action`.
    pub fn with_loop_control_action(self, loop_control_action: &str) -> (r: Self)
        ensures
            crate::text::opt_view(r.loop_control_action) == Some(loop_control_action@),
            r == (ContractEvidence { loop_control_action: r.loop_control_action, ..self }),
    {
        ContractEvidence { loop_control_action: Some(owned(loop_control_action)), ..self }
    }

    /// Sets `dispatch_status`.
    pub fn with_dispatch_status(self, dispatch_status: &str) -> (r: Self)
        ensures
            crate::text::opt_view(r.dispatch_status) == Some(dispatch_status@),
            r == (ContractEvidence { dispatch_status: r.dispatch_status, ..self }),
    {
        ContractEvidence { dispatch_status: Some(owned(dispatch_status)), ..self }
    }

    /// Sets `dispatch_reason`.
    pub fn with_dispatch_reason(self, dispatch_reason: &str) -> (r: Self)
        ensures
            crate::text::opt_view(r.dispatch_reason) == Some(dispatch_reason@),
            r == (ContractEvidence { dispatch_reason: r.dispatch_reason, ..self }),
    {
        ContractEvidence { dispatch_reason: Some(owned(dispatch_reason)), ..self }
    }

    /// Sets `tie_break_reason`.
    pub fn with_tie_break_reason(self, tie_break_reason: &str) -> (r: Self)
        ensures
            crate::text::opt_view(r.tie_break_reason) == Some(tie_break_reason@),
            r == (ContractEvidence { tie_break_reason: r.tie_break_reason, ..self }),
    {
        ContractEvidence { tie_break_reason: Some(owned(tie_break_reason)), ..self }
    }

    /// Sets `explicit_stop_reason`.
    pub fn with_explicit_stop_reason(self, explicit_stop_reason: &str) -> (r: Self)
        ensures
            crate::text::opt_view(r.explicit_stop_reason) == Some(explicit_stop_reason@),
            r == (ContractEvidence { explicit_stop_reason: r.explicit_stop_reason, ..self }),
    {
        ContractEvidence { explicit_stop_reason: Some(owned(explicit_stop_reason)), ..self }
    }

    /// Sets `recovery_owner`.
    pub fn with_recovery_owner(self, recovery_owner: &str) -> (r: Self)
        ensures
            crate::text::opt_view(r.recovery_owner) == Some(recovery_owner@),
            r == (ContractEvidence { recovery_owner: r.recovery_owner, ..self }),
    {
        ContractEvidence { recovery_owner: Some(owned(recovery_owner)), ..self }
    }

    /// Sets `selected_failure_cluster`.
    pub fn with_selected_failure_cluster(self, selected_failure_cluster: &str) -> (r: Self)
        ensures
            crate::text::opt_view(r.selected_failure_cluster) == Some(selected_failure_cluster@),
            r == (ContractEvidence { selected_failure_cluster: r.selected_failure_cluster, ..self }),
    {
        ContractEvidence { selected_failure_cluster: Some(owned(selected_failure_cluster)), ..self }
    }

    /// Sets `repair_brief_status`.
    pub fn with_repair_brief_status(self, repair_brief_status: &str) -> (r: Self)
        ensures
            crate::text::opt_view(r.repair_brief_status) == Some(repair_brief_status@),
            r == (ContractEvidence { repair_brief_status: r.repair_brief_status, ..self }),
    {
        ContractEvidence { repair_brief_status: Some(owned(repair_brief_status)), ..self }
    }

    /// Sets `action_envelope_status`.
    pub fn with_action_envelope_status(self, action_envelope_status: &str) -> (r: Self)
        ensures
            crate::text::opt_view(r.action_envelope_status) == Some(action_envelope_status@),
            r == (ContractEvidence { action_envelope_status: r.action_envelope_status, ..self }),
    {
        ContractEvidence { action_envelope_status: Some(owned(action_envelope_status)), ..self }
    }

    /// Sets `diagnostic`.
    pub fn with_diagnostic(self, diagnostic: &str) -> (r: Self)
        ensures
            crate::text::opt_view(r.diagnostic) == Some(diagnostic@),
            r == (ContractEvidence { diagnostic: r.diagnostic, ..self }),
    {
        ContractEvidence { diagnostic: Some(owned(diagnostic)), ..self }
    }

    /// Sets `weak_verifier_reason`.
    pub fn with_weak_verifier_reason(self, weak_verifier_reason: &str) -> (r: Self)
        ensures
            crate::text::opt_view(r.weak_verifier_reason) == Some(weak_verifier_reason@),
            r == (ContractEvidence { weak_verifier_reason: r.weak_verifier_reason, ..self }),
    {
        ContractEvidence { weak_verifier_reason: Some(owned(weak_verifier_reason)), ..self }
    }

    /// Sets `no_progress_strategy`.
    pub fn with_no_progress_strategy(self, no_progress_strategy: &str) -> (r: Self)
        ensures
            crate::text::opt_view(r.no_progress_strategy) == Some(no_progress_strategy@),
            r == (ContractEvidence { no_progress_strategy: r.no_progress_strategy, ..self }),
    {
        ContractEvidence { no_progress_strategy: Some(owned(no_progress_strategy)), ..self }
    }

    /// Sets `verifier_diagnostic_payload`.
    pub fn with_verifier_diagnostic_payload(self, verifier_diagnostic_payload: Vec<String>) -> (r: Self)
        ensures
            r == (ContractEvidence { verifier_diagnostic_payload: verifier_diagnostic_payload, ..self }),
    {
        ContractEvidence { verifier_diagnostic_payload: verifier_diagnostic_payload, ..self }
    }

    /// Sets `candidate_artifacts`.
    pub fn with_candidate_artifacts(self, candidate_artifacts: Vec<String>) -> (r: Self)
        ensures
            r == (ContractEvidence { candidate_artifacts: candidate_artifacts, ..self }),
    {
        ContractEvidence { candidate_artifacts: candidate_artifacts, ..self }
    }

    /// Sets `required_fields`.
    pub fn with_required_fields(self, required_fields: Vec<String>) -> (r: Self)
        ensures
            r == (ContractEvidence { required_fields: required_fields, ..self }),
    {
        ContractEvidence { required_fields: required_fields, ..self }
    }

    /// Sets `required_literals`.
    pub fn with_required_literals(self, required_literals: Vec<String>) -> (r: Self)
        ensures
            r == (ContractEvidence { required_literals: required_literals, ..self }),
    {
        ContractEvidence { required_literals: required_literals, ..self }
    }

    /// Sets `missing_literals`.
    pub fn with_missing_literals(self, missing_literals: Vec<String>) -> (r: Self)
        ensures
            r == (ContractEvidence { missing_literals: missing_literals, ..self }),
    {
        ContractEvidence { missing_literals: missing_literals, ..self }
    }

    /// Sets `required_paths`.
    pub fn with_required_paths(self, required_paths: Vec<String>) -> (r: Self)
        ensures
            r == (ContractEvidence { required_paths: required_paths, ..self }),
    {
        ContractEvidence { required_paths: required_paths, ..self }
    }

    /// Sets `missing_paths`.
    pub fn with_missing_paths(self, missing_paths: Vec<String>) -> (r: Self)
        ensures
            r == (ContractEvidence { missing_paths: missing_paths, ..self }),
    {
        ContractEvidence { missing_paths: missing_paths, ..self }
    }

    /// Sets `affected_cases`.
    pub fn with_affected_cases(self, affected_cases: Vec<String>) -> (r: Self)
        ensures
            r == (ContractEvidence { affected_cases: affected_cases, ..self }),
    {
        ContractEvidence { affected_cases: affected_cases, ..self }
    }

    /// Sets `observed_expected_pairs`.
    pub fn with_observed_expected_pairs(self, observed_expected_pairs: Vec<String>) -> (r: Self)
        ensures
            r == (ContractEvidence { observed_expected_pairs: observed_expected_pairs, ..self }),
    {
        ContractEvidence { observed_expected_pairs: observed_expected_pairs, ..self }
    }

    /// Sets `disallowed_actions`.
    pub fn with_disallowed_actions(self, disallowed_actions: Vec<String>) -> (r: Self)
        ensures
            r == (ContractEvidence { disallowed_actions: disallowed_actions, ..self }),
    {
        ContractEvidence { disallowed_actions: disallowed_actions, ..self }
    }

    /// Sets `prior_attempts`.
    pub fn with_prior_attempts(self, prior_attempts: Vec<String>) -> (r: Self)
        ensures
            r == (ContractEvidence { prior_attempts: prior_attempts, ..self }),
    {
        ContractEvidence { prior_attempts: prior_attempts, ..self }
    }

    /// Sets `repair_attempt_ledger`.
    pub fn with_repair_attempt_ledger(self, repair_attempt_ledger: Vec<String>) -> (r: Self)
        ensures
            r == (ContractEvidence { repair_attempt_ledger: repair_attempt_ledger, ..self }),
    {
        ContractEvidence { repair_attempt_ledger: repair_attempt_ledger, ..self }
    }

    /// Sets `candidate_jobs`.
    pub fn with_candidate_jobs(self, candidate_jobs: Vec<String>) -> (r: Self)
        ensures
            r == (ContractEvidence { candidate_jobs: candidate_jobs, ..self }),
    {
        ContractEvidence { candidate_jobs: candidate_jobs, ..self }
    }

    /// Sets `completion_evidence`.
    pub fn with_completion_evidence(self, completion_evidence: Vec<String>) -> (r: Self)
        ensures
            r == (ContractEvidence { completion_evidence: completion_evidence, ..self }),
    {
        ContractEvidence { completion_evidence: completion_evidence, ..self }
    }

    /// Sets `evidence_binding`.
    pub fn with_evidence_binding(self, evidence_binding: Vec<String>) -> (r: Self)
        ensures
            r == (ContractEvidence { evidence_binding: evidence_binding, ..self }),
    {
        ContractEvidence { evidence_binding: evidence_binding, ..self }
    }

    /// Sets `deliverable_obligations`.
    pub fn with_deliverable_obligations(self, deliverable_obligations: Vec<String>) -> (r: Self)
        ensures
            r == (ContractEvidence { deliverable_obligations: deliverable_obligations, ..self }),
    {
        ContractEvidence { deliverable_obligations: deliverable_obligations, ..self }
    }

    /// Sets `repair_action_plan`.
    pub fn with_repair_action_plan(self, repair_action_plan: Vec<String>) -> (r: Self)
        ensures
            r == (ContractEvidence { repair_action_plan: repair_action_plan, ..self }),
    {
        ContractEvidence { repair_action_plan: repair_action_plan, ..self }
    }

    /// Sets `semantic_failure_report`.
    pub fn with_semantic_failure_report(self, semantic_failure_report: Vec<String>) -> (r: Self)
        ensures
            r == (ContractEvidence { semantic_failure_report: semantic_failure_report, ..self }),
    {
        ContractEvidence { semantic_failure_report: semantic_failure_report, ..self }
    }

    /// Sets `repair_job_state`.
    pub fn with_repair_job_state(self, repair_job_state: Vec<String>) -> (r: Self)
        ensures
            r == (ContractEvidence { repair_job_state: repair_job_state, ..self }),
    {
        ContractEvidence { repair_job_state: repair_job_state, ..self }
    }

    /// Sets `attempt_outcomes`.
    pub fn with_attempt_outcomes(self, attempt_outcomes: Vec<String>) -> (r: Self)
        ensures
            r == (ContractEvidence { attempt_outcomes: attempt_outcomes, ..self }),
    {
        ContractEvidence { attempt_outcomes: attempt_outcomes, ..self }
    }

    /// Sets `patch_validation`.
    pub fn with_patch_validation(self, patch_validation: Vec<String>) -> (r: Self)
        ensures
            r == (ContractEvidence { patch_validation: patch_validation, ..self }),
    {
        ContractEvidence { patch_validation: patch_validation, ..self }
    }

    /// Sets `eval_report_fields`.
    pub fn with_eval_report_fields(self, eval_report_fields: Vec<String>) -> (r: Self)
        ensures
            r == (ContractEvidence { eval_report_fields: eval_report_fields, ..self }),
    {
        ContractEvidence { eval_report_fields: eval_report_fields, ..self }
    }

    /// Sets `artifact_graph_summary`.
    pub fn with_artifact_graph_summary(self, artifact_graph_summary: Vec<String>) -> (r: Self)
        ensures
            r == (ContractEvidence { artifact_graph_summary: artifact_graph_summary, ..self }),
    {
        ContractEvidence { artifact_graph_summary: artifact_graph_summary, ..self }
    }

    /// Sets `rerun_authority`.
    pub fn with_rerun_authority(self, rerun_authority: Vec<String>) -> (r: Self)
        ensures
            r == (ContractEvidence { rerun_authority: rerun_authority, ..self }),
    {
        ContractEvidence { rerun_authority: rerun_authority, ..self }
    }

    /// Sets `proposed_targets`.
    pub fn with_proposed_targets(self, proposed_targets: Vec<String>) -> (r: Self)
        ensures
            r == (ContractEvidence { proposed_targets: proposed_targets, ..self }),
    {
        ContractEvidence { proposed_targets: proposed_targets, ..self }
    }

    /// Sets `admitted_targets`.
    pub fn with_admitted_targets(self, admitted_targets: Vec<String>) -> (r: Self)
        ensures
            r == (ContractEvidence { admitted_targets: admitted_targets, ..self }),
    {
        ContractEvidence { admitted_targets: admitted_targets, ..self }
    }

    /// Sets `rejected_targets`.
    pub fn with_rejected_targets(self, rejected_targets: Vec<String>) -> (r: Self)
        ensures
            r == (ContractEvidence { rejected_targets: rejected_targets, ..self }),
    {
        ContractEvidence { rejected_targets: rejected_targets, ..self }
    }

    /// Sets `repair_brief`.
    pub fn with_repair_brief(self, repair_brief: Vec<String>) -> (r: Self)
        ensures
            r == (ContractEvidence { repair_brief: repair_brief, ..self }),
    {
        ContractEvidence { repair_brief: repair_brief, ..self }
    }

    /// Renders the evidence as a `Contract correction evidence:` block with
    /// one `- key: value` line per present fact, or `None` when the guard is
    /// blank and no counted field carries a value (see
    /// [`empty_without_guard`]).
    #[verifier::rlimit(60)]
    pub fn render(&self) -> (r: Option<String>)
        ensures
            crate::text::opt_view(r) == render_spec(*self),
    {
        if is_blank_str(self.guard.as_str()) && self.is_empty_without_guard() {
            return None;
        }
        let mut lines: Vec<String> = Vec::new();
        lines.push(owned("Contract correction evidence:"));
        assert(views(lines@) == seq!["Contract correction evidence:"@]);
        self.push_chunk_0(&mut lines);
        self.push_chunk_1(&mut lines);
        self.push_chunk_2(&mut lines);
        self.push_chunk_3(&mut lines);
        self.push_chunk_4(&mut lines);
        self.push_chunk_5(&mut lines);
        self.push_chunk_6(&mut lines);
        assert(views(lines@) == render_lines(*self));
        Some(join_strings(&lines, "\n"))
    }

    /// Appends lines 1 to 10 of the rendered facts.
    fn push_chunk_0(&self, lines: &mut Vec<String>)
        ensures
            views(final(lines)@) == render_chunk_0(*self, views(old(lines)@)),
    {
        push_field(lines, "guard", Some(&self.guard));
        push_field(lines, "failed_step", self.failed_step.as_ref());
        push_field(lines, "violated_contract", self.violated_contract.as_ref());
        push_field(lines, "reason_code", self.reason_code.as_ref());
        push_field(lines, "failure_signature", self.failure_signature.as_ref());
        push_field(lines, "failure_kind", self.failure_kind.as_ref());
        push_field(lines, "diagnostic_code", self.diagnostic_code.as_ref());
        push_field(lines, "command", self.command.as_ref());
        push_field(lines, "tool", self.tool.as_ref());
        push_field(lines, "target_field", self.target_field.as_ref());
    }

    /// Appends lines 11 to 20 of the rendered facts.
    fn push_chunk_1(&self, lines: &mut Vec<String>)
        ensures
            views(final(lines)@) == render_chunk_1(*self, views(old(lines)@)),
    {
        push_field(lines, "target_path", self.target_path.as_ref());
        push_list(lines, "candidate_artifacts", &self.candidate_artifacts);
        push_field(lines, "repair_target", self.repair_target.as_ref());
        push_list(lines, "required_fields", &self.required_fields);
        push_list(lines, "required_literals", &self.required_literals);
        push_list(lines, "missing_literals", &self.missing_literals);
        push_list(lines, "required_paths", &self.required_paths);
        push_list(lines, "missing_paths", &self.missing_paths);
        push_list(lines, "affected_cases", &self.affected_cases);
        push_list(lines, "observed_expected_pairs", &self.observed_expected_pairs);
    }

    /// Appends lines 21 to 30 of the rendered facts.
    fn push_chunk_2(&self, lines: &mut Vec<String>)
        ensures
            views(final(lines)@) == render_chunk_2(*self, views(old(lines)@)),
    {
        push_field(lines, "rejected_value", self.rejected_value.as_ref());
        push_field(lines, "active_job", self.active_job.as_ref());
        push_field(lines, "artifact_role", self.artifact_role.as_ref());
        push_field(lines, "required_action", self.required_action.as_ref());
        push_list(lines, "disallowed_actions", &self.disallowed_actions);
        push_field(lines, "related_source_excerpt", self.related_source_excerpt.as_ref());
        push_list(lines, "prior_attempts", &self.prior_attempts);
        push_list(lines, "repair_attempt_ledger", &self.repair_attempt_ledger);
        push_field(lines, "repair_focus", self.repair_focus.as_ref());
        push_field(lines, "repair_kind", self.repair_kind.as_ref());
    }

    /// Appends lines 31 to 40 of the rendered facts.
    fn push_chunk_3(&self, lines: &mut Vec<String>)
        ensures
            views(final(lines)@) == render_chunk_3(*self, views(old(lines)@)),
    {
        push_field(lines, "repair_action", self.repair_action.as_ref());
        push_field(lines, "semantic_failure_kind", self.semantic_failure_kind.as_ref());
        push_field(lines, "source_of_truth", self.source_of_truth.as_ref());
        push_field(lines, "allowed_change_kind", self.allowed_change_kind.as_ref());
        push_field(lines, "expected_evidence_delta", self.expected_evidence_delta.as_ref());
        push_field(lines, "setup_implication", self.setup_implication.as_ref());
        push_list(lines, "rerun_authority", &self.rerun_authority);
        push_field(lines, "tool_policy_projection", self.tool_policy_projection.as_ref());
        push_field(lines, "target_admission", self.target_admission.as_ref());
        push_field(lines, "target_priority", self.target_priority.as_ref());
    }

    /// Appends lines 41 to 50 of the rendered facts.
    fn push_chunk_4(&self, lines: &mut Vec<String>)
        ensures
            views(final(lines)@) == render_chunk_4(*self, views(old(lines)@)),
    {
        push_field(lines, "workspace_scope", self.workspace_scope.as_ref());
        push_field(lines, "artifact_ownership", self.artifact_ownership.as_ref());
        push_field(lines, "active_job_priority", self.active_job_priority.as_ref());
        push_field(lines, "loop_control_action", self.loop_control_action.as_ref());
        push_field(lines, "dispatch_status", self.dispatch_status.as_ref());
        push_field(lines, "dispatch_reason", self.dispatch_reason.as_ref());
        push_list(lines, "candidate_jobs", &self.candidate_jobs);
        push_field(lines, "tie_break_reason", self.tie_break_reason.as_ref());
        push_field(lines, "explicit_stop_reason", self.explicit_stop_reason.as_ref());
        push_field(lines, "recovery_owner", self.recovery_owner.as_ref());
    }

    /// Appends lines 51 to 60 of the rendered facts.
    fn push_chunk_5(&self, lines: &mut Vec<String>)
        ensures
            views(final(lines)@) == render_chunk_5(*self, views(old(lines)@)),
    {
        push_list(lines, "completion_evidence", &self.completion_evidence);
        push_list(lines, "evidence_binding", &self.evidence_binding);
        push_list(lines, "deliverable_obligations", &self.deliverable_obligations);
        push_list(lines, "repair_action_plan", &self.repair_action_plan);
        push_list(lines, "semantic_failure_report", &self.semantic_failure_report);
        push_list(lines, "repair_job_state", &self.repair_job_state);
        push_list(lines, "attempt_outcomes", &self.attempt_outcomes);
        push_list(lines, "patch_validation", &self.patch_validation);
        push_list(lines, "eval_report_fields", &self.eval_report_fields);
        push_list(lines, "artifact_graph_summary", &self.artifact_graph_summary);
    }

    /// Appends lines 61 to 67 of the rendered facts.
    fn push_chunk_6(&self, lines: &mut Vec<String>)
        ensures
            views(final(lines)@) == render_chunk_6(*self, views(old(lines)@)),
    {
        push_list(lines, "proposed_targets", &self.proposed_targets);
        push_list(lines, "admitted_targets", &self.admitted_targets);
        push_list(lines, "rejected_targets", &self.rejected_targets);
        push_field(lines, "selected_failure_cluster", self.selected_failure_cluster.as_ref());
        push_field(lines, "repair_brief_status", self.repair_brief_status.as_ref());
        push_field(lines, "action_envelope_status", self.action_envelope_status.as_ref());
        push_field(lines, "diagnostic", self.diagnostic.as_ref());
    }

    /// No counted field carries a value (see [`empty_without_guard`]).
    fn is_empty_without_guard(&self) -> (r: bool)
        ensures
            r == empty_without_guard(*self),
    {
        self.failed_step.is_none()
        && self.violated_contract.is_none()
        && self.reason_code.is_none()
        && self.failure_signature.is_none()
        && self.failure_kind.is_none()
        && self.diagnostic_code.is_none()
        && self.command.is_none()
        && self.tool.is_none()
        && self.target_field.is_none()
        && self.target_path.is_none()
        && self.candidate_artifacts.len() == 0
        && self.repair_target.is_none()
        && self.required_fields.len() == 0
        && self.required_literals.len() == 0
        && self.missing_literals.len() == 0
        && self.required_paths.len() == 0
        && self.missing_paths.len() == 0
        && self.affected_cases.len() == 0
        && self.observed_expected_pairs.len() == 0
        && self.rejected_value.is_none()
        && self.active_job.is_none()
        && self.artifact_role.is_none()
        && self.required_action.is_none()
        && self.disallowed_actions.len() == 0
        && self.related_source_excerpt.is_none()
        && self.prior_attempts.len() == 0
        && self.repair_attempt_ledger.len() == 0
        && self.repair_focus.is_none()
        && self.repair_kind.is_none()
        && self.repair_action.is_none()
        && self.semantic_failure_kind.is_none()
        && self.source_of_truth.is_none()
        && self.allowed_change_kind.is_none()
        && self.expected_evidence_delta.is_none()
        && self.setup_implication.is_none()
        && self.tool_policy_projection.is_none()
        && self.target_admission.is_none()
        && self.target_priority.is_none()
        && self.workspace_scope.is_none()
        && self.artifact_ownership.is_none()
        && self.active_job_priority.is_none()
        && self.loop_control_action.is_none()
        && self.dispatch_status.is_none()
        && self.dispatch_reason.is_none()
        && self.candidate_jobs.len() == 0
        && self.tie_break_reason.is_none()
        && self.explicit_stop_reason.is_none()
        && self.recovery_owner.is_none()
        && self.completion_evidence.len() == 0
        && self.evidence_binding.len() == 0
        && self.deliverable_obligations.len() == 0
        && self.repair_action_plan.len() == 0
        && self.semantic_failure_report.len() == 0
        && self.repair_job_state.len() == 0
        && self.attempt_outcomes.len() == 0
        && self.patch_validation.len() == 0
        && self.eval_report_fields.len() == 0
        && self.artifact_graph_summary.len() == 0
        && self.rerun_authority.len() == 0
        && self.proposed_targets.len() == 0
        && self.admitted_targets.len() == 0
        && self.rejected_targets.len() == 0
        && self.repair_brief.len() == 0
        && self.selected_failure_cluster.is_none()
        && self.repair_brief_status.is_none()
        && self.action_envelope_status.is_none()
        && self.diagnostic.is_none()
    }
}
/// The view of an optional string reference.
pub open spec fn opt_ref_view(o: Option<&String>) -> Option<Seq<char>> {
    match o {
        Some(s) => Some(s@),
        None => None,
    }
}

/// The non-blank bounded parts of a failure signature, in order.
pub open spec fn signature_parts(parts: Seq<Seq<char>>) -> Seq<Seq<char>>
    decreases parts.len(),
{
    if parts.len() == 0 {
        Seq::empty()
    } else if is_blank(bounded(parts.last())) {
        signature_parts(parts.drop_last())
    } else {
        signature_parts(parts.drop_last()).push(bounded(parts.last()))
    }
}

/// A stable, bounded failure signature: the non-blank parts, each bounded,
/// joined by `|`, and the whole bounded again.
pub fn failure_signature(parts: &[&str]) -> (r: String)
    ensures
        r@ == bounded(join(signature_parts(crate::text::str_views(parts@)), "|"@)),
{
    let ghost ps = crate::text::str_views(parts@);
    let mut kept: Vec<String> = Vec::new();
    let mut i: usize = 0;
    while i < parts.len()
        invariant
            i <= parts@.len(),
            ps == crate::text::str_views(parts@),
            views(kept@) == signature_parts(ps.take(i as int)),
        decreases parts.len() - i,
    {
        let value = bounded_value(parts[i]);
        proof {
            assert(ps.take(i + 1).drop_last() == ps.take(i as int));
            assert(ps.take(i + 1).last() == parts@[i as int]@);
        }
        if !is_blank_str(value.as_str()) {
            kept.push(value);
        }
        i = i + 1;
    }
    assert(ps.take(parts@.len() as int) == ps);
    let normalized = join_strings(&kept, "|");
    bounded_value(normalized.as_str())
}

/// Appends the line of a single-valued key.
fn push_field(lines: &mut Vec<String>, key: &str, value: Option<&String>)
    ensures
        views(final(lines)@) == views(old(lines)@) + field_line(key@, opt_ref_view(value)),
{
    reveal(field_line);
    let ghost before = views(lines@);
    match value {
        None => {
            assert(views(lines@) == before + Seq::<Seq<char>>::empty());
        },
        Some(v) => {
            if is_blank_str(v.as_str()) {
                assert(views(lines@) == before + Seq::<Seq<char>>::empty());
                return;
            }
            let mut line = owned("- ");
            push_str(&mut line, key);
            push_str(&mut line, ": ");
            let b = bounded_value(v.as_str());
            push_str(&mut line, b.as_str());
            lines.push(line);
            assert(views(lines@) == before.push(("- "@ + key@ + ": "@ + bounded(v@))));
        },
    }
}

/// Appends the line of a list-valued key.
fn push_list(lines: &mut Vec<String>, key: &str, values: &Vec<String>)
    ensures
        views(final(lines)@) == views(old(lines)@) + list_line(key@, views(values@)),
{
    reveal(list_line);
    let ghost before = views(lines@);
    let ghost vs = views(values@);
    if values.len() == 0 {
        assert(views(lines@) == before + Seq::<Seq<char>>::empty());
        return;
    }
    let shown: usize = if values.len() > MAX_LIST_ITEMS { MAX_LIST_ITEMS } else { values.len() };
    let mut rendered: Vec<String> = Vec::new();
    let mut i: usize = 0;
    while i < shown
        invariant
            i <= shown <= values@.len(),
            vs == views(values@),
            views(rendered@) == vs.take(i as int).map_values(|v: Seq<char>| bounded(v)),
        decreases shown - i,
    {
        rendered.push(bounded_value(values[i].as_str()));
        i = i + 1;
        assert(vs.take(i as int) == vs.take(i - 1).push(vs[i - 1]));
        assert(vs.take(i as int).map_values(|v: Seq<char>| bounded(v)) == vs.take(i - 1).map_values(
            |v: Seq<char>| bounded(v),
        ).push(bounded(vs[i - 1])));
    }
    if values.len() > MAX_LIST_ITEMS {
        let mut more = owned("... (");
        let extra = usize_to_string(values.len() - MAX_LIST_ITEMS);
        push_str(&mut more, extra.as_str());
        push_str(&mut more, " more)");
        rendered.push(more);
    }
    assert(views(rendered@) == list_items(vs));
    let mut line = owned("- ");
    push_str(&mut line, key);
    push_str(&mut line, ": ");
    let joined = join_strings(&rendered, ", ");
    push_str(&mut line, joined.as_str());
    lines.push(line);
    assert(views(lines@) == before.push("- "@ + key@ + ": "@ + join(list_items(vs), ", "@)));
}

/// Collapses whitespace and bounds the length of a rendered value.
pub fn bounded_value(value: &str) -> (r: String)
    ensures
        r@ == bounded(value@),
{
    let normalized = collapse_ws_str(value);
    let mut out = take_chars(normalized.as_str(), MAX_FIELD_CHARS);
    if char_count(normalized.as_str()) > MAX_FIELD_CHARS {
        push_str(&mut out, "...");
    }
    out
}

} // verus!
