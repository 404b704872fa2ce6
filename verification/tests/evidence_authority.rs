use commandagent::artifact_graph::{ArtifactGraph, ArtifactLifecycle};
use commandagent::artifact_ledger::ArtifactLedgerSummary;
use commandagent::completion_evidence::{
    CompletionEvidence, CompletionEvidenceKind, CompletionEvidenceStatus,
};
use commandagent::evidence_authority::{
    evaluate_completion_authority, file_layout_binding, file_layout_completion_evidence,
    CompletionAuthorityStatus, EvidenceRunnerStatus,
};
use commandagent::evidence_binding::{EvidenceBindingKind, EvidenceBindingPlan, EvidenceBindingStatus};
use commandagent::workspace_scope::WorkspaceScope;

fn ledger_with_required(path: &str, exists: bool) -> ArtifactLedgerSummary {
    let mut graph = ArtifactGraph::new();
    graph.add_path(
        path,
        if exists {
            ArtifactLifecycle::Existing
        } else {
            ArtifactLifecycle::Required
        },
        "test.required",
    );
    let scope = WorkspaceScope::from_graph(&graph);
    ArtifactLedgerSummary::from_tool_records(&[], &graph, &scope)
}

#[test]
fn missing_required_deliverable_is_not_evidence_failure() {
    let required = vec!["app/page.tsx".to_string()];
    let ledger = ledger_with_required("app/page.tsx", false);

    let result = evaluate_completion_authority(&required, &ledger, &[], &[]);

    assert_eq!(result.status, CompletionAuthorityStatus::MissingDeliverable);
    assert_eq!(result.terminal_state(), "missing_deliverable");
    assert_eq!(result.artifact_ledger_status, "missing_required");
}

#[test]
fn existing_path_without_evidence_is_missing_evidence() {
    let required = vec!["README.md".to_string()];
    let ledger = ledger_with_required("README.md", true);

    let result = evaluate_completion_authority(&required, &ledger, &[], &[]);

    assert_eq!(result.status, CompletionAuthorityStatus::MissingEvidence);
    assert_eq!(result.terminal_state(), "missing_evidence");
}

#[test]
fn failed_completion_evidence_is_distinct() {
    let required = vec!["src/lib.rs".to_string()];
    let ledger = ledger_with_required("src/lib.rs", true);
    let completion = vec![CompletionEvidence::new(
        CompletionEvidenceKind::VerifierExitZero,
        "cargo test",
        CompletionEvidenceStatus::Failed,
        "original_verifier",
    )];

    let result = evaluate_completion_authority(&required, &ledger, &completion, &[]);

    assert_eq!(
        result.status,
        CompletionAuthorityStatus::CompletionEvidenceFailed
    );
    assert_eq!(result.terminal_state(), "completion_evidence_failed");
}

#[test]
fn unbound_binding_is_distinct_from_missing_artifact() {
    let required = vec!["app/page.tsx".to_string()];
    let ledger = ledger_with_required("app/page.tsx", true);
    let completion = vec![file_layout_completion_evidence("app/page.tsx", true)];
    let bindings = vec![EvidenceBindingPlan::new(
        EvidenceBindingKind::ImportSymbol,
        "app/page.tsx",
        "components/Game",
        EvidenceBindingStatus::Unbound,
    )];

    let result = evaluate_completion_authority(&required, &ledger, &completion, &bindings);

    assert_eq!(
        result.status,
        CompletionAuthorityStatus::EvidenceBindingFailed
    );
    assert_eq!(result.terminal_state(), "evidence_binding_failed");
}

#[test]
fn bound_passing_evidence_is_eligible() {
    let required = vec!["app/page.tsx".to_string()];
    let ledger = ledger_with_required("app/page.tsx", true);
    let completion = vec![file_layout_completion_evidence("app/page.tsx", true)];
    let bindings = vec![file_layout_binding("app/page.tsx", true)];

    let result = evaluate_completion_authority(&required, &ledger, &completion, &bindings);

    assert!(result.success_eligible());
    assert_eq!(result.terminal_state(), "ok");
}

#[test]
fn nothing_required_is_eligible_without_running_evidence() {
    let ledger = ArtifactLedgerSummary::default();
    let result = evaluate_completion_authority(&[], &ledger, &[], &[]);
    assert!(result.success_eligible());
    assert_eq!(result.evidence_runner_status, EvidenceRunnerStatus::NotRequired);
    assert_eq!(result.artifact_ledger_status, "not_required");
    assert_eq!(result.source_of_truth, "no_required_deliverables");
}

#[test]
fn missing_evidence_lists_required_paths_and_renders_contract_lines() {
    let required = vec!["README.md".to_string()];
    let ledger = ledger_with_required("README.md", true);
    let bindings = vec![file_layout_binding("README.md", false)];
    let result = evaluate_completion_authority(&required, &ledger, &[], &bindings);
    assert_eq!(result.status, CompletionAuthorityStatus::MissingEvidence);
    assert_eq!(result.missing_evidence, vec!["README.md".to_string()]);
    assert_eq!(result.evidence_binding_status, EvidenceBindingStatus::Missing);
    assert_eq!(
        result.render_contract_lines(),
        vec![
            "- terminal_state=missing_evidence".to_string(),
            "- diagnostic_code=missing_evidence".to_string(),
            "- evidence_runner_status=missing".to_string(),
            "- completion_evidence_status=missing".to_string(),
            "- evidence_binding_status=missing".to_string(),
            "- artifact_ledger_status=complete".to_string(),
            "- source_of_truth=completion_evidence".to_string(),
            "- missing_evidence: README.md".to_string(),
        ]
    );
}

#[test]
fn missing_completion_evidence_is_reported_with_its_line() {
    let required = vec!["app/page.tsx".to_string()];
    let ledger = ledger_with_required("app/page.tsx", true);
    let completion = vec![file_layout_completion_evidence("docs/guide.md", false)];
    let result = evaluate_completion_authority(&required, &ledger, &completion, &[]);
    assert_eq!(result.status, CompletionAuthorityStatus::MissingEvidence);
    assert_eq!(result.missing_evidence.len(), 1);
    assert!(result.missing_evidence[0].contains("status=missing"));
    assert!(result.missing_evidence[0].contains("target=docs/guide.md"));
}
