use commandagent::artifact_graph::{ArtifactGraph, ArtifactLifecycle};
use commandagent::artifact_ledger::ArtifactLedgerSummary;
use commandagent::completion_evidence::{CompletionEvidenceKind, CompletionEvidenceStatus};
use commandagent::evidence_binding::{required_section_binding, EvidenceBindingStatus};
use commandagent::evidence_producer::{
    binding_status_for_presence, missing_evidence_for_path, produce_completion_evidence,
    EvidenceProducerInput, ObservedCompletionFact, VerificationFailure,
};
use commandagent::workspace_scope::WorkspaceScope;

fn ledger_with_path(path: &str, exists: bool) -> ArtifactLedgerSummary {
    let mut graph = ArtifactGraph::new();
    graph.add_path(
        path,
        if exists {
            ArtifactLifecycle::Existing
        } else {
            ArtifactLifecycle::Required
        },
        "test",
    );
    let scope = WorkspaceScope::from_graph(&graph);
    ArtifactLedgerSummary::from_tool_records(&[], &graph, &scope)
}

#[test]
fn file_layout_producer_binds_existing_required_path() {
    let required = vec!["README.md".to_string()];
    let ledger = ledger_with_path("README.md", true);

    let output = produce_completion_evidence(&EvidenceProducerInput {
        step_id: "write-readme",
        profile: "docs",
        required_paths: &required,
        verifier_commands: &[],
        verifier_failures: &[],
        ledger: &ledger,
        observed_completion_facts: &[],
        observed_bindings: &[],
    });

    assert_eq!(
        output.completion_evidence[0].status,
        CompletionEvidenceStatus::Passed
    );
    assert_eq!(
        output.evidence_bindings[0].status,
        EvidenceBindingStatus::Bound
    );
    assert!(
        output.producer_lines[0].contains("producer=file_layout"),
        "{:?}",
        output.producer_lines
    );
}

#[test]
fn verifier_producer_records_passed_commands() {
    let ledger = ArtifactLedgerSummary::default();
    let commands = vec!["cargo test".to_string()];

    let output = produce_completion_evidence(&EvidenceProducerInput {
        step_id: "verify",
        profile: "rust",
        required_paths: &[],
        verifier_commands: &commands,
        verifier_failures: &[],
        ledger: &ledger,
        observed_completion_facts: &[],
        observed_bindings: &[],
    });

    assert_eq!(
        output.completion_evidence[0].status,
        CompletionEvidenceStatus::Passed
    );
    assert_eq!(output.completion_evidence[0].target, "cargo test");
}

#[test]
fn verifier_producer_records_failed_commands() {
    let ledger = ArtifactLedgerSummary::default();
    let commands = vec!["npm run build".to_string()];
    let failures = vec![VerificationFailure {
        command: "npm run build".to_string(),
        reason: "command_failed".to_string(),
        stdout_excerpt: String::new(),
        stderr_excerpt: String::new(),
        diagnostic_excerpt: "build failed".to_string(),
        source_excerpt: None,
    }];

    let output = produce_completion_evidence(&EvidenceProducerInput {
        step_id: "verify-build",
        profile: "nextjs",
        required_paths: &[],
        verifier_commands: &commands,
        verifier_failures: &failures,
        ledger: &ledger,
        observed_completion_facts: &[],
        observed_bindings: &[],
    });

    assert_eq!(
        output.completion_evidence[0].status,
        CompletionEvidenceStatus::Failed
    );
    assert!(
        output.completion_evidence[0]
            .render_line()
            .contains("diagnostic=build failed")
    );
}

#[test]
fn observed_completion_and_binding_facts_are_projected() {

    let ledger = ArtifactLedgerSummary::default();
    let observed = vec![
        ObservedCompletionFact::new(
            CompletionEvidenceKind::DocsSectionPass,
            "README.md#Usage",
            true,
            "docs_section_check",
        ),
        ObservedCompletionFact::new(
            CompletionEvidenceKind::ReportCompletenessPass,
            "workspace/mvp/report.md",
            false,
            "report_completeness_check",
        ),
    ];
    let bindings = vec![required_section_binding(
        "README.md",
        "Usage",
        EvidenceBindingStatus::Bound,
    )];

    let output = produce_completion_evidence(&EvidenceProducerInput {
        step_id: "docs-proof",
        profile: "docs",
        required_paths: &[],
        verifier_commands: &[],
        verifier_failures: &[],
        ledger: &ledger,
        observed_completion_facts: &observed,
        observed_bindings: &bindings,
    });

    assert!(
        output
            .completion_evidence
            .iter()
            .any(|evidence| evidence.kind == CompletionEvidenceKind::DocsSectionPass)
    );
    assert!(
        output
            .completion_evidence
            .iter()
            .any(|evidence| evidence.status == CompletionEvidenceStatus::Failed)
    );
    assert_eq!(
        output.evidence_bindings[0].status,
        EvidenceBindingStatus::Bound
    );
    assert!(
        output
            .producer_lines
            .iter()
            .any(|line| line.contains("producer=observed_completion"))
    );
}

#[test]
fn failures_win_over_commands_and_fall_back_to_reason() {
    let ledger = ArtifactLedgerSummary::default();
    let commands = vec!["cargo test".to_string(), "cargo clippy".to_string()];
    let failures = vec![VerificationFailure {
        command: "cargo  test".to_string(),
        reason: "command_failed:101".to_string(),
        stdout_excerpt: String::new(),
        stderr_excerpt: String::new(),
        diagnostic_excerpt: String::new(),
        source_excerpt: None,
    }];
    let output = produce_completion_evidence(&EvidenceProducerInput {
        step_id: "verify  all",
        profile: "rust",
        required_paths: &["src/lib.rs".to_string()],
        verifier_commands: &commands,
        verifier_failures: &failures,
        ledger: &ledger,
        observed_completion_facts: &[],
        observed_bindings: &[],
    });
    assert_eq!(output.completion_evidence.len(), 2);
    assert_eq!(output.completion_evidence[0].status, CompletionEvidenceStatus::Missing);
    assert_eq!(output.completion_evidence[1].diagnostic.as_deref(), Some("command_failed:101"));
    assert_eq!(output.evidence_bindings[0].status, EvidenceBindingStatus::Missing);
    assert_eq!(
        output.producer_lines,
        vec![
            "producer=file_layout step=verify all profile=rust target=src/lib.rs status=missing".to_string(),
            "producer=verifier step=verify all profile=rust target=cargo test status=failed".to_string(),
        ]
    );
}

#[test]
fn presence_helpers_name_missing_and_bound() {
    let evidence = missing_evidence_for_path("a.txt", "probe");
    assert_eq!(evidence.status, CompletionEvidenceStatus::Missing);
    assert_eq!(evidence.kind, CompletionEvidenceKind::RepoEdit);
    assert_eq!(binding_status_for_presence(true), EvidenceBindingStatus::Bound);
    assert_eq!(binding_status_for_presence(false), EvidenceBindingStatus::Missing);
}
