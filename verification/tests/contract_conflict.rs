use commandagent::contract_conflict::{
    classify_authority, conflict_sides, conflict_text, eval_field, is_contract_conflict,
    source_of_truth_hint, ConflictSideKind, ContractConflictAction, ContractConflictAuthority,
    ContractConflictResolution,
};
use commandagent::correction_evidence::ContractEvidence;

fn conflict_evidence(source: &str) -> ContractEvidence {
    ContractEvidence::new("verifier")
        .with_diagnostic_code("contract_conflict")
        .with_source_of_truth(source)
}

#[test]
fn generated_test_conflict_repairs_test_side() {
    let evidence = conflict_evidence("generated_test_not_authoritative")
        .with_candidate_artifacts(vec!["src/app/page.tsx".to_string(), "tests/generated.test.ts".to_string()]);

    let resolution = ContractConflictResolution::from_evidence(&evidence).unwrap();

    assert_eq!(
        resolution.authority,
        ContractConflictAuthority::ImplementationAuthoritative
    );
    assert_eq!(resolution.repair_target_side, Some(ConflictSideKind::Test));
    assert_eq!(
        resolution.selected_action,
        ContractConflictAction::AlignTestAndVerifier
    );
    assert_eq!(resolution.status, "resolved");
}

#[test]
fn preexisting_test_conflict_repairs_source_side() {
    let evidence = conflict_evidence("test_contract_and_original_verifier")
        .with_candidate_artifacts(vec!["src/lib.rs".to_string(), "tests/regression_test.rs".to_string()]);

    let resolution = ContractConflictResolution::from_evidence(&evidence).unwrap();

    assert_eq!(
        resolution.authority,
        ContractConflictAuthority::TestAuthoritative
    );
    assert_eq!(
        resolution.repair_target_side,
        Some(ConflictSideKind::Implementation)
    );
    assert_eq!(
        resolution.selected_action,
        ContractConflictAction::EditSourceForDiagnostic
    );
}

#[test]
fn docs_api_conflict_repairs_source_side() {
    let evidence = conflict_evidence("docs_api_contract")
        .with_candidate_artifacts(vec!["src/client.ts".to_string(), "docs/api.md".to_string()]);

    let resolution = ContractConflictResolution::from_evidence(&evidence).unwrap();

    assert_eq!(
        resolution.authority,
        ContractConflictAuthority::DocsOrApiAuthoritative
    );
    assert_eq!(
        resolution.repair_target_side,
        Some(ConflictSideKind::Implementation)
    );
}

#[test]
fn weak_verifier_conflict_repairs_verifier_contract() {
    let evidence = ContractEvidence::new("verifier")
        .with_diagnostic_code("contract_conflict")
        .with_weak_verifier_reason("self_referential_verifier");

    let resolution = ContractConflictResolution::from_evidence(&evidence).unwrap();

    assert_eq!(
        resolution.authority,
        ContractConflictAuthority::VerifierContractLimited
    );
    assert_eq!(
        resolution.repair_target_side,
        Some(ConflictSideKind::VerifierContract)
    );
    assert_eq!(
        resolution.selected_action,
        ContractConflictAction::ReplaceInvalidVerifierCommand
    );
}

#[test]
fn ambiguous_conflict_safe_stops() {
    let evidence = ContractEvidence::new("verifier")
        .with_diagnostic_code("contract_conflict")
        .with_eval_report_fields(vec!["contract_conflict_authority=ambiguous_authority".to_string()]);

    let resolution = ContractConflictResolution::from_evidence(&evidence).unwrap();

    assert_eq!(
        resolution.authority,
        ContractConflictAuthority::AmbiguousAuthority
    );
    assert!(resolution.is_safe_stop());
    assert_eq!(
        resolution.selected_action,
        ContractConflictAction::StopWithStructuredEvidence
    );
}

#[test]
fn evidence_without_conflict_marker_is_not_resolved() {
    let evidence = ContractEvidence::new("verifier").with_diagnostic_code("rust_compile_error");
    assert!(!is_contract_conflict(&evidence));
    assert!(ContractConflictResolution::from_evidence(&evidence).is_none());
    let in_report = ContractEvidence::new("verifier")
        .with_eval_report_fields(vec!["x=1 contract_conflict_status=open".to_string()]);
    assert!(is_contract_conflict(&in_report));
}

#[test]
fn insufficient_evidence_names_missing_facts() {
    let evidence = ContractEvidence::new("checker").with_diagnostic_code("contract_conflict");
    let resolution = ContractConflictResolution::from_evidence(&evidence).unwrap();
    assert_eq!(resolution.authority, ContractConflictAuthority::InsufficientEvidence);
    assert_eq!(resolution.status, "safe_stop");
    assert_eq!(resolution.missing_evidence, vec!["source_of_truth", "conflict_sides"]);
    assert_eq!(
        resolution.eval_report_fields(),
        vec![
            "contract_conflict_status=safe_stop".to_string(),
            "contract_conflict_sides=unknown".to_string(),
            "contract_conflict_authority=insufficient_evidence".to_string(),
            "contract_conflict_repair_target_side=none".to_string(),
            "contract_conflict_selected_action=stop_with_structured_evidence".to_string(),
            "contract_conflict_safe_stop_reason=contract_conflict_missing_authority_evidence".to_string(),
            "contract_conflict_missing_evidence=source_of_truth|conflict_sides".to_string(),
            "contract_conflict_source_of_truth=unknown".to_string(),
        ]
    );
}

#[test]
fn eval_fields_name_sides_and_latest_value_wins() {
    let evidence = ContractEvidence::new("checker")
        .with_diagnostic_code("contract_conflict")
        .with_eval_report_fields(vec![
            "contract_conflict_sides=docs".to_string(),
            "contract_conflict_sides=Test|Source Impl|bogus, next".to_string(),
        ]);
    assert_eq!(
        eval_field(&evidence, "contract_conflict_sides").as_deref(),
        Some("Test|Source")
    );
    let text = conflict_text(&evidence);
    assert_eq!(
        conflict_sides(&evidence, &text),
        vec![ConflictSideKind::Test, ConflictSideKind::Implementation]
    );
    assert_eq!(eval_field(&evidence, "missing_key"), None);
}

#[test]
fn eval_field_trims_punctuation_and_skips_blank_values() {
    let evidence = ContractEvidence::new("g").with_eval_report_fields(vec![
        "key=;ok,".to_string(),
        "key=,;".to_string(),
    ]);
    assert_eq!(eval_field(&evidence, "key").as_deref(), Some("ok"));
}

#[test]
fn evidence_text_is_lowercase_with_underscores() {
    let evidence = ContractEvidence::new("Plan Lint").with_diagnostic("Weak-Verifier found");
    assert_eq!(conflict_text(&evidence), "plan_lint_weak_verifier_found");
}

#[test]
fn source_of_truth_falls_back_to_text_then_unknown() {
    let evidence = ContractEvidence::new("verifier").with_diagnostic("schema_contract broke");
    let text = conflict_text(&evidence);
    assert_eq!(source_of_truth_hint(&evidence, &text), "docs_api_contract");
    assert_eq!(
        classify_authority(&evidence, &text, "docs_api_contract"),
        ContractConflictAuthority::DocsOrApiAuthoritative
    );
    let plain = ContractEvidence::new("verifier");
    let text = conflict_text(&plain);
    assert_eq!(source_of_truth_hint(&plain, &text), "unknown");
    assert_eq!(
        classify_authority(&plain, &text, "something_else"),
        ContractConflictAuthority::AmbiguousAuthority
    );
}

#[test]
fn render_lines_show_the_whole_decision() {
    let evidence = ContractEvidence::new("checker")
        .with_diagnostic_code("contract_conflict")
        .with_source_of_truth("generated_test_not_authoritative")
        .with_candidate_artifacts(vec!["tests/generated_test.py".to_string()]);
    let resolution = ContractConflictResolution::from_evidence(&evidence).unwrap();
    assert_eq!(resolution.selected_action, ContractConflictAction::AlignTestAndVerifier);
    assert!(!resolution.is_safe_stop());
    assert_eq!(
        resolution.render_lines(),
        vec!["contract_conflict status=resolved sides=test authority=implementation_authoritative repair_target_side=test selected_action=align_test_and_verifier safe_stop_reason=none missing_evidence=none source_of_truth=generated_test_not_authoritative".to_string()]
    );
}
