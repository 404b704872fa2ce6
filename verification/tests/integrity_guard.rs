use commandagent::integrity_guard::{
    detect_generated_test_assertion_outside_contract, detect_self_referential_verifier,
    detect_test_weakening, detect_unsupported_contract_assertion, invalid_workspace_path,
    is_test_like, render_list, validate_patch_path, validate_patch_proposal, PatchProposal,
    PatchProposalSource, PatchValidation, PatchValidationOutcome, PatchValidationReport,
    PatchValidationStatus, RollbackAdmission, RollbackAdmissionStatus,
};
use commandagent::profiles::ProfileId;

#[test]
fn detects_test_weakening_markers() {
    let validation = detect_test_weakening("tests/app_test.rs", "#[ignore]\nfn test() {}")
        .expect("test weakening should be detected");

    assert_eq!(validation.outcome, PatchValidationOutcome::TestWeakening);
    assert!(validation.render_line().contains("test_weakening"));
}

#[test]
fn generated_test_cannot_assert_behavior_outside_task_contract() {
    let validation = detect_generated_test_assertion_outside_contract(
        "tests/test_app.py",
        "# generated by CommandAgent\nassert dashboard.total == 10",
        &["login"],
    )
    .expect("generated assertion outside task contract should be detected");

    assert_eq!(
        validation.outcome,
        PatchValidationOutcome::GeneratedTestUnsupportedAssertion
    );
}

#[test]
fn unsupported_contract_assertion_is_filtered() {
    let validation = detect_unsupported_contract_assertion(
        "tests/test_app.py",
        "def test_dashboard():\n    assert dashboard.total == 10",
        &["login"],
    )
    .expect("unsupported assertion should be detected");

    assert_eq!(
        validation.outcome,
        PatchValidationOutcome::UnsupportedContractAssertion
    );
}

#[test]
fn detects_self_referential_verifier_commands() {
    let validation = detect_self_referential_verifier(
        "python scripts/verify.py scripts/verify.py",
        "scripts/verify.py",
    )
    .expect("self-referential verifier should be detected");

    assert_eq!(
        validation.outcome,
        PatchValidationOutcome::SelfReferentialVerifier
    );
}

#[test]
fn validates_generated_and_cache_paths() {
    let proposal = PatchProposal::new(
        PatchProposalSource::ModelToolEdit,
        vec![
            ".next/server/app/page.js".to_string(),
            "node_modules/react/index.js".to_string(),
        ],
    );

    let report = validate_patch_proposal(ProfileId::NextJs, &proposal);

    assert!(report.is_rejected());
    assert_eq!(report.status, PatchValidationStatus::Rejected);
    assert!(
        report
            .outcomes()
            .contains(&"generated_or_cache_output".to_string())
    );
    assert!(
        report
            .outcomes()
            .contains(&"dependency_artifact_mutation".to_string())
    );
    assert!(
        report
            .eval_report_fields()
            .iter()
            .any(|line| line == "patch_validation_status=rejected")
    );
}

#[test]
fn validates_raw_inputs_as_protected_for_data_profiles() {
    let validation = validate_patch_path(ProfileId::DataAnalysis, "data/raw/source.csv")
        .expect("raw input should be protected");

    assert_eq!(validation.outcome, PatchValidationOutcome::ProtectedPath);
}

#[test]
fn accepts_in_scope_source_patch() {
    let proposal = PatchProposal::new(
        PatchProposalSource::ModelToolEdit,
        vec!["src/main.rs".to_string()],
    );

    let report = validate_patch_proposal(ProfileId::Rust, &proposal);

    assert!(!report.is_rejected());
    assert_eq!(report.outcomes(), vec!["accepted".to_string()]);
}

#[test]
fn renders_rollback_admission_fields() {
    let admission = RollbackAdmission::new(
        RollbackAdmissionStatus::Rejected,
        "safe rollback data missing",
        vec!["src/main.rs".to_string()],
        false,
        true,
    );

    assert!(
        admission
            .render_lines()
            .iter()
            .any(|line| line.contains("rollback_admission_status=rejected"))
    );
    assert!(
        admission
            .eval_report_fields()
            .contains(&"rollback_reason=safe_rollback_data_missing".to_string())
    );
}

#[test]
fn patch_report_can_reject_noop_duplicate_and_unsafe_outcomes_with_rollback() {
    let mut proposal = PatchProposal::new(
        PatchProposalSource::MechanicalAdapter,
        vec!["src/lib.rs".to_string()],
    );
    proposal.active_job = "source_implementation_repair".to_string();
    proposal.target_path = Some("src/lib.rs".to_string());
    proposal.target_role = Some("implementation".to_string());
    proposal.source_of_truth = Some("original_verifier_diagnostic".to_string());

    let mut report = PatchValidationReport::from_proposal(
        &proposal,
        vec![
            PatchValidation::new(
                PatchValidationOutcome::Noop,
                Some("src/lib.rs".to_string()),
                "patch did not change the target",
            ),
            PatchValidation::new(
                PatchValidationOutcome::Duplicate,
                Some("src/lib.rs".to_string()),
                "patch repeats a prior failed attempt",
            ),
            PatchValidation::new(
                PatchValidationOutcome::Unsafe,
                Some("src/lib.rs".to_string()),
                "patch violates the action envelope",
            ),
        ],
    );
    report.rollback_admission = Some(RollbackAdmission::new(
        RollbackAdmissionStatus::Admitted,
        "verifier proved worsening and safe rollback data is available",
        vec!["src/lib.rs".to_string()],
        true,
        true,
    ));

    assert!(report.is_rejected());
    assert_eq!(report.status, PatchValidationStatus::Rejected);
    assert_eq!(
        report.outcomes(),
        vec![
            "noop".to_string(),
            "duplicate".to_string(),
            "unsafe".to_string()
        ]
    );
    let fields = report.eval_report_fields().join("\n");
    assert!(fields.contains("patch_validation_source=mechanical_adapter"));
    assert!(fields.contains("patch_validation_outcomes=noop|duplicate|unsafe"));
    assert!(fields.contains("rollback_admission_status=admitted"));
}

#[test]
fn out_of_scope_paths_are_rejected_before_classification() {
    for path in ["/etc/passwd", "../outside.rs", "src/../../x", "a/..", "", "  "] {
        let validation = validate_patch_path(ProfileId::Rust, path).expect("out of scope");
        assert_eq!(validation.outcome, PatchValidationOutcome::OutOfScope);
        assert_eq!(validation.path.as_deref(), Some(path));
    }
    assert!(invalid_workspace_path(".."));
    assert!(!invalid_workspace_path("src/..x/lib.rs"));
}

#[test]
fn generated_output_reason_names_the_artifact_kind() {
    let validation = validate_patch_path(ProfileId::NextJs, "./.next/server/app/page.js")
        .expect("generated output");
    assert_eq!(validation.outcome, PatchValidationOutcome::GeneratedOrCacheOutput);
    assert_eq!(validation.path.as_deref(), Some(".next/server/app/page.js"));
    assert_eq!(
        validation.reason,
        "repair attempted to modify generated artifact kind build_output"
    );
}

#[test]
fn test_weakening_ignores_non_test_paths_and_honest_edits() {
    assert!(detect_test_weakening("src/main.rs", "assert!(true)").is_none());
    assert!(detect_test_weakening("tests/app_test.rs", "assert_eq!(1, 1)").is_none());
    let skipped = detect_test_weakening("web/app.spec.ts", "IT.SKIP('x')").expect("skip");
    assert_eq!(skipped.path.as_deref(), Some("web/app.spec.ts"));
}

#[test]
fn contract_terms_anchor_generated_and_unsupported_assertions() {
    assert!(detect_generated_test_assertion_outside_contract(
        "tests/test_app.py",
        "# generated by CommandAgent\nassert LOGIN.ok",
        &["login"],
    )
    .is_none());
    assert!(detect_generated_test_assertion_outside_contract(
        "tests/test_app.py",
        "# generated\nassert x",
        &[],
    )
    .is_none());
    assert!(detect_unsupported_contract_assertion("tests/test_app.py", "print(1)", &["login"]).is_none());
    assert!(detect_unsupported_contract_assertion("src/app.py", "assert x", &["login"]).is_none());
    assert!(is_test_like("web/page.test.tsx"));
    assert!(!is_test_like("src/lib.rs"));
}

#[test]
fn self_referential_verifier_requires_a_non_blank_artifact() {
    assert!(detect_self_referential_verifier("python verify.py", "   ").is_none());
    assert!(detect_self_referential_verifier("cargo test", "scripts/verify.py").is_none());
    let found = detect_self_referential_verifier("  bash lint_all.sh ", " lint_all.sh ").expect("found");
    assert_eq!(found.path.as_deref(), Some("lint_all.sh"));
}

#[test]
fn report_lines_render_header_findings_and_lists() {
    let mut proposal = PatchProposal::new(
        PatchProposalSource::RollbackCandidate,
        vec!["src/a b.rs".to_string(), "node_modules/x.js".to_string()],
    );
    proposal.active_job = "  source   repair ".to_string();
    let report = validate_patch_proposal(ProfileId::NextJs, &proposal);
    let lines = report.render_lines();
    assert_eq!(lines.len(), 2);
    assert_eq!(
        lines[0],
        "status=rejected source=rollback_candidate active_job=source repair target=none role=unknown source_of_truth=unknown touched_paths=src/a_b.rs|node_modules/x.js outcomes=dependency_artifact_mutation"
    );
    assert_eq!(
        lines[1],
        "outcome=dependency_artifact_mutation path=node_modules/x.js reason=repair attempted to modify dependency cache output"
    );
    assert_eq!(report.rejected_paths(), vec!["node_modules/x.js".to_string()]);
    assert_eq!(render_list(&Vec::new()), "none");
}

#[test]
fn accepted_report_has_no_rejected_paths_field_values() {
    let proposal = PatchProposal::new(PatchProposalSource::ModelToolEdit, vec![]);
    let report = PatchValidationReport::from_proposal(&proposal, vec![]);
    assert_eq!(report.status, PatchValidationStatus::Accepted);
    assert_eq!(
        report.eval_report_fields(),
        vec![
            "patch_validation_status=accepted".to_string(),
            "patch_validation_source=model_tool_edit".to_string(),
            "patch_validation_outcomes=accepted".to_string(),
            "patch_validation_rejected_paths=none".to_string(),
        ]
    );
    let finding = PatchValidation::new(PatchValidationOutcome::Malformed, None, "bad\n  diff");
    assert_eq!(finding.render_line(), "outcome=malformed path=none reason=bad diff");
}

#[test]
fn rollback_line_renders_flags() {
    let admission = RollbackAdmission::new(
        RollbackAdmissionStatus::NotApplicable,
        "no  rollback",
        vec![],
        true,
        false,
    );
    assert_eq!(
        admission.render_lines(),
        vec!["rollback_admission_status=not_applicable rollback_reason=no rollback snapshot_available=true verifier_proved_worsened=false touched_paths=none".to_string()]
    );
}
