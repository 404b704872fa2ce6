use commandagent::evidence_binding::{
    citation_binding, executable_handle_binding, manifest_identity_binding,
    required_section_binding, schema_column_binding, test_script_binding, EvidenceBindingKind,
    EvidenceBindingPlan, EvidenceBindingStatus,
};


#[test]
fn missing_binding_becomes_contract_evidence() {
    let plan = EvidenceBindingPlan::new(
        EvidenceBindingKind::ImportSymbol,
        "app/page.tsx",
        "components/Game",
        EvidenceBindingStatus::Missing,
    );

    let evidence = plan.to_contract_evidence(Some("verify-route")).unwrap();

    assert_eq!(evidence.guard, "evidence_binding");
    assert_eq!(
        evidence.active_job.as_deref(),
        Some("evidence_binding_repair")
    );
    assert_eq!(
        evidence.repair_action.as_deref(),
        Some("repair_evidence_binding")
    );
    assert_eq!(evidence.failed_step.as_deref(), Some("verify-route"));
}

#[test]
fn missing_package_test_script_is_binding_failure() {
    let evidence = test_script_binding(
        "package.json",
        "scripts.test",
        EvidenceBindingStatus::Missing,
    )
    .to_contract_evidence(Some("verify-tests"))
    .unwrap();

    assert_eq!(evidence.violated_contract.as_deref(), Some("test_script"));
    assert_eq!(evidence.target_path.as_deref(), Some("package.json"));
    assert_eq!(
        evidence.active_job.as_deref(),
        Some("evidence_binding_repair")
    );
}

#[test]
fn docs_section_check_binds_to_target_document() {
    let plan =
        required_section_binding("docs/usage.md", "Usage", EvidenceBindingStatus::Failed);
    let rendered = plan.render_line();

    assert!(rendered.contains("kind=required_section"));
    assert!(rendered.contains("target=docs/usage.md"));
    assert!(rendered.contains("expected=Usage"));
    assert!(rendered.contains("status=failed"));
}

#[test]
fn data_schema_check_binds_to_output_artifact() {
    let evidence =
        schema_column_binding("output/report.csv", "email", EvidenceBindingStatus::Missing)
            .to_contract_evidence(Some("verify-schema"))
            .unwrap();

    assert_eq!(evidence.violated_contract.as_deref(), Some("schema_column"));
    assert_eq!(evidence.repair_target.as_deref(), Some("output/report.csv"));
}

#[test]
fn rust_binary_and_test_bindings_are_separate_contracts() {
    let binary = executable_handle_binding(
        "Cargo.toml",
        "bin:commandagent",
        EvidenceBindingStatus::Missing,
    );
    let test = test_script_binding("Cargo.toml", "cargo test", EvidenceBindingStatus::Missing);

    assert!(binary.render_line().contains("kind=executable_handle"));
    assert!(test.render_line().contains("kind=test_script"));
    assert_ne!(binary.kind, test.kind);
}

#[test]
fn manifest_identity_and_citation_bindings_are_rendered() {
    let manifest = manifest_identity_binding(
        "pyproject.toml",
        "project.name",
        EvidenceBindingStatus::Bound,
    );
    let citation = citation_binding(
        "docs/report.md",
        "source-url",
        EvidenceBindingStatus::Unbound,
    );

    assert!(manifest.render_line().contains("kind=manifest_identity"));
    assert!(citation.render_line().contains("kind=citation"));
}

#[test]
fn bound_binding_produces_no_evidence_and_reason_becomes_diagnostic() {
    let bound = test_script_binding("Cargo.toml", "cargo test", EvidenceBindingStatus::Bound);
    assert!(bound.to_contract_evidence(None).is_none());
    let failed = schema_column_binding("out.csv", "email", EvidenceBindingStatus::Failed)
        .with_reason("column  absent");
    assert_eq!(
        failed.render_line(),
        "kind=schema_column target=out.csv expected=email status=failed reason=column absent"
    );
    let evidence = failed.to_contract_evidence(None).unwrap();
    assert_eq!(evidence.reason_code.as_deref(), Some("evidence_binding_failed"));
    assert_eq!(evidence.diagnostic.as_deref(), Some("column  absent"));
    assert_eq!(evidence.failed_step, None);
    assert_eq!(evidence.required_literals, vec!["email"]);
}
