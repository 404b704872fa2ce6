use commandagent::mechanical_repair::{
    mechanical_adapter_family_specs, mechanical_repair_hint, target_is_disallowed,
    MechanicalRepairInput, MechanicalRepairStatus, VerifierDiagnosticCode,
};

fn input(code: VerifierDiagnosticCode, target: Option<&str>) -> MechanicalRepairInput {
    MechanicalRepairInput {
        diagnostic_code: code,
        failure_kind: "compile_or_type_error".to_string(),
        active_job: "source_implementation_repair".to_string(),
        target_path: target.map(str::to_string),
        target_role: Some("implementation".to_string()),
        repair_action: Some("repair_source_error".to_string()),
        source_of_truth: "original_verifier_diagnostic".to_string(),
        allowed_change_kind: Some("source_edit".to_string()),
    }
}

#[test]
fn admits_rust_compile_hint_for_admitted_target() {
    let output = mechanical_repair_hint(&input(
        VerifierDiagnosticCode::RustCompileError,
        Some("src/main.rs"),
    ));

    assert_eq!(output.status, MechanicalRepairStatus::Admitted);
    assert_eq!(output.adapter_id, "rust_compile_diagnostic");
    assert!(
        output
            .eval_report_fields()
            .contains(&"mechanical_adapter_status=admitted".to_string())
    );
}

#[test]
fn rejects_adapter_without_target() {
    let output =
        mechanical_repair_hint(&input(VerifierDiagnosticCode::TypescriptTypeError, None));

    assert_eq!(output.status, MechanicalRepairStatus::Rejected);
    assert_eq!(output.reason, "mechanical_adapter_requires_admitted_target");
}

#[test]
fn rejects_dependency_cache_targets() {
    let output = mechanical_repair_hint(&input(
        VerifierDiagnosticCode::DependencyMissing,
        Some("node_modules/react/index.js"),
    ));

    assert_eq!(output.status, MechanicalRepairStatus::Rejected);
    assert_eq!(
        output.reason,
        "mechanical_adapter_target_not_admitted_for_mutation"
    );
}

#[test]
fn rejects_adapter_without_action_and_verifier_authority() {
    let mut input = input(
        VerifierDiagnosticCode::RustCompileError,
        Some("src/main.rs"),
    );
    input.repair_action = None;
    input.source_of_truth = "unknown".to_string();

    let output = mechanical_repair_hint(&input);

    assert_eq!(output.status, MechanicalRepairStatus::Rejected);
    assert_eq!(
        output.reason,
        "mechanical_adapter_requires_owner_action_target_and_verifier_authority"
    );
}

#[test]
fn reports_not_applicable_for_unknown_diagnostics() {
    let output = mechanical_repair_hint(&input(
        VerifierDiagnosticCode::UnknownVerifierFailure,
        Some("src/main.rs"),
    ));

    assert_eq!(output.status, MechanicalRepairStatus::NotApplicable);
    assert_eq!(output.adapter_id, "none");
}

#[test]
fn exposes_adapter_family_registry_for_profile_parity() {
    let specs = mechanical_adapter_family_specs();
    for expected in [
        "rust_compile",
        "rust_cargo_manifest",
        "python_import",
        "fastapi_response",
        "node_next_type",
        "nextjs_route_integration",
        "manifest_dependency",
        "docs_literal",
        "data_schema",
    ] {
        assert!(
            specs.iter().any(|spec| spec.id == expected),
            "missing adapter family {expected}"
        );
    }
    assert!(specs.iter().all(|spec| !spec.diagnostic_codes.is_empty()));
    assert!(
        specs
            .iter()
            .all(|spec| !spec.allowed_target_roles.is_empty())
    );
}

#[test]
fn admitted_hint_renders_one_line_with_underscored_text() {
    let output = mechanical_repair_hint(&input(
        VerifierDiagnosticCode::NextjsRouteNotIntegrated,
        Some("app/page.tsx"),
    ));
    assert_eq!(output.status, MechanicalRepairStatus::Admitted);
    assert_eq!(output.rerun_authority, "original_verifier_diagnostic");
    let lines = output.render_lines();
    assert_eq!(lines.len(), 1);
    assert!(lines[0].starts_with(
        "mechanical_adapter=nextjs_route_integration_diagnostic status=admitted action=connect_existing_artifact_to_selected_route target=app/page.tsx reason=mechanical_adapter_admitted_under_existing_target_action_contract hint=Connect_the_existing_artifact"
    ));
    assert_eq!(
        output.eval_report_fields(),
        vec![
            "mechanical_adapter=nextjs_route_integration_diagnostic".to_string(),
            "mechanical_adapter_status=admitted".to_string(),
            "mechanical_adapter_action=connect_existing_artifact_to_selected_route".to_string(),
        ]
    );
}

#[test]
fn blank_owner_or_unknown_job_rejects_the_adapter() {
    let mut blank = input(VerifierDiagnosticCode::PythonImportMissing, Some("app/main.py"));
    blank.active_job = "   ".to_string();
    assert_eq!(mechanical_repair_hint(&blank).status, MechanicalRepairStatus::Rejected);
    let mut unknown = input(VerifierDiagnosticCode::PythonImportMissing, Some("app/main.py"));
    unknown.active_job = "unknown".to_string();
    let output = mechanical_repair_hint(&unknown);
    assert_eq!(output.target_path.as_deref(), Some("app/main.py"));
    assert_eq!(output.adapter_id, "python_import_diagnostic");
}

#[test]
fn not_applicable_hint_keeps_target_and_names_none() {
    let output = mechanical_repair_hint(&input(VerifierDiagnosticCode::UnknownVerifierFailure, None));
    assert_eq!(output.action, "none");
    assert_eq!(output.target_path, None);
    assert_eq!(output.reason, "diagnostic_not_supported_by_mechanical_adapter");
}

#[test]
fn disallowed_targets_cover_escape_cache_and_build_dirs() {
    for target in ["/abs", "../x", "a/../b", "node_modules/x", "web/node_modules/x", ".next/x", "a/.next/b", "target/debug"] {
        assert!(target_is_disallowed(target), "{target}");
    }
    assert!(!target_is_disallowed("src/target.rs"));
    let specs = mechanical_adapter_family_specs();
    assert_eq!(specs.len(), 11);
    assert_eq!(specs[1].diagnostic_codes, vec!["dependency_missing", "cargo_manifest_missing"]);
}
