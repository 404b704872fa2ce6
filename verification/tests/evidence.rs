use commandagent::correction_evidence::ContractEvidence;
use commandagent::evidence::{
    merge_lists, EvidenceEnvelope, EvidencePayload, EvidenceProducer, FailureClass,
};

fn strings(values: &[&str]) -> Vec<String> {
    values.iter().map(|value| value.to_string()).collect()
}

#[test]
fn plan_lint_contract_evidence_maps_to_planning_payload() {
    let evidence = ContractEvidence::new("plan_lint.profile_obligations")
        .with_failed_step("create-package-json")
        .with_violated_contract("nextjs_dependencies_required")
        .with_target_field("instruction")
        .with_required_literals(strings(&["next", "react", "react-dom"]))
        .with_missing_literals(strings(&["react-dom"]));

    let envelope =
        EvidenceEnvelope::from_contract_evidence("ev1", "2026-06-20T00:00:00Z", &evidence);

    assert_eq!(envelope.producer, EvidenceProducer::PlanLint);
    assert_eq!(envelope.failure_class, FailureClass::Planning);
    assert_eq!(envelope.failed_step.as_deref(), Some("create-package-json"));
    match envelope.payload {
        EvidencePayload::Planning(payload) => {
            assert_eq!(payload.target_field.as_deref(), Some("instruction"));
            assert_eq!(payload.missing_values, vec!["react-dom"]);
        }
        other => panic!("unexpected payload: {other:?}"),
    }
}

#[test]
fn tool_protocol_contract_evidence_maps_to_tool_payload() {
    let evidence = ContractEvidence::new("tool_protocol")
        .with_reason_code("tool_args_missing_required_field")
        .with_tool("Write")
        .with_target_field("path")
        .with_required_fields(strings(&["path", "content"]));

    let envelope = EvidenceEnvelope::from_contract_evidence("ev2", "ts", &evidence);

    assert_eq!(envelope.failure_class, FailureClass::ToolProtocol);
    match envelope.payload {
        EvidencePayload::ToolProtocol(payload) => {
            assert_eq!(payload.tool.as_deref(), Some("Write"));
            assert_eq!(payload.missing_fields, vec!["path"]);
        }
        other => panic!("unexpected payload: {other:?}"),
    }
}

#[test]
fn unknown_contract_evidence_stays_unsupported() {
    let evidence = ContractEvidence::new("custom_guard").with_diagnostic("custom failure");

    let envelope = EvidenceEnvelope::from_contract_evidence("ev3", "ts", &evidence);

    assert_eq!(envelope.failure_class, FailureClass::Unsupported);
    assert!(matches!(envelope.payload, EvidencePayload::Unsupported(_)));
}

#[test]
fn envelope_reason_code_falls_back_to_contract_then_guard() {
    let evidence = ContractEvidence::new("custom_guard");
    let envelope = EvidenceEnvelope::from_contract_evidence("ev4", "ts", &evidence);
    assert_eq!(envelope.reason_code, "custom_guard");
    assert_eq!(envelope.schema_version, "1.0");
    assert_eq!(envelope.producer, EvidenceProducer::Unknown);

    let evidence = ContractEvidence::new("custom_guard").with_violated_contract("contract_x");
    let envelope = EvidenceEnvelope::from_contract_evidence("ev5", "ts", &evidence);
    assert_eq!(envelope.reason_code, "contract_x");
}

#[test]
fn verifier_setup_recovery_and_provider_payloads() {
    let evidence = ContractEvidence::new("custom").with_command("npm run build");
    let envelope = EvidenceEnvelope::from_contract_evidence("ev", "ts", &evidence);
    assert_eq!(envelope.failure_class, FailureClass::Verification);

    let evidence = ContractEvidence::new("custom")
        .with_reason_code("dependency_missing")
        .with_missing_literals(strings(&["react"]))
        .with_target_path("package.json");
    match EvidencePayload::from_contract_evidence(&evidence) {
        EvidencePayload::Setup(payload) => {
            assert_eq!(payload.missing_dependency.as_deref(), Some("react"));
            assert_eq!(payload.affected_manifest.as_deref(), Some("package.json"));
        }
        other => panic!("unexpected payload: {other:?}"),
    }

    let evidence = ContractEvidence::new("repair").with_prior_attempts(strings(&["a1", "a2"]));
    match EvidencePayload::from_contract_evidence(&evidence) {
        EvidencePayload::RecoveryAttempt(payload) => {
            assert_eq!(payload.attempt_id.as_deref(), Some("a1"));
        }
        other => panic!("unexpected payload: {other:?}"),
    }

    let evidence = ContractEvidence::new("provider_parse").with_diagnostic("bad xml");
    let envelope = EvidenceEnvelope::from_contract_evidence("ev", "ts", &evidence);
    assert_eq!(envelope.producer, EvidenceProducer::ProviderParser);
    assert_eq!(envelope.failure_class, FailureClass::ProviderTransport);

    let evidence = ContractEvidence::new("profile_nextjs");
    match EvidencePayload::from_contract_evidence(&evidence) {
        EvidencePayload::Profile(payload) => assert_eq!(payload.profile, "unknown"),
        other => panic!("unexpected payload: {other:?}"),
    }
}

#[test]
fn merge_lists_keeps_first_occurrences() {
    let merged = merge_lists(&strings(&["a", "b", "a"]), &strings(&["b", "c"]));
    assert_eq!(merged, vec!["a", "b", "c"]);
}
