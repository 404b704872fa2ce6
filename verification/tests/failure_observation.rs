use commandagent::correction_evidence::ContractEvidence;
use commandagent::failure_observation::{
    all_terminal_states, observed_value, taxonomy_rows, ContractLayer, FailureActionability,
    FailureObservation, FailureObservationClass, FailureProducer, TerminalState,
    FAILURE_OBSERVATION_SCHEMA_VERSION,
};

#[test]
fn plan_lint_evidence_maps_to_planning_observation() {
    let evidence = ContractEvidence::new("plan_lint.task_contract")
        .with_violated_contract("task_behavior_obligation_plan_projection")
        .with_reason_code("missing_owner_step")
        .with_failed_step("create-package-json");

    let observation = FailureObservation::from_contract_evidence(&evidence);

    assert_eq!(observation.terminal_state, TerminalState::PlanLintFailed);
    assert_eq!(observation.contract_layer, ContractLayer::PlanningContract);
    assert_eq!(observation.producer, FailureProducer::PlanLint);
    assert_eq!(observation.guard, "plan_lint.task_contract");
    assert_eq!(observation.actionability, FailureActionability::Actionable);
}

#[test]
fn provider_parse_evidence_maps_to_provider_parse_observation() {
    let evidence = ContractEvidence::new("provider_transport")
        .with_violated_contract("provider_transport_parse_failure")
        .with_diagnostic_code("xml_tool_call_missing_name");

    let observation = FailureObservation::from_contract_evidence(&evidence);

    assert_eq!(
        observation.terminal_state,
        TerminalState::ProviderParseFailed
    );
    assert_eq!(
        observation.failure_class,
        FailureObservationClass::ProviderTransport
    );
    assert_eq!(observation.producer, FailureProducer::ProviderParser);
}

#[test]
fn verifier_evidence_preserves_diagnostic_and_source_of_truth() {
    let evidence = ContractEvidence::new("verifier")
        .with_violated_contract("command_failed:1")
        .with_diagnostic_code("rust_compile_error")
        .with_failure_signature("verifier|cargo test|rust_compile_error")
        .with_source_of_truth("original_verifier_diagnostic")
        .with_command("cargo test");

    let observation = FailureObservation::from_contract_evidence(&evidence);

    assert_eq!(
        observation.terminal_state,
        TerminalState::VerifierCommandFailed
    );
    assert_eq!(observation.diagnostic_code, "rust_compile_error");
    assert_eq!(observation.source_of_truth, "original_verifier_diagnostic");
    assert_eq!(
        observation.failure_signature.as_deref(),
        Some("verifier|cargo test|rust_compile_error")
    );
}

#[test]
fn explicit_stop_remains_visible_not_source_repair() {
    let evidence = ContractEvidence::new("repair")
        .with_active_job("explicit_stop")
        .with_repair_action("stop_with_structured_evidence")
        .with_explicit_stop_reason("patch_validation_rejected_unsafe_repair");

    let observation = FailureObservation::from_contract_evidence(&evidence);

    assert_eq!(observation.terminal_state, TerminalState::ExplicitStop);
    assert_eq!(
        observation.actionability,
        FailureActionability::ExplicitStop
    );
    assert_eq!(
        observation.explicit_stop_reason.as_deref(),
        Some("patch_validation_rejected_unsafe_repair")
    );
}

#[test]
fn unknown_guard_stays_unknown() {
    let evidence = ContractEvidence::new("custom_guard").with_diagnostic("custom failure");

    let observation = FailureObservation::from_contract_evidence(&evidence);

    assert_eq!(observation.terminal_state, TerminalState::Unknown);
    assert_eq!(observation.actionability, FailureActionability::Unknown);
}

#[test]
fn taxonomy_has_one_row_per_terminal_state_in_order() {
    let rows = taxonomy_rows();
    let states = all_terminal_states();
    assert_eq!(rows.len(), states.len());
    for (row, state) in rows.iter().zip(states.iter()) {
        assert_eq!(row.terminal_state, state.as_str());
        assert_eq!(row.failure_class, state.failure_class().as_str());
        assert_eq!(row.contract_layer, state.contract_layer().as_str());
        assert_eq!(row.violated_contract, state.default_violated_contract());
        assert_eq!(row.source, state.default_source().as_str());
        assert_eq!(row.source_of_truth, state.default_source_of_truth().as_str());
    }
    assert_eq!(rows[0].terminal_state, "ok");
}

#[test]
fn setup_port_in_use_extracts_port_digits() {
    let evidence = ContractEvidence::new("setup")
        .with_diagnostic("Error: listen EADDRINUSE: address already in use :::3000 now");
    let observation = FailureObservation::from_contract_evidence(&evidence);
    assert_eq!(observation.terminal_state, TerminalState::PortInUse);
    assert_eq!(observation.port.as_deref(), Some("3000"));
    assert_eq!(observation.schema_version, FAILURE_OBSERVATION_SCHEMA_VERSION);
}

#[test]
fn setup_dependency_and_plain_setup_states() {
    let dep = ContractEvidence::new("setup").with_diagnostic("dependency_missing: next");
    assert_eq!(
        FailureObservation::from_contract_evidence(&dep).terminal_state,
        TerminalState::DependencyMissing
    );
    let plain = ContractEvidence::new("setup").with_diagnostic("npm install exploded");
    let observation = FailureObservation::from_contract_evidence(&plain);
    assert_eq!(observation.terminal_state, TerminalState::SetupFailed);
    assert_eq!(observation.port, None);
}

#[test]
fn blank_guard_is_reported_as_unknown_guard() {
    let evidence = ContractEvidence::new("   ");
    let observation = FailureObservation::from_contract_evidence(&evidence);
    assert_eq!(observation.guard, "unknown");
    assert_eq!(observation.diagnostic_code, observation.terminal_state.as_str());
}

#[test]
fn observed_value_trims_flattens_and_cuts_long_values() {
    assert_eq!(observed_value("  a\nb  "), "a b");
    let long = "x".repeat(300);
    let cut = observed_value(&long);
    assert_eq!(cut.len(), 243);
    assert!(cut.ends_with("..."));
    assert_eq!(observed_value(&"y".repeat(240)), "y".repeat(240));
}

#[test]
fn render_inline_lists_core_fields_and_optional_signature() {
    let evidence = ContractEvidence::new("verifier")
        .with_diagnostic_code("rust_compile_error")
        .with_failure_signature("sig");
    let observation = FailureObservation::from_contract_evidence(&evidence);
    let line = observation.render_inline();
    assert!(line.starts_with("terminal_state=verifier_command_failed failure_class="));
    assert!(line.contains(" guard=verifier "));
    assert!(line.contains(" diagnostic_code=rust_compile_error "));
    assert!(line.ends_with(" failure_signature=sig"));
}
