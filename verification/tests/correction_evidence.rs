use commandagent::correction_evidence::{
    failure_signature, ContractEvidence, PlanCorrectionEvidence, MAX_FIELD_CHARS, MAX_LIST_ITEMS,
};
#[test]
fn plan_correction_evidence_renders_missing_literals() {
    let evidence = ContractEvidence::new("plan_lint.profile_obligations")
        .with_failed_step("create-package-json")
        .with_violated_contract("nextjs_dependencies_required")
        .with_target_field("instruction")
        .with_required_literals(vec!["next".to_string(), "react".to_string(), "react-dom".to_string()])
        .with_missing_literals(vec!["react-dom".to_string()])
        .with_required_action(
            "include these exact literals in the corrected package.json step instruction",
        );

    let rendered = evidence.render().unwrap();

    assert!(rendered.contains("Contract correction evidence"));
    assert!(rendered.contains("- guard: plan_lint.profile_obligations"));
    assert!(rendered.contains("- failed_step: create-package-json"));
    assert!(rendered.contains("- violated_contract: nextjs_dependencies_required"));
    assert!(rendered.contains("- required_literals: next, react, react-dom"));
    assert!(rendered.contains("- missing_literals: react-dom"));
}

#[test]
fn contract_evidence_alias_keeps_plan_correction_name_usable() {
    let evidence = PlanCorrectionEvidence::new("plan_lint.profile_obligations")
        .with_failed_step("create-package-json")
        .with_required_paths(vec!["package.json".to_string()])
        .with_missing_paths(vec!["package.json".to_string()])
        .with_diagnostic("missing expected path");

    let rendered = evidence.render().unwrap();

    assert!(rendered.contains("- failed_step: create-package-json"));
    assert!(rendered.contains("- required_paths: package.json"));
    assert!(rendered.contains("- missing_paths: package.json"));
    assert!(rendered.contains("- diagnostic: missing expected path"));
}

#[test]
fn contract_evidence_renders_runtime_fields() {
    let evidence = ContractEvidence::new("tool_protocol")
        .with_failed_step("create-game-canvas")
        .with_violated_contract("tool_args_missing_required_field")
        .with_reason_code("tool_args_missing_required_field")
        .with_failure_signature("tool_protocol|create-game-canvas|Write|path")
        .with_failure_kind("tool_protocol_error")
        .with_diagnostic_code("tool_args_missing_required_field")
        .with_command("npm run build")
        .with_tool("Write")
        .with_target_field("path")
        .with_target_path("src/components/GameCanvas.tsx")
        .with_candidate_artifacts(vec!["src/components/GameCanvas.tsx".to_string()])
        .with_repair_target("src/components/GameCanvas.tsx")
        .with_required_fields(vec!["path".to_string(), "content".to_string()])
        .with_observed_expected_pairs(vec!["observed=missing path; expected=Write.path".to_string()])
        .with_active_job("source_implementation_repair")
        .with_artifact_role("source")
        .with_related_source_excerpt("src/components/GameCanvas.tsx:1\n>1: broken")
        .with_disallowed_actions(vec!["do not run dependency setup".to_string()])
        .with_prior_attempts(vec!["attempt 1: same signature".to_string()])
        .with_repair_attempt_ledger(vec!["repair attempt 1: tool_protocol|create-game-canvas|Write|path".to_string()])
        .with_repair_focus("emit valid Write call for src/components/GameCanvas.tsx")
        .with_repair_kind("tool_protocol_correction")
        .with_repair_action("repair_source_error")
        .with_setup_implication("none")
        .with_tool_policy_projection("file_mutation_repair")
        .with_target_admission("admitted: target src/components/GameCanvas.tsx")
        .with_target_priority("priority=0 repair_target from deterministic evidence")
        .with_artifact_graph_summary(vec!["src/components/GameCanvas.tsx role=implementation lifecycle=required source=contract.repair_target".to_string()])
        .with_rerun_authority(vec!["tool schema validation".to_string()])
        .with_diagnostic("Write missing path");

    let rendered = evidence.render().unwrap();

    assert!(rendered.contains("- guard: tool_protocol"));
    assert!(rendered.contains("- failed_step: create-game-canvas"));
    assert!(rendered.contains("- violated_contract: tool_args_missing_required_field"));
    assert!(rendered.contains("- reason_code: tool_args_missing_required_field"));
    assert!(
        rendered.contains("- failure_signature: tool_protocol|create-game-canvas|Write|path")
    );
    assert!(rendered.contains("- failure_kind: tool_protocol_error"));
    assert!(rendered.contains("- diagnostic_code: tool_args_missing_required_field"));
    assert!(rendered.contains("- command: npm run build"));
    assert!(rendered.contains("- tool: Write"));
    assert!(rendered.contains("- target_field: path"));
    assert!(rendered.contains("- target_path: src/components/GameCanvas.tsx"));
    assert!(rendered.contains("- candidate_artifacts: src/components/GameCanvas.tsx"));
    assert!(rendered.contains("- repair_target: src/components/GameCanvas.tsx"));
    assert!(rendered.contains("- required_fields: path, content"));
    assert!(
        rendered
            .contains("- observed_expected_pairs: observed=missing path; expected=Write.path")
    );
    assert!(rendered.contains("- active_job: source_implementation_repair"));
    assert!(rendered.contains("- artifact_role: source"));
    assert!(rendered.contains("- disallowed_actions: do not run dependency setup"));
    assert!(
        rendered
            .contains("- related_source_excerpt: src/components/GameCanvas.tsx:1 >1: broken")
    );
    assert!(rendered.contains("- prior_attempts: attempt 1: same signature"));
    assert!(rendered.contains(
        "- repair_attempt_ledger: repair attempt 1: tool_protocol|create-game-canvas|Write|path"
    ));
    assert!(rendered.contains("- repair_focus: emit valid Write call"));
    assert!(rendered.contains("- repair_kind: tool_protocol_correction"));
    assert!(rendered.contains("- repair_action: repair_source_error"));
    assert!(rendered.contains("- setup_implication: none"));
    assert!(rendered.contains("- tool_policy_projection: file_mutation_repair"));
    assert!(rendered.contains("- target_admission: admitted"));
    assert!(rendered.contains("- target_priority: priority=0"));
    assert!(rendered.contains("- artifact_graph_summary: src/components/GameCanvas.tsx"));
    assert!(rendered.contains("- rerun_authority: tool schema validation"));
}

#[test]
fn plan_correction_evidence_bounds_long_values() {
    let evidence = ContractEvidence::new("plan_lint.profile_obligations")
        .with_diagnostic(&"x".repeat(MAX_FIELD_CHARS + 20))
        .with_required_literals(
            (0..(MAX_LIST_ITEMS + 2))
                    .map(|index| format!("literal-{index}"))
                    .collect(),
        );

    let rendered = evidence.render().unwrap();

    assert!(rendered.contains("..."));
    assert!(rendered.contains("2 more"));
    assert!(rendered.len() < 800);
}

#[test]
fn failure_signature_is_stable_and_bounded() {
    let signature = failure_signature(&[
        " verifier ",
        "verify-build",
        "npm   run   build",
        "command_failed:1",
        "app/page.tsx",
    ]);

    assert_eq!(
        signature,
        "verifier|verify-build|npm run build|command_failed:1|app/page.tsx"
    );
    assert!(signature.len() <= MAX_FIELD_CHARS);
}

#[test]
fn empty_evidence_renders_nothing() {
    assert_eq!(ContractEvidence::new("  ").render(), None);
    assert_eq!(
        ContractEvidence::new("").with_tool("Write").render(),
        Some("Contract correction evidence:\n- tool: Write".to_string())
    );
    assert_eq!(
        ContractEvidence::new("verifier").render(),
        Some("Contract correction evidence:\n- guard: verifier".to_string())
    );
}

#[test]
fn blank_fields_and_empty_lists_are_not_rendered() {
    let rendered = ContractEvidence::new("verifier")
        .with_command("   ")
        .with_required_fields(Vec::new())
        .render()
        .unwrap();
    assert_eq!(rendered, "Contract correction evidence:\n- guard: verifier");
}

#[test]
fn repair_attempt_appends_to_ledger() {
    let evidence = ContractEvidence::new("repair")
        .with_repair_attempt_ledger(vec!["first".to_string()])
        .with_repair_attempt("second");
    assert_eq!(evidence.repair_attempt_ledger, vec!["first", "second"]);
    assert!(evidence
        .render()
        .unwrap()
        .contains("- repair_attempt_ledger: first, second"));
}

#[test]
fn failure_signature_skips_blank_parts() {
    assert_eq!(failure_signature(&["a", "  ", "b\tc"]), "a|b c");
    assert_eq!(failure_signature(&[]), "");
    let long = "y".repeat(MAX_FIELD_CHARS + 1);
    let signature = failure_signature(&[long.as_str()]);
    assert_eq!(signature.chars().count(), MAX_FIELD_CHARS + 3);
    assert!(signature.ends_with("..."));
}

#[test]
fn uncounted_fields_alone_render_nothing() {
    let evidence = ContractEvidence::new("  ")
        .with_weak_verifier_reason("only test -f")
        .with_no_progress_strategy("retry")
        .with_verifier_diagnostic_payload(vec!["x".to_string()]);
    assert_eq!(evidence.render(), None);
    let named = ContractEvidence::new("guard").with_weak_verifier_reason("only test -f");
    assert!(named.render().is_some());
}
