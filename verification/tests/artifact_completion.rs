use commandagent::artifact_completion::{
    ArtifactCompletionJob, ArtifactCompletionMode, ARTIFACT_COMPLETION_ATTEMPT_LIMIT,
};
use commandagent::artifact_graph::ArtifactRole;
use commandagent::correction_evidence::ContractEvidence;

#[test]
fn creates_job_for_missing_test_artifact() {
    let evidence = ContractEvidence::new("profile_verification")
        .with_reason_code("missing_required_artifact")
        .with_missing_paths(vec!["tests/test_app.py".to_string()]);

    let job = ArtifactCompletionJob::from_contract_evidence(&evidence).unwrap();

    assert_eq!(job.target_path, "tests/test_app.py");
    assert_eq!(job.role, ArtifactRole::Test);
    assert_eq!(job.mode, ArtifactCompletionMode::Create);
    assert_eq!(job.attempt_limit, ARTIFACT_COMPLETION_ATTEMPT_LIMIT);
}

#[test]
fn rejects_generated_output_completion_target() {
    let evidence = ContractEvidence::new("verifier")
        .with_reason_code("missing_required_artifact")
        .with_missing_paths(vec!["target/debug/app".to_string()]);

    assert!(ArtifactCompletionJob::from_contract_evidence(&evidence).is_none());
}

#[test]
fn applies_target_only_policy_to_evidence() {
    let evidence = ContractEvidence::new("profile_verification")
        .with_reason_code("missing_required_artifact")
        .with_missing_paths(vec!["tests/test_app.py".to_string()]);
    let job = ArtifactCompletionJob::from_contract_evidence(&evidence).unwrap();

    let enriched = job.apply_to_evidence(evidence);

    assert_eq!(
        enriched.active_job.as_deref(),
        Some("test_artifact_completion")
    );
    assert_eq!(enriched.repair_target.as_deref(), Some("tests/test_app.py"));
    assert!(
        enriched
            .repair_attempt_ledger
            .iter()
            .any(|entry| entry.contains("attempt_limit=4"))
    );
}

#[test]
fn existing_target_is_modified_and_reason_falls_back() {
    let evidence = ContractEvidence::new("profile_verification")
        .with_violated_contract("readme_section_required")
        .with_target_path("README.md");
    let job = ArtifactCompletionJob::from_contract_evidence(&evidence).unwrap();
    assert_eq!(job.mode, ArtifactCompletionMode::Modify);
    assert_eq!(job.role, ArtifactRole::Docs);
    assert_eq!(job.reason, "readme_section_required");
    assert_eq!(
        job.target_only_policy_summary(),
        vec![
            "read_scope=target_only:README.md".to_string(),
            "write_scope=modify_target_only:README.md".to_string(),
        ]
    );
    let enriched = job.apply_to_evidence(evidence.with_active_job("custom_job"));
    assert_eq!(enriched.active_job.as_deref(), Some("custom_job"));
    assert_eq!(enriched.repair_kind.as_deref(), Some("documentation_repair"));
    assert_eq!(
        enriched.required_action.as_deref(),
        Some("modify the required docs artifact at README.md")
    );
    assert_eq!(enriched.disallowed_actions.len(), 2);
    assert_eq!(
        enriched.repair_attempt_ledger,
        vec!["artifact_completion_job: target=README.md; role=docs; mode=modify; attempt_limit=4".to_string()]
    );
}

#[test]
fn no_owed_target_means_no_job() {
    let evidence = ContractEvidence::new("verifier").with_reason_code("missing_required_artifact");
    assert!(ArtifactCompletionJob::from_contract_evidence(&evidence).is_none());
}

#[test]
fn applying_twice_does_not_repeat_prohibitions() {
    let evidence = ContractEvidence::new("profile_verification")
        .with_missing_paths(vec!["src/main.rs".to_string()]);
    let job = ArtifactCompletionJob::from_contract_evidence(&evidence).unwrap();
    assert_eq!(job.mode, ArtifactCompletionMode::Create);
    assert_eq!(job.reason, "required_artifact_completion");
    let once = job.apply_to_evidence(evidence);
    let twice = job.apply_to_evidence(once.clone());
    assert_eq!(once, twice);
}
