use commandagent::deliverable_obligation::{
    obligation_kind_for_path, DeliverableKind, DeliverableObligation, FreshnessRule,
};


#[test]
fn obligation_rendering_keeps_freshness_visible() {
    let obligation = DeliverableObligation::new(DeliverableKind::Source, "app/page.tsx")
        .with_required_evidence("route imports Game")
        .with_freshness(FreshnessRule::MustHaveVerifierEvidence);

    let rendered = obligation.render_line();

    assert!(rendered.contains("kind=source"));
    assert!(rendered.contains("route imports Game"));
    assert!(rendered.contains("must_have_verifier_evidence"));
}

#[test]
fn coding_task_can_require_fresh_source_and_verifier_evidence() {
    let obligation = DeliverableObligation::new(DeliverableKind::Source, "src/lib.rs")
        .with_freshness(FreshnessRule::MustBeEditedThisSession)
        .with_freshness(FreshnessRule::MustHaveVerifierEvidence);

    assert!(obligation.freshness.contains(&FreshnessRule::MustExist));
    assert!(
        obligation
            .freshness
            .contains(&FreshnessRule::MustBeEditedThisSession)
    );
    assert!(
        obligation
            .freshness
            .contains(&FreshnessRule::MustHaveVerifierEvidence)
    );
}

#[test]
fn docs_and_data_tasks_do_not_require_fake_source_edits() {
    let docs = DeliverableObligation::new(obligation_kind_for_path("README.md"), "README.md");
    let data = DeliverableObligation::new(
        obligation_kind_for_path("reports/summary.csv"),
        "reports/summary.csv",
    );

    assert_eq!(docs.kind, DeliverableKind::Docs);
    assert_eq!(data.kind, DeliverableKind::StructuredData);
    assert!(
        !docs
            .freshness
            .contains(&FreshnessRule::MustBeEditedThisSession)
    );
    assert!(
        !data
            .freshness
            .contains(&FreshnessRule::MustBeEditedThisSession)
    );
}

#[test]
fn obligation_line_renders_none_and_joined_rules() {
    let obligation = DeliverableObligation::new(DeliverableKind::Docs, "README.md")
        .with_freshness(FreshnessRule::MustExist)
        .with_freshness(FreshnessRule::MustMatchCurrentPlan);
    assert_eq!(
        obligation.render_line(),
        "kind=docs path=README.md evidence=none freshness=must_exist|must_match_current_plan"
    );
    let with_evidence = obligation.with_required_evidence("a").with_required_evidence("b");
    assert!(with_evidence.render_line().contains("evidence=a|b"));
    assert_eq!(obligation_kind_for_path("web/package.json"), DeliverableKind::SetupManifest);
    assert_eq!(obligation_kind_for_path("src/test/x.rs"), DeliverableKind::Test);
    assert_eq!(obligation_kind_for_path("src/main.rs"), DeliverableKind::Source);
}
