use commandagent::completion_evidence::{
    docs_section_pass, file_layout_pass, missing_evidence, profile_completion_pass,
    report_completeness_pass, stale_evidence, structured_data_pass, verifier_completion,
    CompletionEvidenceKind,
};


#[test]
fn verifier_completion_distinguishes_pass_and_fail() {
    let pass = verifier_completion("cargo test", true);
    let fail = verifier_completion("cargo test", false);

    assert!(pass.render_line().contains("status=passed"));
    assert!(fail.render_line().contains("status=failed"));
    assert!(fail.render_line().contains("target=cargo test"));
}

#[test]
fn pass_side_completion_evidence_has_distinct_kinds() {
    let docs = docs_section_pass("README.md#usage", true);
    let data = structured_data_pass("report.csv:email", true);
    let report = report_completeness_pass("workspace/mvp/report.md", false);
    let profile = profile_completion_pass("nextjs:route_binding", true);
    let layout = file_layout_pass("app/page.tsx", true);

    assert!(docs.render_line().contains("kind=docs_section_pass"));
    assert!(data.render_line().contains("kind=structured_data_pass"));
    assert!(
        report
            .render_line()
            .contains("kind=report_completeness_pass")
    );
    assert!(report.render_line().contains("status=failed"));
    assert!(
        profile
            .render_line()
            .contains("kind=profile_completion_pass")
    );
    assert!(layout.render_line().contains("kind=file_layout_pass"));
}

#[test]
fn missing_and_stale_evidence_are_distinct() {
    let missing = missing_evidence(
        CompletionEvidenceKind::DocsSectionPass,
        "README.md#Usage",
        "docs_section_check",
    );
    let stale = stale_evidence(
        CompletionEvidenceKind::FileLayoutPass,
        "src/lib.rs",
        "read_before_latest_edit",
    );

    assert!(missing.render_line().contains("status=missing"));
    assert!(stale.render_line().contains("status=stale"));
}

#[test]
fn completion_line_includes_compacted_diagnostic() {
    let evidence = verifier_completion("cargo  test", false).with_diagnostic("exit\ncode 1");
    assert_eq!(
        evidence.render_line(),
        "kind=verifier_exit_zero target=cargo test status=failed source=original_verifier diagnostic=exit code 1"
    );
}
