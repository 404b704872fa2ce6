use commandagent::artifact_graph::{ArtifactGraph, ArtifactLifecycle};
use commandagent::artifact_ledger::{
    ArtifactFactSource, ArtifactLedgerSummary, LedgerPathFilter, ARTIFACT_LEDGER_ENTRY_LIMIT,
};
use commandagent::artifact_ownership::ArtifactOwnership;
use commandagent::minimal_loop::result::ToolExecutionRecord;
use commandagent::workspace_scope::WorkspaceScope;

fn record(name: &str, target_paths: Vec<&str>) -> ToolExecutionRecord {
    ToolExecutionRecord {
        name: name.to_string(),
        ok: true,
        output: String::new(),
        output_truncated: false,
        original_output_chars: 0,
        target_paths: target_paths.into_iter().map(str::to_string).collect(),
    }
}

#[test]
fn ledger_records_write_path_without_payload() {
    let graph = ArtifactGraph::new();
    let scope = WorkspaceScope::greenfield();
    let summary = ArtifactLedgerSummary::from_tool_records(
        &[record("Write", vec!["src/main.rs"])],
        &graph,
        &scope,
    );

    assert_eq!(summary.entries.len(), 1);
    assert_eq!(summary.entries[0].path, "src/main.rs");
    assert!(summary.render_lines()[0].contains("changed=true"));
    assert!(summary.render_lines()[0].contains("observed=true"));
}

#[test]
fn ledger_records_read_path_without_marking_change() {
    let graph = ArtifactGraph::new();
    let scope = WorkspaceScope::greenfield();
    let summary = ArtifactLedgerSummary::from_tool_records(
        &[record("Read", vec!["package.json"])],
        &graph,
        &scope,
    );

    let entry = summary.entry("package.json").unwrap();
    assert!(entry.read);
    assert!(!entry.changed);
    assert!(!entry.created);
    assert_eq!(entry.source, ArtifactFactSource::ToolRead);
    assert_eq!(entry.source_of_truth, "tool_record");
    assert!(summary.render_lines()[0].contains("read=true"));
}

#[test]
fn ledger_overflow_is_observable() {
    let graph = ArtifactGraph::new();
    let scope = WorkspaceScope::greenfield();
    let targets = (0..40)
        .map(|idx| format!("src/file_{idx}.rs"))
        .collect::<Vec<_>>();
    let record = ToolExecutionRecord {
        name: "Write".to_string(),
        ok: true,
        output: String::new(),
        output_truncated: false,
        original_output_chars: 0,
        target_paths: targets,
    };

    let summary = ArtifactLedgerSummary::from_tool_records(&[record], &graph, &scope);

    assert_eq!(summary.entries.len(), ARTIFACT_LEDGER_ENTRY_LIMIT);
    assert!(summary.overflowed);
    assert!(summary.render_lines().last().unwrap().contains("overflow"));
}

#[test]
fn ledger_records_required_graph_path_without_tool_record() {
    let mut graph = ArtifactGraph::new();
    graph.add_path(
        "app/page.tsx",
        ArtifactLifecycle::Required,
        "plan.required_artifacts",
    );
    let scope = WorkspaceScope::from_graph(&graph);

    let summary = ArtifactLedgerSummary::from_tool_records(&[], &graph, &scope);

    assert_eq!(summary.entries.len(), 1);
    assert_eq!(summary.entries[0].path, "app/page.tsx");
    assert!(summary.entries[0].required);
    assert!(!summary.entries[0].changed);
    assert!(!summary.entries[0].observed);
    assert!(summary.render_lines()[0].contains("source=artifact_graph"));
}

#[test]
fn ledger_keeps_verifier_mentions_distinct_from_changes() {
    let graph = ArtifactGraph::new();
    let scope = WorkspaceScope::greenfield();
    let mut summary = ArtifactLedgerSummary::default();

    summary.record_verifier_mention("src/lib.rs", "compiler points here", &graph, &scope);

    let entry = summary.entry("src/lib.rs").unwrap();
    assert!(entry.verifier_mentioned);
    assert!(!entry.changed);
    assert!(summary.render_lines()[0].contains("source=verifier_diagnostic"));
}

#[test]
fn ledger_records_scaffold_and_setup_deltas_separately() {
    let graph = ArtifactGraph::new();
    let scope = WorkspaceScope::greenfield();
    let mut summary = ArtifactLedgerSummary::default();

    summary.record_scaffold_delta("app/page.tsx", &graph, &scope);
    summary.record_setup_delta("package.json", &graph, &scope);

    assert!(summary.entry("app/page.tsx").unwrap().scaffold_created);
    assert!(summary.entry("package.json").unwrap().setup_created);
    let fields = summary.eval_report_fields(&scope).join("\n");
    assert!(fields.contains("scaffold_created_paths=[app/page.tsx]"));
    assert!(fields.contains("setup_created_paths=[package.json]"));
}

#[test]
fn ledger_merges_second_fact_about_a_path() {
    let graph = ArtifactGraph::new();
    let scope = WorkspaceScope::greenfield();
    let summary = ArtifactLedgerSummary::from_tool_records(
        &[record("Read", vec!["./src/lib.rs"]), record("Edit", vec!["src/lib.rs"])],
        &graph,
        &scope,
    );
    assert_eq!(summary.entries.len(), 1);
    let entry = summary.entry("src/lib.rs").unwrap();
    assert!(entry.read);
    assert!(entry.changed);
    assert!(!entry.created);
    assert_eq!(entry.source, ArtifactFactSource::ToolRead);
    assert_eq!(entry.origin, "Read");
    assert_eq!(entry.ownership, ArtifactOwnership::Owned);
    assert_eq!(entry.candidate_origin, "tool_read_record,tool_edit_record");
}

#[test]
fn failed_records_are_ignored() {
    let graph = ArtifactGraph::new();
    let scope = WorkspaceScope::greenfield();
    let mut failed = record("Write", vec!["src/main.rs"]);
    failed.ok = false;
    let summary = ArtifactLedgerSummary::from_tool_records(&[failed], &graph, &scope);
    assert!(summary.entries.is_empty());
    assert!(!summary.overflowed);
    assert!(summary.render_lines().is_empty());
}

#[test]
fn out_of_scope_and_dependency_paths_are_reported() {
    let graph = ArtifactGraph::new();
    let scope = WorkspaceScope::greenfield();
    let mut summary = ArtifactLedgerSummary::default();
    summary.record_workspace_observation("../outside.txt", &graph, &scope);
    summary.record_workspace_observation("node_modules/react/index.js", &graph, &scope);
    let outside = summary.entry("../outside.txt").unwrap();
    assert!(!outside.in_scope);
    assert_eq!(outside.ownership, ArtifactOwnership::OutOfScope);
    let cache = summary.entry("node_modules/react/index.js").unwrap();
    assert!(cache.generated_or_cache);
    assert_eq!(
        summary.paths_where(LedgerPathFilter::OutOfScope),
        vec!["../outside.txt".to_string(), "node_modules/react/index.js".to_string()]
    );
    let fields = summary.eval_report_fields(&scope);
    assert_eq!(fields[0], "workspace_scope_kind=greenfield");
    assert_eq!(fields[1], "workspace_scope_roots=[.]");
    assert_eq!(fields[2], "artifact_ledger_entries=2");
    assert_eq!(fields[3], "artifact_ledger_summary=entries:2;overflow:false");
    assert!(fields.contains(
        &"out_of_scope_paths=[../outside.txt,node_modules/react/index.js]".to_string()
    ));
}

#[test]
fn verifier_mention_renders_compact_diagnostic() {
    let graph = ArtifactGraph::new();
    let scope = WorkspaceScope::greenfield();
    let mut summary = ArtifactLedgerSummary::default();
    summary.record_verifier_mention("src/lib.rs", "error   at\n line 3", &graph, &scope);
    let line = &summary.render_lines()[0];
    assert!(line.starts_with("src/lib.rs role="));
    assert!(line.ends_with(" diagnostic=error at line 3"));
    assert!(line.contains(" source_of_truth=verifier_output "));
}
