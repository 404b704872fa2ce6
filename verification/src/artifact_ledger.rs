//! A bounded ledger of the artifacts a run touched, observed or owes.
//!
//! Facts come from the artifact graph, from tool records, from workspace
//! observations, from verifier diagnostics and from scaffold and setup
//! deltas. Each path has one entry; a second fact about a path is merged
//! into it. The ledger holds at most `ARTIFACT_LEDGER_ENTRY_LIMIT` entries and
//! records that it overflowed.
use crate::artifact_graph::{
    lifecycle_name, node_index, role_for_path, role_name, role_of, ArtifactGraph, ArtifactLifecycle,
    ArtifactNode, ArtifactRole, NodeView,
};
use crate::artifact_ownership::{
    changed_contains, changed_here, classify_artifact_ownership, decides, ownership_core,
    ownership_name, subreason_of, truth_for, ArtifactOwnership,
};
use crate::minimal_loop::guards::is_file_change_tool;
use crate::minimal_loop::result::ToolExecutionRecord;
use crate::paths::{normalize_path, normalized_path};
use crate::text::{
    collapse_ws, collapse_ws_str, contains, copy_opt, copy_string, decimal, join, join_strings, opt_view,
    owned, push_str, str_contains, str_eq, usize_to_string, views,
};
use crate::workspace_scope::{scope_holds, scope_kind_name, WorkspaceScope};
use vstd::prelude::*;

verus! {

/// The most entries a ledger holds.
pub const ARTIFACT_LEDGER_ENTRY_LIMIT: usize = 32;

/// Where a ledger fact came from.
#[derive(Debug, Clone, Copy, PartialEq, Eq, Structural)]
pub enum ArtifactFactSource {
    ArtifactGraph,
    ToolRecord,
    ToolRead,
    ToolWrite,
    ToolEdit,
    WorkspaceObservation,
    VerifierDiagnostic,
    ScaffoldDelta,
    SetupDelta,
}

pub open spec fn fact_source_name(x: ArtifactFactSource) -> Seq<char> {
    match x {
        ArtifactFactSource::ArtifactGraph => "artifact_graph"@,
        ArtifactFactSource::ToolRecord => "tool_record"@,
        ArtifactFactSource::ToolRead => "tool_read"@,
        ArtifactFactSource::ToolWrite => "tool_write"@,
        ArtifactFactSource::ToolEdit => "tool_edit"@,
        ArtifactFactSource::WorkspaceObservation => "workspace_observation"@,
        ArtifactFactSource::VerifierDiagnostic => "verifier_diagnostic"@,
        ArtifactFactSource::ScaffoldDelta => "scaffold_delta"@,
        ArtifactFactSource::SetupDelta => "setup_delta"@,
    }
}

impl ArtifactFactSource {
    /// The snake-case name.
    pub fn as_str(self) -> (r: &'static str)
        ensures
            r@ == fact_source_name(self),
    {
        match self {
            ArtifactFactSource::ArtifactGraph => "artifact_graph",
            ArtifactFactSource::ToolRecord => "tool_record",
            ArtifactFactSource::ToolRead => "tool_read",
            ArtifactFactSource::ToolWrite => "tool_write",
            ArtifactFactSource::ToolEdit => "tool_edit",
            ArtifactFactSource::WorkspaceObservation => "workspace_observation",
            ArtifactFactSource::VerifierDiagnostic => "verifier_diagnostic",
            ArtifactFactSource::ScaffoldDelta => "scaffold_delta",
            ArtifactFactSource::SetupDelta => "setup_delta",
        }
    }
}


/// One path's facts.
#[derive(Debug, Clone, PartialEq, Eq)]
pub struct ArtifactLedgerEntry {
    pub path: String,
    pub role: ArtifactRole,
    pub lifecycle: ArtifactLifecycle,
    pub ownership: ArtifactOwnership,
    pub origin: String,
    pub source: ArtifactFactSource,
    pub source_of_truth: String,
    pub ownership_reason: String,
    pub ownership_subreason: String,
    pub candidate_origin: String,
    pub changed: bool,
    pub read: bool,
    pub created: bool,
    pub observed: bool,
    pub required: bool,
    pub verifier_mentioned: bool,
    pub scaffold_created: bool,
    pub setup_created: bool,
    pub generated_or_cache: bool,
    pub dependency_or_build_output: bool,
    pub in_scope: bool,
    pub diagnostic: Option<String>,
}

/// An entry as plain values.
pub struct LedgerEntryView {
    pub path: Seq<char>,
    pub role: ArtifactRole,
    pub lifecycle: ArtifactLifecycle,
    pub ownership: ArtifactOwnership,
    pub origin: Seq<char>,
    pub source: ArtifactFactSource,
    pub source_of_truth: Seq<char>,
    pub ownership_reason: Seq<char>,
    pub ownership_subreason: Seq<char>,
    pub candidate_origin: Seq<char>,
    pub changed: bool,
    pub read: bool,
    pub created: bool,
    pub observed: bool,
    pub required: bool,
    pub verifier_mentioned: bool,
    pub scaffold_created: bool,
    pub setup_created: bool,
    pub generated_or_cache: bool,
    pub dependency_or_build_output: bool,
    pub in_scope: bool,
    pub diagnostic: Option<Seq<char>>,
}

impl View for ArtifactLedgerEntry {
    type V = LedgerEntryView;

    open spec fn view(&self) -> LedgerEntryView {
        LedgerEntryView {
            path: self.path@,
            role: self.role,
            lifecycle: self.lifecycle,
            ownership: self.ownership,
            origin: self.origin@,
            source: self.source,
            source_of_truth: self.source_of_truth@,
            ownership_reason: self.ownership_reason@,
            ownership_subreason: self.ownership_subreason@,
            candidate_origin: self.candidate_origin@,
            changed: self.changed,
            read: self.read,
            created: self.created,
            observed: self.observed,
            required: self.required,
            verifier_mentioned: self.verifier_mentioned,
            scaffold_created: self.scaffold_created,
            setup_created: self.setup_created,
            generated_or_cache: self.generated_or_cache,
            dependency_or_build_output: self.dependency_or_build_output,
            in_scope: self.in_scope,
            diagnostic: opt_view(self.diagnostic),
        }
    }
}

/// The ledger: its entries in the order first recorded, and whether a fact
/// was dropped because the ledger was full.
#[derive(Debug, Clone, PartialEq, Eq)]
pub struct ArtifactLedgerSummary {
    pub entries: Vec<ArtifactLedgerEntry>,
    pub overflowed: bool,
}

/// A ledger as plain values.
pub type LedgerView = (Seq<LedgerEntryView>, bool);

/// The plain values of a ledger.
pub open spec fn ledger_view(l: ArtifactLedgerSummary) -> LedgerView {
    (l.entries@.map_values(|e: ArtifactLedgerEntry| e@), l.overflowed)
}

impl Default for ArtifactLedgerSummary {
    /// The empty ledger.
    fn default() -> (r: Self)
        ensures
            r.entries@.len() == 0,
            !r.overflowed,
    {
        ArtifactLedgerSummary { entries: Vec::new(), overflowed: false }
    }
}

// ---------------------------------------------------------------------------
// Merging facts
// ---------------------------------------------------------------------------

/// The lifecycle that wins when a path is seen twice: existing, then setup
/// manifest, integration target, to be created, required, and generated
/// output last.
pub open spec fn stronger_lifecycle_of(a: ArtifactLifecycle, b: ArtifactLifecycle) -> ArtifactLifecycle {
    if a == ArtifactLifecycle::Existing || b == ArtifactLifecycle::Existing {
        ArtifactLifecycle::Existing
    } else if a == ArtifactLifecycle::SetupManifest || b == ArtifactLifecycle::SetupManifest {
        ArtifactLifecycle::SetupManifest
    } else if a == ArtifactLifecycle::IntegrationTarget || b == ArtifactLifecycle::IntegrationTarget {
        ArtifactLifecycle::IntegrationTarget
    } else if a == ArtifactLifecycle::ToBeCreated || b == ArtifactLifecycle::ToBeCreated {
        ArtifactLifecycle::ToBeCreated
    } else if a == ArtifactLifecycle::Required || b == ArtifactLifecycle::Required {
        ArtifactLifecycle::Required
    } else {
        ArtifactLifecycle::GeneratedOutput
    }
}

fn stronger_lifecycle(a: ArtifactLifecycle, b: ArtifactLifecycle) -> (r: ArtifactLifecycle)
    ensures
        r == stronger_lifecycle_of(a, b),
{
    if a == ArtifactLifecycle::Existing || b == ArtifactLifecycle::Existing {
        ArtifactLifecycle::Existing
    } else if a == ArtifactLifecycle::SetupManifest || b == ArtifactLifecycle::SetupManifest {
        ArtifactLifecycle::SetupManifest
    } else if a == ArtifactLifecycle::IntegrationTarget || b == ArtifactLifecycle::IntegrationTarget {
        ArtifactLifecycle::IntegrationTarget
    } else if a == ArtifactLifecycle::ToBeCreated || b == ArtifactLifecycle::ToBeCreated {
        ArtifactLifecycle::ToBeCreated
    } else if a == ArtifactLifecycle::Required || b == ArtifactLifecycle::Required {
        ArtifactLifecycle::Required
    } else {
        ArtifactLifecycle::GeneratedOutput
    }
}

/// The ownership that wins when a path is seen twice: owned, then out of
/// scope, then candidate only.
pub open spec fn stronger_ownership_of(a: ArtifactOwnership, b: ArtifactOwnership) -> ArtifactOwnership {
    if a == ArtifactOwnership::Owned || b == ArtifactOwnership::Owned {
        ArtifactOwnership::Owned
    } else if a == ArtifactOwnership::OutOfScope || b == ArtifactOwnership::OutOfScope {
        ArtifactOwnership::OutOfScope
    } else {
        ArtifactOwnership::CandidateOnly
    }
}

fn stronger_ownership(a: ArtifactOwnership, b: ArtifactOwnership) -> (r: ArtifactOwnership)
    ensures
        r == stronger_ownership_of(a, b),
{
    if a == ArtifactOwnership::Owned || b == ArtifactOwnership::Owned {
        ArtifactOwnership::Owned
    } else if a == ArtifactOwnership::OutOfScope || b == ArtifactOwnership::OutOfScope {
        ArtifactOwnership::OutOfScope
    } else {
        ArtifactOwnership::CandidateOnly
    }
}

/// A text with another appended after a comma, unless it already contains it.
pub open spec fn join_unique(a: Seq<char>, b: Seq<char>) -> Seq<char> {
    if contains(a, b) {
        a
    } else {
        a + ","@ + b
    }
}

fn join_unique_str(a: &String, b: &String) -> (r: String)
    ensures
        r@ == join_unique(a@, b@),
{
    if str_contains(a.as_str(), b.as_str()) {
        copy_string(a)
    } else {
        let mut s = copy_string(a);
        push_str(&mut s, ",");
        push_str(&mut s, b.as_str());
        s
    }
}

/// A second fact merged into an entry: the stronger lifecycle and
/// ownership, the newer role, every flag of either, the texts joined without
/// repeats, and the first diagnostic; the path, origin and source stay.
pub open spec fn merge_view(a: LedgerEntryView, e: LedgerEntryView) -> LedgerEntryView {
    LedgerEntryView {
        lifecycle: stronger_lifecycle_of(a.lifecycle, e.lifecycle),
        role: e.role,
        ownership: stronger_ownership_of(a.ownership, e.ownership),
        changed: a.changed || e.changed,
        read: a.read || e.read,
        created: a.created || e.created,
        observed: a.observed || e.observed,
        required: a.required || e.required,
        verifier_mentioned: a.verifier_mentioned || e.verifier_mentioned,
        scaffold_created: a.scaffold_created || e.scaffold_created,
        setup_created: a.setup_created || e.setup_created,
        generated_or_cache: a.generated_or_cache || e.generated_or_cache,
        dependency_or_build_output: a.dependency_or_build_output || e.dependency_or_build_output,
        in_scope: a.in_scope || e.in_scope,
        source_of_truth: join_unique(a.source_of_truth, e.source_of_truth),
        ownership_reason: join_unique(a.ownership_reason, e.ownership_reason),
        ownership_subreason: join_unique(a.ownership_subreason, e.ownership_subreason),
        candidate_origin: join_unique(a.candidate_origin, e.candidate_origin),
        diagnostic: if a.diagnostic is None {
            e.diagnostic
        } else {
            a.diagnostic
        },
        ..a
    }
}

/// The index of the first entry with the path, or -1.
pub open spec fn entry_index(es: Seq<LedgerEntryView>, p: Seq<char>) -> int
    decreases es.len(),
{
    if es.len() == 0 {
        -1
    } else {
        let j = entry_index(es.drop_last(), p);
        if j >= 0 {
            j
        } else if es.last().path == p {
            es.len() - 1
        } else {
            -1
        }
    }
}

/// Recording a fact: merged into the path's entry when there is one;
/// otherwise appended, or dropped with the overflow flag set when the ledger
/// is full.
pub open spec fn record_view(l: LedgerView, e: LedgerEntryView) -> LedgerView {
    let j = entry_index(l.0, e.path);
    if j >= 0 {
        (l.0.update(j, merge_view(l.0[j], e)), l.1)
    } else if l.0.len() >= ARTIFACT_LEDGER_ENTRY_LIMIT {
        (l.0, true)
    } else {
        (l.0.push(e), l.1)
    }
}

/// `entry_index` finds the first entry with the path, or reports none.
pub proof fn lemma_entry_index(es: Seq<LedgerEntryView>, p: Seq<char>)
    ensures
        -1 <= entry_index(es, p) < es.len(),
        entry_index(es, p) >= 0 ==> es[entry_index(es, p)].path == p,
        entry_index(es, p) >= 0 ==> forall|k: int| 0 <= k < entry_index(es, p) ==> es[k].path != p,
        entry_index(es, p) == -1 ==> forall|k: int| 0 <= k < es.len() ==> es[k].path != p,
    decreases es.len(),
{
    if es.len() > 0 {
        let d = es.drop_last();
        lemma_entry_index(d, p);
        assert(forall|k: int| 0 <= k < d.len() ==> d[k] == es[k]);
    }
}

/// A ledger holds each path at most once and no more than
/// `ARTIFACT_LEDGER_ENTRY_LIMIT` entries.
pub open spec fn ledger_wf(l: LedgerView) -> bool {
    &&& l.0.len() <= ARTIFACT_LEDGER_ENTRY_LIMIT
    &&& forall|i: int, j: int| 0 <= i < j < l.0.len() ==> #[trigger] l.0[i].path != #[trigger] l.0[j].path
}

/// Recording a fact keeps a ledger well formed, and never forgets a path:
/// every path recorded before is still there, and the recorded path is
/// there unless the ledger was full, in which case the overflow flag is set.
pub proof fn lemma_record_keeps_ledger_wf(l: LedgerView, e: LedgerEntryView)
    requires
        ledger_wf(l),
    ensures
        ledger_wf(record_view(l, e)),
        forall|k: int| 0 <= k < l.0.len() ==> record_view(l, e).0[k].path == #[trigger] l.0[k].path,
        entry_index(record_view(l, e).0, e.path) >= 0 || record_view(l, e).1,
{
    lemma_entry_index(l.0, e.path);
    let r = record_view(l, e);
    lemma_entry_index(r.0, e.path);
    let j = entry_index(l.0, e.path);
    if j >= 0 {
        assert(r.0[j].path == e.path);
    } else if l.0.len() < ARTIFACT_LEDGER_ENTRY_LIMIT {
        assert(r.0[l.0.len() as int].path == e.path);
    }
}

proof fn lemma_entry_index_of_first(es: Seq<LedgerEntryView>, p: Seq<char>, j: int)
    requires
        0 <= j < es.len(),
        es[j].path == p,
        forall|k: int| 0 <= k < j ==> es[k].path != p,
    ensures
        entry_index(es, p) == j,
{
    lemma_entry_index(es, p);
    if entry_index(es, p) == -1 {
        assert(es[j].path != p);
    }
}

fn merge_entry(a: &ArtifactLedgerEntry, e: ArtifactLedgerEntry) -> (r: ArtifactLedgerEntry)
    ensures
        r@ == merge_view(a@, e@),
{
    let diagnostic = match &a.diagnostic {
        Some(d) => Some(copy_string(d)),
        None => e.diagnostic,
    };
    ArtifactLedgerEntry {
        path: copy_string(&a.path),
        role: e.role,
        lifecycle: stronger_lifecycle(a.lifecycle, e.lifecycle),
        ownership: stronger_ownership(a.ownership, e.ownership),
        origin: copy_string(&a.origin),
        source: a.source,
        source_of_truth: join_unique_str(&a.source_of_truth, &e.source_of_truth),
        ownership_reason: join_unique_str(&a.ownership_reason, &e.ownership_reason),
        ownership_subreason: join_unique_str(&a.ownership_subreason, &e.ownership_subreason),
        candidate_origin: join_unique_str(&a.candidate_origin, &e.candidate_origin),
        changed: a.changed || e.changed,
        read: a.read || e.read,
        created: a.created || e.created,
        observed: a.observed || e.observed,
        required: a.required || e.required,
        verifier_mentioned: a.verifier_mentioned || e.verifier_mentioned,
        scaffold_created: a.scaffold_created || e.scaffold_created,
        setup_created: a.setup_created || e.setup_created,
        generated_or_cache: a.generated_or_cache || e.generated_or_cache,
        dependency_or_build_output: a.dependency_or_build_output || e.dependency_or_build_output,
        in_scope: a.in_scope || e.in_scope,
        diagnostic,
    }
}

impl ArtifactLedgerSummary {
    fn find_entry(&self, p: &str) -> (r: Option<usize>)
        ensures
            match r {
                Some(j) => j < self.entries@.len() && j as int == entry_index(ledger_view(*self).0, p@),
                None => entry_index(ledger_view(*self).0, p@) == -1,
            },
    {
        let ghost es = ledger_view(*self).0;
        let mut k: usize = 0;
        while k < self.entries.len()
            invariant
                k <= self.entries@.len(),
                es == ledger_view(*self).0,
                forall|j: int| 0 <= j < k ==> es[j].path != p@,
            decreases self.entries.len() - k,
        {
            if str_eq(self.entries[k].path.as_str(), p) {
                proof {
                    lemma_entry_index_of_first(es, p@, k as int);
                }
                return Some(k);
            }
            k = k + 1;
        }
        proof {
            lemma_entry_index(es, p@);
        }
        None
    }

    /// Records one fact.
    pub fn record_entry(&mut self, entry: ArtifactLedgerEntry)
        ensures
            ledger_view(*final(self)) == record_view(ledger_view(*old(self)), entry@),
    {
        let ghost before = ledger_view(*self);
        match self.find_entry(entry.path.as_str()) {
            Some(j) => {
                let merged = merge_entry(&self.entries[j], entry);
                self.entries.set(j, merged);
                assert(ledger_view(*self).0 =~= before.0.update(j as int, merge_view(before.0[j as int], entry@)));
            },
            None => {
                if self.entries.len() >= ARTIFACT_LEDGER_ENTRY_LIMIT {
                    self.overflowed = true;
                } else {
                    self.entries.push(entry);
                    assert(ledger_view(*self).0 =~= before.0.push(entry@));
                }
            },
        }
    }

    /// The entry of a path, normalized first.
    pub fn entry(&self, path: &str) -> (r: Option<&ArtifactLedgerEntry>)
        ensures
            match r {
                Some(e) => {
                    let j = entry_index(ledger_view(*self).0, normalized_path(path@));
                    j >= 0 && e@ == ledger_view(*self).0[j]
                },
                None => entry_index(ledger_view(*self).0, normalized_path(path@)) == -1,
            },
    {
        let p = normalize_path(path);
        match self.find_entry(p.as_str()) {
            Some(j) => {
                assert(ledger_view(*self).0[j as int] == self.entries@[j as int]@);
                Some(&self.entries[j])
            },
            None => None,
        }
    }
}

// ---------------------------------------------------------------------------
// Facts from the graph and the tool records
// ---------------------------------------------------------------------------

/// A role whose artifacts are generated output or a dependency cache.
pub open spec fn generated_role(r: ArtifactRole) -> bool {
    r == ArtifactRole::GeneratedOutput || r == ArtifactRole::DependencyCache
}

/// A lifecycle under which the artifact is owed.
pub open spec fn lifecycle_requires(l: ArtifactLifecycle) -> bool {
    l == ArtifactLifecycle::Required || l == ArtifactLifecycle::ToBeCreated || l == ArtifactLifecycle::SetupManifest
        || l == ArtifactLifecycle::IntegrationTarget
}

fn lifecycle_requires_artifact(l: ArtifactLifecycle) -> (r: bool)
    ensures
        r == lifecycle_requires(l),
{
    l == ArtifactLifecycle::Required || l == ArtifactLifecycle::ToBeCreated || l == ArtifactLifecycle::SetupManifest
        || l == ArtifactLifecycle::IntegrationTarget
}

fn generated_or_cache_role(r: ArtifactRole) -> (b: bool)
    ensures
        b == generated_role(r),
{
    r == ArtifactRole::GeneratedOutput || r == ArtifactRole::DependencyCache
}

/// The entry a graph node contributes.
pub open spec fn node_entry(
    nodes: Seq<NodeView>,
    roots: Seq<Seq<char>>,
    n: NodeView,
    changed: Seq<Seq<char>>,
) -> LedgerEntryView {
    let core = ownership_core(nodes, roots, n.path, n.role, n.source, changed);
    LedgerEntryView {
        path: n.path,
        role: core.1,
        lifecycle: n.lifecycle,
        ownership: core.2,
        origin: n.source,
        source: ArtifactFactSource::ArtifactGraph,
        source_of_truth: "artifact_graph"@,
        ownership_reason: core.3,
        ownership_subreason: subreason_of(core.1, core.2, core.3, n.source),
        candidate_origin: n.source,
        changed: changed_here(changed, n.path),
        read: false,
        created: false,
        observed: n.lifecycle == ArtifactLifecycle::Existing,
        required: lifecycle_requires(n.lifecycle),
        verifier_mentioned: false,
        scaffold_created: false,
        setup_created: false,
        generated_or_cache: generated_role(core.1),
        dependency_or_build_output: generated_role(core.1),
        in_scope: scope_holds(roots, n.path),
        diagnostic: None,
    }
}

/// The fact source of a tool record.
pub open spec fn tool_source_of(name: Seq<char>) -> ArtifactFactSource {
    if name == "Read"@ {
        ArtifactFactSource::ToolRead
    } else if name == "Write"@ {
        ArtifactFactSource::ToolWrite
    } else if name == "Edit"@ {
        ArtifactFactSource::ToolEdit
    } else {
        ArtifactFactSource::ToolRecord
    }
}

fn tool_record_source(name: &str) -> (r: ArtifactFactSource)
    ensures
        r == tool_source_of(name@),
{
    if str_eq(name, "Read") {
        ArtifactFactSource::ToolRead
    } else if str_eq(name, "Write") {
        ArtifactFactSource::ToolWrite
    } else if str_eq(name, "Edit") {
        ArtifactFactSource::ToolEdit
    } else {
        ArtifactFactSource::ToolRecord
    }
}

/// The ownership source a tool record's fact source stands for.
pub open spec fn ownership_source_of(s: ArtifactFactSource) -> Seq<char> {
    match s {
        ArtifactFactSource::ToolRead => "tool_read_record"@,
        ArtifactFactSource::ToolWrite => "tool_write_record"@,
        ArtifactFactSource::ToolEdit => "tool_edit_record"@,
        _ => "tool_execution_record"@,
    }
}

fn ownership_source_for(s: ArtifactFactSource) -> (r: &'static str)
    ensures
        r@ == ownership_source_of(s),
{
    match s {
        ArtifactFactSource::ToolRead => "tool_read_record",
        ArtifactFactSource::ToolWrite => "tool_write_record",
        ArtifactFactSource::ToolEdit => "tool_edit_record",
        _ => "tool_execution_record",
    }
}

/// The role of a path: its graph node's, else the role its path implies
/// under the default lifecycle.
pub open spec fn graph_role(nodes: Seq<NodeView>, p: Seq<char>, default: ArtifactLifecycle) -> ArtifactRole {
    let j = node_index(nodes, normalized_path(p));
    if j >= 0 {
        nodes[j].role
    } else {
        role_of(normalized_path(p), default)
    }
}

/// The lifecycle of a path: its graph node's, else the default.
pub open spec fn graph_lifecycle(nodes: Seq<NodeView>, p: Seq<char>, default: ArtifactLifecycle) -> ArtifactLifecycle {
    let j = node_index(nodes, normalized_path(p));
    if j >= 0 {
        nodes[j].lifecycle
    } else {
        default
    }
}

fn known_role_and_lifecycle(
    graph: &ArtifactGraph,
    path: &str,
    default_role: ArtifactLifecycle,
    default_lifecycle: ArtifactLifecycle,
) -> (r: (ArtifactRole, ArtifactLifecycle))
    ensures
        r.0 == graph_role(graph@.nodes, path@, default_role),
        r.1 == graph_lifecycle(graph@.nodes, path@, default_lifecycle),
{
    match graph.node(path) {
        Some(node) => (node.role, node.lifecycle),
        None => (role_for_path(path, default_role), default_lifecycle),
    }
}

/// The entry one target path of a successful tool record contributes.
pub open spec fn tool_entry(
    nodes: Seq<NodeView>,
    roots: Seq<Seq<char>>,
    name: Seq<char>,
    p: Seq<char>,
    changed: Seq<Seq<char>>,
) -> LedgerEntryView {
    let src = tool_source_of(name);
    let osrc = ownership_source_of(src);
    let lc = graph_lifecycle(nodes, p, ArtifactLifecycle::Existing);
    let core = ownership_core(
        nodes,
        roots,
        p,
        graph_role(nodes, p, ArtifactLifecycle::Required),
        osrc,
        changed,
    );
    LedgerEntryView {
        path: normalized_path(p),
        role: core.1,
        lifecycle: lc,
        ownership: core.2,
        origin: name,
        source: src,
        source_of_truth: truth_for(osrc),
        ownership_reason: core.3,
        ownership_subreason: subreason_of(core.1, core.2, core.3, osrc),
        candidate_origin: osrc,
        changed: name == "Write"@ || name == "Edit"@,
        read: name == "Read"@,
        created: name == "Write"@,
        observed: true,
        required: lifecycle_requires(lc),
        verifier_mentioned: false,
        scaffold_created: false,
        setup_created: false,
        generated_or_cache: generated_role(core.1),
        dependency_or_build_output: generated_role(core.1),
        in_scope: scope_holds(roots, p),
        diagnostic: None,
    }
}

/// Recording facts one after another.
pub open spec fn record_all(l: LedgerView, es: Seq<LedgerEntryView>) -> LedgerView
    decreases es.len(),
{
    if es.len() == 0 {
        l
    } else {
        record_view(record_all(l, es.drop_last()), es.last())
    }
}

/// The target paths of successful file-changing tool records, in order.
pub open spec fn changed_of(rs: Seq<ToolExecutionRecord>) -> Seq<Seq<char>>
    decreases rs.len(),
{
    if rs.len() == 0 {
        Seq::empty()
    } else {
        changed_of(rs.drop_last()) + if rs.last().ok && (rs.last().name@ == "Write"@ || rs.last().name@
            == "Edit"@) {
            views(rs.last().target_paths@)
        } else {
            Seq::empty()
        }
    }
}

/// The entries a tool record contributes, one per target path.
pub open spec fn tool_entries(
    nodes: Seq<NodeView>,
    roots: Seq<Seq<char>>,
    r: ToolExecutionRecord,
    changed: Seq<Seq<char>>,
) -> Seq<LedgerEntryView> {
    views(r.target_paths@).map_values(|p: Seq<char>| tool_entry(nodes, roots, r.name@, p, changed))
}

/// The ledger after the tool records, and whether it stopped: failed
/// records are skipped, and no record is read after one that left the
/// ledger overflowed.
pub open spec fn records_fold(
    nodes: Seq<NodeView>,
    roots: Seq<Seq<char>>,
    start: LedgerView,
    rs: Seq<ToolExecutionRecord>,
    changed: Seq<Seq<char>>,
) -> (LedgerView, bool)
    decreases rs.len(),
{
    if rs.len() == 0 {
        (start, false)
    } else {
        let (l, stopped) = records_fold(nodes, roots, start, rs.drop_last(), changed);
        let r = rs.last();
        if stopped || !r.ok {
            (l, stopped)
        } else {
            let l2 = record_all(l, tool_entries(nodes, roots, r, changed));
            (l2, l2.1)
        }
    }
}

/// The ledger built from an artifact graph and tool records: first one
/// entry per graph node, then one fact per target path of each successful
/// tool record.
pub open spec fn ledger_of(nodes: Seq<NodeView>, roots: Seq<Seq<char>>, rs: Seq<ToolExecutionRecord>) -> LedgerView {
    let changed = changed_of(rs);
    let l0 = record_all(
        (Seq::empty(), false),
        nodes.map_values(|n: NodeView| node_entry(nodes, roots, n, changed)),
    );
    records_fold(nodes, roots, l0, rs, changed).0
}

fn node_ledger_entry(
    graph: &ArtifactGraph,
    scope: &WorkspaceScope,
    node: &ArtifactNode,
    changed: &Vec<String>,
) -> (r: ArtifactLedgerEntry)
    ensures
        r@ == node_entry(graph@.nodes, scope.root_views(), node@, views(changed@)),
{
    let d = classify_artifact_ownership(
        graph,
        scope,
        node.path.as_str(),
        node.role,
        node.source.as_str(),
        changed.as_slice(),
    );
    let changed_flag = changed_contains(changed.as_slice(), node.path.as_str());
    let in_scope = scope.contains_path(node.path.as_str());
    ArtifactLedgerEntry {
        path: copy_string(&node.path),
        role: d.role,
        lifecycle: node.lifecycle,
        ownership: d.ownership,
        origin: copy_string(&node.source),
        source: ArtifactFactSource::ArtifactGraph,
        source_of_truth: owned("artifact_graph"),
        ownership_reason: d.reason,
        ownership_subreason: d.ownership_subreason,
        candidate_origin: d.candidate_origin,
        changed: changed_flag,
        read: false,
        created: false,
        observed: node.lifecycle == ArtifactLifecycle::Existing,
        required: lifecycle_requires_artifact(node.lifecycle),
        verifier_mentioned: false,
        scaffold_created: false,
        setup_created: false,
        generated_or_cache: generated_or_cache_role(d.role),
        dependency_or_build_output: generated_or_cache_role(d.role),
        in_scope,
        diagnostic: None,
    }
}

fn tool_ledger_entry(
    graph: &ArtifactGraph,
    scope: &WorkspaceScope,
    name: &String,
    path: &str,
    changed: &Vec<String>,
) -> (r: ArtifactLedgerEntry)
    ensures
        r@ == tool_entry(graph@.nodes, scope.root_views(), name@, path@, views(changed@)),
{
    let source = tool_record_source(name.as_str());
    let ownership_source = ownership_source_for(source);
    let (role, lifecycle) = known_role_and_lifecycle(
        graph,
        path,
        ArtifactLifecycle::Required,
        ArtifactLifecycle::Existing,
    );
    let d = classify_artifact_ownership(graph, scope, path, role, ownership_source, changed.as_slice());
    let in_scope = scope.contains_path(path);
    ArtifactLedgerEntry {
        path: normalize_path(path),
        role: d.role,
        lifecycle,
        ownership: d.ownership,
        origin: copy_string(name),
        source,
        source_of_truth: d.source_of_truth,
        ownership_reason: d.reason,
        ownership_subreason: d.ownership_subreason,
        candidate_origin: d.candidate_origin,
        changed: is_file_change_tool(name.as_str()),
        read: str_eq(name.as_str(), "Read"),
        created: str_eq(name.as_str(), "Write"),
        observed: true,
        required: lifecycle_requires_artifact(lifecycle),
        verifier_mentioned: false,
        scaffold_created: false,
        setup_created: false,
        generated_or_cache: generated_or_cache_role(d.role),
        dependency_or_build_output: generated_or_cache_role(d.role),
        in_scope,
        diagnostic: None,
    }
}

fn changed_paths_of(records: &[ToolExecutionRecord]) -> (r: Vec<String>)
    ensures
        views(r@) == changed_of(records@),
{
    let mut changed: Vec<String> = Vec::new();
    let mut i: usize = 0;
    while i < records.len()
        invariant
            i <= records@.len(),
            views(changed@) == changed_of(records@.take(i as int)),
        decreases records.len() - i,
    {
        let rec = &records[i];
        proof {
            assert(records@.take(i + 1).drop_last() == records@.take(i as int));
        }
        if rec.ok && is_file_change_tool(rec.name.as_str()) {
            let ghost before = views(changed@);
            let mut j: usize = 0;
            while j < rec.target_paths.len()
                invariant
                    j <= rec.target_paths@.len(),
                    views(changed@) == before + views(rec.target_paths@).take(j as int),
                decreases rec.target_paths.len() - j,
            {
                let ghost mid = changed@;
                changed.push(copy_string(&rec.target_paths[j]));
                proof {
                    assert(views(rec.target_paths@).take(j + 1) == views(rec.target_paths@).take(j as int).push(
                        rec.target_paths@[j as int]@,
                    ));
                    assert(views(changed@) =~= views(mid).push(rec.target_paths@[j as int]@));
                }
                j = j + 1;
            }
            assert(views(rec.target_paths@).take(rec.target_paths@.len() as int) == views(rec.target_paths@));
        } else {
            assert(views(changed@) =~= views(changed@) + Seq::<Seq<char>>::empty());
        }
        i = i + 1;
    }
    assert(records@.take(records@.len() as int) == records@);
    changed
}

impl ArtifactLedgerSummary {
    /// The ledger of an artifact graph and tool records.
    pub fn from_tool_records(
        records: &[ToolExecutionRecord],
        graph: &ArtifactGraph,
        scope: &WorkspaceScope,
    ) -> (r: Self)
        ensures
            ledger_view(r) == ledger_of(graph@.nodes, scope.root_views(), records@),
    {
        Self::from_graph_and_tool_records(records, graph, scope)
    }

    /// The ledger of an artifact graph and tool records.
    pub fn from_graph_and_tool_records(
        records: &[ToolExecutionRecord],
        graph: &ArtifactGraph,
        scope: &WorkspaceScope,
    ) -> (r: Self)
        ensures
            ledger_view(r) == ledger_of(graph@.nodes, scope.root_views(), records@),
    {
        let changed = changed_paths_of(records);
        let ghost cv = views(changed@);
        let ghost nv = graph@.nodes;
        let ghost roots = scope.root_views();
        let ghost node_es = nv.map_values(|n: NodeView| node_entry(nv, roots, n, cv));
        let mut summary = ArtifactLedgerSummary::default();
        assert(ledger_view(summary) =~= (Seq::<LedgerEntryView>::empty(), false));
        let nodes = graph.nodes();
        let mut k: usize = 0;
        while k < nodes.len()
            invariant
                k <= nodes@.len(),
                nodes@.map_values(|n: ArtifactNode| n@) == nv,
                nv == graph@.nodes,
                roots == scope.root_views(),
                cv == views(changed@),
                node_es == nv.map_values(|n: NodeView| node_entry(nv, roots, n, cv)),
                ledger_view(summary) == record_all((Seq::empty(), false), node_es.take(k as int)),
            decreases nodes.len() - k,
        {
            let entry = node_ledger_entry(graph, scope, &nodes[k], &changed);
            proof {
                assert(nodes@[k as int]@ == nv[k as int]);
                assert(node_es.take(k + 1).drop_last() == node_es.take(k as int));
            }
            summary.record_entry(entry);
            k = k + 1;
        }
        assert(node_es.take(nv.len() as int) == node_es);
        let ghost l0 = ledger_view(summary);
        let mut stopped = false;
        let mut i: usize = 0;
        while i < records.len()
            invariant
                i <= records@.len(),
                nv == graph@.nodes,
                roots == scope.root_views(),
                cv == views(changed@),
                (ledger_view(summary), stopped) == records_fold(nv, roots, l0, records@.take(i as int), cv),
            decreases records.len() - i,
        {
            let rec = &records[i];
            proof {
                assert(records@.take(i + 1).drop_last() == records@.take(i as int));
                assert(records@.take(i + 1).last() == records@[i as int]);
            }
            if !stopped && rec.ok {
                let ghost start = ledger_view(summary);
                let ghost es = tool_entries(nv, roots, *rec, cv);
                let mut j: usize = 0;
                while j < rec.target_paths.len()
                    invariant
                        j <= rec.target_paths@.len(),
                        nv == graph@.nodes,
                        roots == scope.root_views(),
                        cv == views(changed@),
                        es == tool_entries(nv, roots, *rec, cv),
                        ledger_view(summary) == record_all(start, es.take(j as int)),
                    decreases rec.target_paths.len() - j,
                {
                    let entry = tool_ledger_entry(graph, scope, &rec.name, rec.target_paths[j].as_str(), &changed);
                    proof {
                        assert(es.take(j + 1).drop_last() == es.take(j as int));
                        assert(es[j as int] == tool_entry(nv, roots, rec.name@, rec.target_paths@[j as int]@, cv));
                    }
                    summary.record_entry(entry);
                    j = j + 1;
                }
                assert(es.take(es.len() as int) == es);
                stopped = summary.overflowed;
            }
            i = i + 1;
        }
        assert(records@.take(records@.len() as int) == records@);
        summary
    }
}


// ---------------------------------------------------------------------------
// Observations, diagnostics and deltas
// ---------------------------------------------------------------------------

/// The entry of a fact about a path from a named source: the path
/// normalized, its graph role and lifecycle (or the defaults), its
/// ownership decided for that source with no changed paths, and whether the
/// decided path is in scope. The flags are the caller's.
pub open spec fn fact_entry(
    nodes: Seq<NodeView>,
    roots: Seq<Seq<char>>,
    path: Seq<char>,
    origin: Seq<char>,
    source: ArtifactFactSource,
    default: ArtifactLifecycle,
    changed: bool,
    created: bool,
    observed_always: bool,
    verifier_mentioned: bool,
    diagnostic: Option<Seq<char>>,
) -> LedgerEntryView {
    let p = normalized_path(path);
    let lc = graph_lifecycle(nodes, p, default);
    let core = ownership_core(nodes, roots, p, graph_role(nodes, p, default), origin, Seq::empty());
    LedgerEntryView {
        path: p,
        role: core.1,
        lifecycle: lc,
        ownership: core.2,
        origin: origin,
        source: source,
        source_of_truth: truth_for(origin),
        ownership_reason: core.3,
        ownership_subreason: subreason_of(core.1, core.2, core.3, origin),
        candidate_origin: origin,
        changed: changed,
        read: false,
        created: created,
        observed: observed_always || lc == ArtifactLifecycle::Existing,
        required: lifecycle_requires(lc),
        verifier_mentioned: verifier_mentioned,
        scaffold_created: source == ArtifactFactSource::ScaffoldDelta,
        setup_created: source == ArtifactFactSource::SetupDelta,
        generated_or_cache: generated_role(core.1),
        dependency_or_build_output: generated_role(core.1),
        in_scope: scope_holds(roots, core.0),
        diagnostic: diagnostic,
    }
}

fn fact_ledger_entry(
    graph: &ArtifactGraph,
    scope: &WorkspaceScope,
    path: &str,
    origin: &str,
    source: ArtifactFactSource,
    default: ArtifactLifecycle,
    changed: bool,
    created: bool,
    observed_always: bool,
    verifier_mentioned: bool,
    diagnostic: Option<String>,
) -> (r: ArtifactLedgerEntry)
    ensures
        r@ == fact_entry(
            graph@.nodes,
            scope.root_views(),
            path@,
            origin@,
            source,
            default,
            changed,
            created,
            observed_always,
            verifier_mentioned,
            opt_view(diagnostic),
        ),
{
    let p = normalize_path(path);
    let (role, lifecycle) = known_role_and_lifecycle(graph, p.as_str(), default, default);
    let none: Vec<String> = Vec::new();
    assert(views(none@) =~= Seq::<Seq<char>>::empty());
    let d = classify_artifact_ownership(graph, scope, p.as_str(), role, origin, none.as_slice());
    let in_scope = scope.contains_path(d.path.as_str());
    ArtifactLedgerEntry {
        path: p,
        role: d.role,
        lifecycle,
        ownership: d.ownership,
        origin: owned(origin),
        source,
        source_of_truth: d.source_of_truth,
        ownership_reason: d.reason,
        ownership_subreason: d.ownership_subreason,
        candidate_origin: d.candidate_origin,
        changed,
        read: false,
        created,
        observed: observed_always || lifecycle == ArtifactLifecycle::Existing,
        required: lifecycle_requires_artifact(lifecycle),
        verifier_mentioned,
        scaffold_created: source == ArtifactFactSource::ScaffoldDelta,
        setup_created: source == ArtifactFactSource::SetupDelta,
        generated_or_cache: generated_or_cache_role(d.role),
        dependency_or_build_output: generated_or_cache_role(d.role),
        in_scope,
        diagnostic,
    }
}

impl ArtifactLedgerSummary {
    /// Records that a path exists in the workspace.
    pub fn record_workspace_observation(&mut self, path: &str, graph: &ArtifactGraph, scope: &WorkspaceScope)
        ensures
            ledger_view(*final(self)) == record_view(
                ledger_view(*old(self)),
                fact_entry(
                    graph@.nodes,
                    scope.root_views(),
                    path@,
                    "workspace_observation"@,
                    ArtifactFactSource::WorkspaceObservation,
                    ArtifactLifecycle::Existing,
                    false,
                    false,
                    true,
                    false,
                    None,
                ),
            ),
    {
        let entry = fact_ledger_entry(
            graph,
            scope,
            path,
            "workspace_observation",
            ArtifactFactSource::WorkspaceObservation,
            ArtifactLifecycle::Existing,
            false,
            false,
            true,
            false,
            None,
        );
        self.record_entry(entry);
    }

    /// Records that a verifier diagnostic mentions a path; the mention is
    /// not a change.
    pub fn record_verifier_mention(
        &mut self,
        path: &str,
        diagnostic: &str,
        graph: &ArtifactGraph,
        scope: &WorkspaceScope,
    )
        ensures
            ledger_view(*final(self)) == record_view(
                ledger_view(*old(self)),
                fact_entry(
                    graph@.nodes,
                    scope.root_views(),
                    path@,
                    "verifier_diagnostic"@,
                    ArtifactFactSource::VerifierDiagnostic,
                    ArtifactLifecycle::Required,
                    false,
                    false,
                    false,
                    true,
                    Some(diagnostic@),
                ),
            ),
    {
        let entry = fact_ledger_entry(
            graph,
            scope,
            path,
            "verifier_diagnostic",
            ArtifactFactSource::VerifierDiagnostic,
            ArtifactLifecycle::Required,
            false,
            false,
            false,
            true,
            Some(owned(diagnostic)),
        );
        self.record_entry(entry);
    }

    /// Records a path a scaffold created.
    pub fn record_scaffold_delta(&mut self, path: &str, graph: &ArtifactGraph, scope: &WorkspaceScope)
        ensures
            ledger_view(*final(self)) == record_view(
                ledger_view(*old(self)),
                fact_entry(
                    graph@.nodes,
                    scope.root_views(),
                    path@,
                    "scaffold_delta"@,
                    ArtifactFactSource::ScaffoldDelta,
                    ArtifactLifecycle::Existing,
                    true,
                    true,
                    true,
                    false,
                    None,
                ),
            ),
    {
        self.record_delta(path, "scaffold_delta", ArtifactFactSource::ScaffoldDelta, graph, scope);
    }

    /// Records a path a setup command created.
    pub fn record_setup_delta(&mut self, path: &str, graph: &ArtifactGraph, scope: &WorkspaceScope)
        ensures
            ledger_view(*final(self)) == record_view(
                ledger_view(*old(self)),
                fact_entry(
                    graph@.nodes,
                    scope.root_views(),
                    path@,
                    "setup_delta"@,
                    ArtifactFactSource::SetupDelta,
                    ArtifactLifecycle::Existing,
                    true,
                    true,
                    true,
                    false,
                    None,
                ),
            ),
    {
        self.record_delta(path, "setup_delta", ArtifactFactSource::SetupDelta, graph, scope);
    }

    fn record_delta(
        &mut self,
        path: &str,
        source_name: &str,
        source: ArtifactFactSource,
        graph: &ArtifactGraph,
        scope: &WorkspaceScope,
    )
        ensures
            ledger_view(*final(self)) == record_view(
                ledger_view(*old(self)),
                fact_entry(
                    graph@.nodes,
                    scope.root_views(),
                    path@,
                    source_name@,
                    source,
                    ArtifactLifecycle::Existing,
                    true,
                    true,
                    true,
                    false,
                    None,
                ),
            ),
    {
        let entry = fact_ledger_entry(
            graph,
            scope,
            path,
            source_name,
            source,
            ArtifactLifecycle::Existing,
            true,
            true,
            true,
            false,
            None,
        );
        self.record_entry(entry);
    }
}


// ---------------------------------------------------------------------------
// Rendering
// ---------------------------------------------------------------------------

/// The text of a flag.
pub open spec fn bool_text(b: bool) -> Seq<char> {
    if b { "true"@ } else { "false"@ }
}

fn bool_str(b: bool) -> (r: &'static str)
    ensures
        r@ == bool_text(b),
{
    if b { "true" } else { "false" }
}

/// The identifying part of an entry's report line.
pub open spec fn entry_head(e: LedgerEntryView) -> Seq<char> {
    e.path + " role="@ + role_name(e.role) + " lifecycle="@ + lifecycle_name(e.lifecycle) + " ownership="@
        + ownership_name(e.ownership) + " ownership_reason="@ + collapse_ws(e.ownership_reason)
        + " ownership_subreason="@ + collapse_ws(e.ownership_subreason) + " origin="@ + e.origin
        + " candidate_origin="@ + collapse_ws(e.candidate_origin) + " source="@ + fact_source_name(e.source)
        + " source_of_truth="@ + e.source_of_truth
}

/// The flags of an entry's report line.
pub open spec fn entry_flags(e: LedgerEntryView) -> Seq<char> {
    " changed="@ + bool_text(e.changed) + " read="@ + bool_text(e.read) + " created="@ + bool_text(e.created)
        + " observed="@ + bool_text(e.observed) + " required="@ + bool_text(e.required)
        + " verifier_mentioned="@ + bool_text(e.verifier_mentioned) + " scaffold_created="@ + bool_text(
        e.scaffold_created,
    ) + " setup_created="@ + bool_text(e.setup_created) + " in_scope="@ + bool_text(e.in_scope)
        + " generated_or_cache="@ + bool_text(e.generated_or_cache) + " dependency_or_build_output="@
        + bool_text(e.dependency_or_build_output)
}

/// The diagnostic of an entry's report line, if it has one.
pub open spec fn entry_diagnostic(e: LedgerEntryView) -> Seq<char> {
    match e.diagnostic {
        Some(d) => " diagnostic="@ + collapse_ws(d),
        None => Seq::empty(),
    }
}

/// The report line of an entry.
pub open spec fn entry_line(e: LedgerEntryView) -> Seq<char> {
    entry_head(e) + entry_flags(e) + entry_diagnostic(e)
}

/// The ledger's report lines: one per entry, then the overflow marker if
/// the ledger overflowed.
pub open spec fn ledger_lines(l: LedgerView) -> Seq<Seq<char>> {
    l.0.map_values(|e: LedgerEntryView| entry_line(e)) + if l.1 {
        seq!["artifact_ledger_overflow=true"@]
    } else {
        Seq::empty()
    }
}

fn render_head(e: &ArtifactLedgerEntry) -> (r: String)
    ensures
        r@ == entry_head(e@),
{
    let mut s = copy_string(&e.path);
    push_str(&mut s, " role=");
    push_str(&mut s, e.role.as_str());
    push_str(&mut s, " lifecycle=");
    push_str(&mut s, e.lifecycle.as_str());
    push_str(&mut s, " ownership=");
    push_str(&mut s, e.ownership.as_str());
    push_str(&mut s, " ownership_reason=");
    let a = collapse_ws_str(e.ownership_reason.as_str());
    push_str(&mut s, a.as_str());
    push_str(&mut s, " ownership_subreason=");
    let b = collapse_ws_str(e.ownership_subreason.as_str());
    push_str(&mut s, b.as_str());
    push_str(&mut s, " origin=");
    push_str(&mut s, e.origin.as_str());
    push_str(&mut s, " candidate_origin=");
    let c = collapse_ws_str(e.candidate_origin.as_str());
    push_str(&mut s, c.as_str());
    push_str(&mut s, " source=");
    push_str(&mut s, e.source.as_str());
    push_str(&mut s, " source_of_truth=");
    push_str(&mut s, e.source_of_truth.as_str());
    s
}

fn render_flags(e: &ArtifactLedgerEntry) -> (r: String)
    ensures
        r@ == entry_flags(e@),
{
    let mut s = owned(" changed=");
    push_str(&mut s, bool_str(e.changed));
    push_str(&mut s, " read=");
    push_str(&mut s, bool_str(e.read));
    push_str(&mut s, " created=");
    push_str(&mut s, bool_str(e.created));
    push_str(&mut s, " observed=");
    push_str(&mut s, bool_str(e.observed));
    push_str(&mut s, " required=");
    push_str(&mut s, bool_str(e.required));
    push_str(&mut s, " verifier_mentioned=");
    push_str(&mut s, bool_str(e.verifier_mentioned));
    push_str(&mut s, " scaffold_created=");
    push_str(&mut s, bool_str(e.scaffold_created));
    push_str(&mut s, " setup_created=");
    push_str(&mut s, bool_str(e.setup_created));
    push_str(&mut s, " in_scope=");
    push_str(&mut s, bool_str(e.in_scope));
    push_str(&mut s, " generated_or_cache=");
    push_str(&mut s, bool_str(e.generated_or_cache));
    push_str(&mut s, " dependency_or_build_output=");
    push_str(&mut s, bool_str(e.dependency_or_build_output));
    s
}

fn render_entry(e: &ArtifactLedgerEntry) -> (r: String)
    ensures
        r@ == entry_line(e@),
{
    let mut s = render_head(e);
    let flags = render_flags(e);
    push_str(&mut s, flags.as_str());
    match &e.diagnostic {
        Some(d) => {
            let mut tail = owned(" diagnostic=");
            let t = collapse_ws_str(d.as_str());
            push_str(&mut tail, t.as_str());
            push_str(&mut s, tail.as_str());
        },
        None => {
            assert(s@ =~= s@ + Seq::<char>::empty());
        },
    }
    s
}

/// A list of paths as rendered: `[` the paths joined by `,` `]`.
pub open spec fn bracketed(values: Seq<Seq<char>>) -> Seq<char> {
    "["@ + join(values, ","@) + "]"@
}

/// Which entries a path field lists.
#[derive(Debug, Clone, Copy, PartialEq, Eq, Structural)]
pub enum LedgerPathFilter {
    Read,
    Changed,
    Created,
    VerifierMentioned,
    ScaffoldCreated,
    SetupCreated,
    OutOfScope,
}

/// The entry passes the filter.
pub open spec fn passes(e: LedgerEntryView, f: LedgerPathFilter) -> bool {
    match f {
        LedgerPathFilter::Read => e.read,
        LedgerPathFilter::Changed => e.changed,
        LedgerPathFilter::Created => e.created,
        LedgerPathFilter::VerifierMentioned => e.verifier_mentioned,
        LedgerPathFilter::ScaffoldCreated => e.scaffold_created,
        LedgerPathFilter::SetupCreated => e.setup_created,
        LedgerPathFilter::OutOfScope => e.ownership == ArtifactOwnership::OutOfScope,
    }
}

/// The paths of the entries that pass the filter, in order.
pub open spec fn paths_passing(es: Seq<LedgerEntryView>, f: LedgerPathFilter) -> Seq<Seq<char>>
    decreases es.len(),
{
    if es.len() == 0 {
        Seq::empty()
    } else if passes(es.last(), f) {
        paths_passing(es.drop_last(), f).push(es.last().path)
    } else {
        paths_passing(es.drop_last(), f)
    }
}

/// A path field, present only when some entry passes the filter.
pub open spec fn path_field(es: Seq<LedgerEntryView>, name: Seq<char>, f: LedgerPathFilter) -> Seq<Seq<char>> {
    let ps = paths_passing(es, f);
    if ps.len() == 0 {
        Seq::empty()
    } else {
        seq![name + "="@ + bracketed(ps)]
    }
}

/// The ledger's evaluation fields under a scope.
pub open spec fn ledger_fields(l: LedgerView, kind: Seq<char>, roots: Seq<Seq<char>>) -> Seq<Seq<char>> {
    let n = l.0.len();
    seq![
        "workspace_scope_kind="@ + kind,
        "workspace_scope_roots="@ + bracketed(roots),
        "artifact_ledger_entries="@ + decimal((n + if l.1 { 1nat } else { 0nat }) as nat),
        "artifact_ledger_summary=entries:"@ + decimal(n) + ";overflow:"@ + bool_text(l.1),
    ] + path_field(l.0, "read_paths"@, LedgerPathFilter::Read) + path_field(
        l.0,
        "changed_paths"@,
        LedgerPathFilter::Changed,
    ) + path_field(l.0, "created_paths"@, LedgerPathFilter::Created) + path_field(
        l.0,
        "verifier_mentioned_paths"@,
        LedgerPathFilter::VerifierMentioned,
    ) + path_field(l.0, "scaffold_created_paths"@, LedgerPathFilter::ScaffoldCreated) + path_field(
        l.0,
        "setup_created_paths"@,
        LedgerPathFilter::SetupCreated,
    ) + path_field(l.0, "out_of_scope_paths"@, LedgerPathFilter::OutOfScope) + if l.1 {
        seq!["artifact_ledger_overflow=true"@]
    } else {
        Seq::empty()
    }
}

fn entry_passes(e: &ArtifactLedgerEntry, f: LedgerPathFilter) -> (r: bool)
    ensures
        r == passes(e@, f),
{
    match f {
        LedgerPathFilter::Read => e.read,
        LedgerPathFilter::Changed => e.changed,
        LedgerPathFilter::Created => e.created,
        LedgerPathFilter::VerifierMentioned => e.verifier_mentioned,
        LedgerPathFilter::ScaffoldCreated => e.scaffold_created,
        LedgerPathFilter::SetupCreated => e.setup_created,
        LedgerPathFilter::OutOfScope => e.ownership == ArtifactOwnership::OutOfScope,
    }
}

fn bracket_str(values: &Vec<String>) -> (r: String)
    ensures
        r@ == bracketed(views(values@)),
{
    let mut s = owned("[");
    let joined = join_strings(values, ",");
    push_str(&mut s, joined.as_str());
    push_str(&mut s, "]");
    s
}

impl ArtifactLedgerSummary {
    /// The report lines: one per entry, then `artifact_ledger_overflow=true`
    /// if the ledger overflowed.
    pub fn render_lines(&self) -> (r: Vec<String>)
        ensures
            views(r@) == ledger_lines(ledger_view(*self)),
    {
        let ghost es = ledger_view(*self).0;
        let mut lines: Vec<String> = Vec::new();
        let mut i: usize = 0;
        while i < self.entries.len()
            invariant
                i <= self.entries@.len(),
                es == ledger_view(*self).0,
                views(lines@) == es.take(i as int).map_values(|e: LedgerEntryView| entry_line(e)),
            decreases self.entries.len() - i,
        {
            let ghost before = lines@;
            lines.push(render_entry(&self.entries[i]));
            proof {
                assert(es[i as int] == self.entries@[i as int]@);
                assert(es.take(i + 1) == es.take(i as int).push(es[i as int]));
                assert(views(lines@) =~= views(before).push(entry_line(es[i as int])));
            }
            i = i + 1;
        }
        assert(es.take(es.len() as int) == es);
        let ghost body = views(lines@);
        if self.overflowed {
            lines.push(owned("artifact_ledger_overflow=true"));
            assert(views(lines@) =~= body + seq!["artifact_ledger_overflow=true"@]);
        } else {
            assert(views(lines@) =~= body + Seq::<Seq<char>>::empty());
        }
        lines
    }

    /// The paths of the entries that pass the filter, in order.
    pub fn paths_where(&self, filter: LedgerPathFilter) -> (r: Vec<String>)
        ensures
            views(r@) == paths_passing(ledger_view(*self).0, filter),
    {
        let ghost es = ledger_view(*self).0;
        let mut out: Vec<String> = Vec::new();
        let mut i: usize = 0;
        while i < self.entries.len()
            invariant
                i <= self.entries@.len(),
                es == ledger_view(*self).0,
                views(out@) == paths_passing(es.take(i as int), filter),
            decreases self.entries.len() - i,
        {
            proof {
                assert(es[i as int] == self.entries@[i as int]@);
                assert(es.take(i + 1).drop_last() == es.take(i as int));
                assert(es.take(i + 1).last() == es[i as int]);
            }
            if entry_passes(&self.entries[i], filter) {
                let ghost before = out@;
                out.push(copy_string(&self.entries[i].path));
                assert(views(out@) =~= views(before).push(es[i as int].path));
            }
            i = i + 1;
        }
        assert(es.take(es.len() as int) == es);
        out
    }

    fn push_paths_field(&self, fields: &mut Vec<String>, name: &str, filter: LedgerPathFilter)
        ensures
            views(final(fields)@) == views(old(fields)@) + path_field(ledger_view(*self).0, name@, filter),
    {
        let paths = self.paths_where(filter);
        if paths.len() > 0 {
            let ghost before = views(fields@);
            let mut line = owned(name);
            push_str(&mut line, "=");
            let b = bracket_str(&paths);
            push_str(&mut line, b.as_str());
            fields.push(line);
            assert(views(fields@) =~= before + seq![name@ + "="@ + bracketed(views(paths@))]);
        } else {
            assert(views(fields@) =~= views(fields@) + Seq::<Seq<char>>::empty());
        }
    }

    /// The ledger's evaluation fields: the scope, the entry counts, the
    /// non-empty path lists and the overflow marker.
    pub fn eval_report_fields(&self, scope: &WorkspaceScope) -> (r: Vec<String>)
        requires
            self.entries@.len() < usize::MAX,
        ensures
            views(r@) == ledger_fields(ledger_view(*self), scope_kind_name(scope.kind), scope.root_views()),
    {
        let mut a = owned("workspace_scope_kind=");
        push_str(&mut a, scope.kind.as_str());
        let mut b = owned("workspace_scope_roots=");
        let roots = bracket_str(scope.roots());
        push_str(&mut b, roots.as_str());
        let n = self.entries.len();
        let total = if self.overflowed { n + 1 } else { n };
        let mut c = owned("artifact_ledger_entries=");
        let t = usize_to_string(total);
        push_str(&mut c, t.as_str());
        let mut d = owned("artifact_ledger_summary=entries:");
        let ns = usize_to_string(n);
        push_str(&mut d, ns.as_str());
        push_str(&mut d, ";overflow:");
        push_str(&mut d, bool_str(self.overflowed));
        let mut fields = vec![a, b, c, d];
        proof {
            assert(ledger_view(*self).0.len() == n);
        }
        self.push_paths_field(&mut fields, "read_paths", LedgerPathFilter::Read);
        self.push_paths_field(&mut fields, "changed_paths", LedgerPathFilter::Changed);
        self.push_paths_field(&mut fields, "created_paths", LedgerPathFilter::Created);
        self.push_paths_field(&mut fields, "verifier_mentioned_paths", LedgerPathFilter::VerifierMentioned);
        self.push_paths_field(&mut fields, "scaffold_created_paths", LedgerPathFilter::ScaffoldCreated);
        self.push_paths_field(&mut fields, "setup_created_paths", LedgerPathFilter::SetupCreated);
        self.push_paths_field(&mut fields, "out_of_scope_paths", LedgerPathFilter::OutOfScope);
        let ghost body = views(fields@);
        if self.overflowed {
            fields.push(owned("artifact_ledger_overflow=true"));
            assert(views(fields@) =~= body + seq!["artifact_ledger_overflow=true"@]);
        } else {
            assert(views(fields@) =~= body + Seq::<Seq<char>>::empty());
        }
        fields
    }
}

} // verus!
