//! Ownership of artifacts: whether a path may be treated as the agent's own
//! work, is only a candidate, or lies out of scope.
use crate::artifact_graph::{
    lifecycle_name, node_index, recovery_target_admissible, ArtifactGraph, ArtifactRole, NodeView,
};
use crate::paths::{normalize_path, normalized_path};
use crate::text::{
    contains, copy_string, owned, push_str, starts_with, str_contains, str_eq, str_starts_with, views,
};
use crate::workspace_scope::{scope_holds, scope_summary, WorkspaceScope};
use vstd::prelude::*;

verus! {

/// Whether the agent owns an artifact.
#[derive(Debug, Clone, Copy, PartialEq, Eq, Structural)]
pub enum ArtifactOwnership {
    Owned,
    CandidateOnly,
    OutOfScope,
}

pub open spec fn ownership_name(x: ArtifactOwnership) -> Seq<char> {
    match x {
        ArtifactOwnership::Owned => "owned"@,
        ArtifactOwnership::CandidateOnly => "candidate_only"@,
        ArtifactOwnership::OutOfScope => "out_of_scope"@,
    }
}

impl ArtifactOwnership {
    /// The snake-case name.
    pub fn as_str(self) -> (r: &'static str)
        ensures
            r@ == ownership_name(self),
    {
        match self {
            ArtifactOwnership::Owned => "owned",
            ArtifactOwnership::CandidateOnly => "candidate_only",
            ArtifactOwnership::OutOfScope => "out_of_scope",
        }
    }
}


/// An ownership decision on one path.
#[derive(Debug, Clone, PartialEq, Eq)]
pub struct ArtifactOwnershipDecision {
    pub path: String,
    pub role: ArtifactRole,
    pub ownership: ArtifactOwnership,
    pub reason: String,
    pub source_of_truth: String,
    pub workspace_scope: String,
    pub candidate_origin: String,
    pub admissible_for_repair: bool,
    pub ownership_subreason: String,
}

/// A source whose naming of a target is itself ownership evidence.
pub open spec fn deterministic_source(s: Seq<char>) -> bool {
    ||| s == "failure_evidence"@
    ||| s == "profile_selected_route"@
    ||| s == "verifier_diagnostic"@
    ||| s == "required_artifact"@
    ||| s == "setup_manifest"@
    ||| s == "tool_write_record"@
    ||| s == "tool_edit_record"@
    ||| s == "tool_execution_record"@
    ||| s == "scaffold_delta"@
    ||| s == "setup_delta"@
    ||| s == "completion_evidence"@
    ||| s == "evidence_binding"@
    ||| starts_with(s, "contract."@)
    ||| starts_with(s, "plan."@)
    ||| starts_with(s, "plan_lint."@)
}

fn deterministic_source_owns_target(s: &str) -> (r: bool)
    ensures
        r == deterministic_source(s@),
{
    str_eq(s, "failure_evidence") || str_eq(s, "profile_selected_route") || str_eq(s, "verifier_diagnostic")
        || str_eq(s, "required_artifact") || str_eq(s, "setup_manifest") || str_eq(s, "tool_write_record")
        || str_eq(s, "tool_edit_record") || str_eq(s, "tool_execution_record") || str_eq(s, "scaffold_delta")
        || str_eq(s, "setup_delta") || str_eq(s, "completion_evidence") || str_eq(s, "evidence_binding")
        || str_starts_with(s, "contract.") || str_starts_with(s, "plan.") || str_starts_with(s, "plan_lint.")
}

/// The source of truth behind a source of ownership evidence.
pub open spec fn truth_for(s: Seq<char>) -> Seq<char> {
    if s == "workspace_observation"@ {
        "filesystem"@
    } else if s == "verifier_diagnostic"@ {
        "verifier_output"@
    } else if s == "tool_read_record"@ || s == "tool_write_record"@ || s == "tool_edit_record"@
        || s == "tool_execution_record"@ {
        "tool_record"@
    } else if s == "setup_delta"@ || s == "setup_manifest"@ {
        "setup_contract"@
    } else if s == "scaffold_delta"@ {
        "scaffold_contract"@
    } else if starts_with(s, "contract."@) || starts_with(s, "plan."@) {
        "artifact_graph"@
    } else {
        s
    }
}

/// The source of truth behind a source of ownership evidence.
pub fn source_of_truth_for(s: &str) -> (r: String)
    ensures
        r@ == truth_for(s@),
{
    if str_eq(s, "workspace_observation") {
        owned("filesystem")
    } else if str_eq(s, "verifier_diagnostic") {
        owned("verifier_output")
    } else if str_eq(s, "tool_read_record") || str_eq(s, "tool_write_record") || str_eq(s, "tool_edit_record")
        || str_eq(s, "tool_execution_record") {
        owned("tool_record")
    } else if str_eq(s, "setup_delta") || str_eq(s, "setup_manifest") {
        owned("setup_contract")
    } else if str_eq(s, "scaffold_delta") {
        owned("scaffold_contract")
    } else if str_starts_with(s, "contract.") || str_starts_with(s, "plan.") {
        owned("artifact_graph")
    } else {
        owned(s)
    }
}

/// The finer reason behind a decision.
pub open spec fn subreason_of(
    role: ArtifactRole,
    ownership: ArtifactOwnership,
    reason: Seq<char>,
    source: Seq<char>,
) -> Seq<char> {
    if role == ArtifactRole::DependencyCache {
        "dependency_cache"@
    } else if role == ArtifactRole::GeneratedOutput {
        "generated_output"@
    } else if ownership == ArtifactOwnership::OutOfScope && contains(reason, "workspace"@) {
        "outside_workspace_scope"@
    } else if reason == "changed_by_tool"@ {
        "changed_by_tool"@
    } else if source == "tool_read_record"@ {
        "read_only_observation"@
    } else if source == "verifier_diagnostic"@ {
        "verifier_owned_signal"@
    } else if source == "scaffold_delta"@ {
        "scaffold_delta"@
    } else if source == "setup_delta"@ || source == "setup_manifest"@ {
        "setup_delta"@
    } else {
        reason
    }
}

fn ownership_subreason(role: ArtifactRole, ownership: ArtifactOwnership, reason: &str, source: &str) -> (r: String)
    ensures
        r@ == subreason_of(role, ownership, reason@, source@),
{
    if role == ArtifactRole::DependencyCache {
        owned("dependency_cache")
    } else if role == ArtifactRole::GeneratedOutput {
        owned("generated_output")
    } else if ownership == ArtifactOwnership::OutOfScope && str_contains(reason, "workspace") {
        owned("outside_workspace_scope")
    } else if str_eq(reason, "changed_by_tool") {
        owned("changed_by_tool")
    } else if str_eq(source, "tool_read_record") {
        owned("read_only_observation")
    } else if str_eq(source, "verifier_diagnostic") {
        owned("verifier_owned_signal")
    } else if str_eq(source, "scaffold_delta") {
        owned("scaffold_delta")
    } else if str_eq(source, "setup_delta") || str_eq(source, "setup_manifest") {
        owned("setup_delta")
    } else {
        owned(reason)
    }
}

/// A decision as plain values: path, role, ownership, reason.
pub type OwnershipCore = (Seq<char>, ArtifactRole, ArtifactOwnership, Seq<char>);

/// Some changed path, normalized, is the path.
pub open spec fn changed_here(changed: Seq<Seq<char>>, p: Seq<char>) -> bool {
    exists|k: int| 0 <= k < changed.len() && normalized_path(#[trigger] changed[k]) == p
}

/// The core of the decision on a path: a step target is owned; generated
/// output and dependency caches are out of scope, as is a path outside the
/// workspace scope; a path a tool changed is owned, then a graph node (with
/// the node's role), then a path named by a deterministic source; anything
/// else is only a candidate.
pub open spec fn ownership_core(
    nodes: Seq<NodeView>,
    roots: Seq<Seq<char>>,
    path: Seq<char>,
    role: ArtifactRole,
    source: Seq<char>,
    changed: Seq<Seq<char>>,
) -> OwnershipCore {
    let p = normalized_path(path);
    let j = node_index(nodes, normalized_path(p));
    if starts_with(p, "step:"@) {
        (p, role, ArtifactOwnership::Owned, "step_contract_target"@)
    } else if role == ArtifactRole::GeneratedOutput || role == ArtifactRole::DependencyCache {
        (p, role, ArtifactOwnership::OutOfScope, "generated_or_dependency_cache"@)
    } else if !scope_holds(roots, p) {
        (p, role, ArtifactOwnership::OutOfScope, "outside_workspace_scope"@)
    } else if changed_here(changed, p) {
        (p, role, ArtifactOwnership::Owned, "changed_by_tool"@)
    } else if j >= 0 {
        (
            p,
            nodes[j].role,
            ArtifactOwnership::Owned,
            "artifact_graph:"@ + nodes[j].source + ":"@ + lifecycle_name(nodes[j].lifecycle),
        )
    } else if deterministic_source(source) {
        (p, role, ArtifactOwnership::Owned, "deterministic_source:"@ + source)
    } else {
        (p, role, ArtifactOwnership::CandidateOnly, "candidate_without_ownership"@)
    }
}

/// The full decision: the core, plus repair admissibility, the source of
/// truth, the scope summary, the candidate's origin and the subreason.
pub open spec fn decides(
    d: ArtifactOwnershipDecision,
    core: OwnershipCore,
    source: Seq<char>,
    scope: WorkspaceScope,
) -> bool {
    &&& d.path@ == core.0
    &&& d.role == core.1
    &&& d.ownership == core.2
    &&& d.reason@ == core.3
    &&& d.admissible_for_repair == (core.2 == ArtifactOwnership::Owned && core.1 != ArtifactRole::GeneratedOutput
        && core.1 != ArtifactRole::DependencyCache)
    &&& d.source_of_truth@ == truth_for(source)
    &&& d.workspace_scope@ == scope_summary(scope.kind, scope.root_views())
    &&& d.candidate_origin@ == source
    &&& d.ownership_subreason@ == subreason_of(core.1, core.2, core.3, source)
}

fn decision(
    path: String,
    role: ArtifactRole,
    ownership: ArtifactOwnership,
    reason: String,
    source: &str,
    scope: &WorkspaceScope,
) -> (r: ArtifactOwnershipDecision)
    ensures
        decides(r, (path@, role, ownership, reason@), source@, *scope),
{
    let admissible_for_repair = ownership == ArtifactOwnership::Owned && recovery_target_admissible(role);
    let subreason = ownership_subreason(role, ownership, reason.as_str(), source);
    ArtifactOwnershipDecision {
        path,
        role,
        ownership,
        reason,
        source_of_truth: source_of_truth_for(source),
        workspace_scope: scope.summary(),
        candidate_origin: owned(source),
        admissible_for_repair,
        ownership_subreason: subreason,
    }
}

/// Whether some changed path, normalized, is the path.
pub fn changed_contains(changed: &[String], p: &str) -> (r: bool)
    ensures
        r == changed_here(views(changed@), p@),
{
    let mut k: usize = 0;
    while k < changed.len()
        invariant
            k <= changed@.len(),
            forall|j: int| 0 <= j < k ==> normalized_path(#[trigger] views(changed@)[j]) != p@,
        decreases changed.len() - k,
    {
        let n = normalize_path(changed[k].as_str());
        if str_eq(n.as_str(), p) {
            assert(normalized_path(views(changed@)[k as int]) == p@);
            return true;
        }
        k = k + 1;
    }
    false
}

/// Decides whether the agent owns an artifact.
pub fn classify_artifact_ownership(
    graph: &ArtifactGraph,
    scope: &WorkspaceScope,
    path: &str,
    role: ArtifactRole,
    source: &str,
    changed_paths: &[String],
) -> (r: ArtifactOwnershipDecision)
    ensures
        decides(
            r,
            ownership_core(graph@.nodes, scope.root_views(), path@, role, source@, views(changed_paths@)),
            source@,
            *scope,
        ),
{
    let p = normalize_path(path);
    if str_starts_with(p.as_str(), "step:") {
        return decision(p, role, ArtifactOwnership::Owned, owned("step_contract_target"), source, scope);
    }
    if !recovery_target_admissible(role) {
        return decision(
            p,
            role,
            ArtifactOwnership::OutOfScope,
            owned("generated_or_dependency_cache"),
            source,
            scope,
        );
    }
    if !scope.contains_path(p.as_str()) {
        return decision(p, role, ArtifactOwnership::OutOfScope, owned("outside_workspace_scope"), source, scope);
    }
    if changed_contains(changed_paths, p.as_str()) {
        return decision(p, role, ArtifactOwnership::Owned, owned("changed_by_tool"), source, scope);
    }
    match graph.node(p.as_str()) {
        Some(node) => {
            let mut reason = owned("artifact_graph:");
            push_str(&mut reason, node.source.as_str());
            push_str(&mut reason, ":");
            push_str(&mut reason, node.lifecycle.as_str());
            let node_role = node.role;
            return decision(p, node_role, ArtifactOwnership::Owned, reason, source, scope);
        },
        None => {},
    }
    if deterministic_source_owns_target(source) {
        let mut reason = owned("deterministic_source:");
        push_str(&mut reason, source);
        return decision(p, role, ArtifactOwnership::Owned, reason, source, scope);
    }
    decision(p, role, ArtifactOwnership::CandidateOnly, owned("candidate_without_ownership"), source, scope)
}

} // verus!
