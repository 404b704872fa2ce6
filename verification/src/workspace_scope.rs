//! The workspace scope: which part of the workspace the agent's artifacts
//! may live in.
//!
//! A scope is its kind and its roots. A path is in scope when, normalized,
//! it stays inside the workspace and lies under one of the roots; the root
//! `.` is the whole workspace.
use crate::artifact_graph::ArtifactGraph;
use crate::integrity_guard::{invalid_workspace_path, outside_workspace};
use crate::paths::{normalize_path, normalized_path};
use crate::text::{join, join_strings, owned, push_str, starts_with, str_eq, str_starts_with, views};
use vstd::prelude::*;

verus! {

/// How the workspace is laid out.
#[derive(Debug, Clone, Copy, PartialEq, Eq, Structural)]
pub enum WorkspaceScopeKind {
    Greenfield,
    SingleProjectRoot,
}

pub open spec fn scope_kind_name(k: WorkspaceScopeKind) -> Seq<char> {
    match k {
        WorkspaceScopeKind::Greenfield => "greenfield"@,
        WorkspaceScopeKind::SingleProjectRoot => "single_project_root"@,
    }
}

impl WorkspaceScopeKind {
    /// The snake-case name.
    pub fn as_str(self) -> (r: &'static str)
        ensures
            r@ == scope_kind_name(self),
    {
        match self {
            WorkspaceScopeKind::Greenfield => "greenfield",
            WorkspaceScopeKind::SingleProjectRoot => "single_project_root",
        }
    }
}

/// A workspace scope: its kind and its roots.
#[derive(Debug, Clone, PartialEq, Eq)]
pub struct WorkspaceScope {
    pub kind: WorkspaceScopeKind,
    pub roots: Vec<String>,
}

/// The path lies under the root.
pub open spec fn under_root(p: Seq<char>, root: Seq<char>) -> bool {
    root == "."@ || p == root || starts_with(p, root + "/"@)
}

/// The normalized path stays in the workspace and lies under a root.
pub open spec fn scope_holds(roots: Seq<Seq<char>>, path: Seq<char>) -> bool {
    let p = normalized_path(path);
    !outside_workspace(p) && exists|k: int| 0 <= k < roots.len() && under_root(p, #[trigger] roots[k])
}

/// The scope's summary line.
pub open spec fn scope_summary(kind: WorkspaceScopeKind, roots: Seq<Seq<char>>) -> Seq<char> {
    "kind="@ + scope_kind_name(kind) + " roots=["@ + join(roots, ","@) + "]"@
}

impl WorkspaceScope {
    /// The scope's roots as plain values.
    pub open spec fn root_views(&self) -> Seq<Seq<char>> {
        views(self.roots@)
    }

    /// A new project: the whole workspace.
    pub fn greenfield() -> (r: Self)
        ensures
            r.kind == WorkspaceScopeKind::Greenfield,
            r.root_views() == seq!["."@],
    {
        let r = WorkspaceScope { kind: WorkspaceScopeKind::Greenfield, roots: vec![owned(".")] };
        assert(views(r.roots@) =~= seq!["."@]);
        r
    }

    /// The scope of a project planned by an artifact graph: one project at
    /// the workspace root.
    pub fn from_graph(graph: &ArtifactGraph) -> (r: Self)
        ensures
            r.kind == WorkspaceScopeKind::SingleProjectRoot,
            r.root_views() == seq!["."@],
    {
        let r = WorkspaceScope { kind: WorkspaceScopeKind::SingleProjectRoot, roots: vec![owned(".")] };
        assert(views(r.roots@) =~= seq!["."@]);
        r
    }

    /// The roots.
    pub fn roots(&self) -> (r: &Vec<String>)
        ensures
            views(r@) == self.root_views(),
    {
        &self.roots
    }

    /// Whether the path, normalized, stays in the workspace under a root.
    pub fn contains_path(&self, path: &str) -> (r: bool)
        ensures
            r == scope_holds(self.root_views(), path@),
    {
        let p = normalize_path(path);
        if invalid_workspace_path(p.as_str()) {
            return false;
        }
        let mut k: usize = 0;
        while k < self.roots.len()
            invariant
                k <= self.roots@.len(),
                p@ == normalized_path(path@),
                !outside_workspace(p@),
                forall|j: int| 0 <= j < k ==> !under_root(p@, #[trigger] views(self.roots@)[j]),
            decreases self.roots.len() - k,
        {
            let root = self.roots[k].as_str();
            let mut prefix = owned(root);
            push_str(&mut prefix, "/");
            if str_eq(root, ".") || str_eq(p.as_str(), root) || str_starts_with(p.as_str(), prefix.as_str()) {
                assert(under_root(p@, views(self.roots@)[k as int]));
                return true;
            }
            k = k + 1;
        }
        false
    }

    /// `kind=<kind> roots=[<roots joined by ,>]`.
    pub fn summary(&self) -> (r: String)
        ensures
            r@ == scope_summary(self.kind, self.root_views()),
    {
        let mut s = owned("kind=");
        push_str(&mut s, self.kind.as_str());
        push_str(&mut s, " roots=[");
        let joined = join_strings(&self.roots, ",");
        push_str(&mut s, joined.as_str());
        push_str(&mut s, "]");
        s
    }
}

} // verus!
