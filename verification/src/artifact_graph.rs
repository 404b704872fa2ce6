//! A graph of the workspace artifacts a plan or a contract speaks of: each
//! path once, with its role and lifecycle, and the relations between paths.
use crate::correction_evidence::ContractEvidence;
use crate::paths::{normalize_path, normalized_path, one_of, raw_extension, raw_extension_is, strip_dot_slash};
use crate::plan::{StepKind, StepPlan, StepPlanStep};
use crate::plan_lint::{exists_in, path_exists, ws_view};
use crate::profile_artifact::{
    build_output, config_path, dependency_cache, is_build_output_path, is_config_path,
    is_dependency_cache_path, is_manifest_path, manifest_path,
};
use crate::text::{
    contains, copy_string, is_blank, is_blank_str, opt_is, opt_view, owned, push_str,
    starts_with, str_contains, str_eq, str_starts_with, views, chars_of, slice_range, string_of,
    split_words, words,
};
use vstd::prelude::*;

verus! {

/// The role an artifact plays in the project.
#[derive(Debug, Clone, Copy, PartialEq, Eq, Structural, PartialOrd, Ord)]
pub enum ArtifactRole {
    SetupManifest,
    SetupConfig,
    Entrypoint,
    IntegrationTarget,
    Implementation,
    Test,
    Docs,
    GeneratedOutput,
    DependencyCache,
    Unknown,
}

/// Where an artifact stands: already there, owed, or to be made.
#[derive(Debug, Clone, Copy, PartialEq, Eq, Structural)]
pub enum ArtifactLifecycle {
    Existing,
    Required,
    ToBeCreated,
    SetupManifest,
    IntegrationTarget,
    GeneratedOutput,
}

/// How one artifact relates to another.
#[derive(Debug, Clone, Copy, PartialEq, Eq, Structural)]
pub enum ArtifactRelationKind {
    Produces,
    Consumes,
    Integrates,
    Verifies,
    RequiresSetupFrom,
}

pub open spec fn role_name(r: ArtifactRole) -> Seq<char> {
    match r {
        ArtifactRole::SetupManifest => "setup_manifest"@,
        ArtifactRole::SetupConfig => "setup_config"@,
        ArtifactRole::Entrypoint => "entrypoint"@,
        ArtifactRole::IntegrationTarget => "integration_target"@,
        ArtifactRole::Implementation => "implementation"@,
        ArtifactRole::Test => "test"@,
        ArtifactRole::Docs => "docs"@,
        ArtifactRole::GeneratedOutput => "generated_output"@,
        ArtifactRole::DependencyCache => "dependency_cache"@,
        ArtifactRole::Unknown => "unknown"@,
    }
}

pub open spec fn lifecycle_name(l: ArtifactLifecycle) -> Seq<char> {
    match l {
        ArtifactLifecycle::Existing => "existing"@,
        ArtifactLifecycle::Required => "required"@,
        ArtifactLifecycle::ToBeCreated => "to_be_created"@,
        ArtifactLifecycle::SetupManifest => "setup_manifest"@,
        ArtifactLifecycle::IntegrationTarget => "integration_target"@,
        ArtifactLifecycle::GeneratedOutput => "generated_output"@,
    }
}

pub open spec fn relation_kind_name(k: ArtifactRelationKind) -> Seq<char> {
    match k {
        ArtifactRelationKind::Produces => "produces"@,
        ArtifactRelationKind::Consumes => "consumes"@,
        ArtifactRelationKind::Integrates => "integrates"@,
        ArtifactRelationKind::Verifies => "verifies"@,
        ArtifactRelationKind::RequiresSetupFrom => "requires_setup_from"@,
    }
}

impl ArtifactRole {
    pub fn as_str(self) -> (r: &'static str)
        ensures
            r@ == role_name(self),
    {
        match self {
            ArtifactRole::SetupManifest => "setup_manifest",
            ArtifactRole::SetupConfig => "setup_config",
            ArtifactRole::Entrypoint => "entrypoint",
            ArtifactRole::IntegrationTarget => "integration_target",
            ArtifactRole::Implementation => "implementation",
            ArtifactRole::Test => "test",
            ArtifactRole::Docs => "docs",
            ArtifactRole::GeneratedOutput => "generated_output",
            ArtifactRole::DependencyCache => "dependency_cache",
            ArtifactRole::Unknown => "unknown",
        }
    }
}

impl ArtifactLifecycle {
    pub fn as_str(self) -> (r: &'static str)
        ensures
            r@ == lifecycle_name(self),
    {
        match self {
            ArtifactLifecycle::Existing => "existing",
            ArtifactLifecycle::Required => "required",
            ArtifactLifecycle::ToBeCreated => "to_be_created",
            ArtifactLifecycle::SetupManifest => "setup_manifest",
            ArtifactLifecycle::IntegrationTarget => "integration_target",
            ArtifactLifecycle::GeneratedOutput => "generated_output",
        }
    }
}

impl ArtifactRelationKind {
    pub fn as_str(self) -> (r: &'static str)
        ensures
            r@ == relation_kind_name(self),
    {
        match self {
            ArtifactRelationKind::Produces => "produces",
            ArtifactRelationKind::Consumes => "consumes",
            ArtifactRelationKind::Integrates => "integrates",
            ArtifactRelationKind::Verifies => "verifies",
            ArtifactRelationKind::RequiresSetupFrom => "requires_setup_from",
        }
    }
}

/// One artifact of the graph.
#[derive(Debug, Clone, PartialEq, Eq)]
pub struct ArtifactNode {
    pub path: String,
    pub role: ArtifactRole,
    pub lifecycle: ArtifactLifecycle,
    pub source: String,
}

/// A directed relation between two artifacts.
#[derive(Debug, Clone, PartialEq, Eq)]
pub struct ArtifactRelation {
    pub from: String,
    pub to: String,
    pub kind: ArtifactRelationKind,
}

/// An artifact as a mathematical value.
pub struct NodeView {
    pub path: Seq<char>,
    pub role: ArtifactRole,
    pub lifecycle: ArtifactLifecycle,
    pub source: Seq<char>,
}

/// A relation as a mathematical value.
pub struct RelationView {
    pub from: Seq<char>,
    pub to: Seq<char>,
    pub kind: ArtifactRelationKind,
}

/// A graph as a mathematical value: its nodes and relations in insertion
/// order.
pub struct GraphView {
    pub nodes: Seq<NodeView>,
    pub relations: Seq<RelationView>,
}

impl View for ArtifactNode {
    type V = NodeView;

    open spec fn view(&self) -> NodeView {
        NodeView { path: self.path@, role: self.role, lifecycle: self.lifecycle, source: self.source@ }
    }
}

impl View for ArtifactRelation {
    type V = RelationView;

    open spec fn view(&self) -> RelationView {
        RelationView { from: self.from@, to: self.to@, kind: self.kind }
    }
}

/// The artifacts a plan or contract speaks of and how they relate.
#[derive(Debug, Clone, PartialEq, Eq)]
pub struct ArtifactGraph {
    nodes: Vec<ArtifactNode>,
    relations: Vec<ArtifactRelation>,
}

impl View for ArtifactGraph {
    type V = GraphView;

    closed spec fn view(&self) -> GraphView {
        GraphView {
            nodes: self.nodes@.map_values(|n: ArtifactNode| n@),
            relations: self.relations@.map_values(|r: ArtifactRelation| r@),
        }
    }
}

// ---------------------------------------------------------------------------
// Path roles
// ---------------------------------------------------------------------------

pub open spec fn entrypoint_path(p: Seq<char>) -> bool {
    one_of(
        p,
        seq![
            "app/page.tsx"@,
            "app/page.jsx"@,
            "src/app/page.tsx"@,
            "src/app/page.jsx"@,
            "pages/index.tsx"@,
            "pages/index.jsx"@,
            "src/pages/index.tsx"@,
            "src/pages/index.jsx"@,
            "src/main.rs"@,
            "main.py"@,
            "app/main.py"@,
        ],
    )
}

/// What follows the last `.` of the path is one of the extensions.
pub open spec fn raw_ext_in(p: Seq<char>, exts: Seq<Seq<char>>) -> bool {
    match raw_extension(p) {
        Some(e) => one_of(e, exts),
        None => false,
    }
}

pub open spec fn test_path(p: Seq<char>) -> bool {
    (starts_with(p, "tests/"@) || contains(p, "/tests/"@)) && raw_ext_in(p, seq!["rs"@, "py"@])
}

pub open spec fn docs_path(p: Seq<char>) -> bool {
    p == "README.md"@ || (starts_with(p, "docs/"@) && raw_ext_in(p, seq!["md"@]))
}

pub open spec fn source_path(p: Seq<char>) -> bool {
    raw_ext_in(p, seq!["ts"@, "tsx"@, "js"@, "jsx"@, "rs"@, "py"@, "css"@])
}

/// The role of a normalized path seen with the given lifecycle.
pub open spec fn role_of(p: Seq<char>, lifecycle: ArtifactLifecycle) -> ArtifactRole {
    if starts_with(p, "step:"@) {
        ArtifactRole::Unknown
    } else if dependency_cache(p) {
        ArtifactRole::DependencyCache
    } else if build_output(p) || lifecycle == ArtifactLifecycle::GeneratedOutput {
        ArtifactRole::GeneratedOutput
    } else if manifest_path(p) {
        ArtifactRole::SetupManifest
    } else if config_path(p) {
        ArtifactRole::SetupConfig
    } else if entrypoint_path(p) {
        ArtifactRole::Entrypoint
    } else if test_path(p) {
        ArtifactRole::Test
    } else if docs_path(p) {
        ArtifactRole::Docs
    } else if source_path(p) {
        if lifecycle == ArtifactLifecycle::IntegrationTarget {
            ArtifactRole::IntegrationTarget
        } else {
            ArtifactRole::Implementation
        }
    } else {
        ArtifactRole::Unknown
    }
}

/// Neither a dependency manifest nor a tool configuration is named like an
/// entry page or main module.
proof fn lemma_entry_name_not_setup(p: Seq<char>)
    requires
        ({
            let name = crate::paths::file_name(p);
            name == "page.tsx"@ || name == "page.jsx"@ || name == "index.tsx"@ || name == "index.jsx"@
                || name == "main.rs"@ || name == "main.py"@
        }),
    ensures
        !manifest_path(p),
        !config_path(p),
{
    let name = crate::paths::file_name(p);
    reveal_strlit("page.tsx");
    reveal_strlit("page.jsx");
    reveal_strlit("index.tsx");
    reveal_strlit("index.jsx");
    reveal_strlit("main.rs");
    reveal_strlit("main.py");
    assert(!manifest_path(p)) by {
        reveal_strlit("package.json");
        reveal_strlit("package-lock.json");
        reveal_strlit("pnpm-lock.yaml");
        reveal_strlit("yarn.lock");
        reveal_strlit("Cargo.toml");
        reveal_strlit("Cargo.lock");
        reveal_strlit("pyproject.toml");
        reveal_strlit("setup.py");
        reveal_strlit("requirements");
        crate::text::lemma_differs_at(name, "requirements"@, 0);
        if name.len() == 9 {
            crate::text::lemma_differs_at(name, "yarn.lock"@, 0);
        }
        if name.len() == 8 {
            crate::text::lemma_differs_at(name, "setup.py"@, 0);
        }
    }
    assert(!config_path(p)) by {
        reveal_strlit("tsconfig.json");
        reveal_strlit("next.config.");
        reveal_strlit("tailwind.config.");
        reveal_strlit("postcss.config.");
        reveal_strlit("pytest.ini");
        reveal_strlit("tox.ini");
        reveal_strlit(".flake8");
        reveal_strlit("mypy.ini");
        crate::text::lemma_differs_at(name, "next.config."@, 0);
        crate::text::lemma_differs_at(name, "tailwind.config."@, 0);
        crate::text::lemma_differs_at(name, "postcss.config."@, 1);
        if name.len() == 7 {
            crate::text::lemma_differs_at(name, "tox.ini"@, 0);
            crate::text::lemma_differs_at(name, ".flake8"@, 0);
        }
        if name.len() == 8 {
            crate::text::lemma_differs_at(name, "mypy.ini"@, 0);
        }
        let l: Seq<Seq<char>> = seq!["pytest.ini"@, "tox.ini"@, ".flake8"@, "mypy.ini"@];
        assert(!l.contains(name)) by {
            if l.contains(name) {
                let k = choose|k: int| 0 <= k < l.len() && l[k] == name;
                assert(k == 0 || k == 1 || k == 2 || k == 3);
            }
        }
    }
}

/// The shape that keeps a path out of every role tested before the
/// entrypoint role: it opens with a letter that starts none of the
/// reserved prefixes, ends without whitespace, has no backslash, `_` or
/// `v`, and is named like an entry page or main module.
spec fn entry_shaped(n: Seq<char>) -> bool {
    let name = crate::paths::file_name(n);
    &&& n.len() > 1
    &&& (n[0] == 'a' || n[0] == 'p' || n[0] == 'm' || (n[0] == 's' && n[1] == 'r'))
    &&& !crate::text::is_ws(n.last())
    &&& !crate::text::has_char(n, '\\')
    &&& !crate::text::has_char(n, '_')
    &&& !crate::text::has_char(n, 'v')
    &&& (name == "page.tsx"@ || name == "page.jsx"@ || name == "index.tsx"@ || name == "index.jsx"@
        || name == "main.rs"@ || name == "main.py"@)
}

proof fn lemma_entry_shaped_role(n: Seq<char>, lc: ArtifactLifecycle)
    requires
        entry_shaped(n),
        entrypoint_path(n),
        lc != ArtifactLifecycle::GeneratedOutput,
    ensures
        role_of(n, lc) == ArtifactRole::Entrypoint,
{
    assert(!starts_with(n, "step:"@)) by {
        reveal_strlit("step:");
        if n[0] == 's' {
            crate::text::lemma_differs_at(n, "step:"@, 1);
        } else {
            crate::text::lemma_differs_at(n, "step:"@, 0);
        }
    }
    assert(normalized_path(n) == n) by {
        assert(crate::text::trim_start(n) == n);
        assert(crate::text::trim_end(n) == n);
        assert(strip_dot_slash(n) == n);
        assert(crate::paths::forward_slashes(n) =~= n);
    }
    assert(!dependency_cache(n)) by {
        reveal_strlit("node_modules/");
        reveal_strlit(".venv/");
        reveal_strlit("venv/");
        reveal_strlit("/node_modules/");
        reveal_strlit("/.venv/");
        reveal_strlit("/venv/");
        crate::text::lemma_differs_at(n, "node_modules/"@, 0);
        crate::text::lemma_differs_at(n, ".venv/"@, 0);
        crate::text::lemma_differs_at(n, "venv/"@, 0);
        if contains(n, "/node_modules/"@) {
            crate::text::lemma_contains_has_char(n, "/node_modules/"@, 5);
        }
        if contains(n, "/.venv/"@) {
            crate::text::lemma_contains_has_char(n, "/.venv/"@, 2);
        }
        if contains(n, "/venv/"@) {
            crate::text::lemma_contains_has_char(n, "/venv/"@, 1);
        }
    }
    assert(!build_output(n)) by {
        reveal_strlit(".next/");
        reveal_strlit("target/");
        reveal_strlit("dist/");
        reveal_strlit("build/");
        crate::text::lemma_differs_at(n, ".next/"@, 0);
        crate::text::lemma_differs_at(n, "target/"@, 0);
        crate::text::lemma_differs_at(n, "dist/"@, 0);
        crate::text::lemma_differs_at(n, "build/"@, 0);
    }
    lemma_entry_name_not_setup(n);
}

/// The entry pages of a Next.js app and the main modules of Rust and
/// Python projects are entrypoints, however the path is written and
/// whatever its lifecycle, unless it is declared generated output.
pub proof fn lemma_entrypoint_paths(path: Seq<char>, lc: ArtifactLifecycle)
    requires
        ({
            let n = normalized_path(path);
            ||| n == "app/page.tsx"@
            ||| n == "app/page.jsx"@
            ||| n == "src/app/page.tsx"@
            ||| n == "src/app/page.jsx"@
            ||| n == "pages/index.tsx"@
            ||| n == "pages/index.jsx"@
            ||| n == "src/pages/index.tsx"@
            ||| n == "src/pages/index.jsx"@
            ||| n == "src/main.rs"@
            ||| n == "main.py"@
            ||| n == "app/main.py"@
        }),
        lc != ArtifactLifecycle::GeneratedOutput,
    ensures
        role_of(normalized_path(path), lc) == ArtifactRole::Entrypoint,
{
    let n = normalized_path(path);
    if n == "app/page.tsx"@ {
        assert(entry_shaped(n)) by {
            reveal_strlit("app/page.tsx");
            reveal_strlit("page.tsx");
            reveal_with_fuel(crate::paths::after_last, 12);
            assert(crate::paths::file_name(n) == "page.tsx"@);
        }
    }
    if n == "app/page.jsx"@ {
        assert(entry_shaped(n)) by {
            reveal_strlit("app/page.jsx");
            reveal_strlit("page.jsx");
            reveal_with_fuel(crate::paths::after_last, 12);
            assert(crate::paths::file_name(n) == "page.jsx"@);
        }
    }
    if n == "src/app/page.tsx"@ {
        assert(entry_shaped(n)) by {
            reveal_strlit("src/app/page.tsx");
            reveal_strlit("page.tsx");
            reveal_with_fuel(crate::paths::after_last, 12);
            assert(crate::paths::file_name(n) == "page.tsx"@);
        }
    }
    if n == "src/app/page.jsx"@ {
        assert(entry_shaped(n)) by {
            reveal_strlit("src/app/page.jsx");
            reveal_strlit("page.jsx");
            reveal_with_fuel(crate::paths::after_last, 12);
            assert(crate::paths::file_name(n) == "page.jsx"@);
        }
    }
    if n == "pages/index.tsx"@ {
        assert(entry_shaped(n)) by {
            reveal_strlit("pages/index.tsx");
            reveal_strlit("index.tsx");
            reveal_with_fuel(crate::paths::after_last, 12);
            assert(crate::paths::file_name(n) == "index.tsx"@);
        }
    }
    if n == "pages/index.jsx"@ {
        assert(entry_shaped(n)) by {
            reveal_strlit("pages/index.jsx");
            reveal_strlit("index.jsx");
            reveal_with_fuel(crate::paths::after_last, 12);
            assert(crate::paths::file_name(n) == "index.jsx"@);
        }
    }
    if n == "src/pages/index.tsx"@ {
        assert(entry_shaped(n)) by {
            reveal_strlit("src/pages/index.tsx");
            reveal_strlit("index.tsx");
            reveal_with_fuel(crate::paths::after_last, 12);
            assert(crate::paths::file_name(n) == "index.tsx"@);
        }
    }
    if n == "src/pages/index.jsx"@ {
        assert(entry_shaped(n)) by {
            reveal_strlit("src/pages/index.jsx");
            reveal_strlit("index.jsx");
            reveal_with_fuel(crate::paths::after_last, 12);
            assert(crate::paths::file_name(n) == "index.jsx"@);
        }
    }
    if n == "src/main.rs"@ {
        assert(entry_shaped(n)) by {
            reveal_strlit("src/main.rs");
            reveal_strlit("main.rs");
            reveal_with_fuel(crate::paths::after_last, 12);
            assert(crate::paths::file_name(n) == "main.rs"@);
        }
    }
    if n == "main.py"@ {
        assert(entry_shaped(n)) by {
            reveal_strlit("main.py");
            reveal_strlit("main.py");
            reveal_with_fuel(crate::paths::after_last, 12);
            assert(crate::paths::file_name(n) == "main.py"@);
        }
    }
    if n == "app/main.py"@ {
        assert(entry_shaped(n)) by {
            reveal_strlit("app/main.py");
            reveal_strlit("main.py");
            reveal_with_fuel(crate::paths::after_last, 12);
            assert(crate::paths::file_name(n) == "main.py"@);
        }
    }
    assert(entrypoint_path(n));
    lemma_entry_shaped_role(n, lc);
}

/// A path named like a dependency manifest or lock file (`package.json`,
/// `package-lock.json`, `pnpm-lock.yaml`, `yarn.lock`, `Cargo.toml`,
/// `Cargo.lock`, `pyproject.toml`, `setup.py`, `requirements*.txt`) is a
/// setup manifest, and one named like a tool configuration (`tsconfig.json`,
/// `next.config.*`, `tailwind.config.*`, `postcss.config.*`, `pytest.ini`,
/// `tox.ini`, `.flake8`, `mypy.ini`) is setup configuration, wherever it
/// sits, unless it is a step reference, lies in a dependency cache or a
/// build output, or is declared generated output.
pub proof fn lemma_setup_file_roles(n: Seq<char>, lc: ArtifactLifecycle)
    requires
        !starts_with(n, "step:"@),
        !dependency_cache(n),
        !build_output(n),
        lc != ArtifactLifecycle::GeneratedOutput,
    ensures
        ({
            let name = crate::paths::file_name(n);
            ||| name == "package.json"@
            ||| name == "package-lock.json"@
            ||| name == "pnpm-lock.yaml"@
            ||| name == "yarn.lock"@
            ||| name == "Cargo.toml"@
            ||| name == "Cargo.lock"@
            ||| name == "pyproject.toml"@
            ||| name == "setup.py"@
            ||| (starts_with(name, "requirements"@) && crate::text::ends_with(name, ".txt"@))
        }) ==> role_of(n, lc) == ArtifactRole::SetupManifest,
        ({
            let name = crate::paths::file_name(n);
            !manifest_path(n) && {
                ||| name == "tsconfig.json"@
                ||| starts_with(name, "next.config."@)
                ||| starts_with(name, "tailwind.config."@)
                ||| starts_with(name, "postcss.config."@)
                ||| name == "pytest.ini"@
                ||| name == "tox.ini"@
                ||| name == ".flake8"@
                ||| name == "mypy.ini"@
            }
        }) ==> role_of(n, lc) == ArtifactRole::SetupConfig,
{
    let l: Seq<Seq<char>> = seq!["pytest.ini"@, "tox.ini"@, ".flake8"@, "mypy.ini"@];
    assert(l[0] == "pytest.ini"@ && l[1] == "tox.ini"@ && l[2] == ".flake8"@ && l[3] == "mypy.ini"@);
}

/// The roles a path gets from where it lies and what it is called. Under
/// `node_modules/`, `.venv/` or `venv/` (at the start or after a `/`) it is
/// a dependency cache; otherwise under `.next/`, `target/`, `dist/` or
/// `build/`, or declared generated output, it is generated output. Past
/// the setup files and entrypoints, a `.rs` or `.py` file under a `tests/`
/// directory is a test; otherwise `README.md` or a `.md` file under
/// `docs/` is documentation; otherwise a `.ts`, `.tsx`, `.js`, `.jsx`,
/// `.rs`, `.py` or `.css` file is implementation (or the integration
/// target, when planned as one); anything else has no known role.
pub proof fn lemma_path_roles(n: Seq<char>, lc: ArtifactLifecycle)
    requires
        !starts_with(n, "step:"@),
    ensures
        ({
            let m = normalized_path(n);
            ||| starts_with(m, "node_modules/"@)
            ||| starts_with(m, ".venv/"@)
            ||| starts_with(m, "venv/"@)
            ||| contains(m, "/node_modules/"@)
            ||| contains(m, "/.venv/"@)
            ||| contains(m, "/venv/"@)
        }) ==> role_of(n, lc) == ArtifactRole::DependencyCache,
        ({
            let m = normalized_path(n);
            !dependency_cache(n) && (starts_with(m, ".next/"@) || starts_with(m, "target/"@) || starts_with(
                m,
                "dist/"@,
            ) || starts_with(m, "build/"@) || lc == ArtifactLifecycle::GeneratedOutput)
        }) ==> role_of(n, lc) == ArtifactRole::GeneratedOutput,
        ({
            let past_setup = !dependency_cache(n) && !build_output(n) && lc != ArtifactLifecycle::GeneratedOutput
                && !manifest_path(n) && !config_path(n) && !entrypoint_path(n);
            let ext = raw_extension(n);
            let is_test = (starts_with(n, "tests/"@) || contains(n, "/tests/"@)) && (ext == Some("rs"@) || ext
                == Some("py"@));
            let is_docs = n == "README.md"@ || (starts_with(n, "docs/"@) && ext == Some("md"@));
            let is_source = ext == Some("ts"@) || ext == Some("tsx"@) || ext == Some("js"@) || ext == Some("jsx"@)
                || ext == Some("rs"@) || ext == Some("py"@) || ext == Some("css"@);
            &&& past_setup && is_test ==> role_of(n, lc) == ArtifactRole::Test
            &&& past_setup && !is_test && is_docs ==> role_of(n, lc) == ArtifactRole::Docs
            &&& past_setup && !is_test && !is_docs && is_source ==> role_of(n, lc) == (if lc
                == ArtifactLifecycle::IntegrationTarget {
                ArtifactRole::IntegrationTarget
            } else {
                ArtifactRole::Implementation
            })
            &&& past_setup && !is_test && !is_docs && !is_source ==> role_of(n, lc) == ArtifactRole::Unknown
        }),
{
    let t: Seq<Seq<char>> = seq!["rs"@, "py"@];
    assert(t[0] == "rs"@ && t[1] == "py"@);
    let d: Seq<Seq<char>> = seq!["md"@];
    assert(d[0] == "md"@);
    let src: Seq<Seq<char>> = seq!["ts"@, "tsx"@, "js"@, "jsx"@, "rs"@, "py"@, "css"@];
    assert(src[0] == "ts"@ && src[1] == "tsx"@ && src[2] == "js"@ && src[3] == "jsx"@ && src[4] == "rs"@
        && src[5] == "py"@ && src[6] == "css"@);
    match raw_extension(n) {
        Some(e) => {
            if t.contains(e) {
                let k = choose|k: int| 0 <= k < t.len() && t[k] == e;
                assert(k == 0 || k == 1);
            }
            if d.contains(e) {
                let k = choose|k: int| 0 <= k < d.len() && d[k] == e;
                assert(k == 0);
            }
            if src.contains(e) {
                let k = choose|k: int| 0 <= k < src.len() && src[k] == e;
                assert(0 <= k < 7);
            }
        },
        None => {},
    }
}

fn is_entrypoint_path(p: &str) -> (r: bool)
    ensures
        r == entrypoint_path(p@),
{
    let list = [
        "app/page.tsx",
        "app/page.jsx",
        "src/app/page.tsx",
        "src/app/page.jsx",
        "pages/index.tsx",
        "pages/index.jsx",
        "src/pages/index.tsx",
        "src/pages/index.jsx",
        "src/main.rs",
        "main.py",
        "app/main.py",
    ];
    assert(crate::text::str_views(list@) == seq![
        "app/page.tsx"@,
        "app/page.jsx"@,
        "src/app/page.tsx"@,
        "src/app/page.jsx"@,
        "pages/index.tsx"@,
        "pages/index.jsx"@,
        "src/pages/index.tsx"@,
        "src/pages/index.jsx"@,
        "src/main.rs"@,
        "main.py"@,
        "app/main.py"@,
    ]);
    crate::paths::is_one_of(p, &list)
}

fn is_test_path(p: &str) -> (r: bool)
    ensures
        r == test_path(p@),
{
    let exts = ["rs", "py"];
    assert(crate::text::str_views(exts@) == seq!["rs"@, "py"@]);
    (str_starts_with(p, "tests/") || str_contains(p, "/tests/")) && raw_extension_is(p, &exts)
}

fn is_docs_path(p: &str) -> (r: bool)
    ensures
        r == docs_path(p@),
{
    let exts = ["md"];
    assert(crate::text::str_views(exts@) == seq!["md"@]);
    str_eq(p, "README.md") || (str_starts_with(p, "docs/") && raw_extension_is(p, &exts))
}

fn is_source_path(p: &str) -> (r: bool)
    ensures
        r == source_path(p@),
{
    let exts = ["ts", "tsx", "js", "jsx", "rs", "py", "css"];
    assert(crate::text::str_views(exts@) == seq!["ts"@, "tsx"@, "js"@, "jsx"@, "rs"@, "py"@, "css"@]);
    raw_extension_is(p, &exts)
}

/// The role of a path, normalized first, seen with the given lifecycle.
pub fn role_for_path(path: &str, lifecycle: ArtifactLifecycle) -> (r: ArtifactRole)
    ensures
        r == role_of(normalized_path(path@), lifecycle),
{
    let n = normalize_path(path);
    role_of_normalized(n.as_str(), lifecycle)
}

fn role_of_normalized(p: &str, lifecycle: ArtifactLifecycle) -> (r: ArtifactRole)
    ensures
        r == role_of(p@, lifecycle),
{
    if str_starts_with(p, "step:") {
        ArtifactRole::Unknown
    } else if is_dependency_cache_path(p) {
        ArtifactRole::DependencyCache
    } else if is_build_output_path(p) || lifecycle == ArtifactLifecycle::GeneratedOutput {
        ArtifactRole::GeneratedOutput
    } else if is_manifest_path(p) {
        ArtifactRole::SetupManifest
    } else if is_config_path(p) {
        ArtifactRole::SetupConfig
    } else if is_entrypoint_path(p) {
        ArtifactRole::Entrypoint
    } else if is_test_path(p) {
        ArtifactRole::Test
    } else if is_docs_path(p) {
        ArtifactRole::Docs
    } else if is_source_path(p) {
        if lifecycle == ArtifactLifecycle::IntegrationTarget {
            ArtifactRole::IntegrationTarget
        } else {
            ArtifactRole::Implementation
        }
    } else {
        ArtifactRole::Unknown
    }
}

/// Whether recovery may target an artifact of this role: not generated
/// output and not a dependency cache.
pub fn recovery_target_admissible(role: ArtifactRole) -> (r: bool)
    ensures
        r == (role != ArtifactRole::GeneratedOutput && role != ArtifactRole::DependencyCache),
{
    !(role == ArtifactRole::GeneratedOutput || role == ArtifactRole::DependencyCache)
}

/// The lifecycle of a path seen twice: an existing artifact stays existing,
/// then setup manifest, integration target, to be created, generated output
/// and required win in that order.
pub open spec fn merge_spec(a: ArtifactLifecycle, b: ArtifactLifecycle) -> ArtifactLifecycle {
    if a == ArtifactLifecycle::Existing || b == ArtifactLifecycle::Existing {
        ArtifactLifecycle::Existing
    } else if a == ArtifactLifecycle::SetupManifest || b == ArtifactLifecycle::SetupManifest {
        ArtifactLifecycle::SetupManifest
    } else if a == ArtifactLifecycle::IntegrationTarget || b
        == ArtifactLifecycle::IntegrationTarget {
        ArtifactLifecycle::IntegrationTarget
    } else if a == ArtifactLifecycle::ToBeCreated || b == ArtifactLifecycle::ToBeCreated {
        ArtifactLifecycle::ToBeCreated
    } else if a == ArtifactLifecycle::GeneratedOutput || b == ArtifactLifecycle::GeneratedOutput {
        ArtifactLifecycle::GeneratedOutput
    } else {
        ArtifactLifecycle::Required
    }
}

fn merge_lifecycle(a: ArtifactLifecycle, b: ArtifactLifecycle) -> (r: ArtifactLifecycle)
    ensures
        r == merge_spec(a, b),
{
    if a == ArtifactLifecycle::Existing || b == ArtifactLifecycle::Existing {
        ArtifactLifecycle::Existing
    } else if a == ArtifactLifecycle::SetupManifest || b == ArtifactLifecycle::SetupManifest {
        ArtifactLifecycle::SetupManifest
    } else if a == ArtifactLifecycle::IntegrationTarget || b
        == ArtifactLifecycle::IntegrationTarget {
        ArtifactLifecycle::IntegrationTarget
    } else if a == ArtifactLifecycle::ToBeCreated || b == ArtifactLifecycle::ToBeCreated {
        ArtifactLifecycle::ToBeCreated
    } else if a == ArtifactLifecycle::GeneratedOutput || b == ArtifactLifecycle::GeneratedOutput {
        ArtifactLifecycle::GeneratedOutput
    } else {
        ArtifactLifecycle::Required
    }
}

// ---------------------------------------------------------------------------
// Graph operations as mathematics
// ---------------------------------------------------------------------------

/// The index of the first node with the given path, or -1.
pub open spec fn node_index(nodes: Seq<NodeView>, p: Seq<char>) -> int
    decreases nodes.len(),
{
    if nodes.len() == 0 {
        -1
    } else {
        let j = node_index(nodes.drop_last(), p);
        if j >= 0 {
            j
        } else if nodes.last().path == p {
            nodes.len() - 1
        } else {
            -1
        }
    }
}

/// The graph after adding a path: blank paths are ignored, a path already
/// present has its lifecycle merged, a new path is appended with its role.
pub open spec fn add_path_spec(
    g: GraphView,
    path: Seq<char>,
    lifecycle: ArtifactLifecycle,
    source: Seq<char>,
) -> GraphView {
    let p = normalized_path(path);
    if is_blank(p) {
        g
    } else {
        let j = node_index(g.nodes, p);
        if j >= 0 {
            GraphView {
                nodes: g.nodes.update(
                    j,
                    NodeView {
                        lifecycle: merge_spec(g.nodes[j].lifecycle, lifecycle),
                        ..g.nodes[j]
                    },
                ),
                relations: g.relations,
            }
        } else {
            GraphView {
                nodes: g.nodes.push(
                    NodeView { path: p, role: role_of(p, lifecycle), lifecycle, source },
                ),
                relations: g.relations,
            }
        }
    }
}

/// The graph after adding each path of the list in turn.
pub open spec fn add_all(
    g: GraphView,
    paths: Seq<Seq<char>>,
    lifecycle: ArtifactLifecycle,
    source: Seq<char>,
) -> GraphView
    decreases paths.len(),
{
    if paths.len() == 0 {
        g
    } else {
        add_path_spec(add_all(g, paths.drop_last(), lifecycle, source), paths.last(), lifecycle, source)
    }
}

/// The graph after adding a relation between the normalized paths, unless
/// the same relation is already there.
pub open spec fn add_relation_spec(
    g: GraphView,
    from: Seq<char>,
    to: Seq<char>,
    kind: ArtifactRelationKind,
) -> GraphView {
    let r = RelationView { from: normalized_path(from), to: normalized_path(to), kind };
    if g.relations.contains(r) {
        g
    } else {
        GraphView { nodes: g.nodes, relations: g.relations.push(r) }
    }
}

/// The node paths are distinct and none is blank, and no relation occurs
/// twice.
pub open spec fn graph_wf(g: GraphView) -> bool {
    &&& forall|i: int, j: int|
        0 <= i < j < g.nodes.len() ==> #[trigger] g.nodes[i].path != #[trigger] g.nodes[j].path
    &&& forall|i: int| 0 <= i < g.nodes.len() ==> !is_blank(#[trigger] g.nodes[i].path)
    &&& forall|i: int, j: int|
        0 <= i < j < g.relations.len() ==> #[trigger] g.relations[i] != #[trigger] g.relations[j]
}

pub open spec fn empty_graph() -> GraphView {
    GraphView { nodes: Seq::empty(), relations: Seq::empty() }
}

/// `node_index` finds a node with the path, the first one, or reports that
/// none has it.
pub proof fn lemma_node_index(nodes: Seq<NodeView>, p: Seq<char>)
    ensures
        -1 <= node_index(nodes, p) < nodes.len(),
        node_index(nodes, p) >= 0 ==> nodes[node_index(nodes, p)].path == p,
        node_index(nodes, p) >= 0 ==> forall|k: int|
            0 <= k < node_index(nodes, p) ==> nodes[k].path != p,
        node_index(nodes, p) == -1 ==> forall|k: int| 0 <= k < nodes.len() ==> nodes[k].path != p,
    decreases nodes.len(),
{
    if nodes.len() > 0 {
        let d = nodes.drop_last();
        lemma_node_index(d, p);
        assert(forall|k: int| 0 <= k < d.len() ==> d[k] == nodes[k]);
    }
}

/// Adding a path or a relation keeps the graph well formed.
pub proof fn lemma_add_path_keeps_wf(
    g: GraphView,
    path: Seq<char>,
    lifecycle: ArtifactLifecycle,
    source: Seq<char>,
)
    requires
        graph_wf(g),
    ensures
        graph_wf(add_path_spec(g, path, lifecycle, source)),
{
    lemma_node_index(g.nodes, normalized_path(path));
}

/// Adding a relation keeps the graph well formed.
pub proof fn lemma_add_relation_keeps_wf(
    g: GraphView,
    from: Seq<char>,
    to: Seq<char>,
    kind: ArtifactRelationKind,
)
    requires
        graph_wf(g),
    ensures
        graph_wf(add_relation_spec(g, from, to, kind)),
{
    let r = RelationView { from: normalized_path(from), to: normalized_path(to), kind };
    if !g.relations.contains(r) {
        let n = add_relation_spec(g, from, to, kind);
        assert forall|i: int, j: int| 0 <= i < j < n.relations.len() implies #[trigger] n.relations[i]
            != #[trigger] n.relations[j] by {
            if j == g.relations.len() {
                assert(g.relations[i] != r);
            }
        }
    }
}

/// Adding a path twice in a row is the same as adding it once when its
/// lifecycle merges with itself: the second addition changes nothing.
pub proof fn lemma_add_path_idempotent(
    g: GraphView,
    path: Seq<char>,
    lifecycle: ArtifactLifecycle,
    source: Seq<char>,
)
    ensures
        add_path_spec(add_path_spec(g, path, lifecycle, source), path, lifecycle, source)
            == add_path_spec(g, path, lifecycle, source),
{
    let p = normalized_path(path);
    let g1 = add_path_spec(g, path, lifecycle, source);
    lemma_node_index(g.nodes, p);
    lemma_node_index(g1.nodes, p);
    if !is_blank(p) {
        let j = node_index(g.nodes, p);
        if j >= 0 {
            assert(node_index(g1.nodes, p) == j) by {
                lemma_node_index_update(g.nodes, p, j, g1.nodes[j]);
            }
            assert(g1.nodes.update(j, NodeView { lifecycle: merge_spec(g1.nodes[j].lifecycle, lifecycle), ..g1.nodes[j] }) =~= g1.nodes);
        } else {
            assert(node_index(g1.nodes, p) == g.nodes.len()) by {
                lemma_node_index_push(g.nodes, p, g1.nodes.last());
            }
            assert(g1.nodes.update(g.nodes.len() as int, NodeView { lifecycle: merge_spec(g1.nodes.last().lifecycle, lifecycle), ..g1.nodes.last() }) =~= g1.nodes);
        }
    }
}

proof fn lemma_node_index_update(nodes: Seq<NodeView>, p: Seq<char>, j: int, n: NodeView)
    requires
        0 <= j < nodes.len(),
        node_index(nodes, p) == j,
        n.path == p,
    ensures
        node_index(nodes.update(j, n), p) == j,
    decreases nodes.len(),
{
    let u = nodes.update(j, n);
    if j < nodes.len() - 1 {
        assert(u.drop_last() =~= nodes.drop_last().update(j, n));
        lemma_node_index(nodes.drop_last(), p);
        assert(node_index(nodes.drop_last(), p) == j);
        lemma_node_index_update(nodes.drop_last(), p, j, n);
    } else {
        assert(u.drop_last() =~= nodes.drop_last());
    }
}

proof fn lemma_node_index_push(nodes: Seq<NodeView>, p: Seq<char>, n: NodeView)
    requires
        node_index(nodes, p) == -1,
        n.path == p,
    ensures
        node_index(nodes.push(n), p) == nodes.len(),
{
    assert(nodes.push(n).drop_last() =~= nodes);
}

// ---------------------------------------------------------------------------
// The graph
// ---------------------------------------------------------------------------

fn copy_node(n: &ArtifactNode, lifecycle: ArtifactLifecycle) -> (r: ArtifactNode)
    ensures
        r@ == (NodeView { lifecycle, ..n@ }),
{
    ArtifactNode {
        path: copy_string(&n.path),
        role: n.role,
        lifecycle,
        source: copy_string(&n.source),
    }
}

fn relation_eq(a: &ArtifactRelation, b: &ArtifactRelation) -> (r: bool)
    ensures
        r == (a@ == b@),
{
    str_eq(a.from.as_str(), b.from.as_str()) && str_eq(a.to.as_str(), b.to.as_str()) && a.kind
        == b.kind
}

impl ArtifactGraph {
    /// An empty graph.
    pub fn new() -> (r: Self)
        ensures
            r@ == empty_graph(),
            graph_wf(r@),
    {
        let r = ArtifactGraph { nodes: Vec::new(), relations: Vec::new() };
        assert(r@.nodes =~= Seq::<NodeView>::empty());
        assert(r@.relations =~= Seq::<RelationView>::empty());
        r
    }

    /// The index of the first node whose path is `p`.
    fn find(&self, p: &str) -> (r: Option<usize>)
        ensures
            match r {
                Some(i) => i < self.nodes@.len() && node_index(self@.nodes, p@) == i as int,
                None => node_index(self@.nodes, p@) == -1,
            },
    {
        let mut i: usize = 0;
        while i < self.nodes.len()
            invariant
                i <= self.nodes@.len(),
                node_index(self@.nodes.take(i as int), p@) == -1,
            decreases self.nodes.len() - i,
        {
            proof {
                assert(self@.nodes.take(i + 1).drop_last() =~= self@.nodes.take(i as int));
            }
            if str_eq(self.nodes[i].path.as_str(), p) {
                proof {
                    assert(node_index(self@.nodes.take(i + 1), p@) == i);
                    lemma_node_index_prefix(self@.nodes, p@, i as int + 1);
                }
                return Some(i);
            }
            i = i + 1;
        }
        assert(self@.nodes.take(self.nodes@.len() as int) =~= self@.nodes);
        None
    }

    /// Adds a path with its lifecycle and the place it was named; a path
    /// already present keeps its node and has its lifecycle merged.
    pub fn add_path(&mut self, path: &str, lifecycle: ArtifactLifecycle, source: &str)
        ensures
            final(self)@ == add_path_spec(old(self)@, path@, lifecycle, source@),
    {
        let p = normalize_path(path);
        if is_blank_str(p.as_str()) {
            return;
        }
        let role = role_of_normalized(p.as_str(), lifecycle);
        match self.find(p.as_str()) {
            Some(i) => {
                let merged = merge_lifecycle(self.nodes[i].lifecycle, lifecycle);
                let node = copy_node(&self.nodes[i], merged);
                let ghost before = self.nodes@;
                self.nodes.set(i, node);
                proof {
                    assert(self@.nodes =~= old(self)@.nodes.update(
                        i as int,
                        NodeView { lifecycle: merged, ..old(self)@.nodes[i as int] },
                    ));
                }
            },
            None => {
                let node = ArtifactNode { path: p, role, lifecycle, source: owned(source) };
                self.nodes.push(node);
                proof {
                    assert(self@.nodes =~= old(self)@.nodes.push(
                        NodeView {
                            path: normalized_path(path@),
                            role: role_of(normalized_path(path@), lifecycle),
                            lifecycle,
                            source: source@,
                        },
                    ));
                }
            },
        }
    }

    /// Adds a relation between the normalized paths unless it is already
    /// there.
    pub fn add_relation(&mut self, from: &str, to: &str, kind: ArtifactRelationKind)
        ensures
            final(self)@ == add_relation_spec(old(self)@, from@, to@, kind),
    {
        let relation = ArtifactRelation { from: normalize_path(from), to: normalize_path(to), kind };
        let ghost rv = relation@;
        let mut i: usize = 0;
        while i < self.relations.len()
            invariant
                i <= self.relations@.len(),
                rv == relation@,
                rv == (RelationView { from: normalized_path(from@), to: normalized_path(to@), kind }),
                forall|k: int| 0 <= k < i ==> self@.relations[k] != rv,
            decreases self.relations.len() - i,
        {
            if relation_eq(&self.relations[i], &relation) {
                assert(self@.relations[i as int] == rv);
                assert(self@.relations.contains(rv));
                return;
            }
            i = i + 1;
        }
        assert(!self@.relations.contains(rv));
        self.relations.push(relation);
        assert(self@.relations =~= old(self)@.relations.push(rv));
    }

    /// The node of a path, normalized first.
    pub fn node(&self, path: &str) -> (r: Option<&ArtifactNode>)
        ensures
            match r {
                Some(n) => {
                    let j = node_index(self@.nodes, normalized_path(path@));
                    j >= 0 && n@ == self@.nodes[j]
                },
                None => node_index(self@.nodes, normalized_path(path@)) == -1,
            },
    {
        let p = normalize_path(path);
        match self.find(p.as_str()) {
            Some(i) => {
                proof {
                    lemma_node_index(self@.nodes, p@);
                }
                Some(&self.nodes[i])
            },
            None => None,
        }
    }

    /// The nodes in the order they were added.
    pub fn nodes(&self) -> (r: &[ArtifactNode])
        ensures
            r@.map_values(|n: ArtifactNode| n@) == self@.nodes,
    {
        self.nodes.as_slice()
    }

    /// Whether the path is still owed: required or to be created, and
    /// neither generated output nor a dependency cache.
    pub fn is_future_required(&self, path: &str) -> (r: bool)
        ensures
            r == ({
                let j = node_index(self@.nodes, normalized_path(path@));
                j >= 0 && (self@.nodes[j].lifecycle == ArtifactLifecycle::Required
                    || self@.nodes[j].lifecycle == ArtifactLifecycle::ToBeCreated)
                    && self@.nodes[j].role != ArtifactRole::GeneratedOutput
                    && self@.nodes[j].role != ArtifactRole::DependencyCache
            }),
    {
        match self.node(path) {
            Some(n) => (n.lifecycle == ArtifactLifecycle::Required || n.lifecycle
                == ArtifactLifecycle::ToBeCreated) && !(n.role == ArtifactRole::GeneratedOutput
                || n.role == ArtifactRole::DependencyCache),
            None => false,
        }
    }

    /// The targets of the `integrates` relations that start at the path.
    pub fn integration_targets_for(&self, path: &str) -> (r: Vec<String>)
        ensures
            views(r@) == integration_targets(self@.relations, normalized_path(path@)),
    {
        let p = normalize_path(path);
        let mut out: Vec<String> = Vec::new();
        let mut i: usize = 0;
        while i < self.relations.len()
            invariant
                i <= self.relations@.len(),
                views(out@) == integration_targets(self@.relations.take(i as int), p@),
            decreases self.relations.len() - i,
        {
            proof {
                assert(self@.relations.take(i + 1).drop_last() =~= self@.relations.take(i as int));
            }
            let rel = &self.relations[i];
            if rel.kind == ArtifactRelationKind::Integrates && str_eq(rel.from.as_str(), p.as_str()) {
                let ghost before = out@;
                out.push(copy_string(&rel.to));
                assert(views(out@) =~= views(before).push(rel.to@));
            }
            i = i + 1;
        }
        assert(self@.relations.take(self.relations@.len() as int) =~= self@.relations);
        out
    }

    /// The setup manifest a path depends on: the target of its first
    /// `requires_setup_from` relation, else the first setup-manifest node.
    pub fn setup_manifest_for(&self, path: &str) -> (r: Option<String>)
        ensures
            opt_view(r) == setup_manifest_spec(self@, normalized_path(path@)),
    {
        let p = normalize_path(path);
        let mut i: usize = 0;
        while i < self.relations.len()
            invariant
                i <= self.relations@.len(),
                first_setup_relation(self@.relations.take(i as int), p@) is None,
                p@ == normalized_path(path@),
            decreases self.relations.len() - i,
        {
            proof {
                assert(self@.relations.take(i + 1).drop_last() =~= self@.relations.take(i as int));
            }
            let rel = &self.relations[i];
            if rel.kind == ArtifactRelationKind::RequiresSetupFrom && str_eq(rel.from.as_str(), p.as_str()) {
                proof {
                    lemma_first_setup_relation_prefix(self@.relations, p@, i as int + 1);
                }
                return Some(copy_string(&rel.to));
            }
            i = i + 1;
        }
        assert(self@.relations.take(self.relations@.len() as int) =~= self@.relations);
        let mut k: usize = 0;
        while k < self.nodes.len()
            invariant
                k <= self.nodes@.len(),
                first_manifest_node(self@.nodes.take(k as int)) is None,
                first_setup_relation(self@.relations, p@) is None,
                p@ == normalized_path(path@),
            decreases self.nodes.len() - k,
        {
            proof {
                assert(self@.nodes.take(k + 1).drop_last() =~= self@.nodes.take(k as int));
            }
            if self.nodes[k].role == ArtifactRole::SetupManifest {
                proof {
                    lemma_first_manifest_node_prefix(self@.nodes, k as int + 1);
                }
                return Some(copy_string(&self.nodes[k].path));
            }
            k = k + 1;
        }
        assert(self@.nodes.take(self.nodes@.len() as int) =~= self@.nodes);
        None
    }

    /// One line for each of the first eight nodes:
    /// `<path> role=<role> lifecycle=<lifecycle> source=<source>`.
    pub fn summary(&self) -> (r: Vec<String>)
        ensures
            views(r@) == summary_lines(self@.nodes),
    {
        let n = if self.nodes.len() < 8 { self.nodes.len() } else { 8 };
        let mut out: Vec<String> = Vec::new();
        let mut i: usize = 0;
        while i < n
            invariant
                n <= self.nodes@.len(),
                n == (if self.nodes@.len() < 8 { self.nodes@.len() } else { 8 }),
                i <= n,
                views(out@) == self@.nodes.take(i as int).map_values(|v: NodeView| node_line(v)),
            decreases n - i,
        {
            let node = &self.nodes[i];
            let mut line = copy_string(&node.path);
            push_str(&mut line, " role=");
            push_str(&mut line, node.role.as_str());
            push_str(&mut line, " lifecycle=");
            push_str(&mut line, node.lifecycle.as_str());
            push_str(&mut line, " source=");
            push_str(&mut line, node.source.as_str());
            let ghost before = out@;
            out.push(line);
            proof {
                assert(self@.nodes.take(i + 1) =~= self@.nodes.take(i as int).push(self@.nodes[i as int]));
                assert(views(out@) =~= views(before).push(node_line(self@.nodes[i as int])));
            }
            i = i + 1;
        }
        out
    }

    /// The graph of the artifacts a contract names: required, missing and
    /// candidate paths, the target and repair target, the package manifest
    /// where the contract is about dependencies, and the route an artifact
    /// must be integrated into.
    pub fn from_contract_evidence(evidence: &ContractEvidence) -> (r: Self)
        ensures
            r@ == contract_graph(*evidence),
    {
        let mut graph = Self::new();
        graph.add_paths(&evidence.required_paths, ArtifactLifecycle::Required, "contract.required_paths");
        graph.add_paths(&evidence.missing_paths, ArtifactLifecycle::ToBeCreated, "contract.missing_paths");
        graph.add_paths(
            &evidence.candidate_artifacts,
            ArtifactLifecycle::Required,
            "contract.candidate_artifacts",
        );
        let target = target_lifecycle(evidence);
        if let Some(path) = &evidence.target_path {
            graph.add_path(path.as_str(), target, "contract.target_path");
        }
        if let Some(path) = &evidence.repair_target {
            graph.add_path(path.as_str(), target, "contract.repair_target");
        }
        if setup_manifest_hint(evidence) {
            graph.add_path("package.json", ArtifactLifecycle::SetupManifest, "contract.setup_manifest");
        }
        if opt_is(&evidence.violated_contract, "nextjs_route_not_integrated") || opt_is(
            &evidence.reason_code,
            "nextjs_route_not_integrated",
        ) {
            let route = if evidence.required_paths.len() > 0 {
                Some(&evidence.required_paths[0])
            } else if evidence.candidate_artifacts.len() > 0 {
                Some(&evidence.candidate_artifacts[0])
            } else {
                None
            };
            if let Some(route) = route {
                if evidence.candidate_artifacts.len() > 1 {
                    graph.add_relation(
                        evidence.candidate_artifacts[1].as_str(),
                        route.as_str(),
                        ArtifactRelationKind::Integrates,
                    );
                }
            }
        }
        graph
    }

    /// Adds each path of the list in turn.
    pub fn add_paths(&mut self, paths: &Vec<String>, lifecycle: ArtifactLifecycle, source: &str)
        ensures
            final(self)@ == add_all(old(self)@, views(paths@), lifecycle, source@),
    {
        let mut i: usize = 0;
        while i < paths.len()
            invariant
                i <= paths@.len(),
                self@ == add_all(old(self)@, views(paths@).take(i as int), lifecycle, source@),
            decreases paths.len() - i,
        {
            proof {
                assert(views(paths@).take(i + 1).drop_last() =~= views(paths@).take(i as int));
            }
            self.add_path(paths[i].as_str(), lifecycle, source);
            i = i + 1;
        }
        assert(views(paths@).take(paths@.len() as int) =~= views(paths@));
    }
}

proof fn lemma_node_index_prefix(nodes: Seq<NodeView>, p: Seq<char>, n: int)
    requires
        0 <= n <= nodes.len(),
        node_index(nodes.take(n), p) >= 0,
    ensures
        node_index(nodes, p) == node_index(nodes.take(n), p),
    decreases nodes.len() - n,
{
    if n < nodes.len() {
        assert(nodes.take(n + 1).drop_last() =~= nodes.take(n));
        lemma_node_index_prefix(nodes, p, n + 1);
    } else {
        assert(nodes.take(n) =~= nodes);
    }
}

/// The targets of the `integrates` relations that start at `p`, in order.
pub open spec fn integration_targets(rels: Seq<RelationView>, p: Seq<char>) -> Seq<Seq<char>>
    decreases rels.len(),
{
    if rels.len() == 0 {
        Seq::empty()
    } else {
        let rest = integration_targets(rels.drop_last(), p);
        let r = rels.last();
        if r.kind == ArtifactRelationKind::Integrates && r.from == p {
            rest.push(r.to)
        } else {
            rest
        }
    }
}

/// The target of the first `requires_setup_from` relation that starts at `p`.
pub open spec fn first_setup_relation(rels: Seq<RelationView>, p: Seq<char>) -> Option<Seq<char>>
    decreases rels.len(),
{
    if rels.len() == 0 {
        None
    } else {
        match first_setup_relation(rels.drop_last(), p) {
            Some(t) => Some(t),
            None => {
                let r = rels.last();
                if r.kind == ArtifactRelationKind::RequiresSetupFrom && r.from == p {
                    Some(r.to)
                } else {
                    None
                }
            },
        }
    }
}

/// The path of the first setup-manifest node.
pub open spec fn first_manifest_node(nodes: Seq<NodeView>) -> Option<Seq<char>>
    decreases nodes.len(),
{
    if nodes.len() == 0 {
        None
    } else {
        match first_manifest_node(nodes.drop_last()) {
            Some(t) => Some(t),
            None => if nodes.last().role == ArtifactRole::SetupManifest {
                Some(nodes.last().path)
            } else {
                None
            },
        }
    }
}

pub open spec fn setup_manifest_spec(g: GraphView, p: Seq<char>) -> Option<Seq<char>> {
    match first_setup_relation(g.relations, p) {
        Some(t) => Some(t),
        None => first_manifest_node(g.nodes),
    }
}

proof fn lemma_first_setup_relation_prefix(rels: Seq<RelationView>, p: Seq<char>, n: int)
    requires
        0 <= n <= rels.len(),
        first_setup_relation(rels.take(n - 1), p) is None,
        1 <= n,
        rels[n - 1].kind == ArtifactRelationKind::RequiresSetupFrom,
        rels[n - 1].from == p,
    ensures
        first_setup_relation(rels, p) == Some(rels[n - 1].to),
    decreases rels.len() - n,
{
    if n < rels.len() {
        assert(rels.take(n + 1).drop_last() =~= rels.take(n));
        assert(rels.take(n).drop_last() =~= rels.take(n - 1));
        lemma_first_setup_relation_prefix_rest(rels, p, n, n + 1);
    } else {
        assert(rels.drop_last() =~= rels.take(n - 1));
    }
}

proof fn lemma_first_setup_relation_prefix_rest(rels: Seq<RelationView>, p: Seq<char>, n: int, m: int)
    requires
        1 <= n <= m <= rels.len(),
        first_setup_relation(rels.take(n), p) is Some,
    ensures
        first_setup_relation(rels.take(m), p) == first_setup_relation(rels.take(n), p),
        first_setup_relation(rels, p) == first_setup_relation(rels.take(n), p),
    decreases rels.len() - n,
{
    if n < rels.len() {
        assert(rels.take(n + 1).drop_last() =~= rels.take(n));
        if m > n {
            lemma_first_setup_relation_prefix_rest(rels, p, n + 1, m);
        } else {
            lemma_first_setup_relation_prefix_rest(rels, p, n + 1, n + 1);
        }
    } else {
        assert(rels.take(n) =~= rels);
    }
}

proof fn lemma_first_manifest_node_prefix(nodes: Seq<NodeView>, n: int)
    requires
        1 <= n <= nodes.len(),
        first_manifest_node(nodes.take(n - 1)) is None,
        nodes[n - 1].role == ArtifactRole::SetupManifest,
    ensures
        first_manifest_node(nodes) == Some(nodes[n - 1].path),
    decreases nodes.len() - n,
{
    assert(nodes.take(n).drop_last() =~= nodes.take(n - 1));
    lemma_first_manifest_rest(nodes, n);
}

proof fn lemma_first_manifest_rest(nodes: Seq<NodeView>, n: int)
    requires
        1 <= n <= nodes.len(),
        first_manifest_node(nodes.take(n)) is Some,
    ensures
        first_manifest_node(nodes) == first_manifest_node(nodes.take(n)),
    decreases nodes.len() - n,
{
    if n < nodes.len() {
        assert(nodes.take(n + 1).drop_last() =~= nodes.take(n));
        lemma_first_manifest_rest(nodes, n + 1);
    } else {
        assert(nodes.take(n) =~= nodes);
    }
}

/// The summary line of one node.
pub open spec fn node_line(n: NodeView) -> Seq<char> {
    n.path + " role="@ + role_name(n.role) + " lifecycle="@ + lifecycle_name(n.lifecycle)
        + " source="@ + n.source
}

/// The summary lines of the first eight nodes.
pub open spec fn summary_lines(nodes: Seq<NodeView>) -> Seq<Seq<char>> {
    nodes.take(if nodes.len() < 8 { nodes.len() as int } else { 8 }).map_values(
        |v: NodeView| node_line(v),
    )
}

/// The lifecycle the contract's target takes from its active job.
pub open spec fn target_lifecycle_spec(e: ContractEvidence) -> ArtifactLifecycle {
    let job = opt_view(e.active_job);
    if job == Some("route_integration_repair"@) {
        ArtifactLifecycle::IntegrationTarget
    } else if job == Some("manifest_repair"@) || job == Some("setup_bootstrap"@) {
        ArtifactLifecycle::SetupManifest
    } else if job == Some("integration_artifact_creation"@) || job == Some(
        "scaffold_materialization"@,
    ) {
        ArtifactLifecycle::ToBeCreated
    } else {
        ArtifactLifecycle::Required
    }
}

fn target_lifecycle(e: &ContractEvidence) -> (r: ArtifactLifecycle)
    ensures
        r == target_lifecycle_spec(*e),
{
    let job = &e.active_job;
    if opt_is(job, "route_integration_repair") {
        ArtifactLifecycle::IntegrationTarget
    } else if opt_is(job, "manifest_repair") || opt_is(job, "setup_bootstrap") {
        ArtifactLifecycle::SetupManifest
    } else if opt_is(job, "integration_artifact_creation") || opt_is(job, "scaffold_materialization") {
        ArtifactLifecycle::ToBeCreated
    } else {
        ArtifactLifecycle::Required
    }
}

/// The contract is about a dependency or the package manifest.
pub open spec fn setup_manifest_hint_spec(e: ContractEvidence) -> bool {
    ||| opt_view(e.active_job) == Some("manifest_repair"@)
    ||| opt_view(e.setup_implication) == Some("setup_after_manifest_repair_required"@)
    ||| match opt_view(e.reason_code) {
        Some(code) => contains(code, "dependency"@) || contains(code, "manifest"@) || contains(
            code,
            "package"@,
        ),
        None => false,
    }
}

fn setup_manifest_hint(e: &ContractEvidence) -> (r: bool)
    ensures
        r == setup_manifest_hint_spec(*e),
{
    opt_is(&e.active_job, "manifest_repair") || opt_is(
        &e.setup_implication,
        "setup_after_manifest_repair_required",
    ) || match &e.reason_code {
        Some(code) => str_contains(code.as_str(), "dependency") || str_contains(
            code.as_str(),
            "manifest",
        ) || str_contains(code.as_str(), "package"),
        None => false,
    }
}

/// The graph of a contract (see `ArtifactGraph::from_contract_evidence`).
pub open spec fn contract_graph(e: ContractEvidence) -> GraphView {
    let g1 = add_all(empty_graph(), views(e.required_paths@), ArtifactLifecycle::Required, "contract.required_paths"@);
    let g2 = add_all(g1, views(e.missing_paths@), ArtifactLifecycle::ToBeCreated, "contract.missing_paths"@);
    let g3 = add_all(g2, views(e.candidate_artifacts@), ArtifactLifecycle::Required, "contract.candidate_artifacts"@);
    let t = target_lifecycle_spec(e);
    let g4 = match opt_view(e.target_path) {
        Some(p) => add_path_spec(g3, p, t, "contract.target_path"@),
        None => g3,
    };
    let g5 = match opt_view(e.repair_target) {
        Some(p) => add_path_spec(g4, p, t, "contract.repair_target"@),
        None => g4,
    };
    let g6 = if setup_manifest_hint_spec(e) {
        add_path_spec(g5, "package.json"@, ArtifactLifecycle::SetupManifest, "contract.setup_manifest"@)
    } else {
        g5
    };
    let req = views(e.required_paths@);
    let cand = views(e.candidate_artifacts@);
    if (opt_view(e.violated_contract) == Some("nextjs_route_not_integrated"@) || opt_view(
        e.reason_code,
    ) == Some("nextjs_route_not_integrated"@)) && (req.len() > 0 || cand.len() > 0) && cand.len()
        > 1 {
        let route = if req.len() > 0 { req[0] } else { cand[0] };
        add_relation_spec(g6, cand[1], route, ArtifactRelationKind::Integrates)
    } else {
        g6
    }
}


// ---------------------------------------------------------------------------
// The graph of a step plan
// ---------------------------------------------------------------------------

/// The lifecycle a plan gives a path: generated output and manifests by
/// their role, a path that exists in the workspace as existing, otherwise
/// to be created by a creating step and required by any other.
pub open spec fn lifecycle_for(ws: Option<Seq<Seq<char>>>, path: Seq<char>, kind: StepKind) -> ArtifactLifecycle {
    if role_of(normalized_path(path), ArtifactLifecycle::Required) == ArtifactRole::GeneratedOutput {
        ArtifactLifecycle::GeneratedOutput
    } else if manifest_path(path) {
        ArtifactLifecycle::SetupManifest
    } else if exists_in(ws, path) {
        ArtifactLifecycle::Existing
    } else {
        match kind {
            StepKind::Create | StepKind::Edit | StepKind::Setup | StepKind::Repair => ArtifactLifecycle::ToBeCreated,
            _ => ArtifactLifecycle::Required,
        }
    }
}

/// The lifecycle a plan gives a path seen in a step of the given kind;
/// `workspace` lists the paths that exist, if a workspace is known.
pub fn lifecycle_for_path(workspace: Option<&Vec<String>>, path: &str, kind: StepKind) -> (r: ArtifactLifecycle)
    ensures
        r == lifecycle_for(ws_view(workspace), path@, kind),
{
    match role_for_path(path, ArtifactLifecycle::Required) {
        ArtifactRole::GeneratedOutput => {
            return ArtifactLifecycle::GeneratedOutput;
        },
        _ => {},
    }
    if is_manifest_path(path) {
        return ArtifactLifecycle::SetupManifest;
    }
    if path_exists(workspace, path) {
        return ArtifactLifecycle::Existing;
    }
    match kind {
        StepKind::Create | StepKind::Edit | StepKind::Setup | StepKind::Repair => ArtifactLifecycle::ToBeCreated,
        _ => ArtifactLifecycle::Required,
    }
}

/// Punctuation trimmed from the ends of a word of a command.
pub open spec fn punct(c: char) -> bool {
    c == '.' || c == ',' || c == ';' || c == ':' || c == '(' || c == ')' || c == '[' || c == ']' || c == '{' || c
        == '}' || c == '\'' || c == '"' || c == '`'
}

pub open spec fn drop_leading_punct(s: Seq<char>) -> Seq<char>
    decreases s.len(),
{
    if s.len() > 0 && punct(s[0]) {
        drop_leading_punct(s.skip(1))
    } else {
        s
    }
}

pub open spec fn drop_trailing_punct(s: Seq<char>) -> Seq<char>
    decreases s.len(),
{
    if s.len() > 0 && punct(s.last()) {
        drop_trailing_punct(s.drop_last())
    } else {
        s
    }
}

/// A word of a command as a path: punctuation trimmed from both ends, then
/// leading `./` removed.
pub open spec fn word_path(w: Seq<char>) -> Seq<char> {
    strip_dot_slash(drop_trailing_punct(drop_leading_punct(w)))
}

/// The source-file paths among words, in order.
pub open spec fn source_words(ws: Seq<Seq<char>>) -> Seq<Seq<char>>
    decreases ws.len(),
{
    if ws.len() == 0 {
        Seq::empty()
    } else {
        let rest = source_words(ws.drop_last());
        let p = word_path(ws.last());
        if source_path(p) {
            rest.push(p)
        } else {
            rest
        }
    }
}

/// The source-file paths a command names.
pub open spec fn source_like(text: Seq<char>) -> Seq<Seq<char>> {
    source_words(words(text))
}

fn is_punct(c: char) -> (r: bool)
    ensures
        r == punct(c),
{
    c == '.' || c == ',' || c == ';' || c == ':' || c == '(' || c == ')' || c == '[' || c == ']' || c == '{' || c
        == '}' || c == '\'' || c == '"' || c == '`'
}

fn word_path_of(w: &str) -> (r: String)
    ensures
        r@ == word_path(w@),
{
    let v = chars_of(w);
    let mut lo: usize = 0;
    assert(v@.skip(0) =~= v@);
    while lo < v.len() && is_punct(v[lo])
        invariant
            lo <= v@.len(),
            drop_leading_punct(v@) == drop_leading_punct(v@.skip(lo as int)),
        decreases v.len() - lo,
    {
        assert(v@.skip(lo as int).skip(1) =~= v@.skip(lo + 1));
        lo = lo + 1;
    }
    let mid = slice_range(v.as_slice(), lo, v.len());
    assert(mid@ =~= v@.skip(lo as int));
    assert(drop_leading_punct(v@) == mid@);
    let mut hi: usize = mid.len();
    assert(mid@.take(hi as int) =~= mid@);
    while hi > 0 && is_punct(mid[hi - 1])
        invariant
            hi <= mid@.len(),
            drop_trailing_punct(mid@) == drop_trailing_punct(mid@.take(hi as int)),
        decreases hi,
    {
        assert(mid@.take(hi as int).drop_last() =~= mid@.take(hi - 1));
        hi = hi - 1;
    }
    let core = slice_range(mid.as_slice(), 0, hi);
    assert(core@ =~= mid@.take(hi as int));
    let mut k: usize = 0;
    assert(core@.skip(0) =~= core@);
    while k < core.len() && k + 1 < core.len() && core[k] == '.' && core[k + 1] == '/'
        invariant
            k <= core@.len(),
            strip_dot_slash(core@) == strip_dot_slash(core@.skip(k as int)),
        decreases core.len() - k,
    {
        assert(core@.skip(k as int).skip(2) =~= core@.skip(k + 2));
        k = k + 2;
    }
    let out = slice_range(core.as_slice(), k, core.len());
    assert(out@ =~= core@.skip(k as int));
    string_of(out.as_slice())
}

/// The source-file paths a verification command names, in order: each
/// whitespace-separated word with punctuation trimmed from its ends and
/// leading `./` removed, kept when it has a source extension.
pub fn source_like_paths(text: &str) -> (r: Vec<String>)
    ensures
        views(r@) == source_like(text@),
{
    let ws = split_words(text);
    let mut out: Vec<String> = Vec::new();
    let mut i: usize = 0;
    while i < ws.len()
        invariant
            i <= ws@.len(),
            views(ws@) == words(text@),
            views(out@) == source_words(views(ws@).take(i as int)),
        decreases ws.len() - i,
    {
        proof {
            assert(views(ws@).take(i + 1).drop_last() =~= views(ws@).take(i as int));
        }
        let p = word_path_of(ws[i].as_str());
        if is_source_path(p.as_str()) {
            let ghost before = out@;
            out.push(p);
            assert(views(out@) =~= views(before).push(word_path(ws@[i as int]@)));
        }
        i = i + 1;
    }
    assert(views(ws@).take(ws@.len() as int) =~= views(ws@));
    out
}

/// The graph after adding each path with the lifecycle its step kind gives it.
pub open spec fn add_planned(
    g: GraphView,
    ws: Option<Seq<Seq<char>>>,
    paths: Seq<Seq<char>>,
    kind: StepKind,
    source: Seq<char>,
) -> GraphView
    decreases paths.len(),
{
    if paths.len() == 0 {
        g
    } else {
        add_path_spec(
            add_planned(g, ws, paths.drop_last(), kind, source),
            paths.last(),
            lifecycle_for(ws, paths.last(), kind),
            source,
        )
    }
}

/// The source-file paths named by a list of commands, in order.
pub open spec fn commands_paths(cmds: Seq<Seq<char>>) -> Seq<Seq<char>>
    decreases cmds.len(),
{
    if cmds.len() == 0 {
        Seq::empty()
    } else {
        commands_paths(cmds.drop_last()) + source_like(cmds.last())
    }
}

/// The graph after the steps: each step's expected paths, then the source
/// files its verification commands name, as verified.
pub open spec fn steps_graph(g: GraphView, ws: Option<Seq<Seq<char>>>, steps: Seq<StepPlanStep>) -> GraphView
    decreases steps.len(),
{
    if steps.len() == 0 {
        g
    } else {
        let before = steps_graph(g, ws, steps.drop_last());
        let s = steps.last();
        let with_expected = add_planned(before, ws, views(s.expected_paths@), s.kind, s.id@);
        add_planned(with_expected, ws, commands_paths(views(s.verify@)), StepKind::Verify, s.id@)
    }
}

/// The graph of a plan: its required artifacts as reported, then its steps.
pub open spec fn plan_graph(plan: StepPlan, ws: Option<Seq<Seq<char>>>) -> GraphView {
    let g = add_planned(empty_graph(), ws, views(plan.required_artifacts@), StepKind::Report, "plan.required_artifacts"@);
    steps_graph(g, ws, plan.steps@)
}

proof fn lemma_add_planned_append(g: GraphView, ws: Option<Seq<Seq<char>>>, a: Seq<Seq<char>>, b: Seq<Seq<char>>, kind: StepKind, source: Seq<char>)
    ensures
        add_planned(g, ws, a + b, kind, source) == add_planned(add_planned(g, ws, a, kind, source), ws, b, kind, source),
    decreases b.len(),
{
    if b.len() == 0 {
        assert(a + b =~= a);
    } else {
        assert((a + b).drop_last() =~= a + b.drop_last());
        lemma_add_planned_append(g, ws, a, b.drop_last(), kind, source);
    }
}

impl ArtifactGraph {
    /// Adds each path with the lifecycle a step of the kind gives it.
    fn add_planned_paths(
        &mut self,
        workspace: Option<&Vec<String>>,
        paths: &Vec<String>,
        kind: StepKind,
        source: &str,
    )
        ensures
            final(self)@ == add_planned(old(self)@, ws_view(workspace), views(paths@), kind, source@),
    {
        let mut i: usize = 0;
        while i < paths.len()
            invariant
                i <= paths@.len(),
                self@ == add_planned(old(self)@, ws_view(workspace), views(paths@).take(i as int), kind, source@),
            decreases paths.len() - i,
        {
            proof {
                assert(views(paths@).take(i + 1).drop_last() =~= views(paths@).take(i as int));
            }
            let lifecycle = lifecycle_for_path(workspace, paths[i].as_str(), kind);
            self.add_path(paths[i].as_str(), lifecycle, source);
            i = i + 1;
        }
        assert(views(paths@).take(paths@.len() as int) =~= views(paths@));
    }

    /// The artifact graph of a plan: the required artifacts, then for each
    /// step its expected paths and the source files its verification
    /// commands name. `workspace` lists the paths that exist, if a workspace
    /// is known.
    pub fn from_step_plan(plan: &StepPlan, workspace: Option<&Vec<String>>) -> (r: Self)
        ensures
            r@ == plan_graph(*plan, ws_view(workspace)),
    {
        let mut graph = Self::new();
        graph.add_planned_paths(workspace, &plan.required_artifacts, StepKind::Report, "plan.required_artifacts");
        let ghost g0 = graph@;
        let mut i: usize = 0;
        while i < plan.steps.len()
            invariant
                i <= plan.steps@.len(),
                graph@ == steps_graph(g0, ws_view(workspace), plan.steps@.take(i as int)),
            decreases plan.steps.len() - i,
        {
            proof {
                assert(plan.steps@.take(i + 1).drop_last() =~= plan.steps@.take(i as int));
            }
            let step = &plan.steps[i];
            graph.add_planned_paths(workspace, &step.expected_paths, step.kind, step.id.as_str());
            let mut k: usize = 0;
            let ghost g1 = graph@;
            while k < step.verify.len()
                invariant
                    k <= step.verify@.len(),
                    graph@ == add_planned(g1, ws_view(workspace), commands_paths(views(step.verify@).take(k as int)), StepKind::Verify, step.id@),
                decreases step.verify.len() - k,
            {
                let ps = source_like_paths(step.verify[k].as_str());
                proof {
                    let pre = views(step.verify@).take(k as int);
                    assert(views(step.verify@).take(k + 1).drop_last() =~= pre);
                    lemma_add_planned_append(g1, ws_view(workspace), commands_paths(pre), views(ps@), StepKind::Verify, step.id@);
                }
                graph.add_planned_paths(workspace, &ps, StepKind::Verify, step.id.as_str());
                k = k + 1;
            }
            assert(views(step.verify@).take(step.verify@.len() as int) =~= views(step.verify@));
            i = i + 1;
        }
        assert(plan.steps@.take(plan.steps@.len() as int) =~= plan.steps@);
        graph
    }
}


proof fn lemma_add_planned_keeps_wf(g: GraphView, ws: Option<Seq<Seq<char>>>, paths: Seq<Seq<char>>, kind: StepKind, source: Seq<char>)
    requires
        graph_wf(g),
    ensures
        graph_wf(add_planned(g, ws, paths, kind, source)),
    decreases paths.len(),
{
    if paths.len() > 0 {
        lemma_add_planned_keeps_wf(g, ws, paths.drop_last(), kind, source);
        lemma_add_path_keeps_wf(
            add_planned(g, ws, paths.drop_last(), kind, source),
            paths.last(),
            lifecycle_for(ws, paths.last(), kind),
            source,
        );
    }
}

proof fn lemma_steps_graph_keeps_wf(g: GraphView, ws: Option<Seq<Seq<char>>>, steps: Seq<StepPlanStep>)
    requires
        graph_wf(g),
    ensures
        graph_wf(steps_graph(g, ws, steps)),
    decreases steps.len(),
{
    if steps.len() > 0 {
        lemma_steps_graph_keeps_wf(g, ws, steps.drop_last());
        let before = steps_graph(g, ws, steps.drop_last());
        let s = steps.last();
        lemma_add_planned_keeps_wf(before, ws, views(s.expected_paths@), s.kind, s.id@);
        let with_expected = add_planned(before, ws, views(s.expected_paths@), s.kind, s.id@);
        lemma_add_planned_keeps_wf(with_expected, ws, commands_paths(views(s.verify@)), StepKind::Verify, s.id@);
    }
}

/// The graph of any plan is well formed: each path occurs once, none is
/// blank, and no relation is repeated.
pub proof fn lemma_plan_graph_wf(plan: StepPlan, ws: Option<Seq<Seq<char>>>)
    ensures
        graph_wf(plan_graph(plan, ws)),
{
    lemma_add_planned_keeps_wf(empty_graph(), ws, views(plan.required_artifacts@), StepKind::Report, "plan.required_artifacts"@);
    let g = add_planned(empty_graph(), ws, views(plan.required_artifacts@), StepKind::Report, "plan.required_artifacts"@);
    lemma_steps_graph_keeps_wf(g, ws, plan.steps@);
}

} // verus!
