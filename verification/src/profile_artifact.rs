//! Classification of profile paths into artifact kinds and eligibilities,
//! done before any obligation, verification or recovery producer reasons
//! about them. Classification executes nothing and grants no authority.
use crate::paths::{
    extension_is, file_name, file_name_of, has_extension, is_one_of, normalize_path,
    normalized_path, one_of,
};
use crate::profiles::ProfileId;
use crate::text::{
    contains, ends_with, starts_with, str_contains, str_ends_with, str_eq, str_starts_with,
    str_starts_with_any, starts_with_any,
};
use vstd::prelude::*;

verus! {

/// Where a path came from.
#[derive(Debug, Clone, Copy, PartialEq, Eq, Structural)]
pub enum ArtifactProvenance {
    UserRequiredArtifact,
    StepExpectedPath,
    PhaseRequiredArtifact,
    WorkspaceObservation,
    ProfileFact,
    VerifierEvidence,
}

/// What a path is within its profile.
#[derive(Debug, Clone, Copy, PartialEq, Eq, Structural)]
pub enum ArtifactKind {
    RouteEntry,
    RouteInfrastructure,
    UiSource,
    StyleSource,
    RuntimeSource,
    TestSource,
    Manifest,
    Config,
    GeneratedDeclaration,
    DependencyCache,
    BuildOutput,
    RawInput,
    DerivedOutput,
    Documentation,
    Unknown,
}

/// What a classified artifact may take part in.
#[derive(Debug, Clone, Copy, PartialEq, Eq, Default, Structural)]
pub struct ArtifactEligibility {
    pub route_integration: bool,
    pub source_integration: bool,
    pub verification_target: bool,
    pub recovery_target: bool,
    pub protected_input: bool,
}

/// A path with its provenance, kind and eligibility.
#[derive(Debug, Clone, PartialEq, Eq)]
pub struct ClassifiedArtifact {
    pub path: String,
    pub provenance: ArtifactProvenance,
    pub kind: ArtifactKind,
    pub eligibility: ArtifactEligibility,
}

// ---------------------------------------------------------------------------
// Path predicates
// ---------------------------------------------------------------------------

/// A generated TypeScript declaration.
pub open spec fn generated_declaration(p: Seq<char>) -> bool {
    let n = normalized_path(p);
    file_name(n) == "next-env.d.ts"@ || ends_with(n, ".d.ts"@)
}

/// A path inside a dependency cache.
pub open spec fn dependency_cache(p: Seq<char>) -> bool {
    let n = normalized_path(p);
    starts_with(n, "node_modules/"@) || starts_with(n, ".venv/"@) || starts_with(n, "venv/"@)
        || contains(n, "/node_modules/"@) || contains(n, "/.venv/"@) || contains(n, "/venv/"@)
}

/// A path inside a build output directory.
pub open spec fn build_output(p: Seq<char>) -> bool {
    let n = normalized_path(p);
    starts_with(n, ".next/"@) || starts_with(n, "target/"@) || starts_with(n, "dist/"@)
        || starts_with(n, "build/"@)
}

/// A dependency manifest or lock file.
pub open spec fn manifest_path(p: Seq<char>) -> bool {
    let name = file_name(p);
    ||| name == "package.json"@
    ||| name == "package-lock.json"@
    ||| name == "pnpm-lock.yaml"@
    ||| name == "yarn.lock"@
    ||| name == "Cargo.toml"@
    ||| name == "Cargo.lock"@
    ||| name == "pyproject.toml"@
    ||| name == "setup.py"@
    ||| (starts_with(name, "requirements"@) && ends_with(name, ".txt"@))
}

/// A tool configuration file.
pub open spec fn config_path(p: Seq<char>) -> bool {
    let name = file_name(p);
    ||| name == "tsconfig.json"@
    ||| starts_with(name, "next.config."@)
    ||| starts_with(name, "tailwind.config."@)
    ||| starts_with(name, "postcss.config."@)
    ||| one_of(name, seq!["pytest.ini"@, "tox.ini"@, ".flake8"@, "mypy.ini"@])
}

/// A Next.js route entry page.
pub open spec fn nextjs_route_entry(p: Seq<char>) -> bool {
    one_of(
        p,
        seq![
            "app/page.tsx"@,
            "app/page.jsx"@,
            "src/app/page.tsx"@,
            "src/app/page.jsx"@,
            "pages/index.tsx"@,
            "pages/index.jsx"@,
            "src/pages/index.tsx"@,
            "src/pages/index.jsx"@,
        ],
    )
}

/// A Next.js root layout.
pub open spec fn nextjs_route_infrastructure(p: Seq<char>) -> bool {
    one_of(p, seq!["app/layout.tsx"@, "app/layout.jsx"@, "src/app/layout.tsx"@, "src/app/layout.jsx"@])
}

/// A Next.js UI source file.
pub open spec fn nextjs_ui_source(p: Seq<char>) -> bool {
    has_extension(p, seq!["tsx"@, "jsx"@, "ts"@, "js"@]) && starts_with_any(
        p,
        seq![
            "components/"@,
            "src/components/"@,
            "app/"@,
            "src/app/"@,
            "lib/"@,
            "src/lib/"@,
            "hooks/"@,
            "src/hooks/"@,
        ],
    )
}

/// A Next.js stylesheet.
pub open spec fn nextjs_style_source(p: Seq<char>) -> bool {
    has_extension(p, seq!["css"@]) && starts_with_any(
        p,
        seq!["app/"@, "src/app/"@, "styles/"@, "src/styles/"@],
    )
}

/// A Python dependency manifest.
pub open spec fn python_manifest(p: Seq<char>) -> bool {
    let name = file_name(p);
    name == "pyproject.toml"@ || name == "setup.py"@ || (starts_with(name, "requirements"@) && ends_with(
        name,
        ".txt"@,
    ))
}

/// A Python tool configuration file.
pub open spec fn python_config(p: Seq<char>) -> bool {
    one_of(file_name(p), seq!["pytest.ini"@, "tox.ini"@, ".flake8"@, "mypy.ini"@])
}

/// Python bytecode or a bytecode cache directory.
pub open spec fn python_build_output(p: Seq<char>) -> bool {
    let n = normalized_path(p);
    ends_with(n, ".pyc"@) || starts_with(n, "__pycache__/"@) || contains(n, "/__pycache__/"@)
}

/// A raw data input.
pub open spec fn raw_input(p: Seq<char>) -> bool {
    starts_with_any(p, seq!["raw/"@, "data/raw/"@, "input/"@, "inputs/"@])
}

// ---------------------------------------------------------------------------
// Classification
// ---------------------------------------------------------------------------

/// The kind of a normalized Next.js path.
pub open spec fn nextjs_kind(p: Seq<char>) -> ArtifactKind {
    if dependency_cache(p) {
        ArtifactKind::DependencyCache
    } else if build_output(p) {
        ArtifactKind::BuildOutput
    } else if generated_declaration(p) {
        ArtifactKind::GeneratedDeclaration
    } else if nextjs_route_entry(p) {
        ArtifactKind::RouteEntry
    } else if nextjs_route_infrastructure(p) {
        ArtifactKind::RouteInfrastructure
    } else if manifest_path(p) {
        ArtifactKind::Manifest
    } else if config_path(p) {
        ArtifactKind::Config
    } else if nextjs_style_source(p) {
        ArtifactKind::StyleSource
    } else if nextjs_ui_source(p) {
        ArtifactKind::UiSource
    } else {
        ArtifactKind::Unknown
    }
}

/// The kind of a normalized Python path.
pub open spec fn python_kind(p: Seq<char>) -> ArtifactKind {
    if dependency_cache(p) {
        ArtifactKind::DependencyCache
    } else if python_build_output(p) || build_output(p) {
        ArtifactKind::BuildOutput
    } else if python_manifest(p) {
        ArtifactKind::Manifest
    } else if python_config(p) {
        ArtifactKind::Config
    } else if starts_with(p, "tests/"@) && has_extension(p, seq!["py"@]) {
        ArtifactKind::TestSource
    } else if has_extension(p, seq!["py"@]) {
        ArtifactKind::RuntimeSource
    } else {
        ArtifactKind::Unknown
    }
}

/// The kind of a normalized Rust path.
pub open spec fn rust_kind(p: Seq<char>) -> ArtifactKind {
    if starts_with(p, "target/"@) {
        ArtifactKind::BuildOutput
    } else if p == "Cargo.toml"@ || p == "Cargo.lock"@ {
        ArtifactKind::Manifest
    } else if one_of(p, seq!["rustfmt.toml"@, ".rustfmt.toml"@, "clippy.toml"@]) {
        ArtifactKind::Config
    } else if (starts_with(p, "tests/"@) || starts_with(p, "benches/"@)) && has_extension(p, seq!["rs"@]) {
        ArtifactKind::TestSource
    } else if (starts_with(p, "src/"@) || starts_with(p, "examples/"@)) && has_extension(p, seq!["rs"@]) {
        ArtifactKind::RuntimeSource
    } else {
        ArtifactKind::Unknown
    }
}

/// The kind of a normalized documentation path.
pub open spec fn docs_kind(p: Seq<char>) -> ArtifactKind {
    if starts_with(p, "site/"@) || starts_with(p, "dist/"@) {
        ArtifactKind::BuildOutput
    } else if p == "README.md"@ || (starts_with(p, "docs/"@) && has_extension(p, seq!["md"@])) {
        ArtifactKind::Documentation
    } else {
        ArtifactKind::Unknown
    }
}

/// The kind of a normalized data path.
pub open spec fn data_kind(p: Seq<char>) -> ArtifactKind {
    if raw_input(p) {
        ArtifactKind::RawInput
    } else if starts_with(p, "data/processed/"@) || starts_with(p, "reports/"@) {
        ArtifactKind::DerivedOutput
    } else {
        ArtifactKind::Unknown
    }
}

/// A path named by a contract rather than observed.
pub open spec fn contract_provenance(p: ArtifactProvenance) -> bool {
    p == ArtifactProvenance::UserRequiredArtifact || p == ArtifactProvenance::StepExpectedPath || p
        == ArtifactProvenance::PhaseRequiredArtifact
}

/// A kind that a Next.js verifier or recovery may target.
pub open spec fn nextjs_target_kind(k: ArtifactKind) -> bool {
    k == ArtifactKind::RouteEntry || k == ArtifactKind::RouteInfrastructure || k == ArtifactKind::UiSource
        || k == ArtifactKind::StyleSource || k == ArtifactKind::Manifest || k == ArtifactKind::Config
}

/// The eligibility of a Next.js artifact.
pub open spec fn nextjs_eligibility_spec(k: ArtifactKind, p: ArtifactProvenance) -> ArtifactEligibility {
    ArtifactEligibility {
        route_integration: k == ArtifactKind::UiSource && contract_provenance(p),
        source_integration: k == ArtifactKind::UiSource && contract_provenance(p),
        verification_target: nextjs_target_kind(k),
        recovery_target: nextjs_target_kind(k),
        protected_input: false,
    }
}

/// A kind that a source verifier or recovery may target.
pub open spec fn source_target_kind(k: ArtifactKind) -> bool {
    k == ArtifactKind::RuntimeSource || k == ArtifactKind::TestSource || k == ArtifactKind::Manifest
        || k == ArtifactKind::Config
}

/// The eligibility of a Python or Rust artifact.
pub open spec fn source_eligibility_spec(k: ArtifactKind) -> ArtifactEligibility {
    ArtifactEligibility {
        route_integration: false,
        source_integration: k == ArtifactKind::RuntimeSource || k == ArtifactKind::TestSource,
        verification_target: source_target_kind(k),
        recovery_target: source_target_kind(k),
        protected_input: false,
    }
}

/// The eligibility of a documentation artifact.
pub open spec fn docs_eligibility_spec(k: ArtifactKind) -> ArtifactEligibility {
    ArtifactEligibility {
        route_integration: false,
        source_integration: false,
        verification_target: k == ArtifactKind::Documentation,
        recovery_target: k == ArtifactKind::Documentation,
        protected_input: false,
    }
}

/// The eligibility of a data artifact: raw inputs are protected, derived
/// outputs may be recovered.
pub open spec fn data_eligibility_spec(k: ArtifactKind) -> ArtifactEligibility {
    ArtifactEligibility {
        route_integration: false,
        source_integration: false,
        verification_target: k == ArtifactKind::RawInput || k == ArtifactKind::DerivedOutput,
        recovery_target: k == ArtifactKind::DerivedOutput,
        protected_input: k == ArtifactKind::RawInput,
    }
}

/// No eligibility at all.
pub open spec fn no_eligibility() -> ArtifactEligibility {
    ArtifactEligibility {
        route_integration: false,
        source_integration: false,
        verification_target: false,
        recovery_target: false,
        protected_input: false,
    }
}

/// The classification of a path under a profile.
pub open spec fn classified(
    a: ClassifiedArtifact,
    path: Seq<char>,
    provenance: ArtifactProvenance,
    kind: ArtifactKind,
    eligibility: ArtifactEligibility,
) -> bool {
    &&& a.path@ == normalized_path(path)
    &&& a.provenance == provenance
    &&& a.kind == kind
    &&& a.eligibility == eligibility
}

/// The kind of a path under a profile.
pub open spec fn profile_kind(profile: ProfileId, path: Seq<char>) -> ArtifactKind {
    let n = normalized_path(path);
    match profile {
        ProfileId::NextJs => nextjs_kind(n),
        ProfileId::Python => python_kind(n),
        ProfileId::Rust => rust_kind(n),
        ProfileId::Docs => docs_kind(n),
        ProfileId::DataAnalysis | ProfileId::DataPipeline => data_kind(n),
        ProfileId::Generic | ProfileId::Investigation => ArtifactKind::Unknown,
    }
}

/// The eligibility of a path under a profile.
pub open spec fn profile_eligibility(profile: ProfileId, path: Seq<char>, provenance: ArtifactProvenance) -> ArtifactEligibility {
    let k = profile_kind(profile, path);
    match profile {
        ProfileId::NextJs => nextjs_eligibility_spec(k, provenance),
        ProfileId::Python | ProfileId::Rust => source_eligibility_spec(k),
        ProfileId::Docs => docs_eligibility_spec(k),
        ProfileId::DataAnalysis | ProfileId::DataPipeline => data_eligibility_spec(k),
        ProfileId::Generic | ProfileId::Investigation => no_eligibility(),
    }
}

/// Classifies a path under its profile.
pub fn classify_profile_artifact(profile: ProfileId, path: &str, provenance: ArtifactProvenance) -> (r: ClassifiedArtifact)
    ensures
        classified(
            r,
            path@,
            provenance,
            profile_kind(profile, path@),
            profile_eligibility(profile, path@, provenance),
        ),
{
    match profile {
        ProfileId::NextJs => classify_nextjs_artifact(path, provenance),
        ProfileId::Python => classify_python_artifact(path, provenance),
        ProfileId::Rust => classify_rust_artifact(path, provenance),
        ProfileId::Docs => classify_docs_artifact(path, provenance),
        ProfileId::DataAnalysis | ProfileId::DataPipeline => classify_data_artifact(path, provenance),
        ProfileId::Generic | ProfileId::Investigation => unknown_artifact(path, provenance),
    }
}

/// Classifies a Next.js path.
pub fn classify_nextjs_artifact(path: &str, provenance: ArtifactProvenance) -> (r: ClassifiedArtifact)
    ensures
        classified(
            r,
            path@,
            provenance,
            nextjs_kind(normalized_path(path@)),
            nextjs_eligibility_spec(nextjs_kind(normalized_path(path@)), provenance),
        ),
{
    let path = normalize_path(path);
    let p = path.as_str();
    let kind = if is_dependency_cache_path(p) {
        ArtifactKind::DependencyCache
    } else if is_build_output_path(p) {
        ArtifactKind::BuildOutput
    } else if is_generated_declaration(p) {
        ArtifactKind::GeneratedDeclaration
    } else if is_nextjs_route_entry(p) {
        ArtifactKind::RouteEntry
    } else if is_nextjs_route_infrastructure(p) {
        ArtifactKind::RouteInfrastructure
    } else if is_manifest_path(p) {
        ArtifactKind::Manifest
    } else if is_config_path(p) {
        ArtifactKind::Config
    } else if is_nextjs_style_source_path(p) {
        ArtifactKind::StyleSource
    } else if is_nextjs_ui_source_path(p) {
        ArtifactKind::UiSource
    } else {
        ArtifactKind::Unknown
    };
    let eligibility = nextjs_eligibility(kind, provenance);
    ClassifiedArtifact { path, provenance, kind, eligibility }
}

/// Classifies a Python path.
pub fn classify_python_artifact(path: &str, provenance: ArtifactProvenance) -> (r: ClassifiedArtifact)
    ensures
        classified(
            r,
            path@,
            provenance,
            python_kind(normalized_path(path@)),
            source_eligibility_spec(python_kind(normalized_path(path@))),
        ),
{
    let path = normalize_path(path);
    let p = path.as_str();
    let py = ["py"];
    assert(crate::text::str_views(py@) == seq!["py"@]);
    let kind = if is_dependency_cache_path(p) {
        ArtifactKind::DependencyCache
    } else if is_python_build_output_path(p) || is_build_output_path(p) {
        ArtifactKind::BuildOutput
    } else if is_python_manifest_path(p) {
        ArtifactKind::Manifest
    } else if is_python_config_path(p) {
        ArtifactKind::Config
    } else if str_starts_with(p, "tests/") && extension_is(p, &py) {
        ArtifactKind::TestSource
    } else if extension_is(p, &py) {
        ArtifactKind::RuntimeSource
    } else {
        ArtifactKind::Unknown
    };
    let eligibility = source_eligibility(kind);
    ClassifiedArtifact { path, provenance, kind, eligibility }
}

/// Classifies a Rust path.
pub fn classify_rust_artifact(path: &str, provenance: ArtifactProvenance) -> (r: ClassifiedArtifact)
    ensures
        classified(
            r,
            path@,
            provenance,
            rust_kind(normalized_path(path@)),
            source_eligibility_spec(rust_kind(normalized_path(path@))),
        ),
{
    let path = normalize_path(path);
    let p = path.as_str();
    let rs = ["rs"];
    let configs = ["rustfmt.toml", ".rustfmt.toml", "clippy.toml"];
    assert(crate::text::str_views(rs@) == seq!["rs"@]);
    assert(crate::text::str_views(configs@) == seq!["rustfmt.toml"@, ".rustfmt.toml"@, "clippy.toml"@]);
    let kind = if str_starts_with(p, "target/") {
        ArtifactKind::BuildOutput
    } else if str_eq(p, "Cargo.toml") || str_eq(p, "Cargo.lock") {
        ArtifactKind::Manifest
    } else if is_one_of(p, &configs) {
        ArtifactKind::Config
    } else if (str_starts_with(p, "tests/") || str_starts_with(p, "benches/")) && extension_is(p, &rs) {
        ArtifactKind::TestSource
    } else if (str_starts_with(p, "src/") || str_starts_with(p, "examples/")) && extension_is(p, &rs) {
        ArtifactKind::RuntimeSource
    } else {
        ArtifactKind::Unknown
    };
    let eligibility = source_eligibility(kind);
    ClassifiedArtifact { path, provenance, kind, eligibility }
}

/// Classifies a documentation path.
pub fn classify_docs_artifact(path: &str, provenance: ArtifactProvenance) -> (r: ClassifiedArtifact)
    ensures
        classified(
            r,
            path@,
            provenance,
            docs_kind(normalized_path(path@)),
            docs_eligibility_spec(docs_kind(normalized_path(path@))),
        ),
{
    let path = normalize_path(path);
    let p = path.as_str();
    let md = ["md"];
    assert(crate::text::str_views(md@) == seq!["md"@]);
    let kind = if str_starts_with(p, "site/") || str_starts_with(p, "dist/") {
        ArtifactKind::BuildOutput
    } else if str_eq(p, "README.md") || (str_starts_with(p, "docs/") && extension_is(p, &md)) {
        ArtifactKind::Documentation
    } else {
        ArtifactKind::Unknown
    };
    let eligibility = docs_eligibility(kind);
    ClassifiedArtifact { path, provenance, kind, eligibility }
}

/// Classifies a data path.
pub fn classify_data_artifact(path: &str, provenance: ArtifactProvenance) -> (r: ClassifiedArtifact)
    ensures
        classified(
            r,
            path@,
            provenance,
            data_kind(normalized_path(path@)),
            data_eligibility_spec(data_kind(normalized_path(path@))),
        ),
{
    let path = normalize_path(path);
    let p = path.as_str();
    let kind = if is_raw_input_path(p) {
        ArtifactKind::RawInput
    } else if str_starts_with(p, "data/processed/") || str_starts_with(p, "reports/") {
        ArtifactKind::DerivedOutput
    } else {
        ArtifactKind::Unknown
    };
    let eligibility = data_eligibility(kind);
    ClassifiedArtifact { path, provenance, kind, eligibility }
}

/// Whether the path is a generated TypeScript declaration.
pub fn is_generated_declaration(path: &str) -> (r: bool)
    ensures
        r == generated_declaration(path@),
{
    let path = normalize_path(path);
    let name = file_name_of(path.as_str());
    str_eq(name.as_str(), "next-env.d.ts") || str_ends_with(path.as_str(), ".d.ts")
}

/// Whether the path lies inside a dependency cache.
pub fn is_dependency_cache_path(path: &str) -> (r: bool)
    ensures
        r == dependency_cache(path@),
{
    let path = normalize_path(path);
    let p = path.as_str();
    str_starts_with(p, "node_modules/") || str_starts_with(p, ".venv/") || str_starts_with(p, "venv/")
        || str_contains(p, "/node_modules/") || str_contains(p, "/.venv/") || str_contains(p, "/venv/")
}

/// Whether the path lies inside a build output directory.
pub fn is_build_output_path(path: &str) -> (r: bool)
    ensures
        r == build_output(path@),
{
    let path = normalize_path(path);
    let p = path.as_str();
    str_starts_with(p, ".next/") || str_starts_with(p, "target/") || str_starts_with(p, "dist/")
        || str_starts_with(p, "build/")
}

/// The label of an artifact kind.
pub open spec fn kind_label(k: ArtifactKind) -> Seq<char> {
    match k {
        ArtifactKind::RouteEntry => "route_entry"@,
        ArtifactKind::RouteInfrastructure => "route_infrastructure"@,
        ArtifactKind::UiSource => "source/ui"@,
        ArtifactKind::StyleSource => "source/style"@,
        ArtifactKind::RuntimeSource => "source/runtime"@,
        ArtifactKind::TestSource => "test"@,
        ArtifactKind::Manifest => "setup/manifest"@,
        ArtifactKind::Config => "setup/config"@,
        ArtifactKind::GeneratedDeclaration => "generated/declaration"@,
        ArtifactKind::DependencyCache => "dependency_cache"@,
        ArtifactKind::BuildOutput => "build_output"@,
        ArtifactKind::RawInput => "raw_input"@,
        ArtifactKind::DerivedOutput => "derived_output"@,
        ArtifactKind::Documentation => "documentation"@,
        ArtifactKind::Unknown => "unknown"@,
    }
}

/// The label of an artifact kind.
pub fn artifact_kind_label(kind: ArtifactKind) -> (r: &'static str)
    ensures
        r@ == kind_label(kind),
{
    match kind {
        ArtifactKind::RouteEntry => "route_entry",
        ArtifactKind::RouteInfrastructure => "route_infrastructure",
        ArtifactKind::UiSource => "source/ui",
        ArtifactKind::StyleSource => "source/style",
        ArtifactKind::RuntimeSource => "source/runtime",
        ArtifactKind::TestSource => "test",
        ArtifactKind::Manifest => "setup/manifest",
        ArtifactKind::Config => "setup/config",
        ArtifactKind::GeneratedDeclaration => "generated/declaration",
        ArtifactKind::DependencyCache => "dependency_cache",
        ArtifactKind::BuildOutput => "build_output",
        ArtifactKind::RawInput => "raw_input",
        ArtifactKind::DerivedOutput => "derived_output",
        ArtifactKind::Documentation => "documentation",
        ArtifactKind::Unknown => "unknown",
    }
}

/// Whether a setup step may own an artifact of the kind: manifests,
/// configuration and unclassified paths only.
pub fn setup_step_may_own_artifact(kind: ArtifactKind) -> (r: bool)
    ensures
        r == (kind == ArtifactKind::Manifest || kind == ArtifactKind::Config || kind == ArtifactKind::Unknown),
{
    match kind {
        ArtifactKind::Manifest | ArtifactKind::Config | ArtifactKind::Unknown => true,
        _ => false,
    }
}

/// Whether the path's file name is a dependency manifest or lock file.
pub fn is_manifest_path(path: &str) -> (r: bool)
    ensures
        r == manifest_path(path@),
{
    let name = file_name_of(path);
    let n = name.as_str();
    str_eq(n, "package.json") || str_eq(n, "package-lock.json") || str_eq(n, "pnpm-lock.yaml") || str_eq(
        n,
        "yarn.lock",
    ) || str_eq(n, "Cargo.toml") || str_eq(n, "Cargo.lock") || str_eq(n, "pyproject.toml") || str_eq(
        n,
        "setup.py",
    ) || (str_starts_with(n, "requirements") && str_ends_with(n, ".txt"))
}

/// Whether the path's file name is a tool configuration file.
pub fn is_config_path(path: &str) -> (r: bool)
    ensures
        r == config_path(path@),
{
    let name = file_name_of(path);
    let n = name.as_str();
    let configs = ["pytest.ini", "tox.ini", ".flake8", "mypy.ini"];
    assert(crate::text::str_views(configs@) == seq!["pytest.ini"@, "tox.ini"@, ".flake8"@, "mypy.ini"@]);
    str_eq(n, "tsconfig.json") || str_starts_with(n, "next.config.") || str_starts_with(n, "tailwind.config.")
        || str_starts_with(n, "postcss.config.") || is_one_of(n, &configs)
}

fn unknown_artifact(path: &str, provenance: ArtifactProvenance) -> (r: ClassifiedArtifact)
    ensures
        classified(r, path@, provenance, ArtifactKind::Unknown, no_eligibility()),
{
    ClassifiedArtifact {
        path: normalize_path(path),
        provenance,
        kind: ArtifactKind::Unknown,
        eligibility: ArtifactEligibility {
            route_integration: false,
            source_integration: false,
            verification_target: false,
            recovery_target: false,
            protected_input: false,
        },
    }
}

fn nextjs_eligibility(kind: ArtifactKind, provenance: ArtifactProvenance) -> (r: ArtifactEligibility)
    ensures
        r == nextjs_eligibility_spec(kind, provenance),
{
    let contract_artifact = provenance == ArtifactProvenance::UserRequiredArtifact || provenance
        == ArtifactProvenance::StepExpectedPath || provenance == ArtifactProvenance::PhaseRequiredArtifact;
    let target = kind == ArtifactKind::RouteEntry || kind == ArtifactKind::RouteInfrastructure || kind
        == ArtifactKind::UiSource || kind == ArtifactKind::StyleSource || kind == ArtifactKind::Manifest
        || kind == ArtifactKind::Config;
    ArtifactEligibility {
        route_integration: kind == ArtifactKind::UiSource && contract_artifact,
        source_integration: kind == ArtifactKind::UiSource && contract_artifact,
        verification_target: target,
        recovery_target: target,
        protected_input: false,
    }
}

fn source_eligibility(kind: ArtifactKind) -> (r: ArtifactEligibility)
    ensures
        r == source_eligibility_spec(kind),
{
    let target = kind == ArtifactKind::RuntimeSource || kind == ArtifactKind::TestSource || kind
        == ArtifactKind::Manifest || kind == ArtifactKind::Config;
    ArtifactEligibility {
        route_integration: false,
        source_integration: kind == ArtifactKind::RuntimeSource || kind == ArtifactKind::TestSource,
        verification_target: target,
        recovery_target: target,
        protected_input: false,
    }
}

fn docs_eligibility(kind: ArtifactKind) -> (r: ArtifactEligibility)
    ensures
        r == docs_eligibility_spec(kind),
{
    ArtifactEligibility {
        route_integration: false,
        source_integration: false,
        verification_target: kind == ArtifactKind::Documentation,
        recovery_target: kind == ArtifactKind::Documentation,
        protected_input: false,
    }
}

fn data_eligibility(kind: ArtifactKind) -> (r: ArtifactEligibility)
    ensures
        r == data_eligibility_spec(kind),
{
    ArtifactEligibility {
        route_integration: false,
        source_integration: false,
        verification_target: kind == ArtifactKind::RawInput || kind == ArtifactKind::DerivedOutput,
        recovery_target: kind == ArtifactKind::DerivedOutput,
        protected_input: kind == ArtifactKind::RawInput,
    }
}

fn is_nextjs_route_entry(path: &str) -> (r: bool)
    ensures
        r == nextjs_route_entry(path@),
{
    let entries = [
        "app/page.tsx",
        "app/page.jsx",
        "src/app/page.tsx",
        "src/app/page.jsx",
        "pages/index.tsx",
        "pages/index.jsx",
        "src/pages/index.tsx",
        "src/pages/index.jsx",
    ];
    assert(crate::text::str_views(entries@) == seq![
        "app/page.tsx"@,
        "app/page.jsx"@,
        "src/app/page.tsx"@,
        "src/app/page.jsx"@,
        "pages/index.tsx"@,
        "pages/index.jsx"@,
        "src/pages/index.tsx"@,
        "src/pages/index.jsx"@,
    ]);
    is_one_of(path, &entries)
}

fn is_nextjs_route_infrastructure(path: &str) -> (r: bool)
    ensures
        r == nextjs_route_infrastructure(path@),
{
    let layouts = ["app/layout.tsx", "app/layout.jsx", "src/app/layout.tsx", "src/app/layout.jsx"];
    assert(crate::text::str_views(layouts@) == seq![
        "app/layout.tsx"@,
        "app/layout.jsx"@,
        "src/app/layout.tsx"@,
        "src/app/layout.jsx"@,
    ]);
    is_one_of(path, &layouts)
}

fn is_nextjs_ui_source_path(path: &str) -> (r: bool)
    ensures
        r == nextjs_ui_source(path@),
{
    let exts = ["tsx", "jsx", "ts", "js"];
    let dirs = [
        "components/",
        "src/components/",
        "app/",
        "src/app/",
        "lib/",
        "src/lib/",
        "hooks/",
        "src/hooks/",
    ];
    assert(crate::text::str_views(exts@) == seq!["tsx"@, "jsx"@, "ts"@, "js"@]);
    assert(crate::text::str_views(dirs@) == seq![
        "components/"@,
        "src/components/"@,
        "app/"@,
        "src/app/"@,
        "lib/"@,
        "src/lib/"@,
        "hooks/"@,
        "src/hooks/"@,
    ]);
    extension_is(path, &exts) && str_starts_with_any(path, &dirs)
}

fn is_nextjs_style_source_path(path: &str) -> (r: bool)
    ensures
        r == nextjs_style_source(path@),
{
    let exts = ["css"];
    let dirs = ["app/", "src/app/", "styles/", "src/styles/"];
    assert(crate::text::str_views(exts@) == seq!["css"@]);
    assert(crate::text::str_views(dirs@) == seq!["app/"@, "src/app/"@, "styles/"@, "src/styles/"@]);
    extension_is(path, &exts) && str_starts_with_any(path, &dirs)
}

fn is_python_manifest_path(path: &str) -> (r: bool)
    ensures
        r == python_manifest(path@),
{
    let name = file_name_of(path);
    let n = name.as_str();
    str_eq(n, "pyproject.toml") || str_eq(n, "setup.py") || (str_starts_with(n, "requirements") && str_ends_with(
        n,
        ".txt",
    ))
}

fn is_python_config_path(path: &str) -> (r: bool)
    ensures
        r == python_config(path@),
{
    let name = file_name_of(path);
    let configs = ["pytest.ini", "tox.ini", ".flake8", "mypy.ini"];
    assert(crate::text::str_views(configs@) == seq!["pytest.ini"@, "tox.ini"@, ".flake8"@, "mypy.ini"@]);
    is_one_of(name.as_str(), &configs)
}

fn is_python_build_output_path(path: &str) -> (r: bool)
    ensures
        r == python_build_output(path@),
{
    let path = normalize_path(path);
    let p = path.as_str();
    str_ends_with(p, ".pyc") || str_starts_with(p, "__pycache__/") || str_contains(p, "/__pycache__/")
}

fn is_raw_input_path(path: &str) -> (r: bool)
    ensures
        r == raw_input(path@),
{
    let dirs = ["raw/", "data/raw/", "input/", "inputs/"];
    assert(crate::text::str_views(dirs@) == seq!["raw/"@, "data/raw/"@, "input/"@, "inputs/"@]);
    str_starts_with_any(path, &dirs)
}

} // verus!
