//! Bounded mechanical repair hints derived from deterministic diagnostics.
//!
//! Nothing here mutates a file or chooses a recovery job. An already admitted
//! owner, target and action context goes in; a small hint or proposal that
//! the recovery task can render comes out.
use crate::paths::{underscore_words, underscored};
use crate::text::{
    contains, copy_opt, copy_string, is_blank, is_blank_str, opt_view, owned, push_str, starts_with,
    str_contains, str_eq, str_starts_with, views,
};
use vstd::prelude::*;

verus! {

/// The verifier diagnostic codes that mechanical adapters read.
#[derive(Debug, Clone, Copy, PartialEq, Eq, Structural)]
pub enum VerifierDiagnosticCode {
    RustCompileError,
    RustTestAssertionMismatch,
    PythonImportMissing,
    PythonAssertionMismatch,
    FastapiResponseMismatch,
    TypescriptTypeError,
    NextjsEventHandlerBoundary,
    NextjsRouteNotIntegrated,
    DependencyMissing,
    UnknownVerifierFailure,
}

/// The admitted context a mechanical adapter works in.
#[derive(Debug, Clone, PartialEq, Eq)]
pub struct MechanicalRepairInput {
    pub diagnostic_code: VerifierDiagnosticCode,
    pub failure_kind: String,
    pub active_job: String,
    pub target_path: Option<String>,
    pub target_role: Option<String>,
    pub repair_action: Option<String>,
    pub source_of_truth: String,
    pub allowed_change_kind: Option<String>,
}

/// Whether a mechanical adapter may act.
#[derive(Debug, Clone, Copy, PartialEq, Eq, Structural)]
pub enum MechanicalRepairStatus {
    NotApplicable,
    Admitted,
    Rejected,
}

pub open spec fn repair_status_name(x: MechanicalRepairStatus) -> Seq<char> {
    match x {
        MechanicalRepairStatus::NotApplicable => "not_applicable"@,
        MechanicalRepairStatus::Admitted => "admitted"@,
        MechanicalRepairStatus::Rejected => "rejected"@,
    }
}

impl MechanicalRepairStatus {
    /// The snake-case name.
    pub fn as_str(self) -> (r: &'static str)
        ensures
            r@ == repair_status_name(self),
    {
        match self {
            MechanicalRepairStatus::NotApplicable => "not_applicable",
            MechanicalRepairStatus::Admitted => "admitted",
            MechanicalRepairStatus::Rejected => "rejected",
        }
    }
}


/// What a mechanical adapter proposes.
#[derive(Debug, Clone, PartialEq, Eq)]
pub struct MechanicalRepairOutput {
    pub adapter_id: String,
    pub status: MechanicalRepairStatus,
    pub action: String,
    pub target_path: Option<String>,
    pub hint: String,
    pub reason: String,
    pub rerun_authority: String,
}

/// A family of mechanical adapters: the diagnostic codes it reads, the
/// target roles it may touch, and whose evidence decides.
#[derive(Debug, Clone, PartialEq, Eq)]
pub struct MechanicalAdapterFamilySpec {
    pub id: &'static str,
    pub diagnostic_codes: Vec<&'static str>,
    pub allowed_target_roles: Vec<&'static str>,
    pub source_of_truth: &'static str,
    pub rerun_authority: &'static str,
}

/// A family as plain values.
pub open spec fn family_view(f: MechanicalAdapterFamilySpec) -> (Seq<char>, Seq<Seq<char>>, Seq<Seq<char>>, Seq<char>, Seq<char>) {
    (
        f.id@,
        crate::text::str_views(f.diagnostic_codes@),
        crate::text::str_views(f.allowed_target_roles@),
        f.source_of_truth@,
        f.rerun_authority@,
    )
}

/// The registered adapter families, in order.
pub open spec fn family_table() -> Seq<(Seq<char>, Seq<Seq<char>>, Seq<Seq<char>>, Seq<char>, Seq<char>)> {
    seq![
        ("rust_compile"@, seq!["rust_compile_error"@], seq!["source"@, "test"@], "cargo_diagnostic"@, "original_cargo_verifier"@),
        ("rust_cargo_manifest"@, seq!["dependency_missing"@, "cargo_manifest_missing"@], seq!["manifest"@], "cargo_or_manifest_diagnostic"@, "original_cargo_verifier"@),
        ("rust_assertion"@, seq!["rust_test_assertion_mismatch"@], seq!["source"@, "test"@], "cargo_test_diagnostic"@, "original_cargo_verifier"@),
        ("python_import"@, seq!["python_import_missing"@], seq!["source"@, "test"@], "python_traceback"@, "original_python_verifier"@),
        ("python_assertion"@, seq!["python_assertion_mismatch"@], seq!["source"@, "test"@], "pytest_diagnostic"@, "original_python_verifier"@),
        ("fastapi_response"@, seq!["fastapi_response_mismatch"@], seq!["source"@, "test"@], "pytest_or_http_diagnostic"@, "original_python_verifier"@),
        ("node_next_type"@, seq!["typescript_type_error"@, "nextjs_event_handler_boundary"@], seq!["source"@, "route_entry"@, "config"@], "next_or_typescript_diagnostic"@, "original_nextjs_verifier"@),
        ("nextjs_route_integration"@, seq!["nextjs_route_not_integrated"@], seq!["route_entry"@, "source"@], "profile_route_graph"@, "profile_verification_then_original_nextjs_verifier"@),
        ("manifest_dependency"@, seq!["dependency_missing"@], seq!["manifest"@], "verifier_dependency_diagnostic"@, "verifier_owned_setup_then_original_verifier"@),
        ("docs_literal"@, seq!["docs_literal_missing"@], seq!["documentation"@], "profile_completion_evidence"@, "original_docs_check"@),
        ("data_schema"@, seq!["derived_output_missing"@, "schema_mismatch"@], seq!["derived_output"@, "pipeline"@], "data_output_contract"@, "original_data_verifier"@),
    ]
}

fn family(
    id: &'static str,
    diagnostic_codes: Vec<&'static str>,
    allowed_target_roles: Vec<&'static str>,
    source_of_truth: &'static str,
    rerun_authority: &'static str,
) -> (r: MechanicalAdapterFamilySpec)
    ensures
        r.id == id,
        r.diagnostic_codes@ == diagnostic_codes@,
        r.allowed_target_roles@ == allowed_target_roles@,
        r.source_of_truth == source_of_truth,
        r.rerun_authority == rerun_authority,
{
    MechanicalAdapterFamilySpec { id, diagnostic_codes, allowed_target_roles, source_of_truth, rerun_authority }
}

/// The registry of mechanical adapter families.
pub fn mechanical_adapter_family_specs() -> (r: Vec<MechanicalAdapterFamilySpec>)
    ensures
        r@.map_values(|f: MechanicalAdapterFamilySpec| family_view(f)) == family_table(),
{
    let r = vec![
        family("rust_compile", vec!["rust_compile_error"], vec!["source", "test"], "cargo_diagnostic", "original_cargo_verifier"),
        family("rust_cargo_manifest", vec!["dependency_missing", "cargo_manifest_missing"], vec!["manifest"], "cargo_or_manifest_diagnostic", "original_cargo_verifier"),
        family("rust_assertion", vec!["rust_test_assertion_mismatch"], vec!["source", "test"], "cargo_test_diagnostic", "original_cargo_verifier"),
        family("python_import", vec!["python_import_missing"], vec!["source", "test"], "python_traceback", "original_python_verifier"),
        family("python_assertion", vec!["python_assertion_mismatch"], vec!["source", "test"], "pytest_diagnostic", "original_python_verifier"),
        family("fastapi_response", vec!["fastapi_response_mismatch"], vec!["source", "test"], "pytest_or_http_diagnostic", "original_python_verifier"),
        family("node_next_type", vec!["typescript_type_error", "nextjs_event_handler_boundary"], vec!["source", "route_entry", "config"], "next_or_typescript_diagnostic", "original_nextjs_verifier"),
        family("nextjs_route_integration", vec!["nextjs_route_not_integrated"], vec!["route_entry", "source"], "profile_route_graph", "profile_verification_then_original_nextjs_verifier"),
        family("manifest_dependency", vec!["dependency_missing"], vec!["manifest"], "verifier_dependency_diagnostic", "verifier_owned_setup_then_original_verifier"),
        family("docs_literal", vec!["docs_literal_missing"], vec!["documentation"], "profile_completion_evidence", "original_docs_check"),
        family("data_schema", vec!["derived_output_missing", "schema_mismatch"], vec!["derived_output", "pipeline"], "data_output_contract", "original_data_verifier"),
    ];
    assert(r@.map_values(|f: MechanicalAdapterFamilySpec| family_view(f)) =~~= family_table());
    r
}

/// The adapter a diagnostic code maps to: its id, action and hint.
pub open spec fn adapter_of(code: VerifierDiagnosticCode) -> Option<(Seq<char>, Seq<char>, Seq<char>)> {
    match code {
        VerifierDiagnosticCode::RustCompileError => Some((
            "rust_compile_diagnostic"@,
            "repair_rust_compile_error"@,
            "Use the compiler diagnostic to repair the admitted Rust source target; do not edit Cargo artifacts unless the action targets a manifest."@,
        )),
        VerifierDiagnosticCode::RustTestAssertionMismatch => Some((
            "rust_assertion_diagnostic"@,
            "repair_rust_assertion_mismatch"@,
            "Repair the admitted implementation or test contract according to the assertion mismatch and rerun the original cargo verifier."@,
        )),
        VerifierDiagnosticCode::PythonImportMissing => Some((
            "python_import_diagnostic"@,
            "repair_python_import_or_module_path"@,
            "Repair the admitted Python module/import target; do not create unrelated package structure."@,
        )),
        VerifierDiagnosticCode::PythonAssertionMismatch | VerifierDiagnosticCode::FastapiResponseMismatch => Some((
            "python_assertion_diagnostic"@,
            "repair_python_assertion_mismatch"@,
            "Repair the admitted source/test contract for the observed assertion mismatch without weakening the assertion."@,
        )),
        VerifierDiagnosticCode::TypescriptTypeError | VerifierDiagnosticCode::NextjsEventHandlerBoundary => Some((
            "node_next_type_diagnostic"@,
            "repair_typescript_or_client_boundary"@,
            "Repair the admitted TypeScript/Next.js target while preserving build script honesty."@,
        )),
        VerifierDiagnosticCode::NextjsRouteNotIntegrated => Some((
            "nextjs_route_integration_diagnostic"@,
            "connect_existing_artifact_to_selected_route"@,
            "Connect the existing artifact to the selected route graph; do not create placeholder feature work."@,
        )),
        VerifierDiagnosticCode::DependencyMissing => Some((
            "manifest_dependency_diagnostic"@,
            "repair_manifest_dependency_contract"@,
            "Repair the admitted manifest dependency declaration; verifier-owned setup remains the only authority for installing dependencies."@,
        )),
        _ => None,
    }
}

fn adapter_mapping(code: VerifierDiagnosticCode) -> (r: Option<(&'static str, &'static str, &'static str)>)
    ensures
        match r {
            Some((a, b, c)) => adapter_of(code) == Some((a@, b@, c@)),
            None => adapter_of(code) is None,
        },
{
    match code {
        VerifierDiagnosticCode::RustCompileError => Some((
            "rust_compile_diagnostic",
            "repair_rust_compile_error",
            "Use the compiler diagnostic to repair the admitted Rust source target; do not edit Cargo artifacts unless the action targets a manifest.",
        )),
        VerifierDiagnosticCode::RustTestAssertionMismatch => Some((
            "rust_assertion_diagnostic",
            "repair_rust_assertion_mismatch",
            "Repair the admitted implementation or test contract according to the assertion mismatch and rerun the original cargo verifier.",
        )),
        VerifierDiagnosticCode::PythonImportMissing => Some((
            "python_import_diagnostic",
            "repair_python_import_or_module_path",
            "Repair the admitted Python module/import target; do not create unrelated package structure.",
        )),
        VerifierDiagnosticCode::PythonAssertionMismatch | VerifierDiagnosticCode::FastapiResponseMismatch => Some((
            "python_assertion_diagnostic",
            "repair_python_assertion_mismatch",
            "Repair the admitted source/test contract for the observed assertion mismatch without weakening the assertion.",
        )),
        VerifierDiagnosticCode::TypescriptTypeError | VerifierDiagnosticCode::NextjsEventHandlerBoundary => Some((
            "node_next_type_diagnostic",
            "repair_typescript_or_client_boundary",
            "Repair the admitted TypeScript/Next.js target while preserving build script honesty.",
        )),
        VerifierDiagnosticCode::NextjsRouteNotIntegrated => Some((
            "nextjs_route_integration_diagnostic",
            "connect_existing_artifact_to_selected_route",
            "Connect the existing artifact to the selected route graph; do not create placeholder feature work.",
        )),
        VerifierDiagnosticCode::DependencyMissing => Some((
            "manifest_dependency_diagnostic",
            "repair_manifest_dependency_contract",
            "Repair the admitted manifest dependency declaration; verifier-owned setup remains the only authority for installing dependencies.",
        )),
        _ => None,
    }
}

/// A target no mechanical adapter may mutate: absolute, escaping the
/// workspace, or inside a dependency cache or build output.
pub open spec fn disallowed_target(t: Seq<char>) -> bool {
    ||| starts_with(t, "/"@)
    ||| starts_with(t, "../"@)
    ||| contains(t, "/../"@)
    ||| starts_with(t, "node_modules/"@)
    ||| contains(t, "/node_modules/"@)
    ||| starts_with(t, ".next/"@)
    ||| contains(t, "/.next/"@)
    ||| starts_with(t, "target/"@)
}

/// Whether no mechanical adapter may mutate the target.
pub fn target_is_disallowed(target: &str) -> (r: bool)
    ensures
        r == disallowed_target(target@),
{
    str_starts_with(target, "/") || str_starts_with(target, "../") || str_contains(target, "/../")
        || str_starts_with(target, "node_modules/") || str_contains(target, "/node_modules/")
        || str_starts_with(target, ".next/") || str_contains(target, "/.next/") || str_starts_with(
        target,
        "target/",
    )
}

/// The optional value is absent or blank.
pub open spec fn blank_opt(o: Option<String>) -> bool {
    match o {
        Some(s) => is_blank(s@),
        None => true,
    }
}

fn is_blank_opt(o: &Option<String>) -> (r: bool)
    ensures
        r == blank_opt(*o),
{
    match o {
        Some(s) => is_blank_str(s.as_str()),
        None => true,
    }
}

/// The context lacks an owner, an action, a target role, verifier
/// authority or an allowed change kind.
pub open spec fn context_incomplete(i: MechanicalRepairInput) -> bool {
    ||| is_blank(i.active_job@)
    ||| i.active_job@ == "unknown"@
    ||| blank_opt(i.repair_action)
    ||| blank_opt(i.target_role)
    ||| is_blank(i.source_of_truth@)
    ||| i.source_of_truth@ == "unknown"@
    ||| blank_opt(i.allowed_change_kind)
}

/// The output as plain values: adapter, status, action, target, hint,
/// reason, rerun authority.
pub type RepairView = (Seq<char>, MechanicalRepairStatus, Seq<char>, Option<Seq<char>>, Seq<char>, Seq<char>, Seq<char>);

pub open spec fn repair_view(o: MechanicalRepairOutput) -> RepairView {
    (o.adapter_id@, o.status, o.action@, opt_view(o.target_path), o.hint@, o.reason@, o.rerun_authority@)
}

/// The hint an input determines: not applicable without an adapter;
/// rejected without a target, with an incomplete context, or with a
/// disallowed target; otherwise admitted. The rerun authority is always the
/// input's source of truth.
pub open spec fn hint_of(i: MechanicalRepairInput) -> RepairView {
    let sot = i.source_of_truth@;
    match adapter_of(i.diagnostic_code) {
        None => (
            "none"@,
            MechanicalRepairStatus::NotApplicable,
            "none"@,
            opt_view(i.target_path),
            "no deterministic mechanical adapter matched this diagnostic"@,
            "diagnostic_not_supported_by_mechanical_adapter"@,
            sot,
        ),
        Some((id, action, hint)) => match i.target_path {
            None => (
                id,
                MechanicalRepairStatus::Rejected,
                action,
                None,
                hint,
                "mechanical_adapter_requires_admitted_target"@,
                sot,
            ),
            Some(t) => if context_incomplete(i) {
                (
                    id,
                    MechanicalRepairStatus::Rejected,
                    action,
                    Some(t@),
                    hint,
                    "mechanical_adapter_requires_owner_action_target_and_verifier_authority"@,
                    sot,
                )
            } else if disallowed_target(t@) {
                (
                    id,
                    MechanicalRepairStatus::Rejected,
                    action,
                    Some(t@),
                    hint,
                    "mechanical_adapter_target_not_admitted_for_mutation"@,
                    sot,
                )
            } else {
                (
                    id,
                    MechanicalRepairStatus::Admitted,
                    action,
                    Some(t@),
                    hint,
                    "mechanical_adapter_admitted_under_existing_target_action_contract"@,
                    sot,
                )
            },
        },
    }
}

fn output(
    adapter_id: &str,
    status: MechanicalRepairStatus,
    action: &str,
    target_path: Option<String>,
    hint: &str,
    reason: &str,
    rerun_authority: &String,
) -> (r: MechanicalRepairOutput)
    ensures
        repair_view(r) == (adapter_id@, status, action@, opt_view(target_path), hint@, reason@, rerun_authority@),
{
    MechanicalRepairOutput {
        adapter_id: owned(adapter_id),
        status,
        action: owned(action),
        target_path,
        hint: owned(hint),
        reason: owned(reason),
        rerun_authority: copy_string(rerun_authority),
    }
}

/// The mechanical repair hint for an admitted context.
pub fn mechanical_repair_hint(input: &MechanicalRepairInput) -> (r: MechanicalRepairOutput)
    ensures
        repair_view(r) == hint_of(*input),
{
    let (adapter_id, action, hint) = match adapter_mapping(input.diagnostic_code) {
        Some(m) => m,
        None => {
            return output(
                "none",
                MechanicalRepairStatus::NotApplicable,
                "none",
                copy_opt(&input.target_path),
                "no deterministic mechanical adapter matched this diagnostic",
                "diagnostic_not_supported_by_mechanical_adapter",
                &input.source_of_truth,
            );
        },
    };
    let target = match &input.target_path {
        Some(t) => copy_string(t),
        None => {
            return output(
                adapter_id,
                MechanicalRepairStatus::Rejected,
                action,
                None,
                hint,
                "mechanical_adapter_requires_admitted_target",
                &input.source_of_truth,
            );
        },
    };
    if is_blank_str(input.active_job.as_str()) || str_eq(input.active_job.as_str(), "unknown")
        || is_blank_opt(&input.repair_action) || is_blank_opt(&input.target_role) || is_blank_str(
        input.source_of_truth.as_str(),
    ) || str_eq(input.source_of_truth.as_str(), "unknown") || is_blank_opt(
        &input.allowed_change_kind,
    ) {
        return output(
            adapter_id,
            MechanicalRepairStatus::Rejected,
            action,
            Some(target),
            hint,
            "mechanical_adapter_requires_owner_action_target_and_verifier_authority",
            &input.source_of_truth,
        );
    }
    if target_is_disallowed(target.as_str()) {
        return output(
            adapter_id,
            MechanicalRepairStatus::Rejected,
            action,
            Some(target),
            hint,
            "mechanical_adapter_target_not_admitted_for_mutation",
            &input.source_of_truth,
        );
    }
    output(
        adapter_id,
        MechanicalRepairStatus::Admitted,
        action,
        Some(target),
        hint,
        "mechanical_adapter_admitted_under_existing_target_action_contract",
        &input.source_of_truth,
    )
}

/// The present value, or `none`.
pub open spec fn or_none(o: Option<Seq<char>>) -> Seq<char> {
    match o {
        Some(v) => v,
        None => "none"@,
    }
}

/// The single report line of a hint.
pub open spec fn repair_line(o: MechanicalRepairOutput) -> Seq<char> {
    "mechanical_adapter="@ + underscored(o.adapter_id@) + " status="@ + repair_status_name(o.status)
        + " action="@ + underscored(o.action@) + " target="@ + or_none(opt_view(o.target_path))
        + " reason="@ + underscored(o.reason@) + " hint="@ + underscored(o.hint@)
        + " rerun_authority="@ + underscored(o.rerun_authority@)
}

/// The evaluation fields of a hint.
pub open spec fn repair_fields(o: MechanicalRepairOutput) -> Seq<Seq<char>> {
    seq![
        "mechanical_adapter="@ + underscored(o.adapter_id@),
        "mechanical_adapter_status="@ + repair_status_name(o.status),
        "mechanical_adapter_action="@ + underscored(o.action@),
    ]
}

impl MechanicalRepairOutput {
    /// The hint as one report line, each free-text value with its
    /// whitespace runs turned into `_`.
    pub fn render_lines(&self) -> (r: Vec<String>)
        ensures
            views(r@) == seq![repair_line(*self)],
    {
        let mut s = owned("mechanical_adapter=");
        let a = underscore_words(self.adapter_id.as_str());
        push_str(&mut s, a.as_str());
        push_str(&mut s, " status=");
        push_str(&mut s, self.status.as_str());
        push_str(&mut s, " action=");
        let b = underscore_words(self.action.as_str());
        push_str(&mut s, b.as_str());
        push_str(&mut s, " target=");
        match &self.target_path {
            Some(t) => push_str(&mut s, t.as_str()),
            None => push_str(&mut s, "none"),
        }
        push_str(&mut s, " reason=");
        let c = underscore_words(self.reason.as_str());
        push_str(&mut s, c.as_str());
        push_str(&mut s, " hint=");
        let d = underscore_words(self.hint.as_str());
        push_str(&mut s, d.as_str());
        push_str(&mut s, " rerun_authority=");
        let e = underscore_words(self.rerun_authority.as_str());
        push_str(&mut s, e.as_str());
        let r = vec![s];
        assert(views(r@) =~= seq![repair_line(*self)]);
        r
    }

    /// The adapter, status and action as evaluation fields.
    pub fn eval_report_fields(&self) -> (r: Vec<String>)
        ensures
            views(r@) == repair_fields(*self),
    {
        let mut a = owned("mechanical_adapter=");
        let id = underscore_words(self.adapter_id.as_str());
        push_str(&mut a, id.as_str());
        let mut b = owned("mechanical_adapter_status=");
        push_str(&mut b, self.status.as_str());
        let mut c = owned("mechanical_adapter_action=");
        let act = underscore_words(self.action.as_str());
        push_str(&mut c, act.as_str());
        let r = vec![a, b, c];
        assert(views(r@) =~= repair_fields(*self));
        r
    }
}

} // verus!
