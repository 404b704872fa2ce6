//! Evidence binding: whether a required deliverable has an observable proof
//! path, such as a manifest identity, route import, test script or docs
//! section. A binding failure is recovery data, not a retry trigger.
use crate::correction_evidence::{empty_without_guard, only_facts, ContractEvidence};
use crate::text::{collapse_ws, collapse_ws_str, opt_view, owned, push_str, views};
use vstd::prelude::*;

verus! {

/// What a binding ties a deliverable to.
#[derive(Debug, Clone, Copy, PartialEq, Eq, Structural)]
pub enum EvidenceBindingKind {
    ManifestIdentity,
    ImportSymbol,
    ExecutableHandle,
    TestScript,
    RequiredSection,
    SchemaColumn,
    Citation,
    FileLayout,
}

/// The name of a binding kind.
pub open spec fn binding_kind_name(k: EvidenceBindingKind) -> Seq<char> {
    match k {
        EvidenceBindingKind::ManifestIdentity => "manifest_identity"@,
        EvidenceBindingKind::ImportSymbol => "import_symbol"@,
        EvidenceBindingKind::ExecutableHandle => "executable_handle"@,
        EvidenceBindingKind::TestScript => "test_script"@,
        EvidenceBindingKind::RequiredSection => "required_section"@,
        EvidenceBindingKind::SchemaColumn => "schema_column"@,
        EvidenceBindingKind::Citation => "citation"@,
        EvidenceBindingKind::FileLayout => "file_layout"@,
    }
}

impl EvidenceBindingKind {
    /// The name of the kind.
    pub fn as_str(self) -> (r: &'static str)
        ensures
            r@ == binding_kind_name(self),
    {
        match self {
            EvidenceBindingKind::ManifestIdentity => "manifest_identity",
            EvidenceBindingKind::ImportSymbol => "import_symbol",
            EvidenceBindingKind::ExecutableHandle => "executable_handle",
            EvidenceBindingKind::TestScript => "test_script",
            EvidenceBindingKind::RequiredSection => "required_section",
            EvidenceBindingKind::SchemaColumn => "schema_column",
            EvidenceBindingKind::Citation => "citation",
            EvidenceBindingKind::FileLayout => "file_layout",
        }
    }
}

/// Whether the binding was observed.
#[derive(Debug, Clone, Copy, PartialEq, Eq, Structural)]
pub enum EvidenceBindingStatus {
    Bound,
    Missing,
    Failed,
    Unbound,
}

/// The name of a binding status.
pub open spec fn binding_status_name(s: EvidenceBindingStatus) -> Seq<char> {
    match s {
        EvidenceBindingStatus::Bound => "bound"@,
        EvidenceBindingStatus::Missing => "missing"@,
        EvidenceBindingStatus::Failed => "failed"@,
        EvidenceBindingStatus::Unbound => "unbound"@,
    }
}

impl EvidenceBindingStatus {
    /// The name of the status.
    pub fn as_str(self) -> (r: &'static str)
        ensures
            r@ == binding_status_name(self),
    {
        match self {
            EvidenceBindingStatus::Bound => "bound",
            EvidenceBindingStatus::Missing => "missing",
            EvidenceBindingStatus::Failed => "failed",
            EvidenceBindingStatus::Unbound => "unbound",
        }
    }
}

/// The binding a deliverable needs and whether it holds.
#[derive(Debug, Clone, PartialEq, Eq)]
pub struct EvidenceBindingPlan {
    pub kind: EvidenceBindingKind,
    pub target: String,
    pub expected_binding: String,
    pub status: EvidenceBindingStatus,
    pub reason: Option<String>,
}

/// The rendered line of a binding.
pub open spec fn binding_line(p: EvidenceBindingPlan) -> Seq<char> {
    "kind="@ + binding_kind_name(p.kind) + " target="@ + collapse_ws(p.target@) + " expected="@
        + collapse_ws(p.expected_binding@) + " status="@ + binding_status_name(p.status) + match p.reason {
        Some(r) => " reason="@ + collapse_ws(r@),
        None => Seq::empty(),
    }
}

/// A binding of the given kind, target, expectation and status, without reason.
pub open spec fn is_binding(
    p: EvidenceBindingPlan,
    kind: EvidenceBindingKind,
    target: Seq<char>,
    expected: Seq<char>,
    status: EvidenceBindingStatus,
) -> bool {
    &&& p.kind == kind
    &&& p.target@ == target
    &&& p.expected_binding@ == expected
    &&& p.status == status
    &&& p.reason is None
}

/// The contract evidence of an unbound binding.
pub open spec fn binding_evidence(p: EvidenceBindingPlan, failed_step: Option<Seq<char>>, e: ContractEvidence) -> bool {
    &&& e.guard@ == "evidence_binding"@
    &&& opt_view(e.reason_code) == Some("evidence_binding_"@ + binding_status_name(p.status))
    &&& opt_view(e.violated_contract) == Some(binding_kind_name(p.kind))
    &&& opt_view(e.target_path) == Some(p.target@)
    &&& opt_view(e.repair_target) == Some(p.target@)
    &&& views(e.required_literals@) == seq![p.expected_binding@]
    &&& views(e.evidence_binding@) == seq![binding_line(p)]
    &&& opt_view(e.active_job) == Some("evidence_binding_repair"@)
    &&& opt_view(e.repair_action) == Some("repair_evidence_binding"@)
    &&& opt_view(e.failed_step) == failed_step
    &&& opt_view(e.diagnostic) == opt_view(p.reason)
    &&& only_facts(
        e,
        seq![
            "reason_code"@,
            "violated_contract"@,
            "target_path"@,
            "repair_target"@,
            "required_literals"@,
            "evidence_binding"@,
            "active_job"@,
            "repair_action"@,
            "failed_step"@,
            "diagnostic"@,
        ],
    )
}

impl EvidenceBindingPlan {
    /// A binding without reason.
    pub fn new(kind: EvidenceBindingKind, target: &str, expected_binding: &str, status: EvidenceBindingStatus) -> (r: Self)
        ensures
            is_binding(r, kind, target@, expected_binding@, status),
    {
        EvidenceBindingPlan {
            kind,
            target: owned(target),
            expected_binding: owned(expected_binding),
            status,
            reason: None,
        }
    }

    /// The binding with a reason.
    pub fn with_reason(self, reason: &str) -> (r: Self)
        ensures
            opt_view(r.reason) == Some(reason@),
            r == (EvidenceBindingPlan { reason: r.reason, ..self }),
    {
        EvidenceBindingPlan { reason: Some(owned(reason)), ..self }
    }

    /// `kind=... target=... expected=... status=...` and, when present,
    /// ` reason=...`, with whitespace collapsed in free text.
    pub fn render_line(&self) -> (r: String)
        ensures
            r@ == binding_line(*self),
    {
        let mut s = owned("kind=");
        push_str(&mut s, self.kind.as_str());
        push_str(&mut s, " target=");
        let t = collapse_ws_str(self.target.as_str());
        push_str(&mut s, t.as_str());
        push_str(&mut s, " expected=");
        let x = collapse_ws_str(self.expected_binding.as_str());
        push_str(&mut s, x.as_str());
        push_str(&mut s, " status=");
        push_str(&mut s, self.status.as_str());
        match &self.reason {
            Some(r) => {
                push_str(&mut s, " reason=");
                let rc = collapse_ws_str(r.as_str());
                push_str(&mut s, rc.as_str());
            },
            None => {
                assert(s@ == s@ + Seq::<char>::empty());
            },
        }
        s
    }

    /// Repair evidence for a binding that does not hold; nothing for a bound one.
    pub fn to_contract_evidence(&self, failed_step: Option<&str>) -> (r: Option<ContractEvidence>)
        ensures
            (self.status == EvidenceBindingStatus::Bound) <==> r is None,
            match r {
                Some(e) => binding_evidence(
                    *self,
                    match failed_step {
                        Some(s) => Some(s@),
                        None => None,
                    },
                    e,
                ),
                None => true,
            },
    {
        if self.status == EvidenceBindingStatus::Bound {
            return None;
        }
        let mut code = owned("evidence_binding_");
        push_str(&mut code, self.status.as_str());
        let line = self.render_line();
        let mut literals: Vec<String> = Vec::new();
        literals.push(self.expected_binding.clone());
        let mut lines: Vec<String> = Vec::new();
        lines.push(line);
        assert(views(literals@) == seq![self.expected_binding@]);
        assert(views(lines@) == seq![binding_line(*self)]);
        let mut evidence = ContractEvidence::new("evidence_binding")
            .with_reason_code(code.as_str())
            .with_violated_contract(self.kind.as_str())
            .with_target_path(self.target.as_str())
            .with_repair_target(self.target.as_str())
            .with_required_literals(literals)
            .with_evidence_binding(lines)
            .with_active_job("evidence_binding_repair")
            .with_repair_action("repair_evidence_binding");
        match failed_step {
            Some(step) => {
                evidence = evidence.with_failed_step(step);
            },
            None => {},
        }
        match &self.reason {
            Some(reason) => {
                evidence = evidence.with_diagnostic(reason.as_str());
            },
            None => {},
        }
        Some(evidence)
    }
}

/// A binding to a manifest's identity.
pub fn manifest_identity_binding(target: &str, expected_identity: &str, status: EvidenceBindingStatus) -> (r: EvidenceBindingPlan)
    ensures
        is_binding(r, EvidenceBindingKind::ManifestIdentity, target@, expected_identity@, status),
{
    EvidenceBindingPlan::new(EvidenceBindingKind::ManifestIdentity, target, expected_identity, status)
}

/// A binding to an executable handle.
pub fn executable_handle_binding(target: &str, executable: &str, status: EvidenceBindingStatus) -> (r: EvidenceBindingPlan)
    ensures
        is_binding(r, EvidenceBindingKind::ExecutableHandle, target@, executable@, status),
{
    EvidenceBindingPlan::new(EvidenceBindingKind::ExecutableHandle, target, executable, status)
}

/// A binding to a test script.
pub fn test_script_binding(target: &str, script_name: &str, status: EvidenceBindingStatus) -> (r: EvidenceBindingPlan)
    ensures
        is_binding(r, EvidenceBindingKind::TestScript, target@, script_name@, status),
{
    EvidenceBindingPlan::new(EvidenceBindingKind::TestScript, target, script_name, status)
}

/// A binding to a required document section.
pub fn required_section_binding(target: &str, section: &str, status: EvidenceBindingStatus) -> (r: EvidenceBindingPlan)
    ensures
        is_binding(r, EvidenceBindingKind::RequiredSection, target@, section@, status),
{
    EvidenceBindingPlan::new(EvidenceBindingKind::RequiredSection, target, section, status)
}

/// A binding to a schema column.
pub fn schema_column_binding(target: &str, column: &str, status: EvidenceBindingStatus) -> (r: EvidenceBindingPlan)
    ensures
        is_binding(r, EvidenceBindingKind::SchemaColumn, target@, column@, status),
{
    EvidenceBindingPlan::new(EvidenceBindingKind::SchemaColumn, target, column, status)
}

/// A binding to a citation.
pub fn citation_binding(target: &str, citation: &str, status: EvidenceBindingStatus) -> (r: EvidenceBindingPlan)
    ensures
        is_binding(r, EvidenceBindingKind::Citation, target@, citation@, status),
{
    EvidenceBindingPlan::new(EvidenceBindingKind::Citation, target, citation, status)
}

} // verus!
