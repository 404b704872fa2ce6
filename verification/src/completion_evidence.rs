//! Completion-evidence facts: observed evidence, classified.
use crate::text::{collapse_ws, collapse_ws_str, opt_view, owned, push_str};
use vstd::prelude::*;

verus! {

/// What kind of observation completes a deliverable.
#[derive(Debug, Clone, Copy, PartialEq, Eq, Structural)]
pub enum CompletionEvidenceKind {
    RepoEdit,
    VerifierExitZero,
    DocsSectionPass,
    StructuredDataPass,
    ReportCompletenessPass,
    ProfileCompletionPass,
    FileLayoutPass,
    CommandObservation,
}

/// The name of an evidence kind.
pub open spec fn evidence_kind_name(k: CompletionEvidenceKind) -> Seq<char> {
    match k {
        CompletionEvidenceKind::RepoEdit => "repo_edit"@,
        CompletionEvidenceKind::VerifierExitZero => "verifier_exit_zero"@,
        CompletionEvidenceKind::DocsSectionPass => "docs_section_pass"@,
        CompletionEvidenceKind::StructuredDataPass => "structured_data_pass"@,
        CompletionEvidenceKind::ReportCompletenessPass => "report_completeness_pass"@,
        CompletionEvidenceKind::ProfileCompletionPass => "profile_completion_pass"@,
        CompletionEvidenceKind::FileLayoutPass => "file_layout_pass"@,
        CompletionEvidenceKind::CommandObservation => "command_observation"@,
    }
}

impl CompletionEvidenceKind {
    /// The name of the kind.
    pub fn as_str(self) -> (r: &'static str)
        ensures
            r@ == evidence_kind_name(self),
    {
        match self {
            CompletionEvidenceKind::RepoEdit => "repo_edit",
            CompletionEvidenceKind::VerifierExitZero => "verifier_exit_zero",
            CompletionEvidenceKind::DocsSectionPass => "docs_section_pass",
            CompletionEvidenceKind::StructuredDataPass => "structured_data_pass",
            CompletionEvidenceKind::ReportCompletenessPass => "report_completeness_pass",
            CompletionEvidenceKind::ProfileCompletionPass => "profile_completion_pass",
            CompletionEvidenceKind::FileLayoutPass => "file_layout_pass",
            CompletionEvidenceKind::CommandObservation => "command_observation",
        }
    }
}

/// Whether completion evidence was observed and what it showed.
#[derive(Debug, Clone, Copy, PartialEq, Eq, Structural)]
pub enum CompletionEvidenceStatus {
    Passed,
    Failed,
    Missing,
    Unbound,
    Stale,
}

/// The name of an evidence status.
pub open spec fn evidence_status_name(s: CompletionEvidenceStatus) -> Seq<char> {
    match s {
        CompletionEvidenceStatus::Passed => "passed"@,
        CompletionEvidenceStatus::Failed => "failed"@,
        CompletionEvidenceStatus::Missing => "missing"@,
        CompletionEvidenceStatus::Unbound => "unbound"@,
        CompletionEvidenceStatus::Stale => "stale"@,
    }
}

impl CompletionEvidenceStatus {
    /// The name of the status.
    pub fn as_str(self) -> (r: &'static str)
        ensures
            r@ == evidence_status_name(self),
    {
        match self {
            CompletionEvidenceStatus::Passed => "passed",
            CompletionEvidenceStatus::Failed => "failed",
            CompletionEvidenceStatus::Missing => "missing",
            CompletionEvidenceStatus::Unbound => "unbound",
            CompletionEvidenceStatus::Stale => "stale",
        }
    }
}

/// One observed piece of completion evidence.
#[derive(Debug, Clone, PartialEq, Eq)]
pub struct CompletionEvidence {
    pub kind: CompletionEvidenceKind,
    pub target: String,
    pub status: CompletionEvidenceStatus,
    pub source: String,
    pub diagnostic: Option<String>,
}

/// The rendered line of completion evidence.
pub open spec fn evidence_line(e: CompletionEvidence) -> Seq<char> {
    "kind="@ + evidence_kind_name(e.kind) + " target="@ + collapse_ws(e.target@) + " status="@
        + evidence_status_name(e.status) + " source="@ + collapse_ws(e.source@) + match e.diagnostic {
        Some(d) => " diagnostic="@ + collapse_ws(d@),
        None => Seq::empty(),
    }
}

/// Evidence of the given kind, target, status and source, without diagnostic.
pub open spec fn is_evidence(
    e: CompletionEvidence,
    kind: CompletionEvidenceKind,
    target: Seq<char>,
    status: CompletionEvidenceStatus,
    source: Seq<char>,
) -> bool {
    &&& e.kind == kind
    &&& e.target@ == target
    &&& e.status == status
    &&& e.source@ == source
    &&& e.diagnostic is None
}

/// `Passed` when the check passed, else `Failed`.
pub open spec fn pass_status(passed: bool) -> CompletionEvidenceStatus {
    if passed { CompletionEvidenceStatus::Passed } else { CompletionEvidenceStatus::Failed }
}

impl CompletionEvidence {
    /// Evidence without a diagnostic.
    pub fn new(kind: CompletionEvidenceKind, target: &str, status: CompletionEvidenceStatus, source: &str) -> (r: Self)
        ensures
            is_evidence(r, kind, target@, status, source@),
    {
        CompletionEvidence { kind, target: owned(target), status, source: owned(source), diagnostic: None }
    }

    /// The evidence with a diagnostic.
    pub fn with_diagnostic(self, diagnostic: &str) -> (r: Self)
        ensures
            opt_view(r.diagnostic) == Some(diagnostic@),
            r == (CompletionEvidence { diagnostic: r.diagnostic, ..self }),
    {
        CompletionEvidence { diagnostic: Some(owned(diagnostic)), ..self }
    }

    /// `kind=... target=... status=... source=...` and, when present,
    /// ` diagnostic=...`, with whitespace collapsed in free text.
    pub fn render_line(&self) -> (r: String)
        ensures
            r@ == evidence_line(*self),
    {
        let mut s = owned("kind=");
        push_str(&mut s, self.kind.as_str());
        push_str(&mut s, " target=");
        let t = collapse_ws_str(self.target.as_str());
        push_str(&mut s, t.as_str());
        push_str(&mut s, " status=");
        push_str(&mut s, self.status.as_str());
        push_str(&mut s, " source=");
        let src = collapse_ws_str(self.source.as_str());
        push_str(&mut s, src.as_str());
        match &self.diagnostic {
            Some(d) => {
                push_str(&mut s, " diagnostic=");
                let dc = collapse_ws_str(d.as_str());
                push_str(&mut s, dc.as_str());
            },
            None => {
                assert(s@ == s@ + Seq::<char>::empty());
            },
        }
        s
    }
}

/// The outcome of an original verifier command.
pub fn verifier_completion(command: &str, passed: bool) -> (r: CompletionEvidence)
    ensures
        is_evidence(
            r,
            CompletionEvidenceKind::VerifierExitZero,
            command@,
            pass_status(passed),
            "original_verifier"@,
        ),
{
    let status = if passed { CompletionEvidenceStatus::Passed } else { CompletionEvidenceStatus::Failed };
    CompletionEvidence::new(CompletionEvidenceKind::VerifierExitZero, command, status, "original_verifier")
}

/// The outcome of a command the runtime observed.
pub fn command_observation(command: &str, exit_ok: bool) -> (r: CompletionEvidence)
    ensures
        is_evidence(
            r,
            CompletionEvidenceKind::CommandObservation,
            command@,
            pass_status(exit_ok),
            "runtime_command_observation"@,
        ),
{
    let status = if exit_ok { CompletionEvidenceStatus::Passed } else { CompletionEvidenceStatus::Failed };
    CompletionEvidence::new(
        CompletionEvidenceKind::CommandObservation,
        command,
        status,
        "runtime_command_observation",
    )
}

/// The outcome of a documentation section check.
pub fn docs_section_pass(target: &str, passed: bool) -> (r: CompletionEvidence)
    ensures
        is_evidence(r, CompletionEvidenceKind::DocsSectionPass, target@, pass_status(passed), "docs_section_check"@),
{
    pass_fail_evidence(CompletionEvidenceKind::DocsSectionPass, target, passed, "docs_section_check")
}

/// The outcome of a structured data check.
pub fn structured_data_pass(target: &str, passed: bool) -> (r: CompletionEvidence)
    ensures
        is_evidence(
            r,
            CompletionEvidenceKind::StructuredDataPass,
            target@,
            pass_status(passed),
            "structured_data_check"@,
        ),
{
    pass_fail_evidence(CompletionEvidenceKind::StructuredDataPass, target, passed, "structured_data_check")
}

/// The outcome of a report completeness check.
pub fn report_completeness_pass(target: &str, passed: bool) -> (r: CompletionEvidence)
    ensures
        is_evidence(
            r,
            CompletionEvidenceKind::ReportCompletenessPass,
            target@,
            pass_status(passed),
            "report_completeness_check"@,
        ),
{
    pass_fail_evidence(
        CompletionEvidenceKind::ReportCompletenessPass,
        target,
        passed,
        "report_completeness_check",
    )
}

/// The outcome of a profile completion fact.
pub fn profile_completion_pass(target: &str, passed: bool) -> (r: CompletionEvidence)
    ensures
        is_evidence(
            r,
            CompletionEvidenceKind::ProfileCompletionPass,
            target@,
            pass_status(passed),
            "profile_completion_fact"@,
        ),
{
    pass_fail_evidence(CompletionEvidenceKind::ProfileCompletionPass, target, passed, "profile_completion_fact")
}

/// The outcome of a file layout observation in the artifact ledger.
pub fn file_layout_pass(target: &str, passed: bool) -> (r: CompletionEvidence)
    ensures
        is_evidence(
            r,
            CompletionEvidenceKind::FileLayoutPass,
            target@,
            pass_status(passed),
            "artifact_ledger_file_layout"@,
        ),
{
    pass_fail_evidence(CompletionEvidenceKind::FileLayoutPass, target, passed, "artifact_ledger_file_layout")
}

/// Evidence of the kind that was never observed.
pub fn missing_evidence(kind: CompletionEvidenceKind, target: &str, source: &str) -> (r: CompletionEvidence)
    ensures
        is_evidence(r, kind, target@, CompletionEvidenceStatus::Missing, source@),
{
    CompletionEvidence::new(kind, target, CompletionEvidenceStatus::Missing, source)
}

/// Evidence of the kind that no longer reflects the deliverable.
pub fn stale_evidence(kind: CompletionEvidenceKind, target: &str, source: &str) -> (r: CompletionEvidence)
    ensures
        is_evidence(r, kind, target@, CompletionEvidenceStatus::Stale, source@),
{
    CompletionEvidence::new(kind, target, CompletionEvidenceStatus::Stale, source)
}

fn pass_fail_evidence(kind: CompletionEvidenceKind, target: &str, passed: bool, source: &str) -> (r: CompletionEvidence)
    ensures
        is_evidence(r, kind, target@, pass_status(passed), source@),
{
    let status = if passed { CompletionEvidenceStatus::Passed } else { CompletionEvidenceStatus::Failed };
    CompletionEvidence::new(kind, target, status, source)
}

} // verus!
