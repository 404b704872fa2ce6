//! Completion authority for deliverables and evidence.
//!
//! Nothing here retries, repairs or chooses the next job. Deterministic
//! ledger, completion-evidence and binding facts are classified into one
//! visible terminal state that the runtime and evaluation report alike.
use crate::artifact_graph::ArtifactLifecycle;
use crate::artifact_ledger::{entry_index, ledger_view, ArtifactLedgerSummary, LedgerView};
use crate::completion_evidence::{
    evidence_line, evidence_status_name, is_evidence, CompletionEvidence, CompletionEvidenceKind,
    CompletionEvidenceStatus,
};
use crate::evidence_binding::{
    binding_line, binding_status_name, is_binding, EvidenceBindingKind, EvidenceBindingPlan,
    EvidenceBindingStatus,
};
use crate::paths::normalized_path;
use crate::text::{copy_string, copy_strings, join, join_strings, owned, push_str, views};
use vstd::prelude::*;

verus! {

/// Whether the evidence runner had to run, and did.
#[derive(Debug, Clone, Copy, PartialEq, Eq, Structural)]
pub enum EvidenceRunnerStatus {
    NotRequired,
    Missing,
    Executed,
}

pub open spec fn runner_status_name(x: EvidenceRunnerStatus) -> Seq<char> {
    match x {
        EvidenceRunnerStatus::NotRequired => "not_required"@,
        EvidenceRunnerStatus::Missing => "missing"@,
        EvidenceRunnerStatus::Executed => "executed"@,
    }
}

impl EvidenceRunnerStatus {
    /// The snake-case name.
    pub fn as_str(self) -> (r: &'static str)
        ensures
            r@ == runner_status_name(self),
    {
        match self {
            EvidenceRunnerStatus::NotRequired => "not_required",
            EvidenceRunnerStatus::Missing => "missing",
            EvidenceRunnerStatus::Executed => "executed",
        }
    }
}


/// The completion authority's verdict.
#[derive(Debug, Clone, Copy, PartialEq, Eq, Structural)]
pub enum CompletionAuthorityStatus {
    Eligible,
    MissingDeliverable,
    MissingEvidence,
    CompletionEvidenceFailed,
    EvidenceBindingFailed,
}

/// The terminal state a verdict reports; its diagnostic code is the same.
pub open spec fn verdict_name(s: CompletionAuthorityStatus) -> Seq<char> {
    match s {
        CompletionAuthorityStatus::Eligible => "ok"@,
        CompletionAuthorityStatus::MissingDeliverable => "missing_deliverable"@,
        CompletionAuthorityStatus::MissingEvidence => "missing_evidence"@,
        CompletionAuthorityStatus::CompletionEvidenceFailed => "completion_evidence_failed"@,
        CompletionAuthorityStatus::EvidenceBindingFailed => "evidence_binding_failed"@,
    }
}

impl CompletionAuthorityStatus {
    /// The terminal state the verdict reports.
    pub fn terminal_state(self) -> (r: &'static str)
        ensures
            r@ == verdict_name(self),
    {
        match self {
            CompletionAuthorityStatus::Eligible => "ok",
            CompletionAuthorityStatus::MissingDeliverable => "missing_deliverable",
            CompletionAuthorityStatus::MissingEvidence => "missing_evidence",
            CompletionAuthorityStatus::CompletionEvidenceFailed => "completion_evidence_failed",
            CompletionAuthorityStatus::EvidenceBindingFailed => "evidence_binding_failed",
        }
    }

    /// The diagnostic code of the verdict.
    pub fn diagnostic_code(self) -> (r: &'static str)
        ensures
            r@ == verdict_name(self),
    {
        self.terminal_state()
    }
}

/// The completion authority's result.
#[derive(Debug, Clone, PartialEq, Eq)]
pub struct CompletionAuthorityResult {
    pub status: CompletionAuthorityStatus,
    pub evidence_runner_status: EvidenceRunnerStatus,
    pub completion_evidence_status: CompletionEvidenceStatus,
    pub evidence_binding_status: EvidenceBindingStatus,
    pub artifact_ledger_status: String,
    pub source_of_truth: String,
    pub missing_deliverables: Vec<String>,
    pub missing_evidence: Vec<String>,
    pub failed_evidence: Vec<String>,
    pub failed_bindings: Vec<String>,
}

/// A result as plain values.
pub struct AuthorityView {
    pub status: CompletionAuthorityStatus,
    pub runner: EvidenceRunnerStatus,
    pub completion: CompletionEvidenceStatus,
    pub binding: EvidenceBindingStatus,
    pub ledger: Seq<char>,
    pub source_of_truth: Seq<char>,
    pub missing_deliverables: Seq<Seq<char>>,
    pub missing_evidence: Seq<Seq<char>>,
    pub failed_evidence: Seq<Seq<char>>,
    pub failed_bindings: Seq<Seq<char>>,
}

impl View for CompletionAuthorityResult {
    type V = AuthorityView;

    open spec fn view(&self) -> AuthorityView {
        AuthorityView {
            status: self.status,
            runner: self.evidence_runner_status,
            completion: self.completion_evidence_status,
            binding: self.evidence_binding_status,
            ledger: self.artifact_ledger_status@,
            source_of_truth: self.source_of_truth@,
            missing_deliverables: views(self.missing_deliverables@),
            missing_evidence: views(self.missing_evidence@),
            failed_evidence: views(self.failed_evidence@),
            failed_bindings: views(self.failed_bindings@),
        }
    }
}

/// The ledger shows the path: its entry was observed, changed, or exists.
pub open spec fn ledger_present(l: LedgerView, path: Seq<char>) -> bool {
    let j = entry_index(l.0, normalized_path(path));
    j >= 0 && (l.0[j].observed || l.0[j].changed || l.0[j].lifecycle == ArtifactLifecycle::Existing)
}

/// The required paths the ledger does not show, in order.
pub open spec fn missing_paths_in(l: LedgerView, req: Seq<Seq<char>>) -> Seq<Seq<char>>
    decreases req.len(),
{
    if req.len() == 0 {
        Seq::empty()
    } else if ledger_present(l, req.last()) {
        missing_paths_in(l, req.drop_last())
    } else {
        missing_paths_in(l, req.drop_last()).push(req.last())
    }
}

/// The lines of the failed evidence, in order.
pub open spec fn failed_evidence_lines(ev: Seq<CompletionEvidence>) -> Seq<Seq<char>>
    decreases ev.len(),
{
    if ev.len() == 0 {
        Seq::empty()
    } else if ev.last().status == CompletionEvidenceStatus::Failed {
        failed_evidence_lines(ev.drop_last()).push(evidence_line(ev.last()))
    } else {
        failed_evidence_lines(ev.drop_last())
    }
}

/// The lines of the missing or unbound evidence, in order.
pub open spec fn missing_evidence_lines(ev: Seq<CompletionEvidence>) -> Seq<Seq<char>>
    decreases ev.len(),
{
    if ev.len() == 0 {
        Seq::empty()
    } else if ev.last().status == CompletionEvidenceStatus::Missing || ev.last().status
        == CompletionEvidenceStatus::Unbound {
        missing_evidence_lines(ev.drop_last()).push(evidence_line(ev.last()))
    } else {
        missing_evidence_lines(ev.drop_last())
    }
}

/// The lines of the bindings that are not bound, in order.
pub open spec fn failed_binding_lines(bs: Seq<EvidenceBindingPlan>) -> Seq<Seq<char>>
    decreases bs.len(),
{
    if bs.len() == 0 {
        Seq::empty()
    } else if bs.last().status != EvidenceBindingStatus::Bound {
        failed_binding_lines(bs.drop_last()).push(binding_line(bs.last()))
    } else {
        failed_binding_lines(bs.drop_last())
    }
}

/// The bindings' overall status: failed if one failed or is unbound, else
/// missing if one is missing, else bound.
pub open spec fn aggregate_binding(bs: Seq<EvidenceBindingPlan>) -> EvidenceBindingStatus {
    if exists|k: int| 0 <= k < bs.len() && (#[trigger] bs[k].status == EvidenceBindingStatus::Failed
        || bs[k].status == EvidenceBindingStatus::Unbound) {
        EvidenceBindingStatus::Failed
    } else if exists|k: int| 0 <= k < bs.len() && #[trigger] bs[k].status == EvidenceBindingStatus::Missing {
        EvidenceBindingStatus::Missing
    } else {
        EvidenceBindingStatus::Bound
    }
}

/// A result with the given verdict and facts.
pub open spec fn verdict(
    status: CompletionAuthorityStatus,
    runner: EvidenceRunnerStatus,
    completion: CompletionEvidenceStatus,
    binding: EvidenceBindingStatus,
    ledger: Seq<char>,
    source_of_truth: Seq<char>,
    missing_deliverables: Seq<Seq<char>>,
    missing_evidence: Seq<Seq<char>>,
    failed_evidence: Seq<Seq<char>>,
    failed_bindings: Seq<Seq<char>>,
) -> AuthorityView {
    AuthorityView {
        status,
        runner,
        completion,
        binding,
        ledger,
        source_of_truth,
        missing_deliverables,
        missing_evidence,
        failed_evidence,
        failed_bindings,
    }
}

/// The completion authority's verdict, in priority order: nothing required
/// is eligible; a required path the ledger does not show is a missing
/// deliverable; no evidence at all is missing evidence; failed evidence,
/// then missing or unbound evidence, then bindings that are not bound;
/// otherwise eligible.
pub open spec fn authority_of(
    req: Seq<Seq<char>>,
    l: LedgerView,
    ev: Seq<CompletionEvidence>,
    bs: Seq<EvidenceBindingPlan>,
) -> AuthorityView {
    let none = Seq::<Seq<char>>::empty();
    let md = missing_paths_in(l, req);
    let fe = failed_evidence_lines(ev);
    let me = missing_evidence_lines(ev);
    let fb = failed_binding_lines(bs);
    if req.len() == 0 && ev.len() == 0 && bs.len() == 0 {
        verdict(
            CompletionAuthorityStatus::Eligible,
            EvidenceRunnerStatus::NotRequired,
            CompletionEvidenceStatus::Passed,
            EvidenceBindingStatus::Bound,
            "not_required"@,
            "no_required_deliverables"@,
            none,
            none,
            none,
            none,
        )
    } else if md.len() > 0 {
        verdict(
            CompletionAuthorityStatus::MissingDeliverable,
            EvidenceRunnerStatus::Missing,
            CompletionEvidenceStatus::Missing,
            EvidenceBindingStatus::Missing,
            "missing_required"@,
            "artifact_ledger"@,
            md,
            none,
            none,
            none,
        )
    } else if ev.len() == 0 {
        verdict(
            CompletionAuthorityStatus::MissingEvidence,
            EvidenceRunnerStatus::Missing,
            CompletionEvidenceStatus::Missing,
            aggregate_binding(bs),
            "complete"@,
            "completion_evidence"@,
            none,
            req,
            none,
            none,
        )
    } else if fe.len() > 0 {
        verdict(
            CompletionAuthorityStatus::CompletionEvidenceFailed,
            EvidenceRunnerStatus::Executed,
            CompletionEvidenceStatus::Failed,
            aggregate_binding(bs),
            "complete"@,
            "completion_evidence"@,
            none,
            none,
            fe,
            none,
        )
    } else if me.len() > 0 {
        verdict(
            CompletionAuthorityStatus::MissingEvidence,
            EvidenceRunnerStatus::Missing,
            CompletionEvidenceStatus::Missing,
            aggregate_binding(bs),
            "complete"@,
            "completion_evidence"@,
            none,
            me,
            none,
            none,
        )
    } else if fb.len() > 0 {
        verdict(
            CompletionAuthorityStatus::EvidenceBindingFailed,
            EvidenceRunnerStatus::Executed,
            CompletionEvidenceStatus::Passed,
            aggregate_binding(bs),
            "complete"@,
            "evidence_binding"@,
            none,
            none,
            none,
            fb,
        )
    } else {
        verdict(
            CompletionAuthorityStatus::Eligible,
            EvidenceRunnerStatus::Executed,
            CompletionEvidenceStatus::Passed,
            EvidenceBindingStatus::Bound,
            "complete"@,
            "artifact_ledger_and_completion_evidence"@,
            none,
            none,
            none,
            none,
        )
    }
}

fn ledger_entry_present(ledger: &ArtifactLedgerSummary, path: &str) -> (r: bool)
    ensures
        r == ledger_present(ledger_view(*ledger), path@),
{
    match ledger.entry(path) {
        Some(entry) => entry.observed || entry.changed || entry.lifecycle == ArtifactLifecycle::Existing,
        None => false,
    }
}

fn missing_deliverables_of(required: &[String], ledger: &ArtifactLedgerSummary) -> (r: Vec<String>)
    ensures
        views(r@) == missing_paths_in(ledger_view(*ledger), views(required@)),
{
    let ghost req = views(required@);
    let mut out: Vec<String> = Vec::new();
    let mut i: usize = 0;
    while i < required.len()
        invariant
            i <= required@.len(),
            req == views(required@),
            views(out@) == missing_paths_in(ledger_view(*ledger), req.take(i as int)),
        decreases required.len() - i,
    {
        proof {
            assert(req.take(i + 1).drop_last() == req.take(i as int));
            assert(req.take(i + 1).last() == required@[i as int]@);
        }
        if !ledger_entry_present(ledger, required[i].as_str()) {
            let ghost before = out@;
            out.push(copy_string(&required[i]));
            assert(views(out@) =~= views(before).push(required@[i as int]@));
        }
        i = i + 1;
    }
    assert(req.take(req.len() as int) == req);
    out
}

fn failed_evidence_of(ev: &[CompletionEvidence]) -> (r: Vec<String>)
    ensures
        views(r@) == failed_evidence_lines(ev@),
{
    let mut out: Vec<String> = Vec::new();
    let mut i: usize = 0;
    while i < ev.len()
        invariant
            i <= ev@.len(),
            views(out@) == failed_evidence_lines(ev@.take(i as int)),
        decreases ev.len() - i,
    {
        proof {
            assert(ev@.take(i + 1).drop_last() == ev@.take(i as int));
            assert(ev@.take(i + 1).last() == ev@[i as int]);
        }
        if ev[i].status == CompletionEvidenceStatus::Failed {
            let ghost before = out@;
            out.push(ev[i].render_line());
            assert(views(out@) =~= views(before).push(evidence_line(ev@[i as int])));
        }
        i = i + 1;
    }
    assert(ev@.take(ev@.len() as int) == ev@);
    out
}

fn missing_evidence_of(ev: &[CompletionEvidence]) -> (r: Vec<String>)
    ensures
        views(r@) == missing_evidence_lines(ev@),
{
    let mut out: Vec<String> = Vec::new();
    let mut i: usize = 0;
    while i < ev.len()
        invariant
            i <= ev@.len(),
            views(out@) == missing_evidence_lines(ev@.take(i as int)),
        decreases ev.len() - i,
    {
        proof {
            assert(ev@.take(i + 1).drop_last() == ev@.take(i as int));
            assert(ev@.take(i + 1).last() == ev@[i as int]);
        }
        if ev[i].status == CompletionEvidenceStatus::Missing || ev[i].status == CompletionEvidenceStatus::Unbound {
            let ghost before = out@;
            out.push(ev[i].render_line());
            assert(views(out@) =~= views(before).push(evidence_line(ev@[i as int])));
        }
        i = i + 1;
    }
    assert(ev@.take(ev@.len() as int) == ev@);
    out
}

fn failed_bindings_of(bs: &[EvidenceBindingPlan]) -> (r: Vec<String>)
    ensures
        views(r@) == failed_binding_lines(bs@),
{
    let mut out: Vec<String> = Vec::new();
    let mut i: usize = 0;
    while i < bs.len()
        invariant
            i <= bs@.len(),
            views(out@) == failed_binding_lines(bs@.take(i as int)),
        decreases bs.len() - i,
    {
        proof {
            assert(bs@.take(i + 1).drop_last() == bs@.take(i as int));
            assert(bs@.take(i + 1).last() == bs@[i as int]);
        }
        if bs[i].status != EvidenceBindingStatus::Bound {
            let ghost before = out@;
            out.push(bs[i].render_line());
            assert(views(out@) =~= views(before).push(binding_line(bs@[i as int])));
        }
        i = i + 1;
    }
    assert(bs@.take(bs@.len() as int) == bs@);
    out
}

fn aggregate_binding_status(bs: &[EvidenceBindingPlan]) -> (r: EvidenceBindingStatus)
    ensures
        r == aggregate_binding(bs@),
{
    let mut k: usize = 0;
    while k < bs.len()
        invariant
            k <= bs@.len(),
            forall|j: int| 0 <= j < k ==> !(#[trigger] bs@[j].status == EvidenceBindingStatus::Failed
                || bs@[j].status == EvidenceBindingStatus::Unbound),
        decreases bs.len() - k,
    {
        if bs[k].status == EvidenceBindingStatus::Failed || bs[k].status == EvidenceBindingStatus::Unbound {
            return EvidenceBindingStatus::Failed;
        }
        k = k + 1;
    }
    let mut k: usize = 0;
    while k < bs.len()
        invariant
            k <= bs@.len(),
            forall|j: int| 0 <= j < bs@.len() ==> !(#[trigger] bs@[j].status == EvidenceBindingStatus::Failed
                || bs@[j].status == EvidenceBindingStatus::Unbound),
            forall|j: int| 0 <= j < k ==> #[trigger] bs@[j].status != EvidenceBindingStatus::Missing,
        decreases bs.len() - k,
    {
        if bs[k].status == EvidenceBindingStatus::Missing {
            return EvidenceBindingStatus::Missing;
        }
        k = k + 1;
    }
    EvidenceBindingStatus::Bound
}

fn result(
    status: CompletionAuthorityStatus,
    runner: EvidenceRunnerStatus,
    completion: CompletionEvidenceStatus,
    binding: EvidenceBindingStatus,
    ledger: &str,
    source_of_truth: &str,
    missing_deliverables: Vec<String>,
    missing_evidence: Vec<String>,
    failed_evidence: Vec<String>,
    failed_bindings: Vec<String>,
) -> (r: CompletionAuthorityResult)
    ensures
        r@ == verdict(
            status,
            runner,
            completion,
            binding,
            ledger@,
            source_of_truth@,
            views(missing_deliverables@),
            views(missing_evidence@),
            views(failed_evidence@),
            views(failed_bindings@),
        ),
{
    CompletionAuthorityResult {
        status,
        evidence_runner_status: runner,
        completion_evidence_status: completion,
        evidence_binding_status: binding,
        artifact_ledger_status: owned(ledger),
        source_of_truth: owned(source_of_truth),
        missing_deliverables,
        missing_evidence,
        failed_evidence,
        failed_bindings,
    }
}

fn no_lines() -> (r: Vec<String>)
    ensures
        views(r@) == Seq::<Seq<char>>::empty(),
{
    let r: Vec<String> = Vec::new();
    assert(views(r@) =~= Seq::<Seq<char>>::empty());
    r
}

/// Classifies the completion facts into the authority's verdict.
pub fn evaluate_completion_authority(
    required_paths: &[String],
    ledger: &ArtifactLedgerSummary,
    completion_evidence: &[CompletionEvidence],
    evidence_bindings: &[EvidenceBindingPlan],
) -> (r: CompletionAuthorityResult)
    ensures
        r@ == authority_of(views(required_paths@), ledger_view(*ledger), completion_evidence@, evidence_bindings@),
{
    if required_paths.len() == 0 && completion_evidence.len() == 0 && evidence_bindings.len() == 0 {
        return result(
            CompletionAuthorityStatus::Eligible,
            EvidenceRunnerStatus::NotRequired,
            CompletionEvidenceStatus::Passed,
            EvidenceBindingStatus::Bound,
            "not_required",
            "no_required_deliverables",
            no_lines(),
            no_lines(),
            no_lines(),
            no_lines(),
        );
    }
    let missing_deliverables = missing_deliverables_of(required_paths, ledger);
    if missing_deliverables.len() > 0 {
        return result(
            CompletionAuthorityStatus::MissingDeliverable,
            EvidenceRunnerStatus::Missing,
            CompletionEvidenceStatus::Missing,
            EvidenceBindingStatus::Missing,
            "missing_required",
            "artifact_ledger",
            missing_deliverables,
            no_lines(),
            no_lines(),
            no_lines(),
        );
    }
    if completion_evidence.len() == 0 {
        let mut required: Vec<String> = Vec::new();
        let mut i: usize = 0;
        while i < required_paths.len()
            invariant
                i <= required_paths@.len(),
                views(required@) == views(required_paths@).take(i as int),
            decreases required_paths.len() - i,
        {
            let ghost before = required@;
            required.push(copy_string(&required_paths[i]));
            proof {
                assert(views(required_paths@).take(i + 1) == views(required_paths@).take(i as int).push(
                    required_paths@[i as int]@,
                ));
                assert(views(required@) =~= views(before).push(required_paths@[i as int]@));
            }
            i = i + 1;
        }
        assert(views(required_paths@).take(required_paths@.len() as int) == views(required_paths@));
        return result(
            CompletionAuthorityStatus::MissingEvidence,
            EvidenceRunnerStatus::Missing,
            CompletionEvidenceStatus::Missing,
            aggregate_binding_status(evidence_bindings),
            "complete",
            "completion_evidence",
            no_lines(),
            required,
            no_lines(),
            no_lines(),
        );
    }
    let failed_evidence = failed_evidence_of(completion_evidence);
    if failed_evidence.len() > 0 {
        return result(
            CompletionAuthorityStatus::CompletionEvidenceFailed,
            EvidenceRunnerStatus::Executed,
            CompletionEvidenceStatus::Failed,
            aggregate_binding_status(evidence_bindings),
            "complete",
            "completion_evidence",
            no_lines(),
            no_lines(),
            failed_evidence,
            no_lines(),
        );
    }
    let missing_evidence = missing_evidence_of(completion_evidence);
    if missing_evidence.len() > 0 {
        return result(
            CompletionAuthorityStatus::MissingEvidence,
            EvidenceRunnerStatus::Missing,
            CompletionEvidenceStatus::Missing,
            aggregate_binding_status(evidence_bindings),
            "complete",
            "completion_evidence",
            no_lines(),
            missing_evidence,
            no_lines(),
            no_lines(),
        );
    }
    let failed_bindings = failed_bindings_of(evidence_bindings);
    if failed_bindings.len() > 0 {
        return result(
            CompletionAuthorityStatus::EvidenceBindingFailed,
            EvidenceRunnerStatus::Executed,
            CompletionEvidenceStatus::Passed,
            aggregate_binding_status(evidence_bindings),
            "complete",
            "evidence_binding",
            no_lines(),
            no_lines(),
            no_lines(),
            failed_bindings,
        );
    }
    result(
        CompletionAuthorityStatus::Eligible,
        EvidenceRunnerStatus::Executed,
        CompletionEvidenceStatus::Passed,
        EvidenceBindingStatus::Bound,
        "complete",
        "artifact_ledger_and_completion_evidence",
        no_lines(),
        no_lines(),
        no_lines(),
        no_lines(),
    )
}

/// File-layout completion evidence: passed when the path is present,
/// missing otherwise.
pub fn file_layout_completion_evidence(path: &str, present: bool) -> (r: CompletionEvidence)
    ensures
        is_evidence(
            r,
            CompletionEvidenceKind::RepoEdit,
            path@,
            if present { CompletionEvidenceStatus::Passed } else { CompletionEvidenceStatus::Missing },
            "artifact_ledger_file_layout"@,
        ),
{
    CompletionEvidence::new(
        CompletionEvidenceKind::RepoEdit,
        path,
        if present { CompletionEvidenceStatus::Passed } else { CompletionEvidenceStatus::Missing },
        "artifact_ledger_file_layout",
    )
}

/// A file-layout binding: bound when the path is present, missing
/// otherwise.
pub fn file_layout_binding(path: &str, present: bool) -> (r: EvidenceBindingPlan)
    ensures
        is_binding(
            r,
            EvidenceBindingKind::FileLayout,
            path@,
            "filesystem path exists"@,
            if present { EvidenceBindingStatus::Bound } else { EvidenceBindingStatus::Missing },
        ),
{
    EvidenceBindingPlan::new(
        EvidenceBindingKind::FileLayout,
        path,
        "filesystem path exists",
        if present { EvidenceBindingStatus::Bound } else { EvidenceBindingStatus::Missing },
    )
}

// ---------------------------------------------------------------------------
// Rendering
// ---------------------------------------------------------------------------

/// The evaluation fields of a result.
pub open spec fn authority_fields(v: AuthorityView) -> Seq<Seq<char>> {
    seq![
        "terminal_state="@ + verdict_name(v.status),
        "diagnostic_code="@ + verdict_name(v.status),
        "evidence_runner_status="@ + runner_status_name(v.runner),
        "completion_evidence_status="@ + evidence_status_name(v.completion),
        "evidence_binding_status="@ + binding_status_name(v.binding),
        "artifact_ledger_status="@ + v.ledger,
        "source_of_truth="@ + v.source_of_truth,
    ]
}

/// A list line, present only when the list is not empty.
pub open spec fn list_line(label: Seq<char>, values: Seq<Seq<char>>) -> Seq<Seq<char>> {
    if values.len() == 0 {
        Seq::empty()
    } else {
        seq!["- "@ + label + ": "@ + join(values, ","@)]
    }
}

/// The contract lines of a result: each evaluation field as a bullet, then
/// the non-empty lists.
pub open spec fn authority_lines(v: AuthorityView) -> Seq<Seq<char>> {
    authority_fields(v).map_values(|f: Seq<char>| "- "@ + f) + list_line(
        "missing_deliverables"@,
        v.missing_deliverables,
    ) + list_line("missing_evidence"@, v.missing_evidence) + list_line("failed_evidence"@, v.failed_evidence)
        + list_line("failed_bindings"@, v.failed_bindings)
}

fn push_list_line(lines: &mut Vec<String>, label: &str, values: &Vec<String>)
    ensures
        views(final(lines)@) == views(old(lines)@) + list_line(label@, views(values@)),
{
    if values.len() > 0 {
        let ghost before = views(lines@);
        let mut s = owned("- ");
        push_str(&mut s, label);
        push_str(&mut s, ": ");
        let joined = join_strings(values, ",");
        push_str(&mut s, joined.as_str());
        lines.push(s);
        assert(views(lines@) =~= before + list_line(label@, views(values@)));
    } else {
        assert(views(lines@) =~= views(lines@) + Seq::<Seq<char>>::empty());
    }
}

impl CompletionAuthorityResult {
    /// Whether the deliverables may be reported complete.
    pub fn success_eligible(&self) -> (r: bool)
        ensures
            r == (self.status == CompletionAuthorityStatus::Eligible),
    {
        self.status == CompletionAuthorityStatus::Eligible
    }

    /// The terminal state of the verdict.
    pub fn terminal_state(&self) -> (r: &'static str)
        ensures
            r@ == verdict_name(self.status),
    {
        self.status.terminal_state()
    }

    /// The diagnostic code of the verdict.
    pub fn diagnostic_code(&self) -> (r: &'static str)
        ensures
            r@ == verdict_name(self.status),
    {
        self.status.diagnostic_code()
    }

    /// The result as evaluation fields.
    pub fn render_eval_fields(&self) -> (r: Vec<String>)
        ensures
            views(r@) == authority_fields(self@),
    {
        let mut a = owned("terminal_state=");
        push_str(&mut a, self.terminal_state());
        let mut b = owned("diagnostic_code=");
        push_str(&mut b, self.diagnostic_code());
        let mut c = owned("evidence_runner_status=");
        push_str(&mut c, self.evidence_runner_status.as_str());
        let mut d = owned("completion_evidence_status=");
        push_str(&mut d, self.completion_evidence_status.as_str());
        let mut e = owned("evidence_binding_status=");
        push_str(&mut e, self.evidence_binding_status.as_str());
        let mut f = owned("artifact_ledger_status=");
        push_str(&mut f, self.artifact_ledger_status.as_str());
        let mut g = owned("source_of_truth=");
        push_str(&mut g, self.source_of_truth.as_str());
        let r = vec![a, b, c, d, e, f, g];
        assert(views(r@) =~= authority_fields(self@));
        r
    }

    /// The result as contract lines.
    pub fn render_contract_lines(&self) -> (r: Vec<String>)
        ensures
            views(r@) == authority_lines(self@),
    {
        let fields = self.render_eval_fields();
        let ghost fv = authority_fields(self@);
        let mut lines: Vec<String> = Vec::new();
        let mut i: usize = 0;
        while i < fields.len()
            invariant
                i <= fields@.len(),
                views(fields@) == fv,
                views(lines@) == fv.take(i as int).map_values(|f: Seq<char>| "- "@ + f),
            decreases fields.len() - i,
        {
            let ghost before = lines@;
            let mut s = owned("- ");
            push_str(&mut s, fields[i].as_str());
            lines.push(s);
            proof {
                assert(fv.take(i + 1) == fv.take(i as int).push(fields@[i as int]@));
                assert(views(lines@) =~= views(before).push("- "@ + fields@[i as int]@));
            }
            i = i + 1;
        }
        assert(fv.take(fv.len() as int) == fv);
        push_list_line(&mut lines, "missing_deliverables", &self.missing_deliverables);
        push_list_line(&mut lines, "missing_evidence", &self.missing_evidence);
        push_list_line(&mut lines, "failed_evidence", &self.failed_evidence);
        push_list_line(&mut lines, "failed_bindings", &self.failed_bindings);
        lines
    }
}

} // verus!
