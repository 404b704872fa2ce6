//! Deterministic integrity guards for repair patches.
//!
//! A repair patch is checked path by path against the workspace scope and the
//! profile's artifact classification, and its test edits are checked for
//! weakened or unanchored assertions. The guards only name outcomes; they
//! never apply or revert anything.
use crate::paths::{normalize_path, normalized_path, underscore_words, underscored};
use crate::profile_artifact::{
    artifact_kind_label, classify_profile_artifact, kind_label, profile_eligibility, profile_kind,
    ArtifactKind, ArtifactProvenance,
};
use crate::profiles::ProfileId;
use crate::text::{
    collapse_ws, collapse_ws_str, contains, copy_opt, copy_string, copy_strings, ends_with, join,
    join_strings, lower, lower_str, opt_view, owned, push_str, starts_with, str_contains,
    str_ends_with, str_eq, str_starts_with, trim, trim_str, views,
};
use vstd::prelude::*;

verus! {

/// How a patch fared under the integrity guards.
#[derive(Debug, Clone, Copy, PartialEq, Eq, Structural)]
pub enum PatchValidationOutcome {
    Accepted,
    Malformed,
    Unsafe,
    Noop,
    Duplicate,
    TestWeakening,
    GeneratedTestUnsupportedAssertion,
    UnsupportedContractAssertion,
    SelfReferentialVerifier,
    OutOfScope,
    ProtectedPath,
    GeneratedOrCacheOutput,
    DependencyArtifactMutation,
    WorsenedVerifier,
}

pub open spec fn outcome_name(x: PatchValidationOutcome) -> Seq<char> {
    match x {
        PatchValidationOutcome::Accepted => "accepted"@,
        PatchValidationOutcome::Malformed => "malformed"@,
        PatchValidationOutcome::Unsafe => "unsafe"@,
        PatchValidationOutcome::Noop => "noop"@,
        PatchValidationOutcome::Duplicate => "duplicate"@,
        PatchValidationOutcome::TestWeakening => "test_weakening"@,
        PatchValidationOutcome::GeneratedTestUnsupportedAssertion => "generated_test_unsupported_assertion"@,
        PatchValidationOutcome::UnsupportedContractAssertion => "unsupported_contract_assertion"@,
        PatchValidationOutcome::SelfReferentialVerifier => "self_referential_verifier"@,
        PatchValidationOutcome::OutOfScope => "out_of_scope"@,
        PatchValidationOutcome::ProtectedPath => "protected_path"@,
        PatchValidationOutcome::GeneratedOrCacheOutput => "generated_or_cache_output"@,
        PatchValidationOutcome::DependencyArtifactMutation => "dependency_artifact_mutation"@,
        PatchValidationOutcome::WorsenedVerifier => "worsened_verifier"@,
    }
}

impl PatchValidationOutcome {
    /// The snake-case name.
    pub fn as_str(self) -> (r: &'static str)
        ensures
            r@ == outcome_name(self),
    {
        match self {
            PatchValidationOutcome::Accepted => "accepted",
            PatchValidationOutcome::Malformed => "malformed",
            PatchValidationOutcome::Unsafe => "unsafe",
            PatchValidationOutcome::Noop => "noop",
            PatchValidationOutcome::Duplicate => "duplicate",
            PatchValidationOutcome::TestWeakening => "test_weakening",
            PatchValidationOutcome::GeneratedTestUnsupportedAssertion => "generated_test_unsupported_assertion",
            PatchValidationOutcome::UnsupportedContractAssertion => "unsupported_contract_assertion",
            PatchValidationOutcome::SelfReferentialVerifier => "self_referential_verifier",
            PatchValidationOutcome::OutOfScope => "out_of_scope",
            PatchValidationOutcome::ProtectedPath => "protected_path",
            PatchValidationOutcome::GeneratedOrCacheOutput => "generated_or_cache_output",
            PatchValidationOutcome::DependencyArtifactMutation => "dependency_artifact_mutation",
            PatchValidationOutcome::WorsenedVerifier => "worsened_verifier",
        }
    }
}


/// Who proposed a patch.
#[derive(Debug, Clone, Copy, PartialEq, Eq, Structural)]
pub enum PatchProposalSource {
    ModelToolEdit,
    MechanicalAdapter,
    RollbackCandidate,
}

pub open spec fn proposal_source_name(x: PatchProposalSource) -> Seq<char> {
    match x {
        PatchProposalSource::ModelToolEdit => "model_tool_edit"@,
        PatchProposalSource::MechanicalAdapter => "mechanical_adapter"@,
        PatchProposalSource::RollbackCandidate => "rollback_candidate"@,
    }
}

impl PatchProposalSource {
    /// The snake-case name.
    pub fn as_str(self) -> (r: &'static str)
        ensures
            r@ == proposal_source_name(self),
    {
        match self {
            PatchProposalSource::ModelToolEdit => "model_tool_edit",
            PatchProposalSource::MechanicalAdapter => "mechanical_adapter",
            PatchProposalSource::RollbackCandidate => "rollback_candidate",
        }
    }
}


/// Whether a patch passed every guard.
#[derive(Debug, Clone, Copy, PartialEq, Eq, Structural)]
pub enum PatchValidationStatus {
    Accepted,
    Rejected,
}

pub open spec fn validation_status_name(x: PatchValidationStatus) -> Seq<char> {
    match x {
        PatchValidationStatus::Accepted => "accepted"@,
        PatchValidationStatus::Rejected => "rejected"@,
    }
}

impl PatchValidationStatus {
    /// The snake-case name.
    pub fn as_str(self) -> (r: &'static str)
        ensures
            r@ == validation_status_name(self),
    {
        match self {
            PatchValidationStatus::Accepted => "accepted",
            PatchValidationStatus::Rejected => "rejected",
        }
    }
}


/// Whether a rollback was admitted.
#[derive(Debug, Clone, Copy, PartialEq, Eq, Structural)]
pub enum RollbackAdmissionStatus {
    NotApplicable,
    Admitted,
    Rejected,
}

pub open spec fn rollback_status_name(x: RollbackAdmissionStatus) -> Seq<char> {
    match x {
        RollbackAdmissionStatus::NotApplicable => "not_applicable"@,
        RollbackAdmissionStatus::Admitted => "admitted"@,
        RollbackAdmissionStatus::Rejected => "rejected"@,
    }
}

impl RollbackAdmissionStatus {
    /// The snake-case name.
    pub fn as_str(self) -> (r: &'static str)
        ensures
            r@ == rollback_status_name(self),
    {
        match self {
            RollbackAdmissionStatus::NotApplicable => "not_applicable",
            RollbackAdmissionStatus::Admitted => "admitted",
            RollbackAdmissionStatus::Rejected => "rejected",
        }
    }
}


// ---------------------------------------------------------------------------
// Proposals and validations
// ---------------------------------------------------------------------------

/// A proposed repair patch and the context it was proposed in.
#[derive(Debug, Clone, PartialEq, Eq)]
pub struct PatchProposal {
    pub source: PatchProposalSource,
    pub active_job: String,
    pub recovery_owner: Option<String>,
    pub repair_action: Option<String>,
    pub selected_failure_cluster: Option<String>,
    pub target_path: Option<String>,
    pub target_role: Option<String>,
    pub source_of_truth: Option<String>,
    pub touched_paths: Vec<String>,
    pub before_signature: Option<String>,
    pub after_signature: Option<String>,
    pub rerun_authority: Vec<String>,
    pub rollback_snapshot_id: Option<String>,
}

impl PatchProposal {
    /// A proposal touching the given paths, with an unknown active job and no
    /// other context.
    pub fn new(source: PatchProposalSource, touched_paths: Vec<String>) -> (r: Self)
        ensures
            r.source == source,
            r.active_job@ == "unknown"@,
            r.touched_paths@ == touched_paths@,
            r.recovery_owner is None,
            r.repair_action is None,
            r.selected_failure_cluster is None,
            r.target_path is None,
            r.target_role is None,
            r.source_of_truth is None,
            r.before_signature is None,
            r.after_signature is None,
            r.rerun_authority@.len() == 0,
            r.rollback_snapshot_id is None,
    {
        PatchProposal {
            source,
            active_job: owned("unknown"),
            recovery_owner: None,
            repair_action: None,
            selected_failure_cluster: None,
            target_path: None,
            target_role: None,
            source_of_truth: None,
            touched_paths,
            before_signature: None,
            after_signature: None,
            rerun_authority: Vec::new(),
            rollback_snapshot_id: None,
        }
    }
}

/// One guard's finding: its outcome, the path it concerns and why.
#[derive(Debug, Clone, PartialEq, Eq)]
pub struct PatchValidation {
    pub outcome: PatchValidationOutcome,
    pub path: Option<String>,
    pub reason: String,
}

/// A finding as plain values.
pub type ValidationView = (PatchValidationOutcome, Option<Seq<char>>, Seq<char>);

impl View for PatchValidation {
    type V = ValidationView;

    open spec fn view(&self) -> ValidationView {
        (self.outcome, opt_view(self.path), self.reason@)
    }
}

/// The present value, or the fallback.
pub open spec fn shown(o: Option<Seq<char>>, fallback: Seq<char>) -> Seq<char> {
    match o {
        Some(v) => v,
        None => fallback,
    }
}

/// The rendered line of a finding.
pub open spec fn validation_line(v: ValidationView) -> Seq<char> {
    "outcome="@ + outcome_name(v.0) + " path="@ + shown(v.1, "none"@) + " reason="@ + collapse_ws(v.2)
}

fn shown_str(o: &Option<String>, fallback: &str) -> (r: String)
    ensures
        r@ == shown(opt_view(*o), fallback@),
{
    match o {
        Some(v) => copy_string(v),
        None => owned(fallback),
    }
}

impl PatchValidation {
    /// A finding with the given outcome, path and reason.
    pub fn new(outcome: PatchValidationOutcome, path: Option<String>, reason: &str) -> (r: Self)
        ensures
            r@ == (outcome, opt_view(path), reason@),
    {
        PatchValidation { outcome, path, reason: owned(reason) }
    }

    /// `outcome=<o> path=<p|none> reason=<reason, whitespace collapsed>`.
    pub fn render_line(&self) -> (r: String)
        ensures
            r@ == validation_line(self@),
    {
        let mut s = owned("outcome=");
        push_str(&mut s, self.outcome.as_str());
        push_str(&mut s, " path=");
        let p = shown_str(&self.path, "none");
        push_str(&mut s, p.as_str());
        push_str(&mut s, " reason=");
        let reason = collapse_ws_str(self.reason.as_str());
        push_str(&mut s, reason.as_str());
        s
    }
}

// ---------------------------------------------------------------------------
// Rendering helpers
// ---------------------------------------------------------------------------

/// A list as rendered in report lines: `none` when empty, otherwise the
/// values with whitespace runs turned into `_`, joined by `|`.
pub open spec fn rendered_list(values: Seq<Seq<char>>) -> Seq<char> {
    if values.len() == 0 {
        "none"@
    } else {
        join(values.map_values(|v: Seq<char>| underscored(v)), "|"@)
    }
}

/// Renders a list for a report line.
pub fn render_list(values: &Vec<String>) -> (r: String)
    ensures
        r@ == rendered_list(views(values@)),
{
    if values.len() == 0 {
        return owned("none");
    }
    let mut parts: Vec<String> = Vec::new();
    let mut i: usize = 0;
    while i < values.len()
        invariant
            i <= values@.len(),
            views(parts@) == views(values@).take(i as int).map_values(|v: Seq<char>| underscored(v)),
        decreases values.len() - i,
    {
        let ghost before = parts@;
        parts.push(underscore_words(values[i].as_str()));
        proof {
            assert(views(values@).take(i + 1) == views(values@).take(i as int).push(values@[i as int]@));
            assert(views(parts@) =~= views(before).push(underscored(values@[i as int]@)));
        }
        i = i + 1;
    }
    assert(views(values@).take(values@.len() as int) == views(values@));
    join_strings(&parts, "|")
}

/// The text of a flag.
pub open spec fn flag_text(b: bool) -> Seq<char> {
    if b { "true"@ } else { "false"@ }
}

fn flag_str(b: bool) -> (r: &'static str)
    ensures
        r@ == flag_text(b),
{
    if b { "true" } else { "false" }
}

// ---------------------------------------------------------------------------
// Rollback admission
// ---------------------------------------------------------------------------

/// Whether a rollback of a repair was admitted, and on what grounds.
#[derive(Debug, Clone, PartialEq, Eq)]
pub struct RollbackAdmission {
    pub status: RollbackAdmissionStatus,
    pub reason: String,
    pub touched_paths: Vec<String>,
    pub snapshot_available: bool,
    pub verifier_proved_worsened: bool,
}

/// The rendered line of a rollback admission.
pub open spec fn rollback_line(a: RollbackAdmission) -> Seq<char> {
    "rollback_admission_status="@ + rollback_status_name(a.status) + " rollback_reason="@
        + collapse_ws(a.reason@) + " snapshot_available="@ + flag_text(a.snapshot_available)
        + " verifier_proved_worsened="@ + flag_text(a.verifier_proved_worsened)
        + " touched_paths="@ + rendered_list(views(a.touched_paths@))
}

/// The evaluation-report fields of a rollback admission.
pub open spec fn rollback_fields(a: RollbackAdmission) -> Seq<Seq<char>> {
    seq![
        "rollback_admission_status="@ + rollback_status_name(a.status),
        "rollback_reason="@ + underscored(a.reason@),
    ]
}

impl RollbackAdmission {
    /// A rollback admission with the given status and grounds.
    pub fn new(
        status: RollbackAdmissionStatus,
        reason: &str,
        touched_paths: Vec<String>,
        snapshot_available: bool,
        verifier_proved_worsened: bool,
    ) -> (r: Self)
        ensures
            r.status == status,
            r.reason@ == reason@,
            r.touched_paths@ == touched_paths@,
            r.snapshot_available == snapshot_available,
            r.verifier_proved_worsened == verifier_proved_worsened,
    {
        RollbackAdmission {
            status,
            reason: owned(reason),
            touched_paths,
            snapshot_available,
            verifier_proved_worsened,
        }
    }

    /// The single report line of the admission.
    pub fn render_lines(&self) -> (r: Vec<String>)
        ensures
            views(r@) == seq![rollback_line(*self)],
    {
        let mut s = owned("rollback_admission_status=");
        push_str(&mut s, self.status.as_str());
        push_str(&mut s, " rollback_reason=");
        let reason = collapse_ws_str(self.reason.as_str());
        push_str(&mut s, reason.as_str());
        push_str(&mut s, " snapshot_available=");
        push_str(&mut s, flag_str(self.snapshot_available));
        push_str(&mut s, " verifier_proved_worsened=");
        push_str(&mut s, flag_str(self.verifier_proved_worsened));
        push_str(&mut s, " touched_paths=");
        let paths = render_list(&self.touched_paths);
        push_str(&mut s, paths.as_str());
        let r = vec![s];
        assert(views(r@) =~= seq![rollback_line(*self)]);
        r
    }

    /// The admission's status and reason as evaluation-report fields.
    pub fn eval_report_fields(&self) -> (r: Vec<String>)
        ensures
            views(r@) == rollback_fields(*self),
    {
        let mut a = owned("rollback_admission_status=");
        push_str(&mut a, self.status.as_str());
        let mut b = owned("rollback_reason=");
        let reason = underscore_words(self.reason.as_str());
        push_str(&mut b, reason.as_str());
        let r = vec![a, b];
        assert(views(r@) =~= rollback_fields(*self));
        r
    }
}

// ---------------------------------------------------------------------------
// The report
// ---------------------------------------------------------------------------

/// The guards' report on one proposal.
#[derive(Debug, Clone, PartialEq, Eq)]
pub struct PatchValidationReport {
    pub status: PatchValidationStatus,
    pub proposal_source: PatchProposalSource,
    pub source_of_truth: Option<String>,
    pub active_job: String,
    pub target_path: Option<String>,
    pub target_role: Option<String>,
    pub touched_paths: Vec<String>,
    pub validations: Vec<PatchValidation>,
    pub rollback_admission: Option<RollbackAdmission>,
}

/// The views of a list of findings.
pub open spec fn validation_views(vs: Seq<PatchValidation>) -> Seq<ValidationView> {
    vs.map_values(|v: PatchValidation| v@)
}

/// A report describes the proposal and carries exactly the given findings;
/// it is rejected iff there is at least one finding.
pub open spec fn reports(r: PatchValidationReport, p: PatchProposal, findings: Seq<ValidationView>) -> bool {
    &&& r.status == (if findings.len() == 0 {
        PatchValidationStatus::Accepted
    } else {
        PatchValidationStatus::Rejected
    })
    &&& r.proposal_source == p.source
    &&& opt_view(r.source_of_truth) == opt_view(p.source_of_truth)
    &&& r.active_job@ == p.active_job@
    &&& opt_view(r.target_path) == opt_view(p.target_path)
    &&& opt_view(r.target_role) == opt_view(p.target_role)
    &&& views(r.touched_paths@) == views(p.touched_paths@)
    &&& validation_views(r.validations@) == findings
    &&& r.rollback_admission is None
}

/// The outcome names a report lists: `accepted` when there is no finding,
/// otherwise each finding's outcome in order.
pub open spec fn outcome_names(r: PatchValidationReport) -> Seq<Seq<char>> {
    if r.validations@.len() == 0 {
        seq!["accepted"@]
    } else {
        r.validations@.map_values(|v: PatchValidation| outcome_name(v.outcome))
    }
}

/// The paths of the findings that name one, in order.
pub open spec fn finding_paths(vs: Seq<PatchValidation>) -> Seq<Seq<char>>
    decreases vs.len(),
{
    if vs.len() == 0 {
        Seq::empty()
    } else {
        let rest = finding_paths(vs.drop_last());
        match vs.last().path {
            Some(p) => rest.push(p@),
            None => rest,
        }
    }
}

/// The header line of a report.
pub open spec fn header_line(r: PatchValidationReport) -> Seq<char> {
    "status="@ + validation_status_name(r.status) + " source="@ + proposal_source_name(
        r.proposal_source,
    ) + " active_job="@ + collapse_ws(r.active_job@) + " target="@ + shown(
        opt_view(r.target_path),
        "none"@,
    ) + " role="@ + shown(opt_view(r.target_role), "unknown"@) + " source_of_truth="@ + shown(
        opt_view(r.source_of_truth),
        "unknown"@,
    ) + " touched_paths="@ + rendered_list(views(r.touched_paths@)) + " outcomes="@
        + rendered_list(outcome_names(r))
}

/// The report lines: the header, one line per finding, then the rollback
/// admission's line if there is one.
pub open spec fn report_lines(r: PatchValidationReport) -> Seq<Seq<char>> {
    seq![header_line(r)] + validation_views(r.validations@).map_values(
        |v: ValidationView| validation_line(v),
    ) + match r.rollback_admission {
        Some(a) => seq![rollback_line(a)],
        None => Seq::empty(),
    }
}

/// The evaluation-report fields of a report.
pub open spec fn report_fields(r: PatchValidationReport) -> Seq<Seq<char>> {
    seq![
        "patch_validation_status="@ + validation_status_name(r.status),
        "patch_validation_source="@ + proposal_source_name(r.proposal_source),
        "patch_validation_outcomes="@ + rendered_list(outcome_names(r)),
        "patch_validation_rejected_paths="@ + rendered_list(finding_paths(r.validations@)),
    ] + match r.rollback_admission {
        Some(a) => rollback_fields(a),
        None => Seq::empty(),
    }
}

impl PatchValidationReport {
    /// The report on a proposal with the given findings.
    pub fn from_proposal(proposal: &PatchProposal, validations: Vec<PatchValidation>) -> (r: Self)
        ensures
            reports(r, *proposal, validation_views(validations@)),
            r.validations@ == validations@,
    {
        let status = if validations.len() == 0 {
            PatchValidationStatus::Accepted
        } else {
            PatchValidationStatus::Rejected
        };
        PatchValidationReport {
            status,
            proposal_source: proposal.source,
            source_of_truth: copy_opt(&proposal.source_of_truth),
            active_job: copy_string(&proposal.active_job),
            target_path: copy_opt(&proposal.target_path),
            target_role: copy_opt(&proposal.target_role),
            touched_paths: copy_strings(&proposal.touched_paths),
            validations,
            rollback_admission: None,
        }
    }

    /// Whether the patch was rejected.
    pub fn is_rejected(&self) -> (r: bool)
        ensures
            r == (self.status == PatchValidationStatus::Rejected),
    {
        match self.status {
            PatchValidationStatus::Rejected => true,
            PatchValidationStatus::Accepted => false,
        }
    }

    /// The outcome names: `accepted`, or each finding's outcome.
    pub fn outcomes(&self) -> (r: Vec<String>)
        ensures
            views(r@) == outcome_names(*self),
    {
        if self.validations.len() == 0 {
            let r = vec![owned(PatchValidationOutcome::Accepted.as_str())];
            assert(views(r@) =~= outcome_names(*self));
            return r;
        }
        let mut r: Vec<String> = Vec::new();
        let mut i: usize = 0;
        while i < self.validations.len()
            invariant
                i <= self.validations@.len(),
                views(r@) == self.validations@.take(i as int).map_values(
                    |v: PatchValidation| outcome_name(v.outcome),
                ),
            decreases self.validations.len() - i,
        {
            let ghost before = r@;
            r.push(owned(self.validations[i].outcome.as_str()));
            proof {
                assert(self.validations@.take(i + 1) == self.validations@.take(i as int).push(
                    self.validations@[i as int],
                ));
                assert(views(r@) =~= views(before).push(outcome_name(self.validations@[i as int].outcome)));
            }
            i = i + 1;
        }
        assert(self.validations@.take(self.validations@.len() as int) == self.validations@);
        r
    }

    /// The paths the findings name, in order.
    pub fn rejected_paths(&self) -> (r: Vec<String>)
        ensures
            views(r@) == finding_paths(self.validations@),
    {
        let mut r: Vec<String> = Vec::new();
        let mut i: usize = 0;
        while i < self.validations.len()
            invariant
                i <= self.validations@.len(),
                views(r@) == finding_paths(self.validations@.take(i as int)),
            decreases self.validations.len() - i,
        {
            let ghost before = r@;
            proof {
                assert(self.validations@.take(i + 1).drop_last() == self.validations@.take(i as int));
            }
            match &self.validations[i].path {
                Some(p) => {
                    r.push(copy_string(p));
                    assert(views(r@) =~= views(before).push(p@));
                },
                None => {},
            }
            i = i + 1;
        }
        assert(self.validations@.take(self.validations@.len() as int) == self.validations@);
        r
    }

    /// The report lines: header, findings, rollback admission.
    pub fn render_lines(&self) -> (r: Vec<String>)
        ensures
            views(r@) == report_lines(*self),
    {
        let mut head = owned("status=");
        push_str(&mut head, self.status.as_str());
        push_str(&mut head, " source=");
        push_str(&mut head, self.proposal_source.as_str());
        push_str(&mut head, " active_job=");
        let job = collapse_ws_str(self.active_job.as_str());
        push_str(&mut head, job.as_str());
        push_str(&mut head, " target=");
        let target = shown_str(&self.target_path, "none");
        push_str(&mut head, target.as_str());
        push_str(&mut head, " role=");
        let role = shown_str(&self.target_role, "unknown");
        push_str(&mut head, role.as_str());
        push_str(&mut head, " source_of_truth=");
        let truth = shown_str(&self.source_of_truth, "unknown");
        push_str(&mut head, truth.as_str());
        push_str(&mut head, " touched_paths=");
        let touched = render_list(&self.touched_paths);
        push_str(&mut head, touched.as_str());
        push_str(&mut head, " outcomes=");
        let names = self.outcomes();
        let outcomes = render_list(&names);
        push_str(&mut head, outcomes.as_str());
        assert(head@ == header_line(*self));
        let mut lines: Vec<String> = vec![head];
        let ghost vv = validation_views(self.validations@);
        let mut i: usize = 0;
        while i < self.validations.len()
            invariant
                i <= self.validations@.len(),
                vv == validation_views(self.validations@),
                views(lines@) == seq![header_line(*self)] + vv.take(i as int).map_values(
                    |v: ValidationView| validation_line(v),
                ),
            decreases self.validations.len() - i,
        {
            let ghost before = lines@;
            lines.push(self.validations[i].render_line());
            proof {
                assert(vv.take(i + 1) == vv.take(i as int).push(vv[i as int]));
                assert(views(lines@) =~= views(before).push(validation_line(vv[i as int])));
            }
            i = i + 1;
        }
        assert(vv.take(vv.len() as int) == vv);
        match &self.rollback_admission {
            Some(a) => {
                let ghost before = lines@;
                let extra = a.render_lines();
                assert(views(extra@).len() == extra@.len());
                lines.push(copy_string(&extra[0]));
                assert(views(lines@) =~= views(before) + seq![rollback_line(*a)]);
            },
            None => {
                assert(views(lines@) =~= views(lines@) + Seq::<Seq<char>>::empty());
            },
        }
        lines
    }

    /// The report's evaluation fields.
    pub fn eval_report_fields(&self) -> (r: Vec<String>)
        ensures
            views(r@) == report_fields(*self),
    {
        let mut a = owned("patch_validation_status=");
        push_str(&mut a, self.status.as_str());
        let mut b = owned("patch_validation_source=");
        push_str(&mut b, self.proposal_source.as_str());
        let mut c = owned("patch_validation_outcomes=");
        let names = self.outcomes();
        let outcomes = render_list(&names);
        push_str(&mut c, outcomes.as_str());
        let mut d = owned("patch_validation_rejected_paths=");
        let rejected = self.rejected_paths();
        let paths = render_list(&rejected);
        push_str(&mut d, paths.as_str());
        let mut fields = vec![a, b, c, d];
        let ghost base = views(fields@);
        match &self.rollback_admission {
            Some(adm) => {
                let extra = adm.eval_report_fields();
                assert(views(extra@).len() == extra@.len());
                fields.push(copy_string(&extra[0]));
                fields.push(copy_string(&extra[1]));
                assert(views(fields@) =~= base + rollback_fields(*adm));
            },
            None => {
                assert(views(fields@) =~= base + Seq::<Seq<char>>::empty());
            },
        }
        fields
    }
}

// ---------------------------------------------------------------------------
// Path guards
// ---------------------------------------------------------------------------

/// A normalized path that leaves the workspace: empty, absolute, or with a
/// `..` segment at its start, inside or at its end.
pub open spec fn outside_workspace(p: Seq<char>) -> bool {
    ||| p.len() == 0
    ||| starts_with(p, "/"@)
    ||| p == ".."@
    ||| starts_with(p, "../"@)
    ||| contains(p, "/../"@)
    ||| ends_with(p, "/.."@)
}

/// Whether a normalized path leaves the workspace.
pub fn invalid_workspace_path(path: &str) -> (r: bool)
    ensures
        r == outside_workspace(path@),
{
    crate::text::char_count(path) == 0 || str_starts_with(path, "/") || str_eq(path, "..")
        || str_starts_with(path, "../") || str_contains(path, "/../") || str_ends_with(path, "/..")
}

/// The finding on one touched path, if any.
pub open spec fn path_finding(profile: ProfileId, path: Seq<char>) -> Option<ValidationView> {
    let n = normalized_path(path);
    let kind = profile_kind(profile, n);
    if outside_workspace(n) {
        Some(
            (
                PatchValidationOutcome::OutOfScope,
                Some(path),
                "patch attempted to modify a path outside the workspace scope"@,
            ),
        )
    } else if kind == ArtifactKind::DependencyCache {
        Some(
            (
                PatchValidationOutcome::DependencyArtifactMutation,
                Some(n),
                "repair attempted to modify dependency cache output"@,
            ),
        )
    } else if kind == ArtifactKind::BuildOutput || kind == ArtifactKind::GeneratedDeclaration {
        Some(
            (
                PatchValidationOutcome::GeneratedOrCacheOutput,
                Some(n),
                "repair attempted to modify generated artifact kind "@ + kind_label(kind),
            ),
        )
    } else if kind == ArtifactKind::RawInput && profile_eligibility(
        profile,
        n,
        ArtifactProvenance::WorkspaceObservation,
    ).protected_input {
        Some(
            (
                PatchValidationOutcome::ProtectedPath,
                Some(n),
                "repair attempted to modify protected raw input"@,
            ),
        )
    } else {
        None
    }
}

/// The findings on the touched paths, in order.
pub open spec fn path_findings(profile: ProfileId, paths: Seq<Seq<char>>) -> Seq<ValidationView>
    decreases paths.len(),
{
    if paths.len() == 0 {
        Seq::empty()
    } else {
        let rest = path_findings(profile, paths.drop_last());
        match path_finding(profile, paths.last()) {
            Some(v) => rest.push(v),
            None => rest,
        }
    }
}

/// Checks one touched path against the workspace scope and the profile's
/// artifact classification.
pub fn validate_patch_path(profile: ProfileId, path: &str) -> (r: Option<PatchValidation>)
    ensures
        match r {
            Some(v) => path_finding(profile, path@) == Some(v@),
            None => path_finding(profile, path@) is None,
        },
{
    let normalized = normalize_path(path);
    if invalid_workspace_path(normalized.as_str()) {
        return Some(
            PatchValidation::new(
                PatchValidationOutcome::OutOfScope,
                Some(owned(path)),
                "patch attempted to modify a path outside the workspace scope",
            ),
        );
    }
    let artifact = classify_profile_artifact(
        profile,
        normalized.as_str(),
        ArtifactProvenance::WorkspaceObservation,
    );
    proof {
        assert(normalized_path(normalized@) == normalized_path(normalized_path(path@)));
    }
    match artifact.kind {
        ArtifactKind::DependencyCache => Some(
            PatchValidation::new(
                PatchValidationOutcome::DependencyArtifactMutation,
                Some(normalized),
                "repair attempted to modify dependency cache output",
            ),
        ),
        ArtifactKind::BuildOutput | ArtifactKind::GeneratedDeclaration => {
            let mut reason = owned("repair attempted to modify generated artifact kind ");
            push_str(&mut reason, artifact_kind_label(artifact.kind));
            Some(
                PatchValidation::new(
                    PatchValidationOutcome::GeneratedOrCacheOutput,
                    Some(normalized),
                    reason.as_str(),
                ),
            )
        },
        ArtifactKind::RawInput => {
            if artifact.eligibility.protected_input {
                Some(
                    PatchValidation::new(
                        PatchValidationOutcome::ProtectedPath,
                        Some(normalized),
                        "repair attempted to modify protected raw input",
                    ),
                )
            } else {
                None
            }
        },
        _ => None,
    }
}

/// Checks every touched path of a proposal; the report is rejected iff some
/// path has a finding.
pub fn validate_patch_proposal(profile: ProfileId, proposal: &PatchProposal) -> (r: PatchValidationReport)
    ensures
        reports(r, *proposal, path_findings(profile, views(proposal.touched_paths@))),
{
    let ghost paths = views(proposal.touched_paths@);
    let mut validations: Vec<PatchValidation> = Vec::new();
    let mut i: usize = 0;
    while i < proposal.touched_paths.len()
        invariant
            i <= proposal.touched_paths@.len(),
            paths == views(proposal.touched_paths@),
            validation_views(validations@) == path_findings(profile, paths.take(i as int)),
        decreases proposal.touched_paths.len() - i,
    {
        let ghost before = validations@;
        proof {
            assert(paths.take(i + 1).drop_last() == paths.take(i as int));
            assert(paths.take(i + 1).last() == proposal.touched_paths@[i as int]@);
        }
        match validate_patch_path(profile, proposal.touched_paths[i].as_str()) {
            Some(v) => {
                validations.push(v);
                assert(validation_views(validations@) =~= validation_views(before).push(v@));
            },
            None => {},
        }
        i = i + 1;
    }
    assert(paths.take(paths.len() as int) == paths);
    PatchValidationReport::from_proposal(proposal, validations)
}

// ---------------------------------------------------------------------------
// Content guards
// ---------------------------------------------------------------------------

/// A path that names a test file.
pub open spec fn test_like(p: Seq<char>) -> bool {
    ||| contains(p, "test"@)
    ||| ends_with(p, "_test.rs"@)
    ||| ends_with(p, ".spec.ts"@)
    ||| ends_with(p, ".test.ts"@)
    ||| ends_with(p, ".spec.tsx"@)
    ||| ends_with(p, ".test.tsx"@)
}

/// Whether a path names a test file.
pub fn is_test_like(path: &str) -> (r: bool)
    ensures
        r == test_like(path@),
{
    str_contains(path, "test") || str_ends_with(path, "_test.rs") || str_ends_with(path, ".spec.ts")
        || str_ends_with(path, ".test.ts") || str_ends_with(path, ".spec.tsx") || str_ends_with(
        path,
        ".test.tsx",
    )
}

/// Some term, lower-cased, occurs in the (lower-cased) text.
pub open spec fn mentions_any(lowered: Seq<char>, terms: Seq<Seq<char>>) -> bool {
    exists|k: int| 0 <= k < terms.len() && contains(lowered, lower(#[trigger] terms[k]))
}

fn mentions_any_term(lowered: &str, terms: &[&str]) -> (r: bool)
    ensures
        r == mentions_any(lowered@, crate::text::str_views(terms@)),
{
    let ghost ts = crate::text::str_views(terms@);
    let mut k: usize = 0;
    while k < terms.len()
        invariant
            k <= terms@.len(),
            ts == crate::text::str_views(terms@),
            forall|j: int| 0 <= j < k ==> !contains(lowered@, lower(#[trigger] ts[j])),
        decreases terms.len() - k,
    {
        let t = lower_str(terms[k]);
        if str_contains(lowered, t.as_str()) {
            assert(contains(lowered@, lower(ts[k as int])));
            return true;
        }
        k = k + 1;
    }
    false
}

/// The test-weakening finding on an edit, if any: a test file whose new
/// content asserts `true` or skips or ignores a test.
pub open spec fn weakening_finding(path: Seq<char>, content: Seq<char>) -> Option<ValidationView> {
    let l = lower(content);
    let test_file = contains(path, "test"@) || ends_with(path, "_test.rs"@) || ends_with(
        path,
        ".spec.ts"@,
    );
    let weakened = contains(l, "assert!(true)"@) || contains(l, "it.skip"@) || contains(
        l,
        "describe.skip"@,
    ) || contains(l, "#[ignore]"@);
    if test_file && weakened {
        Some(
            (
                PatchValidationOutcome::TestWeakening,
                Some(path),
                "repair attempted to weaken or skip a test"@,
            ),
        )
    } else {
        None
    }
}

/// Detects an edit that weakens or skips a test.
pub fn detect_test_weakening(path: &str, content: &str) -> (r: Option<PatchValidation>)
    ensures
        match r {
            Some(v) => weakening_finding(path@, content@) == Some(v@),
            None => weakening_finding(path@, content@) is None,
        },
{
    let test_file = str_contains(path, "test") || str_ends_with(path, "_test.rs") || str_ends_with(
        path,
        ".spec.ts",
    );
    if !test_file {
        return None;
    }
    let lowered = lower_str(content);
    let l = lowered.as_str();
    if str_contains(l, "assert!(true)") || str_contains(l, "it.skip") || str_contains(
        l,
        "describe.skip",
    ) || str_contains(l, "#[ignore]") {
        return Some(
            PatchValidation::new(
                PatchValidationOutcome::TestWeakening,
                Some(owned(path)),
                "repair attempted to weaken or skip a test",
            ),
        );
    }
    None
}

/// The finding on a generated test that asserts nothing of the task
/// contract, if any.
pub open spec fn generated_finding(path: Seq<char>, content: Seq<char>, terms: Seq<Seq<char>>) -> Option<ValidationView> {
    let l = lower(content);
    let generated = contains(l, "generated"@) || contains(l, "commandagent"@) || contains(
        l,
        "auto-generated"@,
    );
    if test_like(path) && generated && terms.len() > 0 && !mentions_any(l, terms) {
        Some(
            (
                PatchValidationOutcome::GeneratedTestUnsupportedAssertion,
                Some(path),
                "generated test assertion is not anchored to the task contract"@,
            ),
        )
    } else {
        None
    }
}

/// Detects a generated test whose content mentions none of the task
/// contract's terms.
pub fn detect_generated_test_assertion_outside_contract(
    path: &str,
    content: &str,
    task_contract_terms: &[&str],
) -> (r: Option<PatchValidation>)
    ensures
        match r {
            Some(v) => generated_finding(path@, content@, crate::text::str_views(task_contract_terms@))
                == Some(v@),
            None => generated_finding(path@, content@, crate::text::str_views(task_contract_terms@)) is None,
        },
{
    if !is_test_like(path) {
        return None;
    }
    let lowered = lower_str(content);
    let l = lowered.as_str();
    let generated = str_contains(l, "generated") || str_contains(l, "commandagent") || str_contains(
        l,
        "auto-generated",
    );
    if !generated || task_contract_terms.len() == 0 {
        return None;
    }
    if mentions_any_term(l, task_contract_terms) {
        return None;
    }
    Some(
        PatchValidation::new(
            PatchValidationOutcome::GeneratedTestUnsupportedAssertion,
            Some(owned(path)),
            "generated test assertion is not anchored to the task contract",
        ),
    )
}

/// The finding on a test assertion outside the supported terms, if any.
pub open spec fn unsupported_finding(path: Seq<char>, content: Seq<char>, terms: Seq<Seq<char>>) -> Option<ValidationView> {
    let l = lower(content);
    let asserts = contains(l, "assert"@) || contains(l, "expect("@) || contains(l, "should"@)
        || contains(l, "pytest"@);
    if test_like(path) && terms.len() > 0 && asserts && !mentions_any(l, terms) {
        Some(
            (
                PatchValidationOutcome::UnsupportedContractAssertion,
                Some(path),
                "test assertion is outside the supported task contract terms"@,
            ),
        )
    } else {
        None
    }
}

/// Detects a test assertion that mentions none of the supported terms.
pub fn detect_unsupported_contract_assertion(
    path: &str,
    content: &str,
    supported_terms: &[&str],
) -> (r: Option<PatchValidation>)
    ensures
        match r {
            Some(v) => unsupported_finding(path@, content@, crate::text::str_views(supported_terms@))
                == Some(v@),
            None => unsupported_finding(path@, content@, crate::text::str_views(supported_terms@)) is None,
        },
{
    if !is_test_like(path) || supported_terms.len() == 0 {
        return None;
    }
    let lowered = lower_str(content);
    let l = lowered.as_str();
    let asserts = str_contains(l, "assert") || str_contains(l, "expect(") || str_contains(l, "should")
        || str_contains(l, "pytest");
    if !asserts {
        return None;
    }
    if mentions_any_term(l, supported_terms) {
        return None;
    }
    Some(
        PatchValidation::new(
            PatchValidationOutcome::UnsupportedContractAssertion,
            Some(owned(path)),
            "test assertion is outside the supported task contract terms",
        ),
    )
}

/// The finding on a verifier command that runs its own artifact, if any.
pub open spec fn self_reference_finding(command: Seq<char>, artifact: Seq<char>) -> Option<ValidationView> {
    let c = trim(command);
    let a = trim(artifact);
    if a.len() > 0 && contains(c, a) {
        Some(
            (
                PatchValidationOutcome::SelfReferentialVerifier,
                Some(a),
                "verifier command depends on the verifier artifact it is meant to validate"@,
            ),
        )
    } else {
        None
    }
}

/// Detects a verifier command that mentions the verifier artifact it is
/// meant to validate.
pub fn detect_self_referential_verifier(verifier_command: &str, verifier_artifact_path: &str) -> (r: Option<PatchValidation>)
    ensures
        match r {
            Some(v) => self_reference_finding(verifier_command@, verifier_artifact_path@) == Some(v@),
            None => self_reference_finding(verifier_command@, verifier_artifact_path@) is None,
        },
{
    let command = trim_str(verifier_command);
    let artifact = trim_str(verifier_artifact_path);
    if crate::text::char_count(artifact.as_str()) == 0 {
        return None;
    }
    if str_contains(command.as_str(), artifact.as_str()) {
        return Some(
            PatchValidation::new(
                PatchValidationOutcome::SelfReferentialVerifier,
                Some(artifact),
                "verifier command depends on the verifier artifact it is meant to validate",
            ),
        );
    }
    None
}

} // verus!
