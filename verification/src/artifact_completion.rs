//! Completion jobs for required artifacts: which artifact a contract
//! failure leaves owed, whether it must be created or modified, and the
//! target-only policy the repair runs under.
use crate::artifact_graph::{role_for_path, role_name, role_of, ArtifactLifecycle, ArtifactRole};
use crate::correction_evidence::ContractEvidence;
use crate::paths::normalized_path;
use crate::text::{
    contains, copy_opt, copy_string, copy_strings, opt_view, owned, push_str, str_contains, str_eq,
    usize_to_string, decimal, views,
};
use vstd::prelude::*;

verus! {

/// The most attempts a completion job gets.
pub const ARTIFACT_COMPLETION_ATTEMPT_LIMIT: usize = 4;

/// Whether a completion job creates or modifies its target.
#[derive(Debug, Clone, Copy, PartialEq, Eq, Structural)]
pub enum ArtifactCompletionMode {
    Create,
    Modify,
}

pub open spec fn completion_mode_name(x: ArtifactCompletionMode) -> Seq<char> {
    match x {
        ArtifactCompletionMode::Create => "create"@,
        ArtifactCompletionMode::Modify => "modify"@,
    }
}

impl ArtifactCompletionMode {
    /// The snake-case name.
    pub fn as_str(self) -> (r: &'static str)
        ensures
            r@ == completion_mode_name(self),
    {
        match self {
            ArtifactCompletionMode::Create => "create",
            ArtifactCompletionMode::Modify => "modify",
        }
    }
}


/// How a completion attempt fell short.
#[derive(Debug, Clone, Copy, PartialEq, Eq, Structural)]
pub enum ArtifactAttemptOutcomeKind {
    WrongTarget,
    NoTool,
    ProseOnly,
    PolicyViolation,
    EvidenceFailed,
    NoProgress,
}

pub open spec fn attempt_outcome_name(x: ArtifactAttemptOutcomeKind) -> Seq<char> {
    match x {
        ArtifactAttemptOutcomeKind::WrongTarget => "wrong_target"@,
        ArtifactAttemptOutcomeKind::NoTool => "no_tool"@,
        ArtifactAttemptOutcomeKind::ProseOnly => "prose_only"@,
        ArtifactAttemptOutcomeKind::PolicyViolation => "policy_violation"@,
        ArtifactAttemptOutcomeKind::EvidenceFailed => "evidence_failed"@,
        ArtifactAttemptOutcomeKind::NoProgress => "no_progress"@,
    }
}

impl ArtifactAttemptOutcomeKind {
    /// The snake-case name.
    pub fn as_str(self) -> (r: &'static str)
        ensures
            r@ == attempt_outcome_name(self),
    {
        match self {
            ArtifactAttemptOutcomeKind::WrongTarget => "wrong_target",
            ArtifactAttemptOutcomeKind::NoTool => "no_tool",
            ArtifactAttemptOutcomeKind::ProseOnly => "prose_only",
            ArtifactAttemptOutcomeKind::PolicyViolation => "policy_violation",
            ArtifactAttemptOutcomeKind::EvidenceFailed => "evidence_failed",
            ArtifactAttemptOutcomeKind::NoProgress => "no_progress",
        }
    }
}


/// A job that completes one required artifact.
#[derive(Debug, Clone, PartialEq, Eq)]
pub struct ArtifactCompletionJob {
    pub target_path: String,
    pub role: ArtifactRole,
    pub mode: ArtifactCompletionMode,
    pub reason: String,
    pub attempt_limit: usize,
}

/// The first element, if any.
pub open spec fn first_of(s: Seq<Seq<char>>) -> Option<Seq<char>> {
    if s.len() > 0 {
        Some(s[0])
    } else {
        None
    }
}

/// The artifact a contract failure leaves owed: the repair target, else the
/// target path, else the first missing path, else the first required path.
pub open spec fn owed_target(e: ContractEvidence) -> Option<Seq<char>> {
    if e.repair_target is Some {
        opt_view(e.repair_target)
    } else if e.target_path is Some {
        opt_view(e.target_path)
    } else if e.missing_paths@.len() > 0 {
        first_of(views(e.missing_paths@))
    } else {
        first_of(views(e.required_paths@))
    }
}

/// The job as plain values: target, role, mode, reason, attempt limit.
pub type JobView = (Seq<char>, ArtifactRole, ArtifactCompletionMode, Seq<char>, usize);

pub open spec fn job_view(j: ArtifactCompletionJob) -> JobView {
    (j.target_path@, j.role, j.mode, j.reason@, j.attempt_limit)
}

/// The job a contract failure calls for: none without an owed target or
/// when the target is generated output, a dependency cache or of unknown
/// role; a target that is missing, or a reason code that says `missing`,
/// is created, anything else modified.
pub open spec fn job_of(e: ContractEvidence) -> Option<JobView> {
    match owed_target(e) {
        None => None,
        Some(t) => {
            let role = role_of(normalized_path(t), ArtifactLifecycle::Required);
            if role == ArtifactRole::GeneratedOutput || role == ArtifactRole::DependencyCache || role
                == ArtifactRole::Unknown {
                None
            } else {
                let create = views(e.missing_paths@).contains(t) || match e.reason_code {
                    Some(c) => contains(c@, "missing"@),
                    None => false,
                };
                Some(
                    (
                        t,
                        role,
                        if create { ArtifactCompletionMode::Create } else { ArtifactCompletionMode::Modify },
                        if e.reason_code is Some {
                            opt_view(e.reason_code)->0
                        } else if e.violated_contract is Some {
                            opt_view(e.violated_contract)->0
                        } else {
                            "required_artifact_completion"@
                        },
                        ARTIFACT_COMPLETION_ATTEMPT_LIMIT,
                    ),
                )
            }
        },
    }
}

fn strings_contain(v: &Vec<String>, t: &str) -> (r: bool)
    ensures
        r == views(v@).contains(t@),
{
    let mut k: usize = 0;
    while k < v.len()
        invariant
            k <= v@.len(),
            forall|j: int| 0 <= j < k ==> views(v@)[j] != t@,
        decreases v.len() - k,
    {
        if str_eq(v[k].as_str(), t) {
            assert(views(v@)[k as int] == t@);
            return true;
        }
        k = k + 1;
    }
    false
}

/// The repair job a completion job runs as.
pub open spec fn active_job_for(role: ArtifactRole) -> Seq<char> {
    match role {
        ArtifactRole::Test => "test_artifact_completion"@,
        ArtifactRole::Docs => "documentation_repair"@,
        ArtifactRole::SetupManifest | ArtifactRole::SetupConfig => "manifest_repair"@,
        _ => "scaffold_materialization"@,
    }
}

fn active_job_name(role: ArtifactRole) -> (r: &'static str)
    ensures
        r@ == active_job_for(role),
{
    match role {
        ArtifactRole::Test => "test_artifact_completion",
        ArtifactRole::Docs => "documentation_repair",
        ArtifactRole::SetupManifest | ArtifactRole::SetupConfig => "manifest_repair",
        _ => "scaffold_materialization",
    }
}

/// A value appended unless the list already holds it.
pub open spec fn with_unique(vs: Seq<Seq<char>>, v: Seq<char>) -> Seq<Seq<char>> {
    if vs.contains(v) {
        vs
    } else {
        vs.push(v)
    }
}

fn push_unique(values: &mut Vec<String>, value: String)
    ensures
        views(final(values)@) == with_unique(views(old(values)@), value@),
{
    if !strings_contain(values, value.as_str()) {
        let ghost before = views(values@);
        values.push(value);
        assert(views(values@) =~= before.push(value@));
    }
}

/// An optional field kept when set, else given the value.
pub open spec fn kept_or(o: Option<String>, v: Seq<char>) -> Option<Seq<char>> {
    if o is Some {
        opt_view(o)
    } else {
        Some(v)
    }
}

fn keep_or(o: &Option<String>, v: &str) -> (r: Option<String>)
    ensures
        opt_view(r) == kept_or(*o, v@),
{
    match o {
        Some(s) => Some(copy_string(s)),
        None => Some(owned(v)),
    }
}

/// The action the job asks for.
pub open spec fn required_action_text(j: JobView) -> Seq<char> {
    completion_mode_name(j.2) + " the required "@ + role_name(j.1) + " artifact at "@ + j.0
}

/// The job's line in the repair-attempt ledger.
pub open spec fn ledger_line(j: JobView) -> Seq<char> {
    "artifact_completion_job: target="@ + j.0 + "; role="@ + role_name(j.1) + "; mode="@ + completion_mode_name(j.2)
        + "; attempt_limit="@ + decimal(j.4 as nat)
}

/// The evidence with the job applied: each repair field that is unset is
/// set from the job, the two target-only prohibitions and the job's ledger
/// line are added once, and nothing else changes.
pub open spec fn applied(r: ContractEvidence, e: ContractEvidence, j: JobView) -> bool {
    let job = active_job_for(j.1);
    &&& opt_view(r.active_job) == kept_or(e.active_job, job)
    &&& opt_view(r.repair_action) == kept_or(e.repair_action, "create_required_artifact"@)
    &&& opt_view(r.repair_kind) == kept_or(e.repair_kind, job)
    &&& opt_view(r.target_path) == kept_or(e.target_path, j.0)
    &&& opt_view(r.repair_target) == kept_or(e.repair_target, j.0)
    &&& opt_view(r.artifact_role) == kept_or(e.artifact_role, role_name(j.1))
    &&& opt_view(r.required_action) == kept_or(e.required_action, required_action_text(j))
    &&& views(r.disallowed_actions@) == with_unique(
        with_unique(
            views(e.disallowed_actions@),
            "do not satisfy the contract by editing unrelated artifacts"@,
        ),
        "do not answer in prose without creating or modifying the target artifact"@,
    )
    &&& views(r.repair_attempt_ledger@) == with_unique(views(e.repair_attempt_ledger@), ledger_line(j))
    &&& r == (ContractEvidence {
        active_job: r.active_job,
        repair_action: r.repair_action,
        repair_kind: r.repair_kind,
        target_path: r.target_path,
        repair_target: r.repair_target,
        artifact_role: r.artifact_role,
        required_action: r.required_action,
        disallowed_actions: r.disallowed_actions,
        repair_attempt_ledger: r.repair_attempt_ledger,
        ..e
    })
}

impl ArtifactCompletionJob {
    /// The completion job a contract failure calls for, if any.
    pub fn from_contract_evidence(evidence: &ContractEvidence) -> (r: Option<Self>)
        ensures
            match r {
                Some(j) => job_of(*evidence) == Some(job_view(j)),
                None => job_of(*evidence) is None,
            },
    {
        let target = match &evidence.repair_target {
            Some(t) => copy_string(t),
            None => match &evidence.target_path {
                Some(t) => copy_string(t),
                None => if evidence.missing_paths.len() > 0 {
                    copy_string(&evidence.missing_paths[0])
                } else if evidence.required_paths.len() > 0 {
                    copy_string(&evidence.required_paths[0])
                } else {
                    return None;
                },
            },
        };
        let role = role_for_path(target.as_str(), ArtifactLifecycle::Required);
        if role == ArtifactRole::GeneratedOutput || role == ArtifactRole::DependencyCache || role == ArtifactRole::Unknown {
            return None;
        }
        let create = strings_contain(&evidence.missing_paths, target.as_str()) || match &evidence.reason_code {
            Some(c) => str_contains(c.as_str(), "missing"),
            None => false,
        };
        let reason = match &evidence.reason_code {
            Some(c) => copy_string(c),
            None => match &evidence.violated_contract {
                Some(v) => copy_string(v),
                None => owned("required_artifact_completion"),
            },
        };
        Some(ArtifactCompletionJob {
            target_path: target,
            role,
            mode: if create { ArtifactCompletionMode::Create } else { ArtifactCompletionMode::Modify },
            reason,
            attempt_limit: ARTIFACT_COMPLETION_ATTEMPT_LIMIT,
        })
    }

    /// The read and write scopes of the job: the target (and its parent
    /// context when creating) only.
    pub fn target_only_policy_summary(&self) -> (r: Vec<String>)
        ensures
            views(r@) == (match self.mode {
                ArtifactCompletionMode::Create => seq![
                    "read_scope=target_or_parent_context:"@ + self.target_path@,
                    "write_scope=create_target_only:"@ + self.target_path@,
                ],
                ArtifactCompletionMode::Modify => seq![
                    "read_scope=target_only:"@ + self.target_path@,
                    "write_scope=modify_target_only:"@ + self.target_path@,
                ],
            }),
    {
        let (a, b) = match self.mode {
            ArtifactCompletionMode::Create => ("read_scope=target_or_parent_context:", "write_scope=create_target_only:"),
            ArtifactCompletionMode::Modify => ("read_scope=target_only:", "write_scope=modify_target_only:"),
        };
        let mut x = owned(a);
        push_str(&mut x, self.target_path.as_str());
        let mut y = owned(b);
        push_str(&mut y, self.target_path.as_str());
        let r = vec![x, y];
        assert(views(r@) =~= seq![a@ + self.target_path@, b@ + self.target_path@]);
        r
    }

    /// The evidence with the job's target-only repair context filled in.
    pub fn apply_to_evidence(&self, evidence: ContractEvidence) -> (r: ContractEvidence)
        ensures
            applied(r, evidence, job_view(*self)),
    {
        let job = active_job_name(self.role);
        let mut action = owned(self.mode.as_str());
        push_str(&mut action, " the required ");
        push_str(&mut action, self.role.as_str());
        push_str(&mut action, " artifact at ");
        push_str(&mut action, self.target_path.as_str());
        let mut disallowed = copy_strings(&evidence.disallowed_actions);
        push_unique(&mut disallowed, owned("do not satisfy the contract by editing unrelated artifacts"));
        push_unique(
            &mut disallowed,
            owned("do not answer in prose without creating or modifying the target artifact"),
        );
        let mut ledger = copy_strings(&evidence.repair_attempt_ledger);
        let mut line = owned("artifact_completion_job: target=");
        push_str(&mut line, self.target_path.as_str());
        push_str(&mut line, "; role=");
        push_str(&mut line, self.role.as_str());
        push_str(&mut line, "; mode=");
        push_str(&mut line, self.mode.as_str());
        push_str(&mut line, "; attempt_limit=");
        let n = usize_to_string(self.attempt_limit);
        push_str(&mut line, n.as_str());
        push_unique(&mut ledger, line);
        let active_job = keep_or(&evidence.active_job, job);
        let repair_action = keep_or(&evidence.repair_action, "create_required_artifact");
        let repair_kind = keep_or(&evidence.repair_kind, job);
        let target_path = keep_or(&evidence.target_path, self.target_path.as_str());
        let repair_target = keep_or(&evidence.repair_target, self.target_path.as_str());
        let artifact_role = keep_or(&evidence.artifact_role, self.role.as_str());
        let required_action = keep_or(&evidence.required_action, action.as_str());
        ContractEvidence {
            active_job,
            repair_action,
            repair_kind,
            target_path,
            repair_target,
            artifact_role,
            required_action,
            disallowed_actions: disallowed,
            repair_attempt_ledger: ledger,
            ..evidence
        }
    }
}

} // verus!
