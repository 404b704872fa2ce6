//! Static checks on a step plan before any step runs.
//!
//! A plan is refused at its first fault, step by step in plan order: bad
//! expected paths, bad verifier commands, instructions that do not fit their
//! step kind, inspect steps that target missing files, steps that mix setup
//! with verification, shell scaffolding, setup steps that own source files,
//! and finally required artifacts that no mutating step owns.
//!
//! The workspace is given as the list of plan paths that exist in it; `None`
//! lints the plan without a workspace.
pub mod expected_paths;
pub mod instructions;
pub mod verifiers;

use crate::artifact_graph::{add_all, empty_graph, summary_lines, ArtifactGraph, ArtifactLifecycle};
use crate::correction_evidence::{only_facts, ContractEvidence};
use crate::paths::{normalize_path, normalized_path};
use crate::plan::{StepKind, StepPlan, StepPlanStep};
use crate::profile_artifact::{
    artifact_kind_label, classify_profile_artifact, kind_label, profile_kind,
    setup_step_may_own_artifact, ArtifactKind, ArtifactProvenance,
};
use crate::profiles::{profile_named, ProfileId};
use crate::text::{
    concat, copy_string, join, join_strings, lower, opt_view, owned, push_str, str_eq, trim,
    views,
};
use expected_paths::{lint_expected_paths, paths_fault};
use instructions::{
    inspect_verifier_boundary_fault, inspect_verifier_fault, instruction_fault,
    mixes_setup_and_verify, optional_inspection_fault, optional_inspection_paths_fault,
    profile_scaffold_fault, scaffold_fault, step_instruction_fault, step_mixes_setup_and_verify,
};
use verifiers::{commands_fault, lint_verifier_commands};
use vstd::prelude::*;

verus! {

/// Why a plan was refused.
#[derive(Debug, Clone, PartialEq, Eq)]
pub enum PlanLintError {
    InvalidExpectedPath { path: String, reason: String },
    MixedSetupAndVerify { step_id: String },
    ShellScaffold { step_id: String, command: String, guidance: String },
    InvalidVerifierCommand { step_id: String, command: String, reason: String },
    InvalidStepInstruction { step_id: String, reason: String },
    ContractViolation { step_id: String, reason: String, evidence: Box<ContractEvidence> },
}

/// A plan fault as a mathematical value; contract violations carry what
/// their evidence is built from.
pub enum LintFault {
    InvalidExpectedPath { path: Seq<char>, reason: Seq<char> },
    MixedSetupAndVerify { step_id: Seq<char> },
    ShellScaffold { step_id: Seq<char>, command: Seq<char>, guidance: Seq<char> },
    InvalidVerifierCommand { step_id: Seq<char>, command: Seq<char>, reason: Seq<char> },
    InvalidStepInstruction { step_id: Seq<char>, reason: Seq<char> },
    InspectMissing { step_id: Seq<char>, missing: Seq<Seq<char>> },
    SetupOwnership { step_id: Seq<char>, path: Seq<char>, role: Seq<char> },
    UnownedArtifact { artifact: Seq<char> },
}

// ---------------------------------------------------------------------------
// Workspace facts
// ---------------------------------------------------------------------------

/// The workspace as the list of paths known to exist in it.
pub open spec fn ws_view(ws: Option<&Vec<String>>) -> Option<Seq<Seq<char>>> {
    match ws {
        Some(v) => Some(views(v@)),
        None => None,
    }
}

/// The path exists in the workspace; nothing exists without one.
pub open spec fn exists_in(ws: Option<Seq<Seq<char>>>, p: Seq<char>) -> bool {
    match ws {
        Some(l) => l.contains(p),
        None => false,
    }
}

/// Whether the list holds the path.
pub fn contains_path(list: &Vec<String>, p: &str) -> (r: bool)
    ensures
        r == views(list@).contains(p@),
{
    let mut i: usize = 0;
    while i < list.len()
        invariant
            i <= list@.len(),
            forall|k: int| 0 <= k < i ==> views(list@)[k] != p@,
        decreases list.len() - i,
    {
        if str_eq(list[i].as_str(), p) {
            assert(views(list@)[i as int] == p@);
            return true;
        }
        i = i + 1;
    }
    false
}

/// Whether the path exists in the workspace.
pub fn path_exists(ws: Option<&Vec<String>>, p: &str) -> (r: bool)
    ensures
        r == exists_in(ws_view(ws), p@),
{
    match ws {
        Some(list) => contains_path(list, p),
        None => false,
    }
}

/// The paths, none of them missing from a workspace that is given.
pub open spec fn all_exist(ws: Option<Seq<Seq<char>>>, paths: Seq<Seq<char>>) -> bool {
    ws is Some && paths.len() > 0 && forall|i: int| 0 <= i < paths.len() ==> exists_in(ws, #[trigger] paths[i])
}

fn paths_exist(ws: Option<&Vec<String>>, paths: &Vec<String>) -> (r: bool)
    ensures
        r == all_exist(ws_view(ws), views(paths@)),
{
    if ws.is_none() || paths.len() == 0 {
        return false;
    }
    let mut i: usize = 0;
    while i < paths.len()
        invariant
            i <= paths@.len(),
            ws is Some,
            forall|k: int| 0 <= k < i ==> exists_in(ws_view(ws), #[trigger] views(paths@)[k]),
        decreases paths.len() - i,
    {
        if !path_exists(ws, paths[i].as_str()) {
            assert(!exists_in(ws_view(ws), views(paths@)[i as int]));
            return false;
        }
        i = i + 1;
    }
    true
}

/// The paths of the list that the workspace lacks, in order.
pub open spec fn missing_paths(paths: Seq<Seq<char>>, ws: Option<Seq<Seq<char>>>) -> Seq<Seq<char>>
    decreases paths.len(),
{
    if paths.len() == 0 {
        Seq::empty()
    } else {
        let m = missing_paths(paths.drop_last(), ws);
        if exists_in(ws, paths.last()) {
            m
        } else {
            m.push(paths.last())
        }
    }
}

// ---------------------------------------------------------------------------
// Faults and their evidence
// ---------------------------------------------------------------------------

pub open spec fn inspect_missing_reason(missing: Seq<Seq<char>>) -> Seq<char> {
    "inspect expected_paths must already exist in the workspace; missing "@ + join(missing, ", "@)
        + ". Use expected_paths: [] and verify: [] for discovery, and enforce final artifacts only at the final boundary"@
}

pub open spec fn ownership_reason(path: Seq<char>, role: Seq<char>) -> Seq<char> {
    "setup step cannot own `"@ + path + "` because it is classified as "@ + role
        + "; split setup/config work from source creation or change the step kind to create/edit"@
}

pub open spec fn unowned_reason(artifact: Seq<char>) -> Seq<char> {
    "required_artifact `"@ + artifact
        + "` is not owned by any create/edit/setup/repair step expected_paths"@
}

/// The evidence of an inspect step that targets missing files.
pub open spec fn inspect_missing_evidence(e: ContractEvidence, step_id: Seq<char>, missing: Seq<Seq<char>>) -> bool {
    &&& e.guard@ == "plan_lint.artifact_graph"@
    &&& opt_view(e.failed_step) == Some(step_id)
    &&& opt_view(e.violated_contract) == Some("inspect_future_artifact"@)
    &&& opt_view(e.reason_code) == Some("inspect_future_artifact"@)
    &&& opt_view(e.target_field) == Some("expected_paths"@)
    &&& views(e.missing_paths@) == missing
    &&& opt_view(e.active_job) == Some("explicit_stop"@)
    &&& opt_view(e.repair_action) == Some("stop_no_admitted_target"@)
    &&& opt_view(e.required_action) == Some(
        "do not inspect missing future artifacts; use expected_paths: [] and verify: [] for discovery, then create/edit the artifact in a later mutation step"@,
    )
    &&& views(e.disallowed_actions@) == seq![
        "Do not create files inside an inspect step."@,
        "Do not keep missing future artifacts in inspect expected_paths."@,
    ]
    &&& opt_view(e.target_admission) == Some(
        "rejected: inspect step cannot target missing future artifacts"@,
    )
    &&& opt_view(e.target_priority) == Some(
        "none: inspect future artifact has no admitted repair target"@,
    )
    &&& opt_view(e.explicit_stop_reason) == Some("inspect_future_artifact"@)
    &&& views(e.artifact_graph_summary@) == summary_lines(
        add_all(
            empty_graph(),
            missing,
            ArtifactLifecycle::Required,
            "plan_lint.inspect_expected_paths"@,
        ).nodes,
    )
    &&& opt_view(e.diagnostic) == Some(inspect_missing_reason(missing))
    &&& only_facts(
        e,
        seq![
            "failed_step"@,
            "violated_contract"@,
            "reason_code"@,
            "target_field"@,
            "missing_paths"@,
            "active_job"@,
            "repair_action"@,
            "required_action"@,
            "disallowed_actions"@,
            "target_admission"@,
            "target_priority"@,
            "explicit_stop_reason"@,
            "artifact_graph_summary"@,
            "diagnostic"@,
        ],
    )
}

/// The evidence of a setup step that owns a non-setup artifact.
pub open spec fn ownership_evidence(e: ContractEvidence, step_id: Seq<char>, path: Seq<char>, role: Seq<char>) -> bool {
    &&& e.guard@ == "plan_lint.step_decomposition"@
    &&& opt_view(e.failed_step) == Some(step_id)
    &&& opt_view(e.violated_contract) == Some("step_kind_artifact_role"@)
    &&& opt_view(e.reason_code) == Some("setup_step_owns_non_setup_artifact"@)
    &&& opt_view(e.target_field) == Some("expected_paths"@)
    &&& opt_view(e.target_path) == Some(path)
    &&& opt_view(e.rejected_value) == Some(path)
    &&& views(e.observed_expected_pairs@) == seq![
        "observed_role="@ + role + "; expected_role=setup/manifest or setup/config"@,
    ]
    &&& views(e.required_literals@) == seq!["setup/manifest"@, "setup/config"@]
    &&& opt_view(e.required_action) == Some(
        "change this step kind to create/edit, or split setup/config work from source creation"@,
    )
    &&& opt_view(e.diagnostic) == Some(ownership_reason(path, role))
    &&& only_facts(
        e,
        seq![
            "failed_step"@,
            "violated_contract"@,
            "reason_code"@,
            "target_field"@,
            "target_path"@,
            "rejected_value"@,
            "observed_expected_pairs"@,
            "required_literals"@,
            "required_action"@,
            "diagnostic"@,
        ],
    )
}

/// The evidence of a required artifact that no mutating step owns.
pub open spec fn unowned_evidence(e: ContractEvidence, artifact: Seq<char>) -> bool {
    &&& e.guard@ == "plan_lint.step_decomposition"@
    &&& opt_view(e.failed_step) == Some("plan"@)
    &&& opt_view(e.violated_contract) == Some("required_artifact_step_ownership"@)
    &&& opt_view(e.reason_code) == Some("required_artifact_missing_step_owner"@)
    &&& opt_view(e.failure_kind) == Some("plan_decomposition_failure"@)
    &&& opt_view(e.target_field) == Some("steps.expected_paths"@)
    &&& opt_view(e.target_path) == Some(artifact)
    &&& views(e.required_paths@) == seq![artifact]
    &&& views(e.missing_paths@) == seq![artifact]
    &&& opt_view(e.repair_target) == Some(artifact)
    &&& opt_view(e.active_job) == Some("scaffold_materialization"@)
    &&& opt_view(e.repair_kind) == Some("plan_correction"@)
    &&& opt_view(e.repair_action) == Some("add_required_artifact_owner_step"@)
    &&& opt_view(e.required_action) == Some(
        "add a create/edit/setup/repair step whose expected_paths includes this required_artifact before verify/report steps"@,
    )
    &&& views(e.disallowed_actions@) == seq![
        "do not remove the required_artifact"@,
        "do not satisfy final artifacts only from verify/report steps"@,
    ]
    &&& opt_view(e.diagnostic) == Some(unowned_reason(artifact))
    &&& only_facts(
        e,
        seq![
            "failed_step"@,
            "violated_contract"@,
            "reason_code"@,
            "failure_kind"@,
            "target_field"@,
            "target_path"@,
            "required_paths"@,
            "missing_paths"@,
            "repair_target"@,
            "active_job"@,
            "repair_kind"@,
            "repair_action"@,
            "required_action"@,
            "disallowed_actions"@,
            "diagnostic"@,
        ],
    )
}

/// The error is the one the fault describes.
pub open spec fn matches_fault(e: PlanLintError, f: LintFault) -> bool {
    match f {
        LintFault::InvalidExpectedPath { path, reason } => e matches PlanLintError::InvalidExpectedPath { path: p, reason: r }
            && p@ == path && r@ == reason,
        LintFault::MixedSetupAndVerify { step_id } => e matches PlanLintError::MixedSetupAndVerify { step_id: s }
            && s@ == step_id,
        LintFault::ShellScaffold { step_id, command, guidance } => e matches PlanLintError::ShellScaffold { step_id: s, command: c, guidance: g }
            && s@ == step_id && c@ == command && g@ == guidance,
        LintFault::InvalidVerifierCommand { step_id, command, reason } => e matches PlanLintError::InvalidVerifierCommand { step_id: s, command: c, reason: r }
            && s@ == step_id && c@ == command && r@ == reason,
        LintFault::InvalidStepInstruction { step_id, reason } => e matches PlanLintError::InvalidStepInstruction { step_id: s, reason: r }
            && s@ == step_id && r@ == reason,
        LintFault::InspectMissing { step_id, missing } => e matches PlanLintError::ContractViolation { step_id: s, reason: r, evidence: ev }
            && s@ == step_id && r@ == inspect_missing_reason(missing) && inspect_missing_evidence(*ev, step_id, missing),
        LintFault::SetupOwnership { step_id, path, role } => e matches PlanLintError::ContractViolation { step_id: s, reason: r, evidence: ev }
            && s@ == step_id && r@ == ownership_reason(path, role) && ownership_evidence(*ev, step_id, path, role),
        LintFault::UnownedArtifact { artifact } => e matches PlanLintError::ContractViolation { step_id: s, reason: r, evidence: ev }
            && s@ == "plan"@ && r@ == unowned_reason(artifact) && unowned_evidence(*ev, artifact),
    }
}

/// The result reports exactly the fault, or success when there is none.
pub open spec fn lint_result(r: Result<(), PlanLintError>, f: Option<LintFault>) -> bool {
    match r {
        Ok(()) => f is None,
        Err(e) => match f {
            Some(f) => matches_fault(e, f),
            None => false,
        },
    }
}

/// The first of two possible faults.
pub open spec fn either(a: Option<LintFault>, b: Option<LintFault>) -> Option<LintFault> {
    if a is Some {
        a
    } else {
        b
    }
}

// ---------------------------------------------------------------------------
// The plan's faults
// ---------------------------------------------------------------------------

pub open spec fn path_fault_of(f: Option<(Seq<char>, Seq<char>)>) -> Option<LintFault> {
    match f {
        Some((path, reason)) => Some(LintFault::InvalidExpectedPath { path, reason }),
        None => None,
    }
}

pub open spec fn instruction_fault_of(step_id: Seq<char>, f: Option<Seq<char>>) -> Option<LintFault> {
    match f {
        Some(reason) => Some(LintFault::InvalidStepInstruction { step_id, reason }),
        None => None,
    }
}

/// An inspect step whose expected paths are missing from a given workspace.
pub open spec fn inspect_missing_fault(
    step_id: Seq<char>,
    kind: StepKind,
    expected: Seq<Seq<char>>,
    ws: Option<Seq<Seq<char>>>,
) -> Option<LintFault> {
    let missing = missing_paths(expected, ws);
    if kind == StepKind::Inspect && expected.len() > 0 && ws is Some && missing.len() > 0 {
        Some(LintFault::InspectMissing { step_id, missing })
    } else {
        None
    }
}

/// The first expected path of a setup step that the step may not own.
pub open spec fn unownable_path(profile: ProfileId, paths: Seq<Seq<char>>) -> Option<Seq<char>>
    decreases paths.len(),
{
    if paths.len() == 0 {
        None
    } else {
        match unownable_path(profile, paths.drop_last()) {
            Some(p) => Some(p),
            None => {
                let k = profile_kind(profile, paths.last());
                if k == ArtifactKind::Manifest || k == ArtifactKind::Config || k == ArtifactKind::Unknown {
                    None
                } else {
                    Some(paths.last())
                }
            },
        }
    }
}

/// A setup step of a known profile that owns a source, test or other
/// non-setup artifact.
pub open spec fn ownership_fault(
    profile: Seq<char>,
    step_id: Seq<char>,
    kind: StepKind,
    expected: Seq<Seq<char>>,
) -> Option<LintFault> {
    if kind != StepKind::Setup {
        None
    } else {
        match profile_named(lower(trim(profile))) {
            None => None,
            Some(p) => match unownable_path(p, expected) {
                Some(path) => Some(
                    LintFault::SetupOwnership {
                        step_id,
                        path: normalized_path(path),
                        role: kind_label(profile_kind(p, path)),
                    },
                ),
                None => None,
            },
        }
    }
}

/// The first fault of one step, in the order the checks run.
pub open spec fn step_fault(plan: StepPlan, s: StepPlanStep, ws: Option<Seq<Seq<char>>>) -> Option<LintFault> {
    let id = s.id@;
    let exp = views(s.expected_paths@);
    let ver = views(s.verify@);
    either(
        path_fault_of(paths_fault(views(plan.required_artifacts@))),
        either(
            path_fault_of(paths_fault(exp)),
            either(
                match commands_fault(ver) {
                    Some((command, reason)) => Some(
                        LintFault::InvalidVerifierCommand { step_id: id, command, reason },
                    ),
                    None => None,
                },
                either(
                    instruction_fault_of(id, instruction_fault(s.kind, s.instruction@, exp.len() == 0)),
                    either(
                        instruction_fault_of(
                            id,
                            optional_inspection_fault(s.kind, s.instruction@, exp.len() == 0),
                        ),
                        either(
                            inspect_missing_fault(id, s.kind, exp, ws),
                            either(
                                instruction_fault_of(
                                    id,
                                    inspect_verifier_fault(s.kind, exp.len() == 0, ver),
                                ),
                                either(
                                    if mixes_setup_and_verify(
                                        s.kind,
                                        s.instruction@,
                                        ver,
                                        exp.len() > 0,
                                        all_exist(ws, exp),
                                    ) {
                                        Some(LintFault::MixedSetupAndVerify { step_id: id })
                                    } else {
                                        None
                                    },
                                    either(
                                        scaffold_fault(plan.profile@, id, s.kind, s.instruction@, exp, ws),
                                        ownership_fault(plan.profile@, id, s.kind, exp),
                                    ),
                                ),
                            ),
                        ),
                    ),
                ),
            ),
        ),
    )
}

/// The first fault among the steps, in plan order.
pub open spec fn steps_fault(plan: StepPlan, steps: Seq<StepPlanStep>, ws: Option<Seq<Seq<char>>>) -> Option<LintFault>
    decreases steps.len(),
{
    if steps.len() == 0 {
        None
    } else {
        either(steps_fault(plan, steps.drop_last(), ws), step_fault(plan, steps.last(), ws))
    }
}

pub open spec fn mutating(kind: StepKind) -> bool {
    kind == StepKind::Create || kind == StepKind::Edit || kind == StepKind::Setup || kind
        == StepKind::Repair
}

/// Some mutating step lists the (normalized) path among its expected paths.
pub open spec fn owned_by_step(steps: Seq<StepPlanStep>, n: Seq<char>) -> bool {
    exists|i: int, j: int|
        0 <= i < steps.len() && mutating(steps[i].kind) && 0 <= j < steps[i].expected_paths@.len()
            && normalized_path(#[trigger] steps[i].expected_paths@[j]@) == n
}

/// The first required artifact that is neither owned by a mutating step
/// nor already in the workspace.
pub open spec fn first_unowned(steps: Seq<StepPlanStep>, req: Seq<Seq<char>>, ws: Option<Seq<Seq<char>>>) -> Option<Seq<char>>
    decreases req.len(),
{
    if req.len() == 0 {
        None
    } else {
        match first_unowned(steps, req.drop_last(), ws) {
            Some(a) => Some(a),
            None => {
                let n = normalized_path(req.last());
                if owned_by_step(steps, n) || exists_in(ws, n) {
                    None
                } else {
                    Some(req.last())
                }
            },
        }
    }
}

/// A required artifact that no mutating step owns, when the plan has
/// mutating steps at all.
pub open spec fn required_fault(plan: StepPlan, ws: Option<Seq<Seq<char>>>) -> Option<LintFault> {
    let steps = plan.steps@;
    let req = views(plan.required_artifacts@);
    if req.len() == 0 || !(exists|i: int| 0 <= i < steps.len() && mutating(#[trigger] steps[i].kind)) {
        None
    } else {
        match first_unowned(steps, req, ws) {
            Some(artifact) => Some(LintFault::UnownedArtifact { artifact }),
            None => None,
        }
    }
}

/// The first fault of the plan.
pub open spec fn plan_fault(plan: StepPlan, ws: Option<Seq<Seq<char>>>) -> Option<LintFault> {
    either(steps_fault(plan, plan.steps@, ws), required_fault(plan, ws))
}

// ---------------------------------------------------------------------------
// Checks
// ---------------------------------------------------------------------------

fn lint_inspect_expected_paths_exist(
    step_id: &str,
    kind: StepKind,
    expected: &Vec<String>,
    ws: Option<&Vec<String>>,
) -> (r: Result<(), PlanLintError>)
    ensures
        lint_result(r, inspect_missing_fault(step_id@, kind, views(expected@), ws_view(ws))),
{
    if kind != StepKind::Inspect || expected.len() == 0 || ws.is_none() {
        return Ok(());
    }
    let ghost vs = views(expected@);
    let mut missing: Vec<String> = Vec::new();
    let mut i: usize = 0;
    while i < expected.len()
        invariant
            i <= expected@.len(),
            vs == views(expected@),
            views(missing@) == missing_paths(vs.take(i as int), ws_view(ws)),
        decreases expected.len() - i,
    {
        proof {
            assert(vs.take(i + 1).drop_last() =~= vs.take(i as int));
        }
        if !path_exists(ws, expected[i].as_str()) {
            let ghost before = missing@;
            missing.push(copy_string(&expected[i]));
            assert(views(missing@) =~= views(before).push(vs[i as int]));
        }
        i = i + 1;
    }
    assert(vs.take(expected@.len() as int) =~= vs);
    if missing.len() == 0 {
        return Ok(());
    }
    let mut graph = ArtifactGraph::new();
    graph.add_paths(&missing, ArtifactLifecycle::Required, "plan_lint.inspect_expected_paths");
    let mut reason = owned("inspect expected_paths must already exist in the workspace; missing ");
    let joined = join_strings(&missing, ", ");
    push_str(&mut reason, joined.as_str());
    push_str(
        &mut reason,
        ". Use expected_paths: [] and verify: [] for discovery, and enforce final artifacts only at the final boundary",
    );
    let evidence = ContractEvidence::new("plan_lint.artifact_graph")
        .with_failed_step(step_id)
        .with_violated_contract("inspect_future_artifact")
        .with_reason_code("inspect_future_artifact")
        .with_target_field("expected_paths")
        .with_missing_paths(crate::text::copy_strings(&missing))
        .with_active_job("explicit_stop")
        .with_repair_action("stop_no_admitted_target")
        .with_required_action(
            "do not inspect missing future artifacts; use expected_paths: [] and verify: [] for discovery, then create/edit the artifact in a later mutation step",
        )
        .with_disallowed_actions(
            vec![
                owned("Do not create files inside an inspect step."),
                owned("Do not keep missing future artifacts in inspect expected_paths."),
            ],
        )
        .with_target_admission("rejected: inspect step cannot target missing future artifacts")
        .with_target_priority("none: inspect future artifact has no admitted repair target")
        .with_explicit_stop_reason("inspect_future_artifact")
        .with_artifact_graph_summary(graph.summary())
        .with_diagnostic(reason.as_str());
    proof {
        reveal_strlit("Do not create files inside an inspect step.");
        assert(views(evidence.disallowed_actions@) =~= seq![
            "Do not create files inside an inspect step."@,
            "Do not keep missing future artifacts in inspect expected_paths."@,
        ]);
    }
    Err(
        PlanLintError::ContractViolation {
            step_id: owned(step_id),
            reason,
            evidence: Box::new(evidence),
        },
    )
}

fn lint_step_artifact_ownership(
    profile: &str,
    step_id: &str,
    kind: StepKind,
    expected: &Vec<String>,
) -> (r: Result<(), PlanLintError>)
    ensures
        lint_result(r, ownership_fault(profile@, step_id@, kind, views(expected@))),
{
    if kind != StepKind::Setup {
        return Ok(());
    }
    let p = match ProfileId::parse(profile) {
        Ok(p) => p,
        Err(()) => {
            return Ok(());
        },
    };
    let ghost vs = views(expected@);
    let mut i: usize = 0;
    while i < expected.len()
        invariant
            i <= expected@.len(),
            vs == views(expected@),
            unownable_path(p, vs.take(i as int)) is None,
            kind == StepKind::Setup,
            profile_named(lower(trim(profile@))) == Some(p),
        decreases expected.len() - i,
    {
        proof {
            assert(vs.take(i + 1).drop_last() =~= vs.take(i as int));
        }
        let artifact = classify_profile_artifact(p, expected[i].as_str(), ArtifactProvenance::StepExpectedPath);
        if !setup_step_may_own_artifact(artifact.kind) {
            proof {
                lemma_unownable_prefix(p, vs, i as int + 1);
            }
            let role = artifact_kind_label(artifact.kind);
            let mut reason = owned("setup step cannot own `");
            push_str(&mut reason, artifact.path.as_str());
            push_str(&mut reason, "` because it is classified as ");
            push_str(&mut reason, role);
            push_str(
                &mut reason,
                "; split setup/config work from source creation or change the step kind to create/edit",
            );
            let mut pair = owned("observed_role=");
            push_str(&mut pair, role);
            push_str(&mut pair, "; expected_role=setup/manifest or setup/config");
            let evidence = ContractEvidence::new("plan_lint.step_decomposition")
                .with_failed_step(step_id)
                .with_violated_contract("step_kind_artifact_role")
                .with_reason_code("setup_step_owns_non_setup_artifact")
                .with_target_field("expected_paths")
                .with_target_path(artifact.path.as_str())
                .with_rejected_value(artifact.path.as_str())
                .with_observed_expected_pairs(vec![pair])
                .with_required_literals(vec![owned("setup/manifest"), owned("setup/config")])
                .with_required_action(
                    "change this step kind to create/edit, or split setup/config work from source creation",
                )
                .with_diagnostic(reason.as_str());
            proof {
                assert(views(evidence.observed_expected_pairs@) =~= seq![
                    "observed_role="@ + role@ + "; expected_role=setup/manifest or setup/config"@,
                ]);
                assert(views(evidence.required_literals@) =~= seq!["setup/manifest"@, "setup/config"@]);
            }
            return Err(
                PlanLintError::ContractViolation {
                    step_id: owned(step_id),
                    reason,
                    evidence: Box::new(evidence),
                },
            );
        }
        i = i + 1;
    }
    assert(vs.take(expected@.len() as int) =~= vs);
    Ok(())
}

proof fn lemma_unownable_prefix(p: ProfileId, paths: Seq<Seq<char>>, n: int)
    requires
        1 <= n <= paths.len(),
        unownable_path(p, paths.take(n)) is Some,
    ensures
        unownable_path(p, paths) == unownable_path(p, paths.take(n)),
    decreases paths.len() - n,
{
    if n < paths.len() {
        assert(paths.take(n + 1).drop_last() =~= paths.take(n));
        lemma_unownable_prefix(p, paths, n + 1);
    } else {
        assert(paths.take(n) =~= paths);
    }
}

fn is_mutating(kind: StepKind) -> (r: bool)
    ensures
        r == mutating(kind),
{
    match kind {
        StepKind::Create | StepKind::Edit | StepKind::Setup | StepKind::Repair => true,
        _ => false,
    }
}

/// Whether some mutating step lists the normalized path.
fn owned_by_mutation_step(steps: &Vec<StepPlanStep>, n: &str) -> (r: bool)
    ensures
        r == owned_by_step(steps@, n@),
{
    let mut i: usize = 0;
    while i < steps.len()
        invariant
            i <= steps@.len(),
            forall|a: int, b: int|
                0 <= a < i && mutating(steps@[a].kind) && 0 <= b < steps@[a].expected_paths@.len()
                    ==> normalized_path(#[trigger] steps@[a].expected_paths@[b]@) != n@,
        decreases steps.len() - i,
    {
        let step = &steps[i];
        if is_mutating(step.kind) {
            let mut j: usize = 0;
            while j < step.expected_paths.len()
                invariant
                    j <= step.expected_paths@.len(),
                    i < steps@.len(),
                    *step == steps@[i as int],
                    mutating(step.kind),
                    forall|b: int|
                        0 <= b < j ==> normalized_path(#[trigger] step.expected_paths@[b]@) != n@,
                decreases step.expected_paths.len() - j,
            {
                let norm = normalize_path(step.expected_paths[j].as_str());
                if str_eq(norm.as_str(), n) {
                    assert(normalized_path(steps@[i as int].expected_paths@[j as int]@) == n@);
                    return true;
                }
                j = j + 1;
            }
        }
        i = i + 1;
    }
    false
}

fn lint_required_artifact_owners(plan: &StepPlan, ws: Option<&Vec<String>>) -> (r: Result<(), PlanLintError>)
    ensures
        lint_result(r, required_fault(*plan, ws_view(ws))),
{
    if plan.required_artifacts.len() == 0 {
        return Ok(());
    }
    let mut any = false;
    let mut i: usize = 0;
    while i < plan.steps.len()
        invariant
            i <= plan.steps@.len(),
            any == exists|k: int| 0 <= k < i && mutating(#[trigger] plan.steps@[k].kind),
        decreases plan.steps.len() - i,
    {
        if is_mutating(plan.steps[i].kind) {
            any = true;
        }
        i = i + 1;
    }
    if !any {
        return Ok(());
    }
    let ghost req = views(plan.required_artifacts@);
    let mut k: usize = 0;
    while k < plan.required_artifacts.len()
        invariant
            k <= plan.required_artifacts@.len(),
            req == views(plan.required_artifacts@),
            first_unowned(plan.steps@, req.take(k as int), ws_view(ws)) is None,
            req.len() > 0,
            exists|m: int| 0 <= m < plan.steps@.len() && mutating(#[trigger] plan.steps@[m].kind),
        decreases plan.required_artifacts.len() - k,
    {
        proof {
            assert(req.take(k + 1).drop_last() =~= req.take(k as int));
        }
        let artifact = plan.required_artifacts[k].as_str();
        let n = normalize_path(artifact);
        if !(owned_by_mutation_step(&plan.steps, n.as_str()) || path_exists(ws, n.as_str())) {
            proof {
                lemma_first_unowned_prefix(plan.steps@, req, ws_view(ws), k as int + 1);
            }
            let mut reason = owned("required_artifact `");
            push_str(&mut reason, artifact);
            push_str(&mut reason, "` is not owned by any create/edit/setup/repair step expected_paths");
            let evidence = ContractEvidence::new("plan_lint.step_decomposition")
                .with_failed_step("plan")
                .with_violated_contract("required_artifact_step_ownership")
                .with_reason_code("required_artifact_missing_step_owner")
                .with_failure_kind("plan_decomposition_failure")
                .with_target_field("steps.expected_paths")
                .with_target_path(artifact)
                .with_required_paths(vec![owned(artifact)])
                .with_missing_paths(vec![owned(artifact)])
                .with_repair_target(artifact)
                .with_active_job("scaffold_materialization")
                .with_repair_kind("plan_correction")
                .with_repair_action("add_required_artifact_owner_step")
                .with_required_action(
                    "add a create/edit/setup/repair step whose expected_paths includes this required_artifact before verify/report steps",
                )
                .with_disallowed_actions(
                    vec![
                        owned("do not remove the required_artifact"),
                        owned("do not satisfy final artifacts only from verify/report steps"),
                    ],
                )
                .with_diagnostic(reason.as_str());
            proof {
                assert(views(evidence.required_paths@) =~= seq![artifact@]);
                assert(views(evidence.missing_paths@) =~= seq![artifact@]);
                assert(views(evidence.disallowed_actions@) =~= seq![
                    "do not remove the required_artifact"@,
                    "do not satisfy final artifacts only from verify/report steps"@,
                ]);
            }
            return Err(
                PlanLintError::ContractViolation {
                    step_id: owned("plan"),
                    reason,
                    evidence: Box::new(evidence),
                },
            );
        }
        k = k + 1;
    }
    assert(req.take(req.len() as int) =~= req);
    Ok(())
}

proof fn lemma_first_unowned_prefix(
    steps: Seq<StepPlanStep>,
    req: Seq<Seq<char>>,
    ws: Option<Seq<Seq<char>>>,
    n: int,
)
    requires
        1 <= n <= req.len(),
        first_unowned(steps, req.take(n), ws) is Some,
    ensures
        first_unowned(steps, req, ws) == first_unowned(steps, req.take(n), ws),
    decreases req.len() - n,
{
    if n < req.len() {
        assert(req.take(n + 1).drop_last() =~= req.take(n));
        lemma_first_unowned_prefix(steps, req, ws, n + 1);
    } else {
        assert(req.take(n) =~= req);
    }
}

fn instruction_result(step_id: &str, f: Option<&'static str>) -> (r: Result<(), PlanLintError>)
    ensures
        match f {
            Some(reason) => lint_result(r, Some(LintFault::InvalidStepInstruction { step_id: step_id@, reason: reason@ })),
            None => r is Ok,
        },
{
    match f {
        Some(reason) => Err(PlanLintError::InvalidStepInstruction { step_id: owned(step_id), reason: owned(reason) }),
        None => Ok(()),
    }
}

/// The first fault of one step.
fn lint_step(plan: &StepPlan, step: &StepPlanStep, ws: Option<&Vec<String>>) -> (r: Result<(), PlanLintError>)
    ensures
        lint_result(r, step_fault(*plan, *step, ws_view(ws))),
{
    let id = step.id.as_str();
    let no_paths = step.expected_paths.len() == 0;
    let r = lint_expected_paths(&plan.required_artifacts);
    if r.is_err() {
        return r;
    }
    let r = lint_expected_paths(&step.expected_paths);
    if r.is_err() {
        return r;
    }
    let r = lint_verifier_commands(id, &step.verify);
    if r.is_err() {
        return r;
    }
    let r = instruction_result(id, step_instruction_fault(step.kind, step.instruction.as_str(), no_paths));
    if r.is_err() {
        return r;
    }
    let r = instruction_result(
        id,
        optional_inspection_paths_fault(step.kind, step.instruction.as_str(), no_paths),
    );
    if r.is_err() {
        return r;
    }
    let r = lint_inspect_expected_paths_exist(id, step.kind, &step.expected_paths, ws);
    if r.is_err() {
        return r;
    }
    let r = instruction_result(id, inspect_verifier_boundary_fault(step.kind, no_paths, &step.verify));
    if r.is_err() {
        return r;
    }
    let exist = paths_exist(ws, &step.expected_paths);
    if step_mixes_setup_and_verify(step.kind, step.instruction.as_str(), &step.verify, !no_paths, exist) {
        return Err(PlanLintError::MixedSetupAndVerify { step_id: owned(id) });
    }
    let r = profile_scaffold_fault(
        plan.profile.as_str(),
        id,
        step.kind,
        step.instruction.as_str(),
        &step.expected_paths,
        ws,
    );
    if r.is_err() {
        return r;
    }
    lint_step_artifact_ownership(plan.profile.as_str(), id, step.kind, &step.expected_paths)
}

/// Lints a plan without a workspace.
pub fn lint_step_plan(plan: &StepPlan) -> (r: Result<(), PlanLintError>)
    ensures
        lint_result(r, plan_fault(*plan, None)),
{
    lint_step_plan_with_workspace(plan, None)
}

/// Lints a plan against the workspace, given as the plan paths that exist
/// in it (see `workspace_probe_paths`).
pub fn lint_step_plan_with_workspace(plan: &StepPlan, workspace: Option<&Vec<String>>) -> (r: Result<(), PlanLintError>)
    ensures
        lint_result(r, plan_fault(*plan, ws_view(workspace))),
{
    let ghost ws = ws_view(workspace);
    let mut i: usize = 0;
    while i < plan.steps.len()
        invariant
            i <= plan.steps@.len(),
            ws == ws_view(workspace),
            steps_fault(*plan, plan.steps@.take(i as int), ws) is None,
        decreases plan.steps.len() - i,
    {
        proof {
            assert(plan.steps@.take(i + 1).drop_last() =~= plan.steps@.take(i as int));
        }
        let r = lint_step(plan, &plan.steps[i], workspace);
        if r.is_err() {
            proof {
                lemma_steps_fault_prefix(*plan, plan.steps@, ws, i as int + 1);
            }
            return r;
        }
        i = i + 1;
    }
    assert(plan.steps@.take(plan.steps@.len() as int) =~= plan.steps@);
    lint_required_artifact_owners(plan, workspace)
}

proof fn lemma_steps_fault_prefix(
    plan: StepPlan,
    steps: Seq<StepPlanStep>,
    ws: Option<Seq<Seq<char>>>,
    n: int,
)
    requires
        1 <= n <= steps.len(),
        steps_fault(plan, steps.take(n), ws) is Some,
    ensures
        steps_fault(plan, steps, ws) == steps_fault(plan, steps.take(n), ws),
    decreases steps.len() - n,
{
    if n < steps.len() {
        assert(steps.take(n + 1).drop_last() =~= steps.take(n));
        lemma_steps_fault_prefix(plan, steps, ws, n + 1);
    } else {
        assert(steps.take(n) =~= steps);
    }
}

impl PlanLintError {
    /// The structured evidence of a contract violation; the other faults
    /// carry none.
    pub fn correction_evidence(&self) -> (r: Option<&ContractEvidence>)
        ensures
            match self {
                PlanLintError::ContractViolation { evidence, .. } => r == Some(&**evidence),
                _ => r is None,
            },
    {
        match self {
            PlanLintError::ContractViolation { evidence, .. } => Some(&**evidence),
            _ => None,
        }
    }

    /// The message of the error.
    pub fn to_string(&self) -> (r: String)
        ensures
            r@ == lint_message(*self),
    {
        match self {
            PlanLintError::InvalidExpectedPath { path, reason } => {
                let mut s = owned("invalid expected path `");
                push_str(&mut s, path.as_str());
                push_str(&mut s, "`: ");
                push_str(&mut s, reason.as_str());
                s
            },
            PlanLintError::MixedSetupAndVerify { step_id } => {
                let mut s = owned("step `");
                push_str(&mut s, step_id.as_str());
                push_str(
                    &mut s,
                    "` mixes setup/editing work with verification; split it into separate steps",
                );
                s
            },
            PlanLintError::ShellScaffold { step_id, command, guidance } => {
                let mut s = owned("step `");
                push_str(&mut s, step_id.as_str());
                push_str(&mut s, "` uses shell scaffolding `");
                push_str(&mut s, command.as_str());
                push_str(&mut s, "`; ");
                push_str(&mut s, guidance.as_str());
                s
            },
            PlanLintError::InvalidVerifierCommand { step_id, command, reason } => {
                let mut s = owned("step `");
                push_str(&mut s, step_id.as_str());
                push_str(&mut s, "` has invalid verifier command `");
                push_str(&mut s, command.as_str());
                push_str(&mut s, "`: ");
                push_str(&mut s, reason.as_str());
                s
            },
            PlanLintError::InvalidStepInstruction { step_id, reason } | PlanLintError::ContractViolation {
                step_id,
                reason,
                ..
            } => {
                let mut s = owned("step `");
                push_str(&mut s, step_id.as_str());
                push_str(&mut s, "` has invalid instruction: ");
                push_str(&mut s, reason.as_str());
                s
            },
        }
    }
}

/// The message of a lint error.
pub open spec fn lint_message(e: PlanLintError) -> Seq<char> {
    match e {
        PlanLintError::InvalidExpectedPath { path, reason } => "invalid expected path `"@ + path@
            + "`: "@ + reason@,
        PlanLintError::MixedSetupAndVerify { step_id } => "step `"@ + step_id@
            + "` mixes setup/editing work with verification; split it into separate steps"@,
        PlanLintError::ShellScaffold { step_id, command, guidance } => "step `"@ + step_id@
            + "` uses shell scaffolding `"@ + command@ + "`; "@ + guidance@,
        PlanLintError::InvalidVerifierCommand { step_id, command, reason } => "step `"@ + step_id@
            + "` has invalid verifier command `"@ + command@ + "`: "@ + reason@,
        PlanLintError::InvalidStepInstruction { step_id, reason } => "step `"@ + step_id@
            + "` has invalid instruction: "@ + reason@,
        PlanLintError::ContractViolation { step_id, reason, .. } => "step `"@ + step_id@
            + "` has invalid instruction: "@ + reason@,
    }
}

} // verus!
