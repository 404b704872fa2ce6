//! Deterministic completion-evidence producers.
//!
//! Producers turn already observed runtime facts into completion evidence
//! and evidence bindings. They run no tool, repair no file and choose no
//! recovery job.
use crate::artifact_ledger::{ledger_view, ArtifactLedgerSummary};
use crate::completion_evidence::{
    evidence_kind_name, evidence_status_name, verifier_completion, CompletionEvidence,
    CompletionEvidenceKind, CompletionEvidenceStatus,
};
use crate::evidence_authority::{file_layout_binding, file_layout_completion_evidence, ledger_present};
use crate::evidence_binding::{binding_kind_name, binding_status_name, EvidenceBindingPlan, EvidenceBindingStatus};
use crate::text::{collapse_ws, collapse_ws_str, copy_opt, copy_string, opt_view, owned, push_str, views};
use vstd::prelude::*;

verus! {

/// A failed run of a verifier command, as the verifier reported it.
#[derive(Debug, Clone, PartialEq, Eq)]
pub struct VerificationFailure {
    pub command: String,
    pub reason: String,
    pub stdout_excerpt: String,
    pub stderr_excerpt: String,
    pub diagnostic_excerpt: String,
    pub source_excerpt: Option<String>,
}

/// What a producer run reads.
#[derive(Debug, Clone)]
pub struct EvidenceProducerInput<'a> {
    pub step_id: &'a str,
    pub profile: &'a str,
    pub required_paths: &'a [String],
    pub verifier_commands: &'a [String],
    pub verifier_failures: &'a [VerificationFailure],
    pub ledger: &'a ArtifactLedgerSummary,
    pub observed_completion_facts: &'a [ObservedCompletionFact<'a>],
    pub observed_bindings: &'a [EvidenceBindingPlan],
}

/// A completion check the runtime already observed.
#[derive(Debug, Clone, Copy, PartialEq, Eq)]
pub struct ObservedCompletionFact<'a> {
    pub kind: CompletionEvidenceKind,
    pub target: &'a str,
    pub passed: bool,
    pub source: &'a str,
}

impl<'a> ObservedCompletionFact<'a> {
    /// An observed check of the given kind and target.
    pub fn new(kind: CompletionEvidenceKind, target: &'a str, passed: bool, source: &'a str) -> (r: Self)
        ensures
            r.kind == kind,
            r.target == target,
            r.passed == passed,
            r.source == source,
    {
        ObservedCompletionFact { kind, target, passed, source }
    }
}

/// The evidence and bindings a producer run yields, with one line per
/// produced fact.
#[derive(Debug, Clone, PartialEq, Eq)]
pub struct EvidenceProducerOutput {
    pub completion_evidence: Vec<CompletionEvidence>,
    pub evidence_bindings: Vec<EvidenceBindingPlan>,
    pub producer_lines: Vec<String>,
}

impl Default for EvidenceProducerOutput {
    /// No evidence, no bindings, no lines.
    fn default() -> (r: Self)
        ensures
            r.completion_evidence@.len() == 0,
            r.evidence_bindings@.len() == 0,
            r.producer_lines@.len() == 0,
    {
        EvidenceProducerOutput {
            completion_evidence: Vec::new(),
            evidence_bindings: Vec::new(),
            producer_lines: Vec::new(),
        }
    }
}

/// Completion evidence as plain values.
pub type EvidenceView = (CompletionEvidenceKind, Seq<char>, CompletionEvidenceStatus, Seq<char>, Option<Seq<char>>);

/// A binding as plain values.
pub type BindingView = (crate::evidence_binding::EvidenceBindingKind, Seq<char>, Seq<char>, EvidenceBindingStatus, Option<Seq<char>>);

pub open spec fn evidence_view(e: CompletionEvidence) -> EvidenceView {
    (e.kind, e.target@, e.status, e.source@, opt_view(e.diagnostic))
}

pub open spec fn binding_view(b: EvidenceBindingPlan) -> BindingView {
    (b.kind, b.target@, b.expected_binding@, b.status, opt_view(b.reason))
}

/// The output as plain values.
pub open spec fn output_view(o: EvidenceProducerOutput) -> (Seq<EvidenceView>, Seq<BindingView>, Seq<Seq<char>>) {
    (
        o.completion_evidence@.map_values(|e: CompletionEvidence| evidence_view(e)),
        o.evidence_bindings@.map_values(|b: EvidenceBindingPlan| binding_view(b)),
        views(o.producer_lines@),
    )
}

/// The common opening of a producer line.
pub open spec fn line_head(producer: Seq<char>, step: Seq<char>, profile: Seq<char>) -> Seq<char> {
    "producer="@ + producer + " step="@ + collapse_ws(step) + " profile="@ + collapse_ws(profile)
}

fn head_str(producer: &str, step: &str, profile: &str) -> (r: String)
    ensures
        r@ == line_head(producer@, step@, profile@),
{
    let mut s = owned("producer=");
    push_str(&mut s, producer);
    push_str(&mut s, " step=");
    let a = collapse_ws_str(step);
    push_str(&mut s, a.as_str());
    push_str(&mut s, " profile=");
    let b = collapse_ws_str(profile);
    push_str(&mut s, b.as_str());
    s
}

// ---------------------------------------------------------------------------
// The producers as mathematics
// ---------------------------------------------------------------------------

pub open spec fn layout_evidence(i: EvidenceProducerInput, p: Seq<char>) -> EvidenceView {
    let present = ledger_present(ledger_view(*i.ledger), p);
    (
        CompletionEvidenceKind::RepoEdit,
        p,
        if present { CompletionEvidenceStatus::Passed } else { CompletionEvidenceStatus::Missing },
        "artifact_ledger_file_layout"@,
        None,
    )
}

pub open spec fn layout_binding(i: EvidenceProducerInput, p: Seq<char>) -> BindingView {
    let present = ledger_present(ledger_view(*i.ledger), p);
    (
        crate::evidence_binding::EvidenceBindingKind::FileLayout,
        p,
        "filesystem path exists"@,
        if present { EvidenceBindingStatus::Bound } else { EvidenceBindingStatus::Missing },
        None,
    )
}

pub open spec fn layout_line(i: EvidenceProducerInput, p: Seq<char>) -> Seq<char> {
    let present = ledger_present(ledger_view(*i.ledger), p);
    line_head("file_layout"@, i.step_id@, i.profile@) + " target="@ + collapse_ws(p) + " status="@ + if present {
        "bound"@
    } else {
        "missing"@
    }
}

/// The diagnostic a verifier failure carries: its excerpt, or its reason
/// when the excerpt is empty.
pub open spec fn failure_diagnostic(f: VerificationFailure) -> Seq<char> {
    if f.diagnostic_excerpt@.len() == 0 {
        f.reason@
    } else {
        f.diagnostic_excerpt@
    }
}

/// The verifier evidence: none without commands; each command passed when
/// there is no failure; otherwise each failure, with its diagnostic.
pub open spec fn verifier_evidence(i: EvidenceProducerInput) -> Seq<EvidenceView> {
    if i.verifier_commands@.len() == 0 {
        Seq::empty()
    } else if i.verifier_failures@.len() == 0 {
        views(i.verifier_commands@).map_values(
            |c: Seq<char>|
                (
                    CompletionEvidenceKind::VerifierExitZero,
                    c,
                    CompletionEvidenceStatus::Passed,
                    "original_verifier"@,
                    None::<Seq<char>>,
                ),
        )
    } else {
        i.verifier_failures@.map_values(
            |f: VerificationFailure|
                (
                    CompletionEvidenceKind::VerifierExitZero,
                    f.command@,
                    CompletionEvidenceStatus::Failed,
                    "original_verifier"@,
                    Some(failure_diagnostic(f)),
                ),
        )
    }
}

pub open spec fn verifier_lines(i: EvidenceProducerInput) -> Seq<Seq<char>> {
    if i.verifier_commands@.len() == 0 {
        Seq::empty()
    } else if i.verifier_failures@.len() == 0 {
        views(i.verifier_commands@).map_values(
            |c: Seq<char>| line_head("verifier"@, i.step_id@, i.profile@) + " target="@ + collapse_ws(c) + " status=passed"@,
        )
    } else {
        i.verifier_failures@.map_values(
            |f: VerificationFailure|
                line_head("verifier"@, i.step_id@, i.profile@) + " target="@ + collapse_ws(f.command@)
                    + " status=failed"@,
        )
    }
}

pub open spec fn fact_status(f: ObservedCompletionFact) -> CompletionEvidenceStatus {
    if f.passed { CompletionEvidenceStatus::Passed } else { CompletionEvidenceStatus::Failed }
}

pub open spec fn fact_evidence(f: ObservedCompletionFact) -> EvidenceView {
    (f.kind, f.target@, fact_status(f), f.source@, None)
}

pub open spec fn fact_line(i: EvidenceProducerInput, f: ObservedCompletionFact) -> Seq<char> {
    line_head("observed_completion"@, i.step_id@, i.profile@) + " kind="@ + evidence_kind_name(f.kind)
        + " target="@ + collapse_ws(f.target@) + " status="@ + evidence_status_name(fact_status(f))
        + " source="@ + collapse_ws(f.source@)
}

pub open spec fn binding_line_of(i: EvidenceProducerInput, b: EvidenceBindingPlan) -> Seq<char> {
    line_head("evidence_binding"@, i.step_id@, i.profile@) + " kind="@ + binding_kind_name(b.kind)
        + " target="@ + collapse_ws(b.target@) + " status="@ + binding_status_name(b.status)
}

/// Everything a producer run yields: file-layout evidence and bindings for
/// each required path, then the verifier evidence, then the observed
/// completion facts; then the observed bindings; one line per produced fact
/// in the same order.
pub open spec fn produced(i: EvidenceProducerInput) -> (Seq<EvidenceView>, Seq<BindingView>, Seq<Seq<char>>) {
    let req = views(i.required_paths@);
    (
        req.map_values(|p: Seq<char>| layout_evidence(i, p)) + verifier_evidence(i)
            + i.observed_completion_facts@.map_values(|f: ObservedCompletionFact| fact_evidence(f)),
        req.map_values(|p: Seq<char>| layout_binding(i, p)) + i.observed_bindings@.map_values(
            |b: EvidenceBindingPlan| binding_view(b),
        ),
        req.map_values(|p: Seq<char>| layout_line(i, p)) + verifier_lines(i)
            + i.observed_completion_facts@.map_values(|f: ObservedCompletionFact| fact_line(i, f))
            + i.observed_bindings@.map_values(|b: EvidenceBindingPlan| binding_line_of(i, b)),
    )
}

// ---------------------------------------------------------------------------
// The producers
// ---------------------------------------------------------------------------

fn push_evidence(output: &mut EvidenceProducerOutput, e: CompletionEvidence, line: String)
    ensures
        output_view(*final(output)) == (
            output_view(*old(output)).0.push(evidence_view(e)),
            output_view(*old(output)).1,
            output_view(*old(output)).2.push(line@),
        ),
{
    let ghost before = output_view(*output);
    output.completion_evidence.push(e);
    output.producer_lines.push(line);
    assert(output_view(*output).0 =~= before.0.push(evidence_view(e)));
    assert(output_view(*output).1 =~= before.1);
    assert(output_view(*output).2 =~= before.2.push(line@));
}

fn push_binding(output: &mut EvidenceProducerOutput, b: EvidenceBindingPlan, line: String)
    ensures
        output_view(*final(output)) == (
            output_view(*old(output)).0,
            output_view(*old(output)).1.push(binding_view(b)),
            output_view(*old(output)).2.push(line@),
        ),
{
    let ghost before = output_view(*output);
    output.evidence_bindings.push(b);
    output.producer_lines.push(line);
    assert(output_view(*output).0 =~= before.0);
    assert(output_view(*output).1 =~= before.1.push(binding_view(b)));
    assert(output_view(*output).2 =~= before.2.push(line@));
}

fn ledger_path_present(ledger: &ArtifactLedgerSummary, path: &str) -> (r: bool)
    ensures
        r == ledger_present(ledger_view(*ledger), path@),
{
    match ledger.entry(path) {
        Some(entry) => entry.observed || entry.changed || entry.lifecycle
            == crate::artifact_graph::ArtifactLifecycle::Existing,
        None => false,
    }
}

fn produce_file_layout_evidence(input: &EvidenceProducerInput, output: &mut EvidenceProducerOutput)
    ensures
        output_view(*final(output)) == ({
            let req = views(input.required_paths@);
            let o = output_view(*old(output));
            (
                o.0 + req.map_values(|p: Seq<char>| layout_evidence(*input, p)),
                o.1 + req.map_values(|p: Seq<char>| layout_binding(*input, p)),
                o.2 + req.map_values(|p: Seq<char>| layout_line(*input, p)),
            )
        }),
{
    let ghost o = output_view(*output);
    let ghost req = views(input.required_paths@);
    let mut i: usize = 0;
    while i < input.required_paths.len()
        invariant
            i <= input.required_paths@.len(),
            req == views(input.required_paths@),
            output_view(*output) == (
                o.0 + req.take(i as int).map_values(|p: Seq<char>| layout_evidence(*input, p)),
                o.1 + req.take(i as int).map_values(|p: Seq<char>| layout_binding(*input, p)),
                o.2 + req.take(i as int).map_values(|p: Seq<char>| layout_line(*input, p)),
            ),
        decreases input.required_paths.len() - i,
    {
        let path = input.required_paths[i].as_str();
        let present = ledger_path_present(input.ledger, path);
        let mut line = head_str("file_layout", input.step_id, input.profile);
        push_str(&mut line, " target=");
        let t = collapse_ws_str(path);
        push_str(&mut line, t.as_str());
        push_str(&mut line, " status=");
        push_str(&mut line, if present { "bound" } else { "missing" });
        let ghost before = output_view(*output);
        let e = file_layout_completion_evidence(path, present);
        let b = file_layout_binding(path, present);
        push_evidence(output, e, line);
        let ghost mid = output_view(*output);
        let ghost p = req[i as int];
        proof {
            assert(p == path@);
            assert(req.take(i + 1) == req.take(i as int).push(p));
        }
        output.evidence_bindings.push(b);
        assert(output_view(*output).0 =~= mid.0);
        assert(output_view(*output).1 =~= mid.1.push(binding_view(b)));
        assert(output_view(*output).2 =~= mid.2);
        proof {
            assert(output_view(*output).0 =~= o.0 + req.take(i + 1).map_values(|p: Seq<char>| layout_evidence(*input, p)));
            assert(output_view(*output).1 =~= o.1 + req.take(i + 1).map_values(|p: Seq<char>| layout_binding(*input, p)));
            assert(output_view(*output).2 =~= o.2 + req.take(i + 1).map_values(|p: Seq<char>| layout_line(*input, p)));
        }
        i = i + 1;
    }
    assert(req.take(req.len() as int) == req);
}

fn produce_verifier_evidence(input: &EvidenceProducerInput, output: &mut EvidenceProducerOutput)
    ensures
        output_view(*final(output)) == ({
            let o = output_view(*old(output));
            (o.0 + verifier_evidence(*input), o.1, o.2 + verifier_lines(*input))
        }),
{
    let ghost o = output_view(*output);
    if input.verifier_commands.len() == 0 {
        assert(output_view(*output).0 =~= o.0 + verifier_evidence(*input));
        assert(output_view(*output).2 =~= o.2 + verifier_lines(*input));
        return;
    }
    if input.verifier_failures.len() == 0 {
        let ghost cmds = views(input.verifier_commands@);
        let mut i: usize = 0;
        while i < input.verifier_commands.len()
            invariant
                i <= input.verifier_commands@.len(),
                input.verifier_commands@.len() > 0,
                input.verifier_failures@.len() == 0,
                cmds == views(input.verifier_commands@),
                output_view(*output) == (
                    o.0 + verifier_evidence(*input).take(i as int),
                    o.1,
                    o.2 + verifier_lines(*input).take(i as int),
                ),
            decreases input.verifier_commands.len() - i,
        {
            let command = input.verifier_commands[i].as_str();
            let mut line = head_str("verifier", input.step_id, input.profile);
            push_str(&mut line, " target=");
            let t = collapse_ws_str(command);
            push_str(&mut line, t.as_str());
            push_str(&mut line, " status=passed");
            let e = verifier_completion(command, true);
            push_evidence(output, e, line);
            proof {
                assert(verifier_evidence(*input).take(i + 1) =~= verifier_evidence(*input).take(i as int).push(
                    evidence_view(e),
                ));
                assert(verifier_lines(*input).take(i + 1) =~= verifier_lines(*input).take(i as int).push(line@));
                assert(output_view(*output).0 =~= o.0 + verifier_evidence(*input).take(i + 1));
                assert(output_view(*output).2 =~= o.2 + verifier_lines(*input).take(i + 1));
            }
            i = i + 1;
        }
        assert(verifier_evidence(*input).take(i as int) == verifier_evidence(*input));
        assert(verifier_lines(*input).take(i as int) == verifier_lines(*input));
        return;
    }
    let mut i: usize = 0;
    while i < input.verifier_failures.len()
        invariant
            i <= input.verifier_failures@.len(),
            input.verifier_commands@.len() > 0,
            input.verifier_failures@.len() > 0,
            output_view(*output) == (
                o.0 + verifier_evidence(*input).take(i as int),
                o.1,
                o.2 + verifier_lines(*input).take(i as int),
            ),
        decreases input.verifier_failures.len() - i,
    {
        let failure = &input.verifier_failures[i];
        let mut line = head_str("verifier", input.step_id, input.profile);
        push_str(&mut line, " target=");
        let t = collapse_ws_str(failure.command.as_str());
        push_str(&mut line, t.as_str());
        push_str(&mut line, " status=failed");
        let diagnostic = if crate::text::char_count(failure.diagnostic_excerpt.as_str()) == 0 {
            copy_string(&failure.reason)
        } else {
            copy_string(&failure.diagnostic_excerpt)
        };
        let e = verifier_completion(failure.command.as_str(), false).with_diagnostic(diagnostic.as_str());
        push_evidence(output, e, line);
        proof {
            assert(verifier_evidence(*input).take(i + 1) =~= verifier_evidence(*input).take(i as int).push(
                evidence_view(e),
            ));
            assert(verifier_lines(*input).take(i + 1) =~= verifier_lines(*input).take(i as int).push(line@));
            assert(output_view(*output).0 =~= o.0 + verifier_evidence(*input).take(i + 1));
            assert(output_view(*output).2 =~= o.2 + verifier_lines(*input).take(i + 1));
        }
        i = i + 1;
    }
    assert(verifier_evidence(*input).take(i as int) == verifier_evidence(*input));
    assert(verifier_lines(*input).take(i as int) == verifier_lines(*input));
}

fn produce_observed_completion_facts(input: &EvidenceProducerInput, output: &mut EvidenceProducerOutput)
    ensures
        output_view(*final(output)) == ({
            let o = output_view(*old(output));
            let fs = input.observed_completion_facts@;
            (
                o.0 + fs.map_values(|f: ObservedCompletionFact| fact_evidence(f)),
                o.1,
                o.2 + fs.map_values(|f: ObservedCompletionFact| fact_line(*input, f)),
            )
        }),
{
    let ghost o = output_view(*output);
    let ghost fs = input.observed_completion_facts@;
    let mut i: usize = 0;
    while i < input.observed_completion_facts.len()
        invariant
            i <= fs.len(),
            fs == input.observed_completion_facts@,
            output_view(*output) == (
                o.0 + fs.take(i as int).map_values(|f: ObservedCompletionFact| fact_evidence(f)),
                o.1,
                o.2 + fs.take(i as int).map_values(|f: ObservedCompletionFact| fact_line(*input, f)),
            ),
        decreases fs.len() - i,
    {
        let fact = input.observed_completion_facts[i];
        let status = if fact.passed { CompletionEvidenceStatus::Passed } else { CompletionEvidenceStatus::Failed };
        let mut line = head_str("observed_completion", input.step_id, input.profile);
        push_str(&mut line, " kind=");
        push_str(&mut line, fact.kind.as_str());
        push_str(&mut line, " target=");
        let t = collapse_ws_str(fact.target);
        push_str(&mut line, t.as_str());
        push_str(&mut line, " status=");
        push_str(&mut line, status.as_str());
        push_str(&mut line, " source=");
        let s = collapse_ws_str(fact.source);
        push_str(&mut line, s.as_str());
        let e = CompletionEvidence::new(fact.kind, fact.target, status, fact.source);
        push_evidence(output, e, line);
        proof {
            assert(fs.take(i + 1) == fs.take(i as int).push(fact));
            assert(output_view(*output).0 =~= o.0 + fs.take(i + 1).map_values(|f: ObservedCompletionFact| fact_evidence(f)));
            assert(output_view(*output).2 =~= o.2 + fs.take(i + 1).map_values(|f: ObservedCompletionFact| fact_line(*input, f)));
        }
        i = i + 1;
    }
    assert(fs.take(fs.len() as int) == fs);
}

fn copy_binding(b: &EvidenceBindingPlan) -> (r: EvidenceBindingPlan)
    ensures
        binding_view(r) == binding_view(*b),
        r.kind == b.kind,
        r.target@ == b.target@,
        r.status == b.status,
{
    EvidenceBindingPlan {
        kind: b.kind,
        target: copy_string(&b.target),
        expected_binding: copy_string(&b.expected_binding),
        status: b.status,
        reason: copy_opt(&b.reason),
    }
}

fn produce_observed_bindings(input: &EvidenceProducerInput, output: &mut EvidenceProducerOutput)
    ensures
        output_view(*final(output)) == ({
            let o = output_view(*old(output));
            let bs = input.observed_bindings@;
            (
                o.0,
                o.1 + bs.map_values(|b: EvidenceBindingPlan| binding_view(b)),
                o.2 + bs.map_values(|b: EvidenceBindingPlan| binding_line_of(*input, b)),
            )
        }),
{
    let ghost o = output_view(*output);
    let ghost bs = input.observed_bindings@;
    let mut i: usize = 0;
    while i < input.observed_bindings.len()
        invariant
            i <= bs.len(),
            bs == input.observed_bindings@,
            output_view(*output) == (
                o.0,
                o.1 + bs.take(i as int).map_values(|b: EvidenceBindingPlan| binding_view(b)),
                o.2 + bs.take(i as int).map_values(|b: EvidenceBindingPlan| binding_line_of(*input, b)),
            ),
        decreases bs.len() - i,
    {
        let binding = &input.observed_bindings[i];
        let mut line = head_str("evidence_binding", input.step_id, input.profile);
        push_str(&mut line, " kind=");
        push_str(&mut line, binding.kind.as_str());
        push_str(&mut line, " target=");
        let t = collapse_ws_str(binding.target.as_str());
        push_str(&mut line, t.as_str());
        push_str(&mut line, " status=");
        push_str(&mut line, binding.status.as_str());
        let b = copy_binding(binding);
        push_binding(output, b, line);
        proof {
            assert(bs.take(i + 1) == bs.take(i as int).push(*binding));
            assert(output_view(*output).1 =~= o.1 + bs.take(i + 1).map_values(|b: EvidenceBindingPlan| binding_view(b)));
            assert(output_view(*output).2 =~= o.2 + bs.take(i + 1).map_values(|b: EvidenceBindingPlan| binding_line_of(*input, b)));
        }
        i = i + 1;
    }
    assert(bs.take(bs.len() as int) == bs);
}

/// Produces the completion evidence, bindings and producer lines of a step.
pub fn produce_completion_evidence(input: &EvidenceProducerInput) -> (r: EvidenceProducerOutput)
    ensures
        output_view(r) == produced(*input),
{
    let mut output = EvidenceProducerOutput::default();
    assert(output_view(output).0 =~= Seq::<EvidenceView>::empty());
    assert(output_view(output).1 =~= Seq::<BindingView>::empty());
    assert(output_view(output).2 =~= Seq::<Seq<char>>::empty());
    produce_file_layout_evidence(input, &mut output);
    produce_verifier_evidence(input, &mut output);
    produce_observed_completion_facts(input, &mut output);
    produce_observed_bindings(input, &mut output);
    proof {
        let p = produced(*input);
        assert(output_view(output).0 =~= p.0);
        assert(output_view(output).1 =~= p.1);
        assert(output_view(output).2 =~= p.2);
    }
    output
}

/// Evidence that a path is missing.
pub fn missing_evidence_for_path(path: &str, source: &str) -> (r: CompletionEvidence)
    ensures
        evidence_view(r) == (CompletionEvidenceKind::RepoEdit, path@, CompletionEvidenceStatus::Missing, source@, None::<Seq<char>>),
{
    CompletionEvidence::new(CompletionEvidenceKind::RepoEdit, path, CompletionEvidenceStatus::Missing, source)
}

/// Bound when present, missing otherwise.
pub fn binding_status_for_presence(present: bool) -> (r: EvidenceBindingStatus)
    ensures
        r == (if present { EvidenceBindingStatus::Bound } else { EvidenceBindingStatus::Missing }),
{
    if present {
        EvidenceBindingStatus::Bound
    } else {
        EvidenceBindingStatus::Missing
    }
}

} // verus!
