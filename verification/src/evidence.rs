//! Versioned evidence envelopes classified from contract evidence.
use crate::correction_evidence::ContractEvidence;
use crate::text::{
    contains, copy_opt, copy_strings, opt_view, owned, starts_with, str_contains, str_eq,
    str_starts_with, views,
};
use vstd::prelude::*;

verus! {

/// The version of the evidence envelope schema.
pub const EVIDENCE_SCHEMA_VERSION: &'static str = "1.0";

/// The component that produced a piece of evidence.
#[derive(Debug, Clone, Copy, PartialEq, Eq)]
pub enum EvidenceProducer {
    PlanLint,
    ProviderParser,
    ToolSchemaGuard,
    StepToolPolicy,
    Verifier,
    ProfileVerification,
    SetupRuntime,
    RecoveryLoop,
    Unknown,
}

/// The class of failure an envelope describes.
#[derive(Debug, Clone, Copy, PartialEq, Eq)]
pub enum FailureClass {
    Planning,
    ProviderTransport,
    ToolProtocol,
    StepPolicy,
    Verification,
    Profile,
    Setup,
    RecoveryAttempt,
    Unsupported,
}

/// A versioned, classified piece of evidence.
#[derive(Debug, Clone, PartialEq, Eq)]
pub struct EvidenceEnvelope {
    pub schema_version: String,
    pub evidence_id: String,
    pub producer: EvidenceProducer,
    pub failure_class: FailureClass,
    pub failed_step: Option<String>,
    pub reason_code: String,
    pub timestamp: String,
    pub payload: EvidencePayload,
}

/// The class-specific facts of an envelope.
#[derive(Debug, Clone, PartialEq, Eq)]
pub enum EvidencePayload {
    Planning(PlanningEvidence),
    ProviderTransport(ProviderTransportEvidence),
    ToolProtocol(ToolProtocolEvidence),
    StepPolicy(StepPolicyEvidence),
    Verification(VerificationEvidence),
    Profile(ProfileEvidence),
    Setup(SetupEvidence),
    RecoveryAttempt(RecoveryAttemptEvidence),
    Unsupported(UnsupportedEvidence),
}

#[derive(Debug, Clone, PartialEq, Eq)]
pub struct PlanningEvidence {
    pub violated_contract: Option<String>,
    pub target_field: Option<String>,
    pub target_path: Option<String>,
    pub rejected_value: Option<String>,
    pub required_values: Vec<String>,
    pub missing_values: Vec<String>,
}

#[derive(Debug, Clone, PartialEq, Eq)]
pub struct ProviderTransportEvidence {
    pub provider: Option<String>,
    pub model: Option<String>,
    pub parse_error: Option<String>,
    pub raw_response_excerpt: Option<String>,
}

#[derive(Debug, Clone, PartialEq, Eq)]
pub struct ToolProtocolEvidence {
    pub tool: Option<String>,
    pub error_kind: Option<String>,
    pub required_fields: Vec<String>,
    pub missing_fields: Vec<String>,
    pub invalid_payload_excerpt: Option<String>,
}

#[derive(Debug, Clone, PartialEq, Eq)]
pub struct StepPolicyEvidence {
    pub step_id: Option<String>,
    pub policy: Option<String>,
    pub disallowed_tool: Option<String>,
    pub violation: Option<String>,
}

#[derive(Debug, Clone, PartialEq, Eq)]
pub struct VerificationEvidence {
    pub command: Option<String>,
    pub failure_kind: Option<String>,
    pub failure_signature: Option<String>,
    pub diagnostic_excerpt: Option<String>,
    pub related_source_excerpt: Option<String>,
    pub candidate_artifacts: Vec<String>,
}

#[derive(Debug, Clone, PartialEq, Eq)]
pub struct ProfileEvidence {
    pub profile: String,
    pub check_code: Option<String>,
    pub affected_paths: Vec<String>,
    pub observed: Vec<String>,
    pub expected: Vec<String>,
}

#[derive(Debug, Clone, PartialEq, Eq)]
pub struct SetupEvidence {
    pub setup_command: Option<String>,
    pub setup_status: Option<String>,
    pub missing_dependency: Option<String>,
    pub affected_manifest: Option<String>,
}

#[derive(Debug, Clone, PartialEq, Eq)]
pub struct RecoveryAttemptEvidence {
    pub attempt_id: Option<String>,
    pub recovery_task_id: Option<String>,
    pub observed_result: Option<String>,
    pub rerun_verifier: Option<String>,
    pub final_status: Option<String>,
}

#[derive(Debug, Clone, PartialEq, Eq)]
pub struct UnsupportedEvidence {
    pub original_guard: String,
    pub diagnostic: Option<String>,
}

// ---------------------------------------------------------------------------
// Specification
// ---------------------------------------------------------------------------

/// The first option when present, else the second.
pub open spec fn or_view(a: Option<Seq<char>>, b: Option<Seq<char>>) -> Option<Seq<char>> {
    if a is Some { a } else { b }
}

/// The first element of a list, if any.
pub open spec fn first_view(s: Seq<Seq<char>>) -> Option<Seq<char>> {
    if s.len() > 0 { Some(s[0]) } else { None }
}

/// The values in order of first occurrence, each once.
pub open spec fn dedup(s: Seq<Seq<char>>) -> Seq<Seq<char>>
    decreases s.len(),
{
    if s.len() == 0 {
        s
    } else {
        let d = dedup(s.drop_last());
        if d.contains(s.last()) { d } else { d.push(s.last()) }
    }
}

proof fn lemma_contains_last(s: Seq<Seq<char>>, x: Seq<char>)
    requires
        s.len() > 0,
    ensures
        s.contains(x) <==> (s.drop_last().contains(x) || x == s.last()),
{
    if s.contains(x) {
        let k = choose|k: int| 0 <= k < s.len() && s[k] == x;
        if k < s.len() - 1 {
            assert(s.drop_last()[k] == x);
        }
    }
    if s.drop_last().contains(x) {
        let k = choose|k: int| 0 <= k < s.drop_last().len() && s.drop_last()[k] == x;
        assert(s[k] == x);
    }
    if x == s.last() {
        assert(s[s.len() - 1] == x);
    }
}

/// Merging keeps every value once: the merged list holds exactly the
/// values of the inputs, and no value twice.
pub proof fn lemma_dedup_exact(s: Seq<Seq<char>>)
    ensures
        forall|x: Seq<char>| dedup(s).contains(x) <==> s.contains(x),
        forall|i: int, j: int| 0 <= i < j < dedup(s).len() ==> #[trigger] dedup(s)[i] != #[trigger] dedup(s)[j],
    decreases s.len(),
{
    if s.len() > 0 {
        let d = dedup(s.drop_last());
        lemma_dedup_exact(s.drop_last());
        assert forall|x: Seq<char>| dedup(s).contains(x) <==> s.contains(x) by {
            lemma_contains_last(s, x);
            if !d.contains(s.last()) {
                lemma_contains_last(d.push(s.last()), x);
                assert(d.push(s.last()).drop_last() =~= d);
            }
        }
        if !d.contains(s.last()) {
            let r = d.push(s.last());
            assert forall|i: int, j: int| 0 <= i < j < r.len() implies #[trigger] r[i] != #[trigger] r[j] by {
                if j == d.len() {
                    assert(r[i] == d[i]);
                    if r[i] == r[j] {
                        assert(d.contains(s.last()));
                    }
                } else {
                    assert(r[i] == d[i] && r[j] == d[j]);
                }
            }
        }
    }
}

/// The reason code names a tool-argument failure.
pub open spec fn tool_args_reason(e: ContractEvidence) -> bool {
    e.reason_code is Some && starts_with(e.reason_code->0@, "tool_args_"@)
}

/// The reason code mentions a dependency.
pub open spec fn dependency_reason(e: ContractEvidence) -> bool {
    e.reason_code is Some && contains(e.reason_code->0@, "dependency"@)
}

/// The failure class that contract evidence is classified as, checked in
/// this order: planning, tool protocol, step policy, verification, profile,
/// setup, recovery, provider transport, and otherwise unsupported.
pub open spec fn classify(e: ContractEvidence) -> FailureClass {
    let g = e.guard@;
    if starts_with(g, "plan_lint"@) || contains(g, "planning"@) {
        FailureClass::Planning
    } else if g == "tool_protocol"@ || tool_args_reason(e) {
        FailureClass::ToolProtocol
    } else if g == "step_policy"@ {
        FailureClass::StepPolicy
    } else if g == "verifier"@ || e.command is Some {
        FailureClass::Verification
    } else if g == "profile"@ || starts_with(g, "profile_"@) {
        FailureClass::Profile
    } else if g == "setup"@ || dependency_reason(e) {
        FailureClass::Setup
    } else if g == "recovery"@ || g == "repair"@ {
        FailureClass::RecoveryAttempt
    } else if starts_with(g, "provider"@) {
        FailureClass::ProviderTransport
    } else {
        FailureClass::Unsupported
    }
}

/// The producer named by a guard.
pub open spec fn producer_of(g: Seq<char>) -> EvidenceProducer {
    if starts_with(g, "plan_lint"@) {
        EvidenceProducer::PlanLint
    } else if starts_with(g, "provider"@) {
        EvidenceProducer::ProviderParser
    } else if g == "tool_protocol"@ {
        EvidenceProducer::ToolSchemaGuard
    } else if g == "step_policy"@ {
        EvidenceProducer::StepToolPolicy
    } else if g == "verifier"@ {
        EvidenceProducer::Verifier
    } else if g == "profile"@ || starts_with(g, "profile_"@) {
        EvidenceProducer::ProfileVerification
    } else if g == "setup"@ {
        EvidenceProducer::SetupRuntime
    } else if g == "recovery"@ || g == "repair"@ {
        EvidenceProducer::RecoveryLoop
    } else {
        EvidenceProducer::Unknown
    }
}

/// The class of a payload.
pub open spec fn payload_class(p: EvidencePayload) -> FailureClass {
    match p {
        EvidencePayload::Planning(_) => FailureClass::Planning,
        EvidencePayload::ProviderTransport(_) => FailureClass::ProviderTransport,
        EvidencePayload::ToolProtocol(_) => FailureClass::ToolProtocol,
        EvidencePayload::StepPolicy(_) => FailureClass::StepPolicy,
        EvidencePayload::Verification(_) => FailureClass::Verification,
        EvidencePayload::Profile(_) => FailureClass::Profile,
        EvidencePayload::Setup(_) => FailureClass::Setup,
        EvidencePayload::RecoveryAttempt(_) => FailureClass::RecoveryAttempt,
        EvidencePayload::Unsupported(_) => FailureClass::Unsupported,
    }
}

/// The payload carries the facts of the evidence that its class calls for.
pub open spec fn payload_facts(p: EvidencePayload, e: ContractEvidence) -> bool {
    match p {
        EvidencePayload::Planning(x) => {
            &&& opt_view(x.violated_contract) == opt_view(e.violated_contract)
            &&& opt_view(x.target_field) == opt_view(e.target_field)
            &&& opt_view(x.target_path) == opt_view(e.target_path)
            &&& opt_view(x.rejected_value) == opt_view(e.rejected_value)
            &&& views(x.required_values@) == dedup(
                views(e.required_literals@) + views(e.required_paths@),
            )
            &&& views(x.missing_values@) == dedup(
                views(e.missing_literals@) + views(e.missing_paths@),
            )
        },
        EvidencePayload::ToolProtocol(x) => {
            &&& opt_view(x.tool) == opt_view(e.tool)
            &&& opt_view(x.error_kind) == or_view(
                opt_view(e.reason_code),
                opt_view(e.diagnostic_code),
            )
            &&& views(x.required_fields@) == views(e.required_fields@)
            &&& views(x.missing_fields@) == (match e.target_field {
                Some(t) => seq![t@],
                None => Seq::empty(),
            }) + views(e.missing_literals@)
            &&& opt_view(x.invalid_payload_excerpt) == opt_view(e.diagnostic)
        },
        EvidencePayload::StepPolicy(x) => {
            &&& opt_view(x.step_id) == opt_view(e.failed_step)
            &&& opt_view(x.policy) == opt_view(e.violated_contract)
            &&& opt_view(x.disallowed_tool) == opt_view(e.tool)
            &&& opt_view(x.violation) == or_view(opt_view(e.reason_code), opt_view(e.diagnostic))
        },
        EvidencePayload::Verification(x) => {
            &&& opt_view(x.command) == opt_view(e.command)
            &&& opt_view(x.failure_kind) == opt_view(e.failure_kind)
            &&& opt_view(x.failure_signature) == opt_view(e.failure_signature)
            &&& opt_view(x.diagnostic_excerpt) == opt_view(e.diagnostic)
            &&& opt_view(x.related_source_excerpt) == opt_view(e.related_source_excerpt)
            &&& views(x.candidate_artifacts@) == views(e.candidate_artifacts@)
        },
        EvidencePayload::Profile(x) => {
            &&& x.profile@ == (match first_view(views(e.affected_cases@)) {
                Some(v) => v,
                None => "unknown"@,
            })
            &&& opt_view(x.check_code) == or_view(
                opt_view(e.diagnostic_code),
                opt_view(e.reason_code),
            )
            &&& views(x.affected_paths@) == dedup(
                views(e.required_paths@) + views(e.missing_paths@),
            )
            &&& views(x.observed@) == views(e.observed_expected_pairs@)
            &&& views(x.expected@) == views(e.required_literals@)
        },
        EvidencePayload::Setup(x) => {
            &&& opt_view(x.setup_command) == opt_view(e.command)
            &&& opt_view(x.setup_status) == opt_view(e.reason_code)
            &&& opt_view(x.missing_dependency) == first_view(views(e.missing_literals@))
            &&& opt_view(x.affected_manifest) == or_view(
                opt_view(e.repair_target),
                opt_view(e.target_path),
            )
        },
        EvidencePayload::RecoveryAttempt(x) => {
            &&& opt_view(x.attempt_id) == first_view(views(e.prior_attempts@))
            &&& opt_view(x.recovery_task_id) == opt_view(e.repair_kind)
            &&& opt_view(x.observed_result) == opt_view(e.reason_code)
            &&& opt_view(x.rerun_verifier) == first_view(views(e.rerun_authority@))
            &&& opt_view(x.final_status) == opt_view(e.failure_kind)
        },
        EvidencePayload::ProviderTransport(x) => {
            &&& x.provider is None
            &&& x.model is None
            &&& opt_view(x.parse_error) == or_view(opt_view(e.reason_code), opt_view(e.diagnostic))
            &&& opt_view(x.raw_response_excerpt) == opt_view(e.related_source_excerpt)
        },
        EvidencePayload::Unsupported(x) => {
            &&& x.original_guard@ == e.guard@
            &&& opt_view(x.diagnostic) == opt_view(e.diagnostic)
        },
    }
}

// ---------------------------------------------------------------------------
// Implementation
// ---------------------------------------------------------------------------

impl EvidenceEnvelope {
    /// Wraps contract evidence: the producer follows the guard, the class
    /// follows the payload, and the reason code is the first present of
    /// reason code, violated contract and guard.
    pub fn from_contract_evidence(evidence_id: &str, timestamp: &str, evidence: &ContractEvidence) -> (r: Self)
        ensures
            r.schema_version@ == EVIDENCE_SCHEMA_VERSION@,
            r.evidence_id@ == evidence_id@,
            r.timestamp@ == timestamp@,
            r.producer == producer_of(evidence.guard@),
            r.failure_class == classify(*evidence),
            payload_class(r.payload) == classify(*evidence),
            payload_facts(r.payload, *evidence),
            opt_view(r.failed_step) == opt_view(evidence.failed_step),
            r.reason_code@ == (match or_view(
                opt_view(evidence.reason_code),
                opt_view(evidence.violated_contract),
            ) {
                Some(v) => v,
                None => evidence.guard@,
            }),
    {
        let producer = producer_from_guard(evidence.guard.as_str());
        let payload = EvidencePayload::from_contract_evidence(evidence);
        let reason_code = match &evidence.reason_code {
            Some(code) => code.clone(),
            None => match &evidence.violated_contract {
                Some(contract) => contract.clone(),
                None => evidence.guard.clone(),
            },
        };
        let failure_class = payload.failure_class();
        EvidenceEnvelope {
            schema_version: owned(EVIDENCE_SCHEMA_VERSION),
            evidence_id: owned(evidence_id),
            producer,
            failure_class,
            failed_step: copy_opt(&evidence.failed_step),
            reason_code,
            timestamp: owned(timestamp),
            payload,
        }
    }
}

impl EvidencePayload {
    /// The class of the payload.
    pub fn failure_class(&self) -> (r: FailureClass)
        ensures
            r == payload_class(*self),
    {
        match self {
            EvidencePayload::Planning(_) => FailureClass::Planning,
            EvidencePayload::ProviderTransport(_) => FailureClass::ProviderTransport,
            EvidencePayload::ToolProtocol(_) => FailureClass::ToolProtocol,
            EvidencePayload::StepPolicy(_) => FailureClass::StepPolicy,
            EvidencePayload::Verification(_) => FailureClass::Verification,
            EvidencePayload::Profile(_) => FailureClass::Profile,
            EvidencePayload::Setup(_) => FailureClass::Setup,
            EvidencePayload::RecoveryAttempt(_) => FailureClass::RecoveryAttempt,
            EvidencePayload::Unsupported(_) => FailureClass::Unsupported,
        }
    }

    /// Classifies contract evidence and keeps the facts its class calls for.
    pub fn from_contract_evidence(evidence: &ContractEvidence) -> (r: Self)
        ensures
            payload_class(r) == classify(*evidence),
            payload_facts(r, *evidence),
    {
        let guard = evidence.guard.as_str();
        if str_starts_with(guard, "plan_lint") || str_contains(guard, "planning") {
            return EvidencePayload::Planning(
                PlanningEvidence {
                    violated_contract: copy_opt(&evidence.violated_contract),
                    target_field: copy_opt(&evidence.target_field),
                    target_path: copy_opt(&evidence.target_path),
                    rejected_value: copy_opt(&evidence.rejected_value),
                    required_values: merge_lists(&evidence.required_literals, &evidence.required_paths),
                    missing_values: merge_lists(&evidence.missing_literals, &evidence.missing_paths),
                },
            );
        }
        if str_eq(guard, "tool_protocol") || reason_starts_with(&evidence.reason_code, "tool_args_") {
            let mut missing_fields: Vec<String> = Vec::new();
            match &evidence.target_field {
                Some(field) => {
                    missing_fields.push(field.clone());
                    assert(views(missing_fields@) == seq![field@]);
                },
                None => {
                    assert(views(missing_fields@) == Seq::<Seq<char>>::empty());
                },
            }
            let ghost head = views(missing_fields@);
            let mut i: usize = 0;
            while i < evidence.missing_literals.len()
                invariant
                    i <= evidence.missing_literals@.len(),
                    views(missing_fields@) == head + views(evidence.missing_literals@).take(i as int),
                decreases evidence.missing_literals.len() - i,
            {
                let ghost prev = missing_fields@;
                missing_fields.push(evidence.missing_literals[i].clone());
                assert(views(missing_fields@) =~= views(prev).push(evidence.missing_literals@[i as int]@));
                i = i + 1;
                assert(views(evidence.missing_literals@).take(i as int) == views(
                    evidence.missing_literals@,
                ).take(i - 1).push(evidence.missing_literals@[i - 1]@));
                assert(views(missing_fields@) =~= head + views(evidence.missing_literals@).take(
                    i as int,
                ));
            }
            assert(views(evidence.missing_literals@).take(i as int) == views(
                evidence.missing_literals@,
            ));
            return EvidencePayload::ToolProtocol(
                ToolProtocolEvidence {
                    tool: copy_opt(&evidence.tool),
                    error_kind: first_present(&evidence.reason_code, &evidence.diagnostic_code),
                    required_fields: copy_strings(&evidence.required_fields),
                    missing_fields,
                    invalid_payload_excerpt: copy_opt(&evidence.diagnostic),
                },
            );
        }
        if str_eq(guard, "step_policy") {
            return EvidencePayload::StepPolicy(
                StepPolicyEvidence {
                    step_id: copy_opt(&evidence.failed_step),
                    policy: copy_opt(&evidence.violated_contract),
                    disallowed_tool: copy_opt(&evidence.tool),
                    violation: first_present(&evidence.reason_code, &evidence.diagnostic),
                },
            );
        }
        if str_eq(guard, "verifier") || evidence.command.is_some() {
            return EvidencePayload::Verification(
                VerificationEvidence {
                    command: copy_opt(&evidence.command),
                    failure_kind: copy_opt(&evidence.failure_kind),
                    failure_signature: copy_opt(&evidence.failure_signature),
                    diagnostic_excerpt: copy_opt(&evidence.diagnostic),
                    related_source_excerpt: copy_opt(&evidence.related_source_excerpt),
                    candidate_artifacts: copy_strings(&evidence.candidate_artifacts),
                },
            );
        }
        if str_eq(guard, "profile") || str_starts_with(guard, "profile_") {
            let profile = match first_of(&evidence.affected_cases) {
                Some(p) => p,
                None => owned("unknown"),
            };
            return EvidencePayload::Profile(
                ProfileEvidence {
                    profile,
                    check_code: first_present(&evidence.diagnostic_code, &evidence.reason_code),
                    affected_paths: merge_lists(&evidence.required_paths, &evidence.missing_paths),
                    observed: copy_strings(&evidence.observed_expected_pairs),
                    expected: copy_strings(&evidence.required_literals),
                },
            );
        }
        if str_eq(guard, "setup") || reason_contains(&evidence.reason_code, "dependency") {
            return EvidencePayload::Setup(
                SetupEvidence {
                    setup_command: copy_opt(&evidence.command),
                    setup_status: copy_opt(&evidence.reason_code),
                    missing_dependency: first_of(&evidence.missing_literals),
                    affected_manifest: first_present(&evidence.repair_target, &evidence.target_path),
                },
            );
        }
        if str_eq(guard, "recovery") || str_eq(guard, "repair") {
            return EvidencePayload::RecoveryAttempt(
                RecoveryAttemptEvidence {
                    attempt_id: first_of(&evidence.prior_attempts),
                    recovery_task_id: copy_opt(&evidence.repair_kind),
                    observed_result: copy_opt(&evidence.reason_code),
                    rerun_verifier: first_of(&evidence.rerun_authority),
                    final_status: copy_opt(&evidence.failure_kind),
                },
            );
        }
        if str_starts_with(guard, "provider") {
            return EvidencePayload::ProviderTransport(
                ProviderTransportEvidence {
                    provider: None,
                    model: None,
                    parse_error: first_present(&evidence.reason_code, &evidence.diagnostic),
                    raw_response_excerpt: copy_opt(&evidence.related_source_excerpt),
                },
            );
        }
        EvidencePayload::Unsupported(
            UnsupportedEvidence {
                original_guard: evidence.guard.clone(),
                diagnostic: copy_opt(&evidence.diagnostic),
            },
        )
    }
}

/// The producer named by a guard.
fn producer_from_guard(guard: &str) -> (r: EvidenceProducer)
    ensures
        r == producer_of(guard@),
{
    if str_starts_with(guard, "plan_lint") {
        EvidenceProducer::PlanLint
    } else if str_starts_with(guard, "provider") {
        EvidenceProducer::ProviderParser
    } else if str_eq(guard, "tool_protocol") {
        EvidenceProducer::ToolSchemaGuard
    } else if str_eq(guard, "step_policy") {
        EvidenceProducer::StepToolPolicy
    } else if str_eq(guard, "verifier") {
        EvidenceProducer::Verifier
    } else if str_eq(guard, "profile") || str_starts_with(guard, "profile_") {
        EvidenceProducer::ProfileVerification
    } else if str_eq(guard, "setup") {
        EvidenceProducer::SetupRuntime
    } else if str_eq(guard, "recovery") || str_eq(guard, "repair") {
        EvidenceProducer::RecoveryLoop
    } else {
        EvidenceProducer::Unknown
    }
}

/// Whether the optional reason starts with the prefix.
fn reason_starts_with(reason: &Option<String>, prefix: &str) -> (r: bool)
    ensures
        r == (reason is Some && starts_with(reason->0@, prefix@)),
{
    match reason {
        Some(code) => str_starts_with(code.as_str(), prefix),
        None => false,
    }
}

/// Whether the optional reason contains the needle.
fn reason_contains(reason: &Option<String>, needle: &str) -> (r: bool)
    ensures
        r == (reason is Some && contains(reason->0@, needle@)),
{
    match reason {
        Some(code) => str_contains(code.as_str(), needle),
        None => false,
    }
}

/// A copy of the first option when present, else of the second.
pub fn first_present(a: &Option<String>, b: &Option<String>) -> (r: Option<String>)
    ensures
        opt_view(r) == or_view(opt_view(*a), opt_view(*b)),
{
    match a {
        Some(v) => Some(v.clone()),
        None => copy_opt(b),
    }
}

/// A copy of the first element of the list, if any.
pub fn first_of(v: &Vec<String>) -> (r: Option<String>)
    ensures
        opt_view(r) == first_view(views(v@)),
{
    if v.len() > 0 {
        Some(v[0].clone())
    } else {
        None
    }
}

/// Whether the list holds the value.
pub fn list_contains(v: &Vec<String>, value: &String) -> (r: bool)
    ensures
        r == views(v@).contains(value@),
{
    let mut i: usize = 0;
    while i < v.len()
        invariant
            i <= v@.len(),
            forall|k: int| 0 <= k < i ==> views(v@)[k] != value@,
        decreases v.len() - i,
    {
        if str_eq(v[i].as_str(), value.as_str()) {
            assert(views(v@)[i as int] == value@);
            return true;
        }
        i = i + 1;
    }
    false
}

/// The values of both lists in order, each kept once at its first occurrence.
pub fn merge_lists(left: &Vec<String>, right: &Vec<String>) -> (r: Vec<String>)
    ensures
        views(r@) == dedup(views(left@) + views(right@)),
{
    let ghost all = views(left@) + views(right@);
    let mut merged: Vec<String> = Vec::new();
    let mut i: usize = 0;
    while i < left.len()
        invariant
            i <= left@.len(),
            all == views(left@) + views(right@),
            views(merged@) == dedup(all.take(i as int)),
        decreases left.len() - i,
    {
        proof {
            assert(all.take(i + 1).drop_last() == all.take(i as int));
            assert(all.take(i + 1).last() == left@[i as int]@);
        }
        if !list_contains(&merged, &left[i]) {
            merged.push(left[i].clone());
        }
        i = i + 1;
    }
    let mut j: usize = 0;
    while j < right.len()
        invariant
            j <= right@.len(),
            all == views(left@) + views(right@),
            views(merged@) == dedup(all.take(left@.len() + j as int)),
        decreases right.len() - j,
    {
        proof {
            let n = left@.len() + j as int;
            assert(all.take(n + 1).drop_last() == all.take(n));
            assert(all.take(n + 1).last() == right@[j as int]@);
        }
        if !list_contains(&merged, &right[j]) {
            merged.push(right[j].clone());
        }
        j = j + 1;
    }
    assert(all.take((left@.len() + right@.len()) as int) == all);
    merged
}

} // verus!
