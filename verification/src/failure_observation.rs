//! A normalized failure observation: which layer of contract failed, who
//! produced the failure, what source of truth judged it, and whether it is
//! actionable, derived from a guard's contract evidence.
use crate::correction_evidence::ContractEvidence;
use crate::text::{
    contains, has_char, is_blank, is_blank_str, is_ws, join, join_strings, lower, lower_str,
    opt_view, owned, push_str, starts_with, str_contains, str_eq, str_starts_with, strip_prefix_str,
    after_prefix, split_words, views, words, trim, trim_str, chars_of, string_of, slice_range,
    copy_string, opt_is, occurs_at, occurs_at_exec,
};
use vstd::prelude::*;

verus! {

/// The version of the observation schema.
pub const FAILURE_OBSERVATION_SCHEMA_VERSION: &'static str = "1.0";

/// The longest observed value, in bytes, before it is cut.
pub const MAX_OBSERVED_BYTES: usize = 240;

/// How a run ended.
#[derive(Debug, Clone, Copy, PartialEq, Eq, Structural)]
pub enum TerminalState {
    Success,
    PlanParseFailed,
    PlanSchemaFailed,
    PlanLintFailed,
    ProviderTransportFailed,
    ProviderParseFailed,
    ToolProtocolFailed,
    StepPolicyFailed,
    ProfileContractFailed,
    VerifierCommandFailed,
    DependencyMissing,
    SetupFailed,
    PortInUse,
    MissingDeliverable,
    MissingEvidence,
    EvidenceBindingFailed,
    CompletionEvidenceFailed,
    EvalAssertionFailed,
    RepairExhausted,
    ExplicitStop,
    Unknown,
}

pub open spec fn terminal_name(x: TerminalState) -> Seq<char> {
    match x {
        TerminalState::Success => "ok"@,
        TerminalState::PlanParseFailed => "plan_parse_failed"@,
        TerminalState::PlanSchemaFailed => "plan_schema_failed"@,
        TerminalState::PlanLintFailed => "plan_lint_failed"@,
        TerminalState::ProviderTransportFailed => "provider_transport_failed"@,
        TerminalState::ProviderParseFailed => "provider_parse_failed"@,
        TerminalState::ToolProtocolFailed => "tool_protocol_failed"@,
        TerminalState::StepPolicyFailed => "step_policy_failed"@,
        TerminalState::ProfileContractFailed => "profile_contract_failed"@,
        TerminalState::VerifierCommandFailed => "verifier_command_failed"@,
        TerminalState::DependencyMissing => "dependency_missing"@,
        TerminalState::SetupFailed => "setup_failed"@,
        TerminalState::PortInUse => "port_in_use"@,
        TerminalState::MissingDeliverable => "missing_deliverable"@,
        TerminalState::MissingEvidence => "missing_evidence"@,
        TerminalState::EvidenceBindingFailed => "evidence_binding_failed"@,
        TerminalState::CompletionEvidenceFailed => "completion_evidence_failed"@,
        TerminalState::EvalAssertionFailed => "eval_assertion_failed"@,
        TerminalState::RepairExhausted => "repair_exhausted"@,
        TerminalState::ExplicitStop => "explicit_stop"@,
        TerminalState::Unknown => "unknown"@,
    }
}

impl TerminalState {
    /// The snake-case name.
    pub fn as_str(self) -> (r: &'static str)
        ensures
            r@ == terminal_name(self),
    {
        match self {
            TerminalState::Success => "ok",
            TerminalState::PlanParseFailed => "plan_parse_failed",
            TerminalState::PlanSchemaFailed => "plan_schema_failed",
            TerminalState::PlanLintFailed => "plan_lint_failed",
            TerminalState::ProviderTransportFailed => "provider_transport_failed",
            TerminalState::ProviderParseFailed => "provider_parse_failed",
            TerminalState::ToolProtocolFailed => "tool_protocol_failed",
            TerminalState::StepPolicyFailed => "step_policy_failed",
            TerminalState::ProfileContractFailed => "profile_contract_failed",
            TerminalState::VerifierCommandFailed => "verifier_command_failed",
            TerminalState::DependencyMissing => "dependency_missing",
            TerminalState::SetupFailed => "setup_failed",
            TerminalState::PortInUse => "port_in_use",
            TerminalState::MissingDeliverable => "missing_deliverable",
            TerminalState::MissingEvidence => "missing_evidence",
            TerminalState::EvidenceBindingFailed => "evidence_binding_failed",
            TerminalState::CompletionEvidenceFailed => "completion_evidence_failed",
            TerminalState::EvalAssertionFailed => "eval_assertion_failed",
            TerminalState::RepairExhausted => "repair_exhausted",
            TerminalState::ExplicitStop => "explicit_stop",
            TerminalState::Unknown => "unknown",
        }
    }
}

/// The broad class of a failure.
#[derive(Debug, Clone, Copy, PartialEq, Eq, Structural)]
pub enum FailureObservationClass {
    Success,
    Planning,
    ProviderTransport,
    ToolProtocol,
    StepPolicy,
    Profile,
    Verifier,
    Setup,
    Quality,
    Unknown,
}

pub open spec fn failure_class_name(x: FailureObservationClass) -> Seq<char> {
    match x {
        FailureObservationClass::Success => "ok"@,
        FailureObservationClass::Planning => "planning"@,
        FailureObservationClass::ProviderTransport => "provider_transport"@,
        FailureObservationClass::ToolProtocol => "tool_protocol"@,
        FailureObservationClass::StepPolicy => "step_policy"@,
        FailureObservationClass::Profile => "profile"@,
        FailureObservationClass::Verifier => "verifier"@,
        FailureObservationClass::Setup => "setup"@,
        FailureObservationClass::Quality => "quality"@,
        FailureObservationClass::Unknown => "unknown"@,
    }
}

impl FailureObservationClass {
    /// The snake-case name.
    pub fn as_str(self) -> (r: &'static str)
        ensures
            r@ == failure_class_name(self),
    {
        match self {
            FailureObservationClass::Success => "ok",
            FailureObservationClass::Planning => "planning",
            FailureObservationClass::ProviderTransport => "provider_transport",
            FailureObservationClass::ToolProtocol => "tool_protocol",
            FailureObservationClass::StepPolicy => "step_policy",
            FailureObservationClass::Profile => "profile",
            FailureObservationClass::Verifier => "verifier",
            FailureObservationClass::Setup => "setup",
            FailureObservationClass::Quality => "quality",
            FailureObservationClass::Unknown => "unknown",
        }
    }
}

/// The layer of contract a failure broke.
#[derive(Debug, Clone, Copy, PartialEq, Eq, Structural)]
pub enum ContractLayer {
    Success,
    PlanningContract,
    ExecutionContract,
    ProfileContract,
    SetupBootstrapContract,
    DevServerPortContract,
    VerificationContract,
    EvalSuccessContract,
    UnknownContract,
}

pub open spec fn contract_layer_name(x: ContractLayer) -> Seq<char> {
    match x {
        ContractLayer::Success => "ok"@,
        ContractLayer::PlanningContract => "planning_contract"@,
        ContractLayer::ExecutionContract => "execution_contract"@,
        ContractLayer::ProfileContract => "profile_contract"@,
        ContractLayer::SetupBootstrapContract => "setup_bootstrap_contract"@,
        ContractLayer::DevServerPortContract => "dev_server_port_contract"@,
        ContractLayer::VerificationContract => "verification_contract"@,
        ContractLayer::EvalSuccessContract => "eval_success_contract"@,
        ContractLayer::UnknownContract => "unknown_contract"@,
    }
}

impl ContractLayer {
    /// The snake-case name.
    pub fn as_str(self) -> (r: &'static str)
        ensures
            r@ == contract_layer_name(self),
    {
        match self {
            ContractLayer::Success => "ok",
            ContractLayer::PlanningContract => "planning_contract",
            ContractLayer::ExecutionContract => "execution_contract",
            ContractLayer::ProfileContract => "profile_contract",
            ContractLayer::SetupBootstrapContract => "setup_bootstrap_contract",
            ContractLayer::DevServerPortContract => "dev_server_port_contract",
            ContractLayer::VerificationContract => "verification_contract",
            ContractLayer::EvalSuccessContract => "eval_success_contract",
            ContractLayer::UnknownContract => "unknown_contract",
        }
    }
}

/// Where a failure was observed.
#[derive(Debug, Clone, Copy, PartialEq, Eq, Structural)]
pub enum ObservationSource {
    ProcessResult,
    PlanContract,
    ProviderResponse,
    ExecutionGuard,
    ProfileVerifier,
    EnvironmentVerifier,
    EvalSuccessCheck,
    BoundedRepair,
    Verifier,
    Unknown,
}

pub open spec fn observation_source_name(x: ObservationSource) -> Seq<char> {
    match x {
        ObservationSource::ProcessResult => "process_result"@,
        ObservationSource::PlanContract => "plan_contract"@,
        ObservationSource::ProviderResponse => "provider_response"@,
        ObservationSource::ExecutionGuard => "execution_guard"@,
        ObservationSource::ProfileVerifier => "profile_verifier"@,
        ObservationSource::EnvironmentVerifier => "environment_verifier"@,
        ObservationSource::EvalSuccessCheck => "eval_success_check"@,
        ObservationSource::BoundedRepair => "bounded_repair"@,
        ObservationSource::Verifier => "verifier"@,
        ObservationSource::Unknown => "unknown"@,
    }
}

impl ObservationSource {
    /// The snake-case name.
    pub fn as_str(self) -> (r: &'static str)
        ensures
            r@ == observation_source_name(self),
    {
        match self {
            ObservationSource::ProcessResult => "process_result",
            ObservationSource::PlanContract => "plan_contract",
            ObservationSource::ProviderResponse => "provider_response",
            ObservationSource::ExecutionGuard => "execution_guard",
            ObservationSource::ProfileVerifier => "profile_verifier",
            ObservationSource::EnvironmentVerifier => "environment_verifier",
            ObservationSource::EvalSuccessCheck => "eval_success_check",
            ObservationSource::BoundedRepair => "bounded_repair",
            ObservationSource::Verifier => "verifier",
            ObservationSource::Unknown => "unknown",
        }
    }
}

/// What judged a failure.
#[derive(Debug, Clone, Copy, PartialEq, Eq, Structural)]
pub enum SourceOfTruth {
    ProcessExitAndEvalChecks,
    RuntimeEvidence,
    VerifierOutput,
    EvalSuccessContract,
    Unknown,
}

pub open spec fn source_of_truth_name(x: SourceOfTruth) -> Seq<char> {
    match x {
        SourceOfTruth::ProcessExitAndEvalChecks => "process_exit_and_eval_checks"@,
        SourceOfTruth::RuntimeEvidence => "runtime_evidence"@,
        SourceOfTruth::VerifierOutput => "verifier_output"@,
        SourceOfTruth::EvalSuccessContract => "eval_success_contract"@,
        SourceOfTruth::Unknown => "unknown"@,
    }
}

impl SourceOfTruth {
    /// The snake-case name.
    pub fn as_str(self) -> (r: &'static str)
        ensures
            r@ == source_of_truth_name(self),
    {
        match self {
            SourceOfTruth::ProcessExitAndEvalChecks => "process_exit_and_eval_checks",
            SourceOfTruth::RuntimeEvidence => "runtime_evidence",
            SourceOfTruth::VerifierOutput => "verifier_output",
            SourceOfTruth::EvalSuccessContract => "eval_success_contract",
            SourceOfTruth::Unknown => "unknown",
        }
    }
}

/// The component that produced a failure.
#[derive(Debug, Clone, Copy, PartialEq, Eq, Structural)]
pub enum FailureProducer {
    ProcessResult,
    PlanParser,
    PlanSchema,
    PlanLint,
    ProviderTransport,
    ProviderParser,
    ToolProtocol,
    StepPolicy,
    ProfileVerification,
    Verifier,
    SetupRuntime,
    DevServer,
    CompletionEvidence,
    EvidenceBinding,
    EvalSuccess,
    RecoveryLoop,
    Unknown,
}

pub open spec fn producer_name(x: FailureProducer) -> Seq<char> {
    match x {
        FailureProducer::ProcessResult => "process_result"@,
        FailureProducer::PlanParser => "plan_parser"@,
        FailureProducer::PlanSchema => "plan_schema"@,
        FailureProducer::PlanLint => "plan_lint"@,
        FailureProducer::ProviderTransport => "provider_transport"@,
        FailureProducer::ProviderParser => "provider_parser"@,
        FailureProducer::ToolProtocol => "tool_protocol"@,
        FailureProducer::StepPolicy => "step_policy"@,
        FailureProducer::ProfileVerification => "profile_verification"@,
        FailureProducer::Verifier => "verifier"@,
        FailureProducer::SetupRuntime => "setup_runtime"@,
        FailureProducer::DevServer => "dev_server"@,
        FailureProducer::CompletionEvidence => "completion_evidence"@,
        FailureProducer::EvidenceBinding => "evidence_binding"@,
        FailureProducer::EvalSuccess => "eval_success"@,
        FailureProducer::RecoveryLoop => "recovery_loop"@,
        FailureProducer::Unknown => "unknown"@,
    }
}

impl FailureProducer {
    /// The snake-case name.
    pub fn as_str(self) -> (r: &'static str)
        ensures
            r@ == producer_name(self),
    {
        match self {
            FailureProducer::ProcessResult => "process_result",
            FailureProducer::PlanParser => "plan_parser",
            FailureProducer::PlanSchema => "plan_schema",
            FailureProducer::PlanLint => "plan_lint",
            FailureProducer::ProviderTransport => "provider_transport",
            FailureProducer::ProviderParser => "provider_parser",
            FailureProducer::ToolProtocol => "tool_protocol",
            FailureProducer::StepPolicy => "step_policy",
            FailureProducer::ProfileVerification => "profile_verification",
            FailureProducer::Verifier => "verifier",
            FailureProducer::SetupRuntime => "setup_runtime",
            FailureProducer::DevServer => "dev_server",
            FailureProducer::CompletionEvidence => "completion_evidence",
            FailureProducer::EvidenceBinding => "evidence_binding",
            FailureProducer::EvalSuccess => "eval_success",
            FailureProducer::RecoveryLoop => "recovery_loop",
            FailureProducer::Unknown => "unknown",
        }
    }
}

/// Whether a failure can be acted on.
#[derive(Debug, Clone, Copy, PartialEq, Eq, Structural)]
pub enum FailureActionability {
    NotApplicable,
    Actionable,
    ExplicitStop,
    Unknown,
}

pub open spec fn actionability_name(x: FailureActionability) -> Seq<char> {
    match x {
        FailureActionability::NotApplicable => "not_applicable"@,
        FailureActionability::Actionable => "actionable"@,
        FailureActionability::ExplicitStop => "explicit_stop"@,
        FailureActionability::Unknown => "unknown"@,
    }
}

impl FailureActionability {
    /// The snake-case name.
    pub fn as_str(self) -> (r: &'static str)
        ensures
            r@ == actionability_name(self),
    {
        match self {
            FailureActionability::NotApplicable => "not_applicable",
            FailureActionability::Actionable => "actionable",
            FailureActionability::ExplicitStop => "explicit_stop",
            FailureActionability::Unknown => "unknown",
        }
    }
}

/// The failure class of a terminal state.
pub open spec fn class_of_state(x: TerminalState) -> FailureObservationClass {
    match x {
        TerminalState::Success => FailureObservationClass::Success,
        TerminalState::PlanParseFailed | TerminalState::PlanSchemaFailed | TerminalState::PlanLintFailed | TerminalState::MissingDeliverable | TerminalState::RepairExhausted => FailureObservationClass::Planning,
        TerminalState::ProviderTransportFailed | TerminalState::ProviderParseFailed => FailureObservationClass::ProviderTransport,
        TerminalState::ToolProtocolFailed => FailureObservationClass::ToolProtocol,
        TerminalState::StepPolicyFailed => FailureObservationClass::StepPolicy,
        TerminalState::ProfileContractFailed => FailureObservationClass::Profile,
        TerminalState::VerifierCommandFailed => FailureObservationClass::Verifier,
        TerminalState::DependencyMissing | TerminalState::SetupFailed | TerminalState::PortInUse => FailureObservationClass::Setup,
        TerminalState::MissingEvidence | TerminalState::EvidenceBindingFailed | TerminalState::CompletionEvidenceFailed | TerminalState::EvalAssertionFailed => FailureObservationClass::Quality,
        TerminalState::ExplicitStop | TerminalState::Unknown => FailureObservationClass::Unknown,
    }
}

/// The contract layer of a terminal state.
pub open spec fn layer_of_state(x: TerminalState) -> ContractLayer {
    match x {
        TerminalState::Success => ContractLayer::Success,
        TerminalState::PlanParseFailed | TerminalState::PlanSchemaFailed | TerminalState::PlanLintFailed | TerminalState::MissingDeliverable | TerminalState::RepairExhausted => ContractLayer::PlanningContract,
        TerminalState::ProviderTransportFailed | TerminalState::ProviderParseFailed | TerminalState::ToolProtocolFailed | TerminalState::StepPolicyFailed => ContractLayer::ExecutionContract,
        TerminalState::ProfileContractFailed => ContractLayer::ProfileContract,
        TerminalState::VerifierCommandFailed => ContractLayer::VerificationContract,
        TerminalState::DependencyMissing | TerminalState::SetupFailed => ContractLayer::SetupBootstrapContract,
        TerminalState::PortInUse => ContractLayer::DevServerPortContract,
        TerminalState::MissingEvidence | TerminalState::EvidenceBindingFailed | TerminalState::CompletionEvidenceFailed | TerminalState::EvalAssertionFailed => ContractLayer::EvalSuccessContract,
        TerminalState::ExplicitStop | TerminalState::Unknown => ContractLayer::UnknownContract,
    }
}

/// The contract a terminal state breaks when the evidence names none.
pub open spec fn default_contract_of_state(x: TerminalState) -> Seq<char> {
    match x {
        TerminalState::Success => "none"@,
        TerminalState::PlanParseFailed => "plan_file_parse_contract"@,
        TerminalState::PlanSchemaFailed => "plan_file_schema_contract"@,
        TerminalState::PlanLintFailed => "planning_contract"@,
        TerminalState::ProviderTransportFailed => "provider_transport_contract"@,
        TerminalState::ProviderParseFailed => "provider_tool_call_parse_contract"@,
        TerminalState::ToolProtocolFailed => "tool_protocol_contract"@,
        TerminalState::StepPolicyFailed => "step_execution_policy_contract"@,
        TerminalState::ProfileContractFailed => "profile_contract"@,
        TerminalState::VerifierCommandFailed => "verification_contract"@,
        TerminalState::DependencyMissing | TerminalState::SetupFailed => "setup_bootstrap_contract"@,
        TerminalState::PortInUse => "dev_server_port_contract"@,
        TerminalState::MissingDeliverable => "eval_success_contract"@,
        TerminalState::MissingEvidence => "evidence_contract"@,
        TerminalState::EvidenceBindingFailed => "evidence_binding_contract"@,
        TerminalState::CompletionEvidenceFailed => "completion_evidence_contract"@,
        TerminalState::EvalAssertionFailed => "eval_success_contract"@,
        TerminalState::RepairExhausted => "bounded_repair_contract"@,
        TerminalState::ExplicitStop => "explicit_stop_contract"@,
        TerminalState::Unknown => "unknown_contract"@,
    }
}

/// Where a terminal state is observed.
pub open spec fn source_of_state(x: TerminalState) -> ObservationSource {
    match x {
        TerminalState::Success => ObservationSource::ProcessResult,
        TerminalState::PlanParseFailed | TerminalState::PlanSchemaFailed | TerminalState::PlanLintFailed => ObservationSource::PlanContract,
        TerminalState::ProviderTransportFailed | TerminalState::ProviderParseFailed => ObservationSource::ProviderResponse,
        TerminalState::ToolProtocolFailed | TerminalState::StepPolicyFailed => ObservationSource::ExecutionGuard,
        TerminalState::ProfileContractFailed => ObservationSource::ProfileVerifier,
        TerminalState::DependencyMissing | TerminalState::SetupFailed | TerminalState::PortInUse => ObservationSource::EnvironmentVerifier,
        TerminalState::MissingDeliverable | TerminalState::MissingEvidence | TerminalState::EvidenceBindingFailed | TerminalState::CompletionEvidenceFailed | TerminalState::EvalAssertionFailed => ObservationSource::EvalSuccessCheck,
        TerminalState::RepairExhausted | TerminalState::ExplicitStop => ObservationSource::BoundedRepair,
        TerminalState::VerifierCommandFailed => ObservationSource::Verifier,
        TerminalState::Unknown => ObservationSource::Unknown,
    }
}

/// What judges a terminal state when the evidence names nothing.
pub open spec fn truth_of_state(x: TerminalState) -> SourceOfTruth {
    match x {
        TerminalState::Success => SourceOfTruth::ProcessExitAndEvalChecks,
        TerminalState::DependencyMissing | TerminalState::SetupFailed | TerminalState::PortInUse => SourceOfTruth::VerifierOutput,
        TerminalState::MissingDeliverable | TerminalState::MissingEvidence | TerminalState::EvidenceBindingFailed | TerminalState::CompletionEvidenceFailed | TerminalState::EvalAssertionFailed => SourceOfTruth::EvalSuccessContract,
        TerminalState::Unknown => SourceOfTruth::Unknown,
        TerminalState::PlanParseFailed | TerminalState::PlanSchemaFailed | TerminalState::PlanLintFailed | TerminalState::ProviderTransportFailed | TerminalState::ProviderParseFailed | TerminalState::ToolProtocolFailed | TerminalState::StepPolicyFailed | TerminalState::ProfileContractFailed | TerminalState::VerifierCommandFailed | TerminalState::RepairExhausted | TerminalState::ExplicitStop => SourceOfTruth::RuntimeEvidence,
    }
}

/// Whether a terminal state can be acted on.
pub open spec fn actionability_of_state(x: TerminalState) -> FailureActionability {
    match x {
        TerminalState::Success => FailureActionability::NotApplicable,
        TerminalState::ExplicitStop | TerminalState::RepairExhausted => FailureActionability::ExplicitStop,
        TerminalState::Unknown => FailureActionability::Unknown,
        TerminalState::PlanParseFailed | TerminalState::PlanSchemaFailed | TerminalState::PlanLintFailed | TerminalState::ProviderTransportFailed | TerminalState::ProviderParseFailed | TerminalState::ToolProtocolFailed | TerminalState::StepPolicyFailed | TerminalState::ProfileContractFailed | TerminalState::VerifierCommandFailed | TerminalState::DependencyMissing | TerminalState::SetupFailed | TerminalState::PortInUse | TerminalState::MissingDeliverable | TerminalState::MissingEvidence | TerminalState::EvidenceBindingFailed | TerminalState::CompletionEvidenceFailed | TerminalState::EvalAssertionFailed => FailureActionability::Actionable,
    }
}

impl TerminalState {
    /// The failure class.
    pub fn failure_class(self) -> (r: FailureObservationClass)
        ensures
            r == class_of_state(self),
    {
        match self {
            TerminalState::Success => FailureObservationClass::Success,
            TerminalState::PlanParseFailed | TerminalState::PlanSchemaFailed | TerminalState::PlanLintFailed | TerminalState::MissingDeliverable | TerminalState::RepairExhausted => FailureObservationClass::Planning,
            TerminalState::ProviderTransportFailed | TerminalState::ProviderParseFailed => FailureObservationClass::ProviderTransport,
            TerminalState::ToolProtocolFailed => FailureObservationClass::ToolProtocol,
            TerminalState::StepPolicyFailed => FailureObservationClass::StepPolicy,
            TerminalState::ProfileContractFailed => FailureObservationClass::Profile,
            TerminalState::VerifierCommandFailed => FailureObservationClass::Verifier,
            TerminalState::DependencyMissing | TerminalState::SetupFailed | TerminalState::PortInUse => FailureObservationClass::Setup,
            TerminalState::MissingEvidence | TerminalState::EvidenceBindingFailed | TerminalState::CompletionEvidenceFailed | TerminalState::EvalAssertionFailed => FailureObservationClass::Quality,
            TerminalState::ExplicitStop | TerminalState::Unknown => FailureObservationClass::Unknown,
        }
    }

    /// The contract layer.
    pub fn contract_layer(self) -> (r: ContractLayer)
        ensures
            r == layer_of_state(self),
    {
        match self {
            TerminalState::Success => ContractLayer::Success,
            TerminalState::PlanParseFailed | TerminalState::PlanSchemaFailed | TerminalState::PlanLintFailed | TerminalState::MissingDeliverable | TerminalState::RepairExhausted => ContractLayer::PlanningContract,
            TerminalState::ProviderTransportFailed | TerminalState::ProviderParseFailed | TerminalState::ToolProtocolFailed | TerminalState::StepPolicyFailed => ContractLayer::ExecutionContract,
            TerminalState::ProfileContractFailed => ContractLayer::ProfileContract,
            TerminalState::VerifierCommandFailed => ContractLayer::VerificationContract,
            TerminalState::DependencyMissing | TerminalState::SetupFailed => ContractLayer::SetupBootstrapContract,
            TerminalState::PortInUse => ContractLayer::DevServerPortContract,
            TerminalState::MissingEvidence | TerminalState::EvidenceBindingFailed | TerminalState::CompletionEvidenceFailed | TerminalState::EvalAssertionFailed => ContractLayer::EvalSuccessContract,
            TerminalState::ExplicitStop | TerminalState::Unknown => ContractLayer::UnknownContract,
        }
    }

    /// The contract broken when the evidence names none.
    pub fn default_violated_contract(self) -> (r: &'static str)
        ensures
            r@ == default_contract_of_state(self),
    {
        match self {
            TerminalState::Success => "none",
            TerminalState::PlanParseFailed => "plan_file_parse_contract",
            TerminalState::PlanSchemaFailed => "plan_file_schema_contract",
            TerminalState::PlanLintFailed => "planning_contract",
            TerminalState::ProviderTransportFailed => "provider_transport_contract",
            TerminalState::ProviderParseFailed => "provider_tool_call_parse_contract",
            TerminalState::ToolProtocolFailed => "tool_protocol_contract",
            TerminalState::StepPolicyFailed => "step_execution_policy_contract",
            TerminalState::ProfileContractFailed => "profile_contract",
            TerminalState::VerifierCommandFailed => "verification_contract",
            TerminalState::DependencyMissing | TerminalState::SetupFailed => "setup_bootstrap_contract",
            TerminalState::PortInUse => "dev_server_port_contract",
            TerminalState::MissingDeliverable => "eval_success_contract",
            TerminalState::MissingEvidence => "evidence_contract",
            TerminalState::EvidenceBindingFailed => "evidence_binding_contract",
            TerminalState::CompletionEvidenceFailed => "completion_evidence_contract",
            TerminalState::EvalAssertionFailed => "eval_success_contract",
            TerminalState::RepairExhausted => "bounded_repair_contract",
            TerminalState::ExplicitStop => "explicit_stop_contract",
            TerminalState::Unknown => "unknown_contract",
        }
    }

    /// Where the state is observed.
    pub fn default_source(self) -> (r: ObservationSource)
        ensures
            r == source_of_state(self),
    {
        match self {
            TerminalState::Success => ObservationSource::ProcessResult,
            TerminalState::PlanParseFailed | TerminalState::PlanSchemaFailed | TerminalState::PlanLintFailed => ObservationSource::PlanContract,
            TerminalState::ProviderTransportFailed | TerminalState::ProviderParseFailed => ObservationSource::ProviderResponse,
            TerminalState::ToolProtocolFailed | TerminalState::StepPolicyFailed => ObservationSource::ExecutionGuard,
            TerminalState::ProfileContractFailed => ObservationSource::ProfileVerifier,
            TerminalState::DependencyMissing | TerminalState::SetupFailed | TerminalState::PortInUse => ObservationSource::EnvironmentVerifier,
            TerminalState::MissingDeliverable | TerminalState::MissingEvidence | TerminalState::EvidenceBindingFailed | TerminalState::CompletionEvidenceFailed | TerminalState::EvalAssertionFailed => ObservationSource::EvalSuccessCheck,
            TerminalState::RepairExhausted | TerminalState::ExplicitStop => ObservationSource::BoundedRepair,
            TerminalState::VerifierCommandFailed => ObservationSource::Verifier,
            TerminalState::Unknown => ObservationSource::Unknown,
        }
    }

    /// What judges the state when the evidence names nothing.
    pub fn default_source_of_truth(self) -> (r: SourceOfTruth)
        ensures
            r == truth_of_state(self),
    {
        match self {
            TerminalState::Success => SourceOfTruth::ProcessExitAndEvalChecks,
            TerminalState::DependencyMissing | TerminalState::SetupFailed | TerminalState::PortInUse => SourceOfTruth::VerifierOutput,
            TerminalState::MissingDeliverable | TerminalState::MissingEvidence | TerminalState::EvidenceBindingFailed | TerminalState::CompletionEvidenceFailed | TerminalState::EvalAssertionFailed => SourceOfTruth::EvalSuccessContract,
            TerminalState::Unknown => SourceOfTruth::Unknown,
            TerminalState::PlanParseFailed | TerminalState::PlanSchemaFailed | TerminalState::PlanLintFailed | TerminalState::ProviderTransportFailed | TerminalState::ProviderParseFailed | TerminalState::ToolProtocolFailed | TerminalState::StepPolicyFailed | TerminalState::ProfileContractFailed | TerminalState::VerifierCommandFailed | TerminalState::RepairExhausted | TerminalState::ExplicitStop => SourceOfTruth::RuntimeEvidence,
        }
    }

    /// Whether the state can be acted on.
    pub fn actionability(self) -> (r: FailureActionability)
        ensures
            r == actionability_of_state(self),
    {
        match self {
            TerminalState::Success => FailureActionability::NotApplicable,
            TerminalState::ExplicitStop | TerminalState::RepairExhausted => FailureActionability::ExplicitStop,
            TerminalState::Unknown => FailureActionability::Unknown,
            TerminalState::PlanParseFailed | TerminalState::PlanSchemaFailed | TerminalState::PlanLintFailed | TerminalState::ProviderTransportFailed | TerminalState::ProviderParseFailed | TerminalState::ToolProtocolFailed | TerminalState::StepPolicyFailed | TerminalState::ProfileContractFailed | TerminalState::VerifierCommandFailed | TerminalState::DependencyMissing | TerminalState::SetupFailed | TerminalState::PortInUse | TerminalState::MissingDeliverable | TerminalState::MissingEvidence | TerminalState::EvidenceBindingFailed | TerminalState::CompletionEvidenceFailed | TerminalState::EvalAssertionFailed => FailureActionability::Actionable,
        }
    }

}

/// Every terminal state, in declaration order.
pub open spec fn all_states() -> Seq<TerminalState> {
    seq![TerminalState::Success, TerminalState::PlanParseFailed, TerminalState::PlanSchemaFailed, TerminalState::PlanLintFailed, TerminalState::ProviderTransportFailed, TerminalState::ProviderParseFailed, TerminalState::ToolProtocolFailed, TerminalState::StepPolicyFailed, TerminalState::ProfileContractFailed, TerminalState::VerifierCommandFailed, TerminalState::DependencyMissing, TerminalState::SetupFailed, TerminalState::PortInUse, TerminalState::MissingDeliverable, TerminalState::MissingEvidence, TerminalState::EvidenceBindingFailed, TerminalState::CompletionEvidenceFailed, TerminalState::EvalAssertionFailed, TerminalState::RepairExhausted, TerminalState::ExplicitStop, TerminalState::Unknown]
}

/// Every terminal state, in declaration order.
pub fn all_terminal_states() -> (r: Vec<TerminalState>)
    ensures
        r@ == all_states(),
{
    let r = vec![TerminalState::Success, TerminalState::PlanParseFailed, TerminalState::PlanSchemaFailed, TerminalState::PlanLintFailed, TerminalState::ProviderTransportFailed, TerminalState::ProviderParseFailed, TerminalState::ToolProtocolFailed, TerminalState::StepPolicyFailed, TerminalState::ProfileContractFailed, TerminalState::VerifierCommandFailed, TerminalState::DependencyMissing, TerminalState::SetupFailed, TerminalState::PortInUse, TerminalState::MissingDeliverable, TerminalState::MissingEvidence, TerminalState::EvidenceBindingFailed, TerminalState::CompletionEvidenceFailed, TerminalState::EvalAssertionFailed, TerminalState::RepairExhausted, TerminalState::ExplicitStop, TerminalState::Unknown];
    assert(r@ =~= all_states());
    r
}


// ---------------------------------------------------------------------------
// Observed values
// ---------------------------------------------------------------------------

/// The UTF-8 width of a character.
pub open spec fn char_width(c: char) -> int {
    if (c as u32) < 0x80 {
        1
    } else if (c as u32) < 0x800 {
        2
    } else if (c as u32) < 0x10000 {
        3
    } else {
        4
    }
}

/// The UTF-8 length of a text.
pub open spec fn utf8_len(s: Seq<char>) -> int
    decreases s.len(),
{
    if s.len() == 0 {
        0
    } else {
        utf8_len(s.drop_last()) + char_width(s.last())
    }
}

/// The prefix of `s` that is exactly `n` bytes long, if a character
/// boundary falls there.
pub open spec fn byte_prefix(s: Seq<char>, n: int) -> Option<Seq<char>>
    decreases s.len(),
{
    if n == 0 {
        Some(Seq::empty())
    } else if s.len() == 0 || n < 0 {
        None
    } else if char_width(s[0]) > n {
        None
    } else {
        match byte_prefix(s.skip(1), n - char_width(s[0])) {
            Some(p) => Some(seq![s[0]] + p),
            None => None,
        }
    }
}

/// Line breaks replaced by spaces.
pub open spec fn unbroken(s: Seq<char>) -> Seq<char> {
    s.map_values(|c: char| if c == '\n' { ' ' } else { c })
}

/// The trimmed one-line form of a value.
pub open spec fn one_line(v: Seq<char>) -> Seq<char> {
    unbroken(trim(v))
}

/// The value can be cut at its byte limit: it is short enough, or a
/// character boundary falls exactly at the limit.
pub open spec fn cuttable(v: Seq<char>) -> bool {
    utf8_len(one_line(v)) <= MAX_OBSERVED_BYTES || byte_prefix(one_line(v), MAX_OBSERVED_BYTES as int) is Some
}

pub open spec fn opt_cuttable(v: Option<Seq<char>>) -> bool {
    match v {
        Some(x) => cuttable(x),
        None => true,
    }
}

/// An observed value: trimmed, on one line, and cut to its byte limit with
/// `...` appended when it was longer.
pub open spec fn observed(v: Seq<char>) -> Seq<char> {
    let o = one_line(v);
    if utf8_len(o) > MAX_OBSERVED_BYTES {
        byte_prefix(o, MAX_OBSERVED_BYTES as int)->0 + "..."@
    } else {
        o
    }
}

pub open spec fn opt_observed(v: Option<Seq<char>>) -> Option<Seq<char>> {
    match v {
        Some(x) => Some(observed(x)),
        None => None,
    }
}

fn width(c: char) -> (r: usize)
    ensures
        r as int == char_width(c),
        1 <= r <= 4,
{
    let n = c as u32;
    if n < 0x80 {
        1
    } else if n < 0x800 {
        2
    } else if n < 0x10000 {
        3
    } else {
        4
    }
}

proof fn lemma_utf8_take(s: Seq<char>, k: int)
    requires
        0 <= k < s.len(),
    ensures
        utf8_len(s.take(k + 1)) == utf8_len(s.take(k)) + char_width(s[k]),
{
    assert(s.take(k + 1).drop_last() =~= s.take(k));
}

proof fn lemma_utf8_mono(s: Seq<char>, k: int)
    requires
        0 <= k <= s.len(),
    ensures
        utf8_len(s.take(k)) <= utf8_len(s),
    decreases s.len() - k,
{
    if k < s.len() {
        lemma_utf8_take(s, k);
        lemma_utf8_mono(s, k + 1);
    } else {
        assert(s.take(k) =~= s);
    }
}

/// Cuts a value to its byte limit on one line.
pub fn observed_value(v: &str) -> (r: String)
    requires
        cuttable(v@),
    ensures
        r@ == observed(v@),
{
    let t = trim_str(v);
    let c = chars_of(t.as_str());
    let mut o: Vec<char> = Vec::new();
    let mut i: usize = 0;
    while i < c.len()
        invariant
            i <= c@.len(),
            o@ == unbroken(c@.take(i as int)),
        decreases c.len() - i,
    {
        let ch = c[i];
        o.push(if ch == '\n' { ' ' } else { ch });
        proof {
            assert(c@.take(i + 1) =~= c@.take(i as int).push(ch));
            assert(unbroken(c@.take(i + 1)) =~= unbroken(c@.take(i as int)).push(
                if ch == '\n' { ' ' } else { ch },
            ));
        }
        i = i + 1;
    }
    assert(c@.take(c@.len() as int) =~= c@);
    let ghost s = o@;
    assert(s == one_line(v@));
    let mut acc: usize = 0;
    let mut k: usize = 0;
    assert(s.take(0) =~= Seq::<char>::empty());
    while k < o.len() && acc <= MAX_OBSERVED_BYTES
        invariant
            k <= s.len(),
            s == o@,
            acc as int == utf8_len(s.take(k as int)),
            acc <= MAX_OBSERVED_BYTES + 4,
        decreases s.len() - k,
    {
        proof {
            lemma_utf8_take(s, k as int);
        }
        acc = acc + width(o[k]);
        k = k + 1;
    }
    if acc <= MAX_OBSERVED_BYTES {
        assert(s.take(k as int) =~= s);
        return string_of(o.as_slice());
    }
    proof {
        lemma_utf8_mono(s, k as int);
    }
    let mut cut: usize = 0;
    let mut used: usize = 0;
    assert(s.skip(0) =~= s);
    assert(Seq::<char>::empty() + s =~= s);
    while used < MAX_OBSERVED_BYTES
        invariant
            cut <= s.len(),
            s == o@,
            used <= MAX_OBSERVED_BYTES,
            byte_prefix(s, MAX_OBSERVED_BYTES as int) is Some,
            byte_prefix(s, MAX_OBSERVED_BYTES as int) == match byte_prefix(s.skip(cut as int), MAX_OBSERVED_BYTES - used) {
                Some(p) => Some(s.take(cut as int) + p),
                None => None,
            },
        decreases s.len() - cut,
    {
        assert(cut < s.len()) by {
            if cut == s.len() {
                assert(s.skip(cut as int).len() == 0);
            }
        }
        let w = width(o[cut]);
        proof {
            let rest = s.skip(cut as int);
            assert(rest[0] == s[cut as int]);
            assert(rest.skip(1) =~= s.skip(cut + 1));
            if w > MAX_OBSERVED_BYTES - used {
                assert(byte_prefix(rest, MAX_OBSERVED_BYTES - used) is None);
            }
            match byte_prefix(s.skip(cut + 1), MAX_OBSERVED_BYTES - used - w) {
                Some(p) => {
                    assert(s.take(cut as int) + (seq![s[cut as int]] + p) =~= s.take(cut + 1) + p);
                },
                None => {},
            }
        }
        let olen: usize = o.len();
        assert(cut < olen);
        used = used + w;
        cut = cut + 1;
    }
    proof {
        assert(s.take(cut as int) + Seq::<char>::empty() =~= s.take(cut as int));
    }
    let mut out = string_of(slice_range(o.as_slice(), 0, cut).as_slice());
    assert(o@.subrange(0, cut as int) =~= s.take(cut as int));
    push_str(&mut out, "...");
    out
}

fn observed_opt(v: &Option<String>) -> (r: Option<String>)
    requires
        opt_cuttable(opt_view(*v)),
    ensures
        opt_view(r) == opt_observed(opt_view(*v)),
{
    match v {
        Some(x) => Some(observed_value(x.as_str())),
        None => None,
    }
}


// ---------------------------------------------------------------------------
// Terminal state
// ---------------------------------------------------------------------------

/// The present values of a list of optional texts.
pub open spec fn present(opts: Seq<Option<Seq<char>>>) -> Seq<Seq<char>>
    decreases opts.len(),
{
    if opts.len() == 0 {
        Seq::empty()
    } else {
        match opts.last() {
            Some(v) => present(opts.drop_last()).push(v),
            None => present(opts.drop_last()),
        }
    }
}

/// The guard and the evidence's contract, reason, failure kind, diagnostic
/// code and diagnostic, one per line, lower-cased.
pub open spec fn combined_text(e: ContractEvidence) -> Seq<char> {
    lower(
        join(
            present(
                seq![
                    Some(e.guard@),
                    opt_view(e.violated_contract),
                    opt_view(e.reason_code),
                    opt_view(e.failure_kind),
                    opt_view(e.diagnostic_code),
                    opt_view(e.diagnostic),
                ],
            ),
            "\n"@,
        ),
    )
}

/// The terminal state a guard's evidence describes.
pub open spec fn terminal_of(e: ContractEvidence) -> TerminalState {
    let g = e.guard@;
    let c = combined_text(e);
    if starts_with(g, "plan_parse"@) || contains(c, "invalid plan yaml"@) {
        TerminalState::PlanParseFailed
    } else if starts_with(g, "plan_schema"@) || contains(c, "plan_file_schema"@) {
        TerminalState::PlanSchemaFailed
    } else if starts_with(g, "plan_lint"@) {
        TerminalState::PlanLintFailed
    } else if starts_with(g, "provider"@) {
        if contains(c, "parse"@) || contains(c, "tool_call"@) {
            TerminalState::ProviderParseFailed
        } else {
            TerminalState::ProviderTransportFailed
        }
    } else if g == "tool_protocol"@ {
        TerminalState::ToolProtocolFailed
    } else if g == "step_policy"@ {
        TerminalState::StepPolicyFailed
    } else if g == "profile"@ || starts_with(g, "profile_"@) {
        TerminalState::ProfileContractFailed
    } else if g == "setup"@ {
        if contains(c, "eaddrinuse"@) || contains(c, "port_in_use"@) {
            TerminalState::PortInUse
        } else if contains(c, "dependency_missing"@) || contains(c, "dependency"@) {
            TerminalState::DependencyMissing
        } else {
            TerminalState::SetupFailed
        }
    } else if g == "verifier"@ {
        if contains(c, "dependency_missing"@) || contains(c, "node_modules/.bin"@) {
            TerminalState::DependencyMissing
        } else if contains(c, "eaddrinuse"@) || contains(c, "address already in use"@) {
            TerminalState::PortInUse
        } else {
            TerminalState::VerifierCommandFailed
        }
    } else if g == "evidence_binding"@ {
        TerminalState::EvidenceBindingFailed
    } else if g == "completion_evidence"@ {
        if contains(c, "missing"@) {
            TerminalState::MissingEvidence
        } else {
            TerminalState::CompletionEvidenceFailed
        }
    } else if g == "recovery"@ && contains(c, "missing_required_artifact"@) {
        TerminalState::MissingDeliverable
    } else if (g == "repair"@ || g == "recovery"@) && (e.explicit_stop_reason is Some || opt_view(
        e.active_job,
    ) == Some("explicit_stop"@)) {
        TerminalState::ExplicitStop
    } else if (g == "repair"@ || g == "recovery"@) && (contains(c, "exhaust"@) || contains(
        c,
        "no_progress"@,
    )) {
        TerminalState::RepairExhausted
    } else {
        TerminalState::Unknown
    }
}

/// The guards that name their failure outright: evidence from the tool
/// protocol guard is a tool protocol failure, from the step policy guard a
/// step policy failure, from the profile guards (`profile`, `profile_*`)
/// a profile contract failure, and from the evidence binding guard an
/// evidence binding failure; unless its text reports an invalid plan YAML
/// or a plan file schema problem, which come first.
pub proof fn lemma_named_guard_states(e: ContractEvidence)
    requires
        !contains(combined_text(e), "invalid plan yaml"@),
        !contains(combined_text(e), "plan_file_schema"@),
    ensures
        e.guard@ == "tool_protocol"@ ==> terminal_of(e) == TerminalState::ToolProtocolFailed,
        e.guard@ == "step_policy"@ ==> terminal_of(e) == TerminalState::StepPolicyFailed,
        (e.guard@ == "profile"@ || starts_with(e.guard@, "profile_"@)) ==> terminal_of(e)
            == TerminalState::ProfileContractFailed,
        e.guard@ == "evidence_binding"@ ==> terminal_of(e) == TerminalState::EvidenceBindingFailed,
{
    let g = e.guard@;
    reveal_strlit("plan_parse");
    reveal_strlit("plan_schema");
    reveal_strlit("plan_lint");
    reveal_strlit("provider");
    reveal_strlit("tool_protocol");
    reveal_strlit("step_policy");
    reveal_strlit("profile");
    reveal_strlit("profile_");
    reveal_strlit("evidence_binding");
    if g == "tool_protocol"@ || g == "step_policy"@ || g == "evidence_binding"@ {
        crate::text::lemma_differs_at(g, "plan_parse"@, 0);
        crate::text::lemma_differs_at(g, "plan_schema"@, 0);
        crate::text::lemma_differs_at(g, "plan_lint"@, 0);
        crate::text::lemma_differs_at(g, "provider"@, 0);
    }
    if g == "step_policy"@ {
        crate::text::lemma_differs_at(g, "tool_protocol"@, 0);
    }
    if g == "evidence_binding"@ {
        crate::text::lemma_differs_at(g, "tool_protocol"@, 0);
        crate::text::lemma_differs_at(g, "step_policy"@, 0);
        crate::text::lemma_differs_at(g, "profile"@, 0);
        crate::text::lemma_differs_at(g, "profile_"@, 0);
        reveal_strlit("setup");
        reveal_strlit("verifier");
        crate::text::lemma_differs_at(g, "setup"@, 0);
        crate::text::lemma_differs_at(g, "verifier"@, 0);
    }
    if g == "profile"@ || starts_with(g, "profile_"@) {
        if starts_with(g, "profile_"@) {
            assert(g.subrange(0, 8)[0] == g[0]);
            assert(g.subrange(0, 8)[1] == g[1]);
            assert(g.subrange(0, 8)[3] == g[3]);
        }
        crate::text::lemma_differs_at(g, "plan_parse"@, 1);
        crate::text::lemma_differs_at(g, "plan_schema"@, 1);
        crate::text::lemma_differs_at(g, "plan_lint"@, 1);
        crate::text::lemma_differs_at(g, "provider"@, 3);
        crate::text::lemma_differs_at(g, "tool_protocol"@, 0);
        crate::text::lemma_differs_at(g, "step_policy"@, 0);
    }
}

/// The guards whose failure depends on what the evidence says (read in
/// lower case over the guard, contract, reason, failure kind and
/// diagnostics): setup evidence is a port in use when it mentions
/// `eaddrinuse` or `port_in_use`, else a missing dependency when it
/// mentions a dependency, else a setup failure; verifier evidence is a
/// missing dependency when it mentions `dependency_missing` or
/// `node_modules/.bin`, else a port in use when it mentions `eaddrinuse` or
/// `address already in use`, else a failed verifier command; completion
/// evidence is missing evidence when it mentions `missing`, else a failed
/// completion check. An invalid plan YAML or plan file schema problem in
/// the text comes first.
pub proof fn lemma_contextual_guard_states(e: ContractEvidence)
    requires
        !contains(combined_text(e), "invalid plan yaml"@),
        !contains(combined_text(e), "plan_file_schema"@),
    ensures
        ({
            let c = combined_text(e);
            e.guard@ == "setup"@ ==> terminal_of(e) == (if contains(c, "eaddrinuse"@) || contains(c, "port_in_use"@) {
                TerminalState::PortInUse
            } else if contains(c, "dependency"@) {
                TerminalState::DependencyMissing
            } else {
                TerminalState::SetupFailed
            })
        }),
        ({
            let c = combined_text(e);
            e.guard@ == "verifier"@ ==> terminal_of(e) == (if contains(c, "dependency_missing"@) || contains(
                c,
                "node_modules/.bin"@,
            ) {
                TerminalState::DependencyMissing
            } else if contains(c, "eaddrinuse"@) || contains(c, "address already in use"@) {
                TerminalState::PortInUse
            } else {
                TerminalState::VerifierCommandFailed
            })
        }),
        ({
            let c = combined_text(e);
            e.guard@ == "completion_evidence"@ ==> terminal_of(e) == (if contains(c, "missing"@) {
                TerminalState::MissingEvidence
            } else {
                TerminalState::CompletionEvidenceFailed
            })
        }),
{
    let g = e.guard@;
    let c = combined_text(e);
    reveal_strlit("plan_parse");
    reveal_strlit("plan_schema");
    reveal_strlit("plan_lint");
    reveal_strlit("provider");
    reveal_strlit("tool_protocol");
    reveal_strlit("step_policy");
    reveal_strlit("profile");
    reveal_strlit("profile_");
    reveal_strlit("setup");
    reveal_strlit("verifier");
    reveal_strlit("evidence_binding");
    reveal_strlit("completion_evidence");
    if g == "setup"@ {
        crate::text::lemma_differs_at(g, "plan_parse"@, 0);
        crate::text::lemma_differs_at(g, "plan_schema"@, 0);
        crate::text::lemma_differs_at(g, "plan_lint"@, 0);
        crate::text::lemma_differs_at(g, "provider"@, 0);
        crate::text::lemma_differs_at(g, "tool_protocol"@, 0);
        crate::text::lemma_differs_at(g, "step_policy"@, 1);
        crate::text::lemma_differs_at(g, "profile"@, 0);
        crate::text::lemma_differs_at(g, "profile_"@, 0);
        crate::text::lemma_differs_at(g, "verifier"@, 0);
        crate::text::lemma_differs_at(g, "evidence_binding"@, 0);
    }
    if g == "verifier"@ {
        crate::text::lemma_differs_at(g, "plan_parse"@, 0);
        crate::text::lemma_differs_at(g, "plan_schema"@, 0);
        crate::text::lemma_differs_at(g, "plan_lint"@, 0);
        crate::text::lemma_differs_at(g, "provider"@, 0);
        crate::text::lemma_differs_at(g, "tool_protocol"@, 0);
        crate::text::lemma_differs_at(g, "step_policy"@, 0);
        crate::text::lemma_differs_at(g, "profile"@, 0);
        crate::text::lemma_differs_at(g, "profile_"@, 0);
        crate::text::lemma_differs_at(g, "setup"@, 0);
        crate::text::lemma_differs_at(g, "evidence_binding"@, 0);
    }
    if g == "completion_evidence"@ {
        crate::text::lemma_differs_at(g, "plan_parse"@, 0);
        crate::text::lemma_differs_at(g, "plan_schema"@, 0);
        crate::text::lemma_differs_at(g, "plan_lint"@, 0);
        crate::text::lemma_differs_at(g, "provider"@, 0);
        crate::text::lemma_differs_at(g, "tool_protocol"@, 0);
        crate::text::lemma_differs_at(g, "step_policy"@, 0);
        crate::text::lemma_differs_at(g, "profile"@, 0);
        crate::text::lemma_differs_at(g, "profile_"@, 0);
        crate::text::lemma_differs_at(g, "setup"@, 0);
        crate::text::lemma_differs_at(g, "verifier"@, 0);
        crate::text::lemma_differs_at(g, "evidence_binding"@, 0);
    }
    if g == "setup"@ && contains(c, "dependency_missing"@) {
        reveal_strlit("dependency_missing");
        reveal_strlit("dependency");
        let i = choose|i: int| occurs_at(c, "dependency_missing"@, i);
        assert(c.subrange(i, i + 10) =~= "dependency"@) by {
            assert forall|k: int| 0 <= k < 10 implies c.subrange(i, i + 10)[k] == "dependency"@[k] by {
                assert(c.subrange(i, i + 18)[k] == c[i + k]);
            }
        }
        assert(occurs_at(c, "dependency"@, i));
    }
}

/// The plan and provider guards, and the recovery loop's. Evidence whose
/// guard starts with `plan_parse`, or whose text reports an invalid plan
/// YAML, is a plan parse failure; otherwise a guard starting with
/// `plan_schema`, or text naming the plan file schema, is a plan schema
/// failure; otherwise a guard starting with `plan_lint` is a lint failure;
/// otherwise a guard starting with `provider` is a provider parse failure
/// when the text speaks of parsing or a tool call, and a transport failure
/// otherwise. From the `recovery` guard, a missing required artifact is a
/// missing deliverable; from `repair` or `recovery`, an explicit stop
/// (a stop reason, or the `explicit_stop` job) is an explicit stop, and
/// otherwise exhaustion or no progress means repair is exhausted.
pub proof fn lemma_plan_provider_recovery_states(e: ContractEvidence)
    ensures
        ({
            let g = e.guard@;
            let c = combined_text(e);
            let parse = starts_with(g, "plan_parse"@) || contains(c, "invalid plan yaml"@);
            let schema = starts_with(g, "plan_schema"@) || contains(c, "plan_file_schema"@);
            &&& parse ==> terminal_of(e) == TerminalState::PlanParseFailed
            &&& !parse && schema ==> terminal_of(e) == TerminalState::PlanSchemaFailed
            &&& !parse && !schema && starts_with(g, "plan_lint"@) ==> terminal_of(e) == TerminalState::PlanLintFailed
            &&& !parse && !schema && starts_with(g, "provider"@) ==> terminal_of(e) == (if contains(c, "parse"@)
                || contains(c, "tool_call"@) {
                TerminalState::ProviderParseFailed
            } else {
                TerminalState::ProviderTransportFailed
            })
            &&& !parse && !schema && g == "recovery"@ && contains(c, "missing_required_artifact"@) ==> terminal_of(e)
                == TerminalState::MissingDeliverable
            &&& !parse && !schema && (g == "repair"@ || (g == "recovery"@ && !contains(
                c,
                "missing_required_artifact"@,
            ))) ==> terminal_of(e) == (if e.explicit_stop_reason is Some || opt_view(e.active_job) == Some(
                "explicit_stop"@,
            ) {
                TerminalState::ExplicitStop
            } else if contains(c, "exhaust"@) || contains(c, "no_progress"@) {
                TerminalState::RepairExhausted
            } else {
                TerminalState::Unknown
            })
        }),
{
    let g = e.guard@;
    reveal_strlit("plan_parse");
    reveal_strlit("plan_schema");
    reveal_strlit("plan_lint");
    reveal_strlit("provider");
    reveal_strlit("tool_protocol");
    reveal_strlit("step_policy");
    reveal_strlit("profile");
    reveal_strlit("profile_");
    reveal_strlit("setup");
    reveal_strlit("verifier");
    reveal_strlit("evidence_binding");
    reveal_strlit("completion_evidence");
    reveal_strlit("recovery");
    reveal_strlit("repair");
    if starts_with(g, "plan_lint"@) {
        reveal_strlit("plan_lint");
        crate::text::lemma_prefix_excludes(g, "plan_lint"@, "plan_parse"@, 5);
        crate::text::lemma_prefix_excludes(g, "plan_lint"@, "plan_schema"@, 5);
    }
    if starts_with(g, "provider"@) {
        crate::text::lemma_prefix_excludes(g, "provider"@, "plan_parse"@, 1);
        crate::text::lemma_prefix_excludes(g, "provider"@, "plan_schema"@, 1);
        crate::text::lemma_prefix_excludes(g, "provider"@, "plan_lint"@, 1);
    }
    if g == "recovery"@ || g == "repair"@ {
        crate::text::lemma_differs_at(g, "plan_parse"@, 0);
        crate::text::lemma_differs_at(g, "plan_schema"@, 0);
        crate::text::lemma_differs_at(g, "plan_lint"@, 0);
        crate::text::lemma_differs_at(g, "provider"@, 0);
        crate::text::lemma_differs_at(g, "tool_protocol"@, 0);
        crate::text::lemma_differs_at(g, "step_policy"@, 0);
        crate::text::lemma_differs_at(g, "profile"@, 0);
        crate::text::lemma_differs_at(g, "profile_"@, 0);
        crate::text::lemma_differs_at(g, "setup"@, 0);
        crate::text::lemma_differs_at(g, "verifier"@, 0);
        crate::text::lemma_differs_at(g, "evidence_binding"@, 0);
        crate::text::lemma_differs_at(g, "completion_evidence"@, 0);
    }
}

fn push_present(parts: &mut Vec<String>, o: &Option<String>, ghost_opts: Ghost<Seq<Option<Seq<char>>>>)
    requires
        views(old(parts)@) == present(ghost_opts@),
    ensures
        views(final(parts)@) == present(ghost_opts@.push(opt_view(*o))),
{
    let ghost all = ghost_opts@.push(opt_view(*o));
    assert(all.drop_last() =~= ghost_opts@);
    match o {
        Some(v) => {
            let ghost before = parts@;
            parts.push(copy_string(v));
            assert(views(parts@) =~= views(before).push(v@));
        },
        None => {},
    }
}

fn combined(e: &ContractEvidence) -> (r: String)
    ensures
        r@ == combined_text(*e),
{
    let mut parts: Vec<String> = Vec::new();
    let ghost o0: Seq<Option<Seq<char>>> = Seq::empty();
    proof {
        assert(views(parts@) =~= Seq::<Seq<char>>::empty());
    }
    let guard = Some(copy_string(&e.guard));
    push_present(&mut parts, &guard, Ghost(o0));
    let ghost o1 = o0.push(Some(e.guard@));
    push_present(&mut parts, &e.violated_contract, Ghost(o1));
    let ghost o2 = o1.push(opt_view(e.violated_contract));
    push_present(&mut parts, &e.reason_code, Ghost(o2));
    let ghost o3 = o2.push(opt_view(e.reason_code));
    push_present(&mut parts, &e.failure_kind, Ghost(o3));
    let ghost o4 = o3.push(opt_view(e.failure_kind));
    push_present(&mut parts, &e.diagnostic_code, Ghost(o4));
    let ghost o5 = o4.push(opt_view(e.diagnostic_code));
    push_present(&mut parts, &e.diagnostic, Ghost(o5));
    let ghost o6 = o5.push(opt_view(e.diagnostic));
    assert(o6 =~= seq![
        Some(e.guard@),
        opt_view(e.violated_contract),
        opt_view(e.reason_code),
        opt_view(e.failure_kind),
        opt_view(e.diagnostic_code),
        opt_view(e.diagnostic),
    ]);
    let joined = join_strings(&parts, "\n");
    lower_str(joined.as_str())
}

/// The terminal state a guard's evidence describes.
pub fn terminal_state_from_contract_evidence(e: &ContractEvidence) -> (r: TerminalState)
    ensures
        r == terminal_of(*e),
{
    let g = e.guard.as_str();
    let cs = combined(e);
    let c = cs.as_str();
    if str_starts_with(g, "plan_parse") || str_contains(c, "invalid plan yaml") {
        TerminalState::PlanParseFailed
    } else if str_starts_with(g, "plan_schema") || str_contains(c, "plan_file_schema") {
        TerminalState::PlanSchemaFailed
    } else if str_starts_with(g, "plan_lint") {
        TerminalState::PlanLintFailed
    } else if str_starts_with(g, "provider") {
        if str_contains(c, "parse") || str_contains(c, "tool_call") {
            TerminalState::ProviderParseFailed
        } else {
            TerminalState::ProviderTransportFailed
        }
    } else if str_eq(g, "tool_protocol") {
        TerminalState::ToolProtocolFailed
    } else if str_eq(g, "step_policy") {
        TerminalState::StepPolicyFailed
    } else if str_eq(g, "profile") || str_starts_with(g, "profile_") {
        TerminalState::ProfileContractFailed
    } else if str_eq(g, "setup") {
        if str_contains(c, "eaddrinuse") || str_contains(c, "port_in_use") {
            TerminalState::PortInUse
        } else if str_contains(c, "dependency_missing") || str_contains(c, "dependency") {
            TerminalState::DependencyMissing
        } else {
            TerminalState::SetupFailed
        }
    } else if str_eq(g, "verifier") {
        if str_contains(c, "dependency_missing") || str_contains(c, "node_modules/.bin") {
            TerminalState::DependencyMissing
        } else if str_contains(c, "eaddrinuse") || str_contains(c, "address already in use") {
            TerminalState::PortInUse
        } else {
            TerminalState::VerifierCommandFailed
        }
    } else if str_eq(g, "evidence_binding") {
        TerminalState::EvidenceBindingFailed
    } else if str_eq(g, "completion_evidence") {
        if str_contains(c, "missing") {
            TerminalState::MissingEvidence
        } else {
            TerminalState::CompletionEvidenceFailed
        }
    } else if str_eq(g, "recovery") && str_contains(c, "missing_required_artifact") {
        TerminalState::MissingDeliverable
    } else if (str_eq(g, "repair") || str_eq(g, "recovery")) && (e.explicit_stop_reason.is_some()
        || opt_is(&e.active_job, "explicit_stop")) {
        TerminalState::ExplicitStop
    } else if (str_eq(g, "repair") || str_eq(g, "recovery")) && (str_contains(c, "exhaust")
        || str_contains(c, "no_progress")) {
        TerminalState::RepairExhausted
    } else {
        TerminalState::Unknown
    }
}

/// The component that produced a failure of the terminal state.
pub open spec fn producer_of(e: ContractEvidence, t: TerminalState) -> FailureProducer {
    match t {
        TerminalState::Success => FailureProducer::ProcessResult,
        TerminalState::PlanParseFailed => FailureProducer::PlanParser,
        TerminalState::PlanSchemaFailed => FailureProducer::PlanSchema,
        TerminalState::PlanLintFailed => FailureProducer::PlanLint,
        TerminalState::ProviderTransportFailed => FailureProducer::ProviderTransport,
        TerminalState::ProviderParseFailed => FailureProducer::ProviderParser,
        TerminalState::ToolProtocolFailed => FailureProducer::ToolProtocol,
        TerminalState::StepPolicyFailed => FailureProducer::StepPolicy,
        TerminalState::ProfileContractFailed => FailureProducer::ProfileVerification,
        TerminalState::VerifierCommandFailed => FailureProducer::Verifier,
        TerminalState::DependencyMissing | TerminalState::SetupFailed => FailureProducer::SetupRuntime,
        TerminalState::PortInUse => FailureProducer::DevServer,
        TerminalState::MissingDeliverable | TerminalState::EvalAssertionFailed => FailureProducer::EvalSuccess,
        TerminalState::MissingEvidence | TerminalState::CompletionEvidenceFailed => FailureProducer::CompletionEvidence,
        TerminalState::EvidenceBindingFailed => FailureProducer::EvidenceBinding,
        TerminalState::RepairExhausted | TerminalState::ExplicitStop => FailureProducer::RecoveryLoop,
        TerminalState::Unknown => if starts_with(e.guard@, "provider"@) {
            FailureProducer::ProviderTransport
        } else {
            FailureProducer::Unknown
        },
    }
}

fn producer_from_contract_evidence(e: &ContractEvidence, t: TerminalState) -> (r: FailureProducer)
    ensures
        r == producer_of(*e, t),
{
    match t {
        TerminalState::Success => FailureProducer::ProcessResult,
        TerminalState::PlanParseFailed => FailureProducer::PlanParser,
        TerminalState::PlanSchemaFailed => FailureProducer::PlanSchema,
        TerminalState::PlanLintFailed => FailureProducer::PlanLint,
        TerminalState::ProviderTransportFailed => FailureProducer::ProviderTransport,
        TerminalState::ProviderParseFailed => FailureProducer::ProviderParser,
        TerminalState::ToolProtocolFailed => FailureProducer::ToolProtocol,
        TerminalState::StepPolicyFailed => FailureProducer::StepPolicy,
        TerminalState::ProfileContractFailed => FailureProducer::ProfileVerification,
        TerminalState::VerifierCommandFailed => FailureProducer::Verifier,
        TerminalState::DependencyMissing | TerminalState::SetupFailed => FailureProducer::SetupRuntime,
        TerminalState::PortInUse => FailureProducer::DevServer,
        TerminalState::MissingDeliverable | TerminalState::EvalAssertionFailed => FailureProducer::EvalSuccess,
        TerminalState::MissingEvidence | TerminalState::CompletionEvidenceFailed => FailureProducer::CompletionEvidence,
        TerminalState::EvidenceBindingFailed => FailureProducer::EvidenceBinding,
        TerminalState::RepairExhausted | TerminalState::ExplicitStop => FailureProducer::RecoveryLoop,
        TerminalState::Unknown => if str_starts_with(e.guard.as_str(), "provider") {
            FailureProducer::ProviderTransport
        } else {
            FailureProducer::Unknown
        },
    }
}

/// The setup state a terminal state reports.
pub open spec fn setup_state_of(e: ContractEvidence, t: TerminalState) -> Option<Seq<char>> {
    match t {
        TerminalState::DependencyMissing => Some("dependency_missing"@),
        TerminalState::SetupFailed => Some(
            match opt_view(e.failure_kind) {
                Some(k) => k,
                None => match opt_view(e.reason_code) {
                    Some(r) => r,
                    None => "setup_failed"@,
                },
            },
        ),
        TerminalState::PortInUse => Some("port_in_use"@),
        _ => None,
    }
}

fn setup_state_from_terminal(t: TerminalState, e: &ContractEvidence) -> (r: Option<String>)
    ensures
        opt_view(r) == setup_state_of(*e, t),
{
    match t {
        TerminalState::DependencyMissing => Some(owned("dependency_missing")),
        TerminalState::SetupFailed => Some(
            match &e.failure_kind {
                Some(k) => copy_string(k),
                None => match &e.reason_code {
                    Some(r) => copy_string(r),
                    None => owned("setup_failed"),
                },
            },
        ),
        TerminalState::PortInUse => Some(owned("port_in_use")),
        _ => None,
    }
}

// ---------------------------------------------------------------------------
// Statuses and ports
// ---------------------------------------------------------------------------

/// What follows `key` in the first word that starts with it.
pub open spec fn word_status(ws: Seq<Seq<char>>, key: Seq<char>) -> Option<Seq<char>>
    decreases ws.len(),
{
    if ws.len() == 0 {
        None
    } else {
        match word_status(ws.drop_last(), key) {
            Some(x) => Some(x),
            None => after_prefix(ws.last(), key),
        }
    }
}

/// What follows `key` in the first word of the first value that has one.
pub open spec fn list_status(values: Seq<Seq<char>>, key: Seq<char>) -> Option<Seq<char>>
    decreases values.len(),
{
    if values.len() == 0 {
        None
    } else {
        match list_status(values.drop_last(), key) {
            Some(x) => Some(x),
            None => word_status(words(values.last()), key),
        }
    }
}

/// What follows `artifact_ledger_status=` in the first field that starts
/// with it.
pub open spec fn ledger_status(values: Seq<Seq<char>>) -> Option<Seq<char>>
    decreases values.len(),
{
    if values.len() == 0 {
        None
    } else {
        match ledger_status(values.drop_last()) {
            Some(x) => Some(x),
            None => after_prefix(values.last(), "artifact_ledger_status="@),
        }
    }
}

/// The raw status of the evidence runner: from completion evidence, else
/// from evidence bindings.
pub open spec fn runner_status(e: ContractEvidence) -> Option<Seq<char>> {
    match list_status(views(e.completion_evidence@), "status="@) {
        Some(x) => Some(x),
        None => list_status(views(e.evidence_binding@), "status="@),
    }
}

fn find_word_status(ws: &Vec<String>, key: &str) -> (r: Option<String>)
    ensures
        opt_view(r) == word_status(views(ws@), key@),
{
    let ghost vs = views(ws@);
    let mut i: usize = 0;
    while i < ws.len()
        invariant
            i <= ws@.len(),
            vs == views(ws@),
            word_status(vs.take(i as int), key@) is None,
        decreases ws.len() - i,
    {
        proof {
            assert(vs.take(i + 1).drop_last() =~= vs.take(i as int));
        }
        match strip_prefix_str(ws[i].as_str(), key) {
            Some(rest) => {
                proof {
                    lemma_word_status_prefix(vs, key@, i as int + 1);
                }
                return Some(rest);
            },
            None => {},
        }
        i = i + 1;
    }
    assert(vs.take(ws@.len() as int) =~= vs);
    None
}

proof fn lemma_word_status_prefix(ws: Seq<Seq<char>>, key: Seq<char>, n: int)
    requires
        1 <= n <= ws.len(),
        word_status(ws.take(n), key) is Some,
    ensures
        word_status(ws, key) == word_status(ws.take(n), key),
    decreases ws.len() - n,
{
    if n < ws.len() {
        assert(ws.take(n + 1).drop_last() =~= ws.take(n));
        lemma_word_status_prefix(ws, key, n + 1);
    } else {
        assert(ws.take(n) =~= ws);
    }
}

proof fn lemma_list_status_prefix(vs: Seq<Seq<char>>, key: Seq<char>, n: int)
    requires
        1 <= n <= vs.len(),
        list_status(vs.take(n), key) is Some,
    ensures
        list_status(vs, key) == list_status(vs.take(n), key),
    decreases vs.len() - n,
{
    if n < vs.len() {
        assert(vs.take(n + 1).drop_last() =~= vs.take(n));
        lemma_list_status_prefix(vs, key, n + 1);
    } else {
        assert(vs.take(n) =~= vs);
    }
}

proof fn lemma_ledger_status_prefix(vs: Seq<Seq<char>>, n: int)
    requires
        1 <= n <= vs.len(),
        ledger_status(vs.take(n)) is Some,
    ensures
        ledger_status(vs) == ledger_status(vs.take(n)),
    decreases vs.len() - n,
{
    if n < vs.len() {
        assert(vs.take(n + 1).drop_last() =~= vs.take(n));
        lemma_ledger_status_prefix(vs, n + 1);
    } else {
        assert(vs.take(n) =~= vs);
    }
}

fn find_list_status(values: &Vec<String>, key: &str) -> (r: Option<String>)
    ensures
        opt_view(r) == list_status(views(values@), key@),
{
    let ghost vs = views(values@);
    let mut i: usize = 0;
    while i < values.len()
        invariant
            i <= values@.len(),
            vs == views(values@),
            list_status(vs.take(i as int), key@) is None,
        decreases values.len() - i,
    {
        proof {
            assert(vs.take(i + 1).drop_last() =~= vs.take(i as int));
        }
        let ws = split_words(values[i].as_str());
        match find_word_status(&ws, key) {
            Some(rest) => {
                proof {
                    lemma_list_status_prefix(vs, key@, i as int + 1);
                }
                return Some(rest);
            },
            None => {},
        }
        i = i + 1;
    }
    assert(vs.take(values@.len() as int) =~= vs);
    None
}

fn find_ledger_status(values: &Vec<String>) -> (r: Option<String>)
    ensures
        opt_view(r) == ledger_status(views(values@)),
{
    let ghost vs = views(values@);
    let mut i: usize = 0;
    while i < values.len()
        invariant
            i <= values@.len(),
            vs == views(values@),
            ledger_status(vs.take(i as int)) is None,
        decreases values.len() - i,
    {
        proof {
            assert(vs.take(i + 1).drop_last() =~= vs.take(i as int));
        }
        match strip_prefix_str(values[i].as_str(), "artifact_ledger_status=") {
            Some(rest) => {
                proof {
                    lemma_ledger_status_prefix(vs, i as int + 1);
                }
                return Some(rest);
            },
            None => {},
        }
        i = i + 1;
    }
    assert(vs.take(values@.len() as int) =~= vs);
    None
}

/// The first index at or after `i` where `n` occurs in `h`, or -1.
pub open spec fn find_from(h: Seq<char>, n: Seq<char>, i: int) -> int
    decreases h.len() + 1 - i,
{
    if i < 0 || i + n.len() > h.len() {
        -1
    } else if occurs_at(h, n, i) {
        i
    } else {
        find_from(h, n, i + 1)
    }
}

/// The second piece of `v` split at `m` (`v.split(m).nth(1)`).
pub open spec fn second_piece(v: Seq<char>, m: Seq<char>) -> Option<Seq<char>> {
    let i = find_from(v, m, 0);
    if i < 0 {
        None
    } else {
        let rest = v.skip(i + m.len());
        let j = find_from(rest, m, 0);
        Some(if j < 0 { rest } else { rest.take(j) })
    }
}

pub open spec fn is_digit(c: char) -> bool {
    '0' <= c && c <= '9'
}

/// The leading ASCII digits.
pub open spec fn leading_digits(s: Seq<char>) -> Seq<char>
    decreases s.len(),
{
    if s.len() > 0 && is_digit(s[0]) {
        seq![s[0]] + leading_digits(s.skip(1))
    } else {
        Seq::empty()
    }
}

/// The port after the first marker (`:::`, `localhost:`, `127.0.0.1:`)
/// that is followed by digits.
pub open spec fn port_in(v: Seq<char>, markers: Seq<Seq<char>>) -> Option<Seq<char>>
    decreases markers.len(),
{
    if markers.len() == 0 {
        None
    } else {
        match second_piece(v, markers[0]) {
            Some(p) if leading_digits(p).len() > 0 => Some(leading_digits(p)),
            _ => port_in(v, markers.skip(1)),
        }
    }
}

pub open spec fn port_markers() -> Seq<Seq<char>> {
    seq![":::"@, "localhost:"@, "127.0.0.1:"@]
}

/// The port named in the first text that names one.
pub open spec fn port_of(texts: Seq<Option<Seq<char>>>) -> Option<Seq<char>>
    decreases texts.len(),
{
    if texts.len() == 0 {
        None
    } else {
        match texts[0] {
            Some(v) => match port_in(v, port_markers()) {
                Some(p) => Some(p),
                None => port_of(texts.skip(1)),
            },
            None => port_of(texts.skip(1)),
        }
    }
}

/// The first index at or after `i` where `n` occurs in `h`.
pub fn find_from_exec(h: &[char], n: &[char], i: usize) -> (r: Option<usize>)
    requires
        n@.len() > 0,
    ensures
        match r {
            Some(k) => k as int == find_from(h@, n@, i as int),
            None => find_from(h@, n@, i as int) == -1,
        },
{
    if n.len() > h.len() {
        return None;
    }
    let hl: usize = h.len();
    let last = h.len() - n.len();
    let mut k = i;
    while k <= last
        invariant
            hl == h@.len(),
            n@.len() > 0,
            last + n@.len() == h@.len(),
            i <= k,
            find_from(h@, n@, i as int) == find_from(h@, n@, k as int),
        decreases last + 1 - k,
    {
        if occurs_at_exec(h, n, k) {
            return Some(k);
        }
        k = k + 1;
    }
    None
}

fn second_piece_exec(v: &[char], m: &[char]) -> (r: Option<Vec<char>>)
    requires
        m@.len() > 0,
    ensures
        match r {
            Some(p) => second_piece(v@, m@) == Some(p@),
            None => second_piece(v@, m@) is None,
        },
{
    match find_from_exec(v, m, 0) {
        None => None,
        Some(i) => {
            proof {
                lemma_find_from_found(v@, m@, 0);
            }
            let vl: usize = v.len();
            assert(i + m@.len() <= vl);
            let rest = slice_range(v, i + m.len(), v.len());
            assert(rest@ =~= v@.skip(i + m@.len()));
            match find_from_exec(rest.as_slice(), m, 0) {
                None => Some(rest),
                Some(j) => {
                    proof {
                        lemma_find_bound(rest@, m@, 0);
                    }
                    let piece = slice_range(rest.as_slice(), 0, j);
                    assert(piece@ =~= rest@.take(j as int));
                    Some(piece)
                },
            }
        },
    }
}

pub proof fn lemma_find_from_found(h: Seq<char>, n: Seq<char>, i: int)
    ensures
        find_from(h, n, i) >= 0 ==> occurs_at(h, n, find_from(h, n, i)),
    decreases h.len() + 1 - i,
{
    if !(i < 0 || i + n.len() > h.len()) && !occurs_at(h, n, i) {
        lemma_find_from_found(h, n, i + 1);
    }
}

proof fn lemma_find_bound(h: Seq<char>, n: Seq<char>, i: int)
    ensures
        find_from(h, n, i) >= 0 ==> find_from(h, n, i) <= h.len(),
    decreases h.len() + 1 - i,
{
    if !(i < 0 || i + n.len() > h.len()) && !occurs_at(h, n, i) {
        lemma_find_bound(h, n, i + 1);
    }
}

fn leading_digits_exec(s: &[char]) -> (r: Vec<char>)
    ensures
        r@ == leading_digits(s@),
{
    let mut k: usize = 0;
    assert(s@.skip(0) =~= s@);
    assert(Seq::<char>::empty() + leading_digits(s@) =~= leading_digits(s@));
    while k < s.len() && '0' <= s[k] && s[k] <= '9'
        invariant
            k <= s@.len(),
            leading_digits(s@) == s@.take(k as int) + leading_digits(s@.skip(k as int)),
        decreases s.len() - k,
    {
        proof {
            let t = s@.skip(k as int);
            assert(t[0] == s@[k as int]);
            assert(t.skip(1) =~= s@.skip(k + 1));
            assert(s@.take(k as int) + (seq![s@[k as int]] + leading_digits(s@.skip(k + 1))) =~= s@.take(k + 1)
                + leading_digits(s@.skip(k + 1)));
        }
        k = k + 1;
    }
    proof {
        let t = s@.skip(k as int);
        assert(leading_digits(t) =~= Seq::<char>::empty());
        assert(s@.take(k as int) + Seq::<char>::empty() =~= s@.take(k as int));
    }
    slice_range(s, 0, k)
}

fn port_in_text(v: &str) -> (r: Option<String>)
    ensures
        opt_view(r) == port_in(v@, port_markers()),
{
    let c = chars_of(v);
    let markers = [":::", "localhost:", "127.0.0.1:"];
    let ghost ms = port_markers();
    let mut k: usize = 0;
    proof {
        reveal_strlit(":::");
        reveal_strlit("localhost:");
        reveal_strlit("127.0.0.1:");
        assert(crate::text::str_views(markers@) == ms);
        assert(ms.skip(0) =~= ms);
    }
    while k < 3
        invariant
            k <= 3,
            c@ == v@,
            ms == port_markers(),
            crate::text::str_views(markers@) == ms,
            port_in(v@, ms) == port_in(v@, ms.skip(k as int)),
            forall|j: int| 0 <= j < 3 ==> (#[trigger] ms[j]).len() > 0,
        decreases 3 - k,
    {
        let m = chars_of(markers[k]);
        assert(m@ == ms[k as int]);
        proof {
            assert(ms.skip(k as int)[0] == ms[k as int]);
            assert(ms.skip(k as int).skip(1) =~= ms.skip(k + 1));
        }
        match second_piece_exec(c.as_slice(), m.as_slice()) {
            Some(p) => {
                let d = leading_digits_exec(p.as_slice());
                if d.len() > 0 {
                    return Some(string_of(d.as_slice()));
                }
            },
            None => {},
        }
        k = k + 1;
    }
    assert(ms.skip(3).len() == 0);
    None
}

fn port_from_texts(a: &Option<String>, b: &Option<String>, c: &Option<String>) -> (r: Option<String>)
    ensures
        opt_view(r) == port_of(seq![opt_view(*a), opt_view(*b), opt_view(*c)]),
{
    let ghost ts = seq![opt_view(*a), opt_view(*b), opt_view(*c)];
    proof {
        reveal_with_fuel(port_of, 4);
    }
    assert(ts.skip(1) =~= seq![opt_view(*b), opt_view(*c)]);
    assert(ts.skip(1).skip(1) =~= seq![opt_view(*c)]);
    assert(ts.skip(1).skip(1).skip(1) =~= Seq::<Option<Seq<char>>>::empty());
    match a {
        Some(v) => match port_in_text(v.as_str()) {
            Some(p) => {
                return Some(p);
            },
            None => {},
        },
        None => {},
    }
    match b {
        Some(v) => match port_in_text(v.as_str()) {
            Some(p) => {
                return Some(p);
            },
            None => {},
        },
        None => {},
    }
    match c {
        Some(v) => match port_in_text(v.as_str()) {
            Some(p) => {
                return Some(p);
            },
            None => {},
        },
        None => {},
    }
    None
}


// ---------------------------------------------------------------------------
// The observation
// ---------------------------------------------------------------------------

/// A normalized failure observation.
#[derive(Debug, Clone, PartialEq, Eq)]
pub struct FailureObservation {
    pub schema_version: String,
    pub terminal_state: TerminalState,
    pub failure_class: FailureObservationClass,
    pub contract_layer: ContractLayer,
    pub violated_contract: String,
    pub source: String,
    pub source_of_truth: String,
    pub producer: FailureProducer,
    pub guard: String,
    pub diagnostic_code: String,
    pub failure_signature: Option<String>,
    pub command: Option<String>,
    pub tool: Option<String>,
    pub target_path: Option<String>,
    pub target_role: Option<String>,
    pub failed_step: Option<String>,
    pub setup_state: Option<String>,
    pub port: Option<String>,
    pub evidence_runner_status: Option<String>,
    pub artifact_ledger_status: Option<String>,
    pub actionability: FailureActionability,
    pub explicit_stop_reason: Option<String>,
}

pub open spec fn or_else(a: Option<Seq<char>>, b: Option<Seq<char>>) -> Option<Seq<char>> {
    if a is Some {
        a
    } else {
        b
    }
}

/// The diagnostic code before it is cut: the evidence's diagnostic code,
/// reason code or violated contract, else the terminal state's name.
pub open spec fn raw_diagnostic_code(e: ContractEvidence) -> Seq<char> {
    match or_else(opt_view(e.diagnostic_code), or_else(opt_view(e.reason_code), opt_view(e.violated_contract))) {
        Some(c) => c,
        None => terminal_name(terminal_of(e)),
    }
}

/// The target before it is cut: the repair target, else the target path.
pub open spec fn raw_target(e: ContractEvidence) -> Option<Seq<char>> {
    or_else(opt_view(e.repair_target), opt_view(e.target_path))
}

/// Every value the observation cuts can be cut at its byte limit.
pub open spec fn observation_cuttable(e: ContractEvidence) -> bool {
    &&& cuttable(raw_diagnostic_code(e))
    &&& opt_cuttable(opt_view(e.failure_signature))
    &&& opt_cuttable(opt_view(e.command))
    &&& opt_cuttable(opt_view(e.tool))
    &&& opt_cuttable(raw_target(e))
    &&& opt_cuttable(opt_view(e.artifact_role))
    &&& opt_cuttable(opt_view(e.failed_step))
    &&& opt_cuttable(opt_view(e.explicit_stop_reason))
    &&& opt_cuttable(runner_status(e))
    &&& opt_cuttable(ledger_status(views(e.eval_report_fields@)))
}

/// The observation is the one the evidence describes.
pub open spec fn observes(o: FailureObservation, e: ContractEvidence) -> bool {
    let t = terminal_of(e);
    &&& o.schema_version@ == "1.0"@
    &&& o.terminal_state == t
    &&& o.failure_class == class_of_state(t)
    &&& o.contract_layer == layer_of_state(t)
    &&& o.violated_contract@ == match opt_view(e.violated_contract) {
        Some(v) => v,
        None => default_contract_of_state(t),
    }
    &&& o.source@ == observation_source_name(source_of_state(t))
    &&& o.source_of_truth@ == match opt_view(e.source_of_truth) {
        Some(v) => v,
        None => source_of_truth_name(truth_of_state(t)),
    }
    &&& o.producer == producer_of(e, t)
    &&& o.guard@ == if is_blank(e.guard@) { "unknown"@ } else { e.guard@ }
    &&& o.diagnostic_code@ == observed(raw_diagnostic_code(e))
    &&& opt_view(o.failure_signature) == opt_observed(opt_view(e.failure_signature))
    &&& opt_view(o.command) == opt_observed(opt_view(e.command))
    &&& opt_view(o.tool) == opt_observed(opt_view(e.tool))
    &&& opt_view(o.target_path) == opt_observed(raw_target(e))
    &&& opt_view(o.target_role) == opt_observed(opt_view(e.artifact_role))
    &&& opt_view(o.failed_step) == opt_observed(opt_view(e.failed_step))
    &&& opt_view(o.setup_state) == setup_state_of(e, t)
    &&& opt_view(o.port) == if t == TerminalState::PortInUse {
        port_of(seq![opt_view(e.diagnostic), opt_view(e.command), opt_view(e.target_path)])
    } else {
        None
    }
    &&& opt_view(o.evidence_runner_status) == opt_observed(runner_status(e))
    &&& opt_view(o.artifact_ledger_status) == opt_observed(ledger_status(views(e.eval_report_fields@)))
    &&& o.actionability == actionability_of_state(t)
    &&& opt_view(o.explicit_stop_reason) == opt_observed(opt_view(e.explicit_stop_reason))
}

fn first_of(a: &Option<String>, b: &Option<String>) -> (r: Option<String>)
    ensures
        opt_view(r) == or_else(opt_view(*a), opt_view(*b)),
{
    match a {
        Some(x) => Some(copy_string(x)),
        None => crate::text::copy_opt(b),
    }
}

impl FailureObservation {
    /// The observation a guard's contract evidence describes.
    pub fn from_contract_evidence(e: &ContractEvidence) -> (r: Self)
        requires
            observation_cuttable(*e),
        ensures
            observes(r, *e),
    {
        let t = terminal_state_from_contract_evidence(e);
        let producer = producer_from_contract_evidence(e, t);
        let code = match first_of(&e.diagnostic_code, &first_of(&e.reason_code, &e.violated_contract)) {
            Some(c) => c,
            None => owned(t.as_str()),
        };
        let setup_state = setup_state_from_terminal(t, e);
        let port = if t == TerminalState::PortInUse {
            port_from_texts(&e.diagnostic, &e.command, &e.target_path)
        } else {
            None
        };
        let violated_contract = match &e.violated_contract {
            Some(v) => copy_string(v),
            None => owned(t.default_violated_contract()),
        };
        let source_of_truth = match &e.source_of_truth {
            Some(v) => copy_string(v),
            None => owned(t.default_source_of_truth().as_str()),
        };
        let guard = if is_blank_str(e.guard.as_str()) {
            owned("unknown")
        } else {
            copy_string(&e.guard)
        };
        let runner = match find_list_status(&e.completion_evidence, "status=") {
            Some(x) => Some(x),
            None => find_list_status(&e.evidence_binding, "status="),
        };
        let target = first_of(&e.repair_target, &e.target_path);
        FailureObservation {
            schema_version: owned(FAILURE_OBSERVATION_SCHEMA_VERSION),
            terminal_state: t,
            failure_class: t.failure_class(),
            contract_layer: t.contract_layer(),
            violated_contract,
            source: owned(t.default_source().as_str()),
            source_of_truth,
            producer,
            guard,
            diagnostic_code: observed_value(code.as_str()),
            failure_signature: observed_opt(&e.failure_signature),
            command: observed_opt(&e.command),
            tool: observed_opt(&e.tool),
            target_path: observed_opt(&target),
            target_role: observed_opt(&e.artifact_role),
            failed_step: observed_opt(&e.failed_step),
            setup_state,
            port,
            evidence_runner_status: observed_opt(&runner),
            artifact_ledger_status: observed_opt(&find_ledger_status(&e.eval_report_fields)),
            actionability: t.actionability(),
            explicit_stop_reason: observed_opt(&e.explicit_stop_reason),
        }
    }

    /// The observation on one line: `key=value` fields joined by spaces,
    /// the failure signature and stop reason only when present.
    pub fn render_inline(&self) -> (r: String)
        ensures
            r@ == inline_text(*self),
    {
        let mut fields: Vec<String> = Vec::new();
        fields.push(crate::text::concat("terminal_state=", self.terminal_state.as_str()));
        fields.push(crate::text::concat("failure_class=", self.failure_class.as_str()));
        fields.push(crate::text::concat("contract_layer=", self.contract_layer.as_str()));
        fields.push(crate::text::concat("violated_contract=", self.violated_contract.as_str()));
        fields.push(crate::text::concat("source=", self.source.as_str()));
        fields.push(crate::text::concat("source_of_truth=", self.source_of_truth.as_str()));
        fields.push(crate::text::concat("producer=", self.producer.as_str()));
        fields.push(crate::text::concat("guard=", self.guard.as_str()));
        fields.push(crate::text::concat("diagnostic_code=", self.diagnostic_code.as_str()));
        fields.push(crate::text::concat("actionability=", self.actionability.as_str()));
        let ghost base = views(fields@);
        if let Some(sig) = &self.failure_signature {
            fields.push(crate::text::concat("failure_signature=", sig.as_str()));
        }
        let ghost mid = views(fields@);
        if let Some(reason) = &self.explicit_stop_reason {
            fields.push(crate::text::concat("explicit_stop_reason=", reason.as_str()));
        }
        proof {
            assert(base =~= inline_base(*self));
            assert(mid =~= match self.failure_signature {
                Some(s) => base.push("failure_signature="@ + s@),
                None => base,
            });
            assert(views(fields@) =~= inline_fields(*self));
        }
        join_strings(&fields, " ")
    }
}

pub open spec fn inline_base(o: FailureObservation) -> Seq<Seq<char>> {
    seq![
        "terminal_state="@ + terminal_name(o.terminal_state),
        "failure_class="@ + failure_class_name(o.failure_class),
        "contract_layer="@ + contract_layer_name(o.contract_layer),
        "violated_contract="@ + o.violated_contract@,
        "source="@ + o.source@,
        "source_of_truth="@ + o.source_of_truth@,
        "producer="@ + producer_name(o.producer),
        "guard="@ + o.guard@,
        "diagnostic_code="@ + o.diagnostic_code@,
        "actionability="@ + actionability_name(o.actionability),
    ]
}

pub open spec fn inline_fields(o: FailureObservation) -> Seq<Seq<char>> {
    let a = match o.failure_signature {
        Some(s) => inline_base(o).push("failure_signature="@ + s@),
        None => inline_base(o),
    };
    match o.explicit_stop_reason {
        Some(r) => a.push("explicit_stop_reason="@ + r@),
        None => a,
    }
}

pub open spec fn inline_text(o: FailureObservation) -> Seq<char> {
    join(inline_fields(o), " "@)
}

/// One row of the failure taxonomy: the names a terminal state maps to.
#[derive(Debug, Clone, PartialEq, Eq)]
pub struct TaxonomyRow {
    pub terminal_state: &'static str,
    pub failure_class: &'static str,
    pub contract_layer: &'static str,
    pub violated_contract: &'static str,
    pub source: &'static str,
    pub source_of_truth: &'static str,
}

/// The taxonomy row of a terminal state.
pub open spec fn row_of(t: TerminalState, r: TaxonomyRow) -> bool {
    &&& r.terminal_state@ == terminal_name(t)
    &&& r.failure_class@ == failure_class_name(class_of_state(t))
    &&& r.contract_layer@ == contract_layer_name(layer_of_state(t))
    &&& r.violated_contract@ == default_contract_of_state(t)
    &&& r.source@ == observation_source_name(source_of_state(t))
    &&& r.source_of_truth@ == source_of_truth_name(truth_of_state(t))
}

/// The failure taxonomy: one row per terminal state, in declaration order.
pub fn taxonomy_rows() -> (r: Vec<TaxonomyRow>)
    ensures
        r@.len() == all_states().len(),
        forall|k: int| 0 <= k < r@.len() ==> row_of(all_states()[k], #[trigger] r@[k]),
{
    let states = all_terminal_states();
    let mut rows: Vec<TaxonomyRow> = Vec::new();
    let mut i: usize = 0;
    while i < states.len()
        invariant
            i <= states@.len(),
            states@ == all_states(),
            rows@.len() == i,
            forall|k: int| 0 <= k < i ==> row_of(all_states()[k], #[trigger] rows@[k]),
        decreases states.len() - i,
    {
        let t = states[i];
        rows.push(
            TaxonomyRow {
                terminal_state: t.as_str(),
                failure_class: t.failure_class().as_str(),
                contract_layer: t.contract_layer().as_str(),
                violated_contract: t.default_violated_contract(),
                source: t.default_source().as_str(),
                source_of_truth: t.default_source_of_truth().as_str(),
            },
        );
        i = i + 1;
    }
    rows
}

} // verus!
