//! The minimal loop's configuration and its defaults.
use super::ToolCallMode;
use crate::text::owned;
use vstd::prelude::*;

verus! {

/// Whether and how dependency setup may run.
#[derive(Debug, Clone, Copy, PartialEq, Eq, Structural)]
pub struct DependencySetupPolicy {
    pub auto_approve: bool,
    pub offline: bool,
    pub timeout_secs: u64,
}

impl Default for DependencySetupPolicy {
    /// No auto-approval, online, a ten-minute timeout.
    fn default() -> (r: Self)
        ensures
            r == (DependencySetupPolicy { auto_approve: false, offline: false, timeout_secs: 600 }),
    {
        DependencySetupPolicy { auto_approve: false, offline: false, timeout_secs: 600 }
    }
}

/// Whether a run must act, and with what evidence.
#[derive(Debug, Clone, Copy, PartialEq, Eq, Structural)]
pub enum ActionRequirement {
    Optional,
    Required,
    RepositoryEvidenceRequired,
}

/// What tools a step may use to change the workspace.
#[derive(Debug, Clone, Copy, PartialEq, Eq, Structural)]
pub enum StepToolPolicy {
    ReadOnly,
    NoMutation,
    FileMutationAllowed,
    SetupMutationOnly,
}

/// The configuration of one minimal loop run.
#[derive(Debug, Clone)]
pub struct MinimalLoopConfig {
    pub model: String,
    pub max_iterations: usize,
    pub initial_tool_call_mode: ToolCallMode,
    pub expected_artifacts: Vec<String>,
    pub dependency_setup_policy: DependencySetupPolicy,
    pub action_requirement: ActionRequirement,
    pub step_tool_policy: StepToolPolicy,
    pub allowed_tools: Vec<String>,
    pub enable_completion_without_write_feedback: bool,
    pub enable_requested_artifact_feedback: bool,
    pub enable_future_action_feedback: bool,
}

impl Default for MinimalLoopConfig {
    /// The default model, eight iterations, native tool calls, file
    /// mutation allowed, no expected artifacts or tool allow-list, and every
    /// feedback enabled.
    fn default() -> (r: Self)
        ensures
            r.model@ == "default"@,
            r.max_iterations == 8,
            r.initial_tool_call_mode == ToolCallMode::Native,
            r.expected_artifacts@.len() == 0,
            r.dependency_setup_policy == (DependencySetupPolicy { auto_approve: false, offline: false, timeout_secs: 600 }),
            r.action_requirement == ActionRequirement::Optional,
            r.step_tool_policy == StepToolPolicy::FileMutationAllowed,
            r.allowed_tools@.len() == 0,
            r.enable_completion_without_write_feedback,
            r.enable_requested_artifact_feedback,
            r.enable_future_action_feedback,
    {
        MinimalLoopConfig {
            model: owned("default"),
            max_iterations: 8,
            initial_tool_call_mode: ToolCallMode::Native,
            expected_artifacts: Vec::new(),
            dependency_setup_policy: DependencySetupPolicy::default(),
            action_requirement: ActionRequirement::Optional,
            step_tool_policy: StepToolPolicy::FileMutationAllowed,
            allowed_tools: Vec::new(),
            enable_completion_without_write_feedback: true,
            enable_requested_artifact_feedback: true,
            enable_future_action_feedback: true,
        }
    }
}

} // verus!
