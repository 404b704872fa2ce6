//! Budget contracts for model requests, sessions and tool results.
use crate::text::{chars_of, owned, push_str, string_of};
use vstd::prelude::*;

verus! {

/// The scope a budget decision applies to.
#[derive(Debug, Clone, Copy, PartialEq, Eq)]
pub enum BudgetScope {
    ModelRequest,
    WorkerSession,
    PlannerSession,
    Step,
    Phase,
    Job,
    ToolResult,
}

/// What the runtime must do when a budget is exceeded.
#[derive(Debug, Clone, Copy, PartialEq, Eq)]
pub enum BudgetAction {
    Stop,
    DeterministicCompaction,
    ShrinkToolResult,
    ReplanRequest,
    ApprovalRequired,
}

/// Optional limits; `None` means unlimited.
#[derive(Debug, Clone, PartialEq, Eq, Default)]
pub struct BudgetContract {
    pub max_input_tokens: Option<u64>,
    pub max_output_tokens: Option<u64>,
    pub max_tool_result_tokens: Option<u64>,
    pub max_iterations: Option<u64>,
    pub max_model_requests: Option<u64>,
    pub max_cumulative_tokens: Option<u64>,
    pub max_estimated_cost_microusd: Option<u64>,
}

/// Observed consumption.
#[derive(Debug, Clone, PartialEq, Eq, Default)]
pub struct BudgetUsage {
    pub input_tokens: u64,
    pub output_tokens: u64,
    pub tool_result_tokens: u64,
    pub iterations: u64,
    pub model_requests: u64,
    pub cumulative_tokens: u64,
    pub estimated_cost_microusd: u64,
}

/// The outcome of checking usage against a contract.
#[derive(Debug, Clone, PartialEq, Eq)]
pub enum BudgetDecision {
    WithinBudget,
    Exceeded { scope: BudgetScope, action: BudgetAction, reason: String },
}

/// The observed value is above a present limit.
pub open spec fn spec_exceeds(limit: Option<u64>, observed: u64) -> bool {
    match limit {
        Some(l) => observed > l,
        None => false,
    }
}

/// The first limit, in declaration order, that usage exceeds: the action it
/// calls for and the name of the limit.
pub open spec fn first_exceeded(c: BudgetContract, u: BudgetUsage) -> Option<(BudgetAction, Seq<char>)> {
    if spec_exceeds(c.max_input_tokens, u.input_tokens) {
        Some((BudgetAction::Stop, "max_input_tokens"@))
    } else if spec_exceeds(c.max_output_tokens, u.output_tokens) {
        Some((BudgetAction::Stop, "max_output_tokens"@))
    } else if spec_exceeds(c.max_tool_result_tokens, u.tool_result_tokens) {
        Some((BudgetAction::ShrinkToolResult, "max_tool_result_tokens"@))
    } else if spec_exceeds(c.max_iterations, u.iterations) {
        Some((BudgetAction::Stop, "max_iterations"@))
    } else if spec_exceeds(c.max_model_requests, u.model_requests) {
        Some((BudgetAction::Stop, "max_model_requests"@))
    } else if spec_exceeds(c.max_cumulative_tokens, u.cumulative_tokens) {
        Some((BudgetAction::DeterministicCompaction, "max_cumulative_tokens"@))
    } else if spec_exceeds(c.max_estimated_cost_microusd, u.estimated_cost_microusd) {
        Some((BudgetAction::ApprovalRequired, "max_estimated_cost_microusd"@))
    } else {
        None
    }
}

impl BudgetContract {
    /// Checks usage against the limits in a fixed order and reports the first
    /// one exceeded.
    pub fn check(&self, scope: BudgetScope, usage: &BudgetUsage) -> (r: BudgetDecision)
        ensures
            match first_exceeded(*self, *usage) {
                None => r == BudgetDecision::WithinBudget,
                Some((action, reason)) => r matches BudgetDecision::Exceeded { scope: s, action: a, reason: m }
                    && s == scope && a == action && m@ == reason,
            },
    {
        if exceeds(self.max_input_tokens, usage.input_tokens) {
            return exceeded(scope, BudgetAction::Stop, "max_input_tokens");
        }
        if exceeds(self.max_output_tokens, usage.output_tokens) {
            return exceeded(scope, BudgetAction::Stop, "max_output_tokens");
        }
        if exceeds(self.max_tool_result_tokens, usage.tool_result_tokens) {
            return exceeded(scope, BudgetAction::ShrinkToolResult, "max_tool_result_tokens");
        }
        if exceeds(self.max_iterations, usage.iterations) {
            return exceeded(scope, BudgetAction::Stop, "max_iterations");
        }
        if exceeds(self.max_model_requests, usage.model_requests) {
            return exceeded(scope, BudgetAction::Stop, "max_model_requests");
        }
        if exceeds(self.max_cumulative_tokens, usage.cumulative_tokens) {
            return exceeded(scope, BudgetAction::DeterministicCompaction, "max_cumulative_tokens");
        }
        if exceeds(self.max_estimated_cost_microusd, usage.estimated_cost_microusd) {
            return exceeded(scope, BudgetAction::ApprovalRequired, "max_estimated_cost_microusd");
        }
        BudgetDecision::WithinBudget
    }
}

/// The character budget of a tool result.
#[derive(Debug, Clone, PartialEq, Eq)]
pub struct ToolResultBudget {
    pub max_output_chars: usize,
}

impl Default for ToolResultBudget {
    fn default() -> (r: Self)
        ensures
            r.max_output_chars == 65536,
    {
        ToolResultBudget { max_output_chars: 64 * 1024 }
    }
}

/// What truncation did to a tool result.
#[derive(Debug, Clone, PartialEq, Eq)]
pub struct TruncationRecord {
    pub truncated: bool,
    pub original_chars: usize,
    pub returned_chars: usize,
    pub reason: String,
}

/// The marker appended to a truncated tool result.
pub open spec fn truncation_marker() -> Seq<char> {
    "\n[commandagent: tool result truncated by budget]"@
}

/// A tool result as its budget returns it.
pub open spec fn budgeted_output(output: Seq<char>, max: usize) -> Seq<char> {
    if output.len() <= max {
        output
    } else {
        output.take(max as int) + truncation_marker()
    }
}

/// Keeps a tool result within its character budget: an output that fits is
/// returned unchanged; a longer one keeps its first `max_output_chars`
/// characters followed by the truncation marker.
pub fn enforce_tool_result_budget(output: String, budget: ToolResultBudget) -> (r: (String, TruncationRecord))
    ensures
        r.0@ == budgeted_output(output@, budget.max_output_chars),
        r.1.original_chars == output@.len(),
        output@.len() <= budget.max_output_chars ==> {
            &&& r.0@ == output@
            &&& !r.1.truncated
            &&& r.1.returned_chars == output@.len()
            &&& r.1.reason@ == "within_budget"@
        },
        output@.len() > budget.max_output_chars ==> {
            &&& r.0@ == output@.take(budget.max_output_chars as int) + truncation_marker()
            &&& r.1.truncated
            &&& r.1.returned_chars == r.0@.len()
            &&& r.1.reason@ == "max_output_chars"@
        },
{
    let chars = chars_of(output.as_str());
    let original_chars = chars.len();
    if original_chars <= budget.max_output_chars {
        return (
            output,
            TruncationRecord {
                truncated: false,
                original_chars,
                returned_chars: original_chars,
                reason: owned("within_budget"),
            },
        );
    }
    let kept = crate::text::slice_range(chars.as_slice(), 0, budget.max_output_chars);
    let mut bounded = string_of(kept.as_slice());
    push_str(&mut bounded, "\n[commandagent: tool result truncated by budget]");
    let returned_chars = chars_of(bounded.as_str()).len();
    (
        bounded,
        TruncationRecord {
            truncated: true,
            original_chars,
            returned_chars,
            reason: owned("max_output_chars"),
        },
    )
}

/// Whether an optional limit is exceeded by the observed value.
fn exceeds(limit: Option<u64>, observed: u64) -> (r: bool)
    ensures
        r == spec_exceeds(limit, observed),
{
    match limit {
        Some(l) => observed > l,
        None => false,
    }
}

/// A decision naming the scope, action and exceeded limit.
fn exceeded(scope: BudgetScope, action: BudgetAction, reason: &str) -> (r: BudgetDecision)
    ensures
        r matches BudgetDecision::Exceeded { scope: s, action: a, reason: m } && s == scope && a
            == action && m@ == reason@,
{
    BudgetDecision::Exceeded { scope, action, reason: owned(reason) }
}


/// Usage no larger than another in every measure.
pub open spec fn usage_le(a: BudgetUsage, b: BudgetUsage) -> bool {
    &&& a.input_tokens <= b.input_tokens
    &&& a.output_tokens <= b.output_tokens
    &&& a.tool_result_tokens <= b.tool_result_tokens
    &&& a.iterations <= b.iterations
    &&& a.model_requests <= b.model_requests
    &&& a.cumulative_tokens <= b.cumulative_tokens
    &&& a.estimated_cost_microusd <= b.estimated_cost_microusd
}

/// A contract without limits admits any usage, and a contract that admits
/// some usage admits any usage no larger in every measure.
pub proof fn lemma_budget_monotone(c: BudgetContract, small: BudgetUsage, large: BudgetUsage)
    ensures
        first_exceeded(BudgetContract {
            max_input_tokens: None,
            max_output_tokens: None,
            max_tool_result_tokens: None,
            max_iterations: None,
            max_model_requests: None,
            max_cumulative_tokens: None,
            max_estimated_cost_microusd: None,
        }, large) is None,
        usage_le(small, large) && first_exceeded(c, large) is None ==> first_exceeded(c, small) is None,
{
}

/// The tool result a budget returns never has more characters than the
/// budget plus the truncation marker.
pub proof fn lemma_tool_result_bounded(output: Seq<char>, max: usize)
    ensures
        budgeted_output(output, max).len() <= max + truncation_marker().len(),
        output.len() <= max ==> budgeted_output(output, max) == output,
{
}

} // verus!
