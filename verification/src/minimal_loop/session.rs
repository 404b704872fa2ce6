//! The decisions of the minimal tool loop. The caller talks to the model,
//! runs the tools and reports what happened; these functions say what the
//! loop does next: which action follows a response, when the iteration cap
//! ends the run, which counters a tool result moves, whether a final answer
//! is accepted or answered with feedback or an error, which events report
//! each step and in what order, how a tool call is summarized in an event,
//! and which expected artifacts are missing.
use super::config::{ActionRequirement, StepToolPolicy};
use super::guards::is_file_change_tool;
use super::prompt::{violates_contract, violates_final_answer_contract};
use super::ToolCallMode;
use crate::events::{bounded_event_text, event_text, ArtifactScope, ArtifactStatus, GuardFeedbackKind, RuntimeEvent};
use crate::json_value::{json_document, json_view, parse_json, JsonValue, JsonView};
use crate::minimal_loop::tool_policy::string_arg;
use super::result::{loop_error_text, MinimalLoopError};
use crate::text::{copy_string, copy_strings, decimal, join, owned, push_str, str_eq, trim, views};
use vstd::prelude::*;
use vstd::utf8::encode_utf8;

verus! {

/// Whether a run has done what its action requirement asks: nothing, a
/// file change, or a piece of repository evidence.
pub open spec fn requirement_met(requirement: ActionRequirement, file_changes: nat, evidence: nat) -> bool {
    match requirement {
        ActionRequirement::Optional => true,
        ActionRequirement::Required => file_changes > 0,
        ActionRequirement::RepositoryEvidenceRequired => evidence > 0,
    }
}

/// Whether the run has met its action requirement.
pub fn action_requirement_satisfied(
    requirement: ActionRequirement,
    file_change_count: usize,
    repository_evidence_count: usize,
) -> (r: bool)
    ensures
        r == requirement_met(requirement, file_change_count as nat, repository_evidence_count as nat),
{
    match requirement {
        ActionRequirement::Optional => true,
        ActionRequirement::Required => file_change_count > 0,
        ActionRequirement::RepositoryEvidenceRequired => repository_evidence_count > 0,
    }
}

/// A tool whose successful result is evidence about the repository: the
/// reading tools, and the shell in a read-only step.
pub open spec fn evidence_tool(name: Seq<char>, policy: StepToolPolicy) -> bool {
    name == "Read"@ || name == "Glob"@ || name == "Grep"@ || (name == "Bash"@ && policy == StepToolPolicy::ReadOnly)
}

/// Whether a successful call of the tool counts as repository evidence.
pub fn is_repository_evidence_tool(name: &str, policy: StepToolPolicy) -> (r: bool)
    ensures
        r == evidence_tool(name@, policy),
{
    str_eq(name, "Read") || str_eq(name, "Glob") || str_eq(name, "Grep") || (str_eq(name, "Bash") && policy
        == StepToolPolicy::ReadOnly)
}

/// The loop's state between model turns.
#[derive(Debug, Clone, Copy, PartialEq, Eq, Structural)]
pub struct SessionState {
    pub mode: ToolCallMode,
    pub file_change_count: usize,
    pub repository_evidence_count: usize,
    pub future_action_feedback_sent: bool,
    pub action_required_feedback_sent: bool,
    pub requested_artifact_feedback_sent: bool,
}

/// Which feedback asks the model to act.
#[derive(Debug, Clone, Copy, PartialEq, Eq, Structural)]
pub enum ActionFeedback {
    /// Read the repository before answering.
    RepositoryEvidence,
    /// Change files before answering.
    Action,
}

/// What the loop does with an answer that calls no tool.
#[derive(Debug, Clone, Copy, PartialEq, Eq, Structural)]
pub enum FinalDecision {
    /// Send the future-action feedback and ask again.
    FutureActionFeedback,
    /// Stop: the answer breaks the final-answer contract.
    FinalAnswerContract,
    /// Send the requested-artifact feedback and ask again.
    RequestedArtifactFeedback,
    /// Stop: expected artifacts are still missing.
    MissingArtifacts,
    /// Send the action-required feedback and ask again.
    ActionRequiredFeedback(ActionFeedback),
    /// Stop: the run never acted as required.
    ActionRequiredNoEvidence,
    /// Accept the answer.
    Accept,
}

/// The feedback kind for an action requirement.
pub open spec fn feedback_for(requirement: ActionRequirement) -> ActionFeedback {
    match requirement {
        ActionRequirement::RepositoryEvidenceRequired => ActionFeedback::RepositoryEvidence,
        _ => ActionFeedback::Action,
    }
}

/// The switches of a run that shape its decisions.
#[derive(Debug, Clone, Copy, PartialEq, Eq, Structural)]
pub struct FinalAnswerPolicy {
    pub action_requirement: ActionRequirement,
    pub enable_completion_without_write_feedback: bool,
    pub enable_requested_artifact_feedback: bool,
    pub enable_future_action_feedback: bool,
}

/// What happens to an answer without tool calls, and the state after it.
/// An answer that announces future tool actions gets the future-action
/// feedback once, then stops the run. Otherwise, with expected artifacts
/// missing, the requested-artifact feedback is sent once, then the run
/// stops. Otherwise, a run that has not met its action requirement gets the
/// action-required feedback once, then stops. Otherwise the answer is
/// accepted. Each feedback is sent only where its switch is on.
pub open spec fn final_decision(
    s: SessionState,
    p: FinalAnswerPolicy,
    violates: bool,
    artifacts_missing: bool,
) -> (FinalDecision, SessionState) {
    if violates {
        if p.enable_future_action_feedback && !s.future_action_feedback_sent {
            (FinalDecision::FutureActionFeedback, SessionState { future_action_feedback_sent: true, ..s })
        } else {
            (FinalDecision::FinalAnswerContract, s)
        }
    } else if p.enable_requested_artifact_feedback && artifacts_missing {
        if !s.requested_artifact_feedback_sent {
            (FinalDecision::RequestedArtifactFeedback, SessionState { requested_artifact_feedback_sent: true, ..s })
        } else {
            (FinalDecision::MissingArtifacts, s)
        }
    } else if p.enable_completion_without_write_feedback && !requirement_met(
        p.action_requirement,
        s.file_change_count as nat,
        s.repository_evidence_count as nat,
    ) {
        if !s.action_required_feedback_sent {
            (
                FinalDecision::ActionRequiredFeedback(feedback_for(p.action_requirement)),
                SessionState { action_required_feedback_sent: true, ..s },
            )
        } else {
            (FinalDecision::ActionRequiredNoEvidence, s)
        }
    } else {
        (FinalDecision::Accept, s)
    }
}

/// Each feedback is sent at most once per run: an answer that got a
/// feedback, answered the same way again, stops the run with the matching
/// error; and an accepted answer leaves the state as it was.
pub proof fn lemma_feedback_sent_once(s: SessionState, p: FinalAnswerPolicy, violates: bool, missing: bool)
    ensures
        ({
            let (d, next) = final_decision(s, p, violates, missing);
            &&& d == FinalDecision::FutureActionFeedback ==> final_decision(next, p, violates, missing).0
                == FinalDecision::FinalAnswerContract
            &&& d == FinalDecision::RequestedArtifactFeedback ==> final_decision(next, p, violates, missing).0
                == FinalDecision::MissingArtifacts
            &&& (d matches FinalDecision::ActionRequiredFeedback(_)) ==> final_decision(next, p, violates, missing).0
                == FinalDecision::ActionRequiredNoEvidence
            &&& d == FinalDecision::Accept ==> next == s
        }),
{
}

impl SessionState {
    /// The state at the start of a run.
    pub fn new(mode: ToolCallMode) -> (r: Self)
        ensures
            r == (SessionState {
                mode,
                file_change_count: 0,
                repository_evidence_count: 0,
                future_action_feedback_sent: false,
                action_required_feedback_sent: false,
                requested_artifact_feedback_sent: false,
            }),
    {
        SessionState {
            mode,
            file_change_count: 0,
            repository_evidence_count: 0,
            future_action_feedback_sent: false,
            action_required_feedback_sent: false,
            requested_artifact_feedback_sent: false,
        }
    }

    /// Counts a finished tool call: a successful file change, and a
    /// successful piece of repository evidence.
    pub fn record_tool_result(&mut self, name: &str, ok: bool, policy: StepToolPolicy)
        requires
            old(self).file_change_count < usize::MAX,
            old(self).repository_evidence_count < usize::MAX,
        ensures
            final(self).file_change_count == old(self).file_change_count + (if ok && (name@ == "Write"@ || name@
                == "Edit"@) {
                1int
            } else {
                0int
            }),
            final(self).repository_evidence_count == old(self).repository_evidence_count + (if ok
                && evidence_tool(name@, policy) {
                1int
            } else {
                0int
            }),
            final(self).mode == old(self).mode,
            final(self).future_action_feedback_sent == old(self).future_action_feedback_sent,
            final(self).action_required_feedback_sent == old(self).action_required_feedback_sent,
            final(self).requested_artifact_feedback_sent == old(self).requested_artifact_feedback_sent,
    {
        if ok && is_file_change_tool(name) {
            self.file_change_count = self.file_change_count + 1;
        }
        if ok && is_repository_evidence_tool(name, policy) {
            self.repository_evidence_count = self.repository_evidence_count + 1;
        }
    }

    /// A response whose tool calls could not be parsed switches the next
    /// requests to the fallback tool-call format; nothing else changes.
    pub fn record_parse_failure(&mut self)
        ensures
            *final(self) == (SessionState { mode: ToolCallMode::XmlFallback, ..*old(self) }),
    {
        self.mode = ToolCallMode::XmlFallback;
    }

    /// Decides what happens to an answer that calls no tool, given the
    /// expected artifacts still missing, and records the feedback sent.
    pub fn decide_final_answer(&mut self, policy: &FinalAnswerPolicy, content: &str, missing: &Vec<String>) -> (r:
        FinalDecision)
        ensures
            (r, *final(self)) == final_decision(*old(self), *policy, violates_contract(content@), missing@.len() > 0),
    {
        if violates_final_answer_contract(content) {
            if policy.enable_future_action_feedback && !self.future_action_feedback_sent {
                self.future_action_feedback_sent = true;
                return FinalDecision::FutureActionFeedback;
            }
            return FinalDecision::FinalAnswerContract;
        }
        if policy.enable_requested_artifact_feedback && missing.len() > 0 {
            if !self.requested_artifact_feedback_sent {
                self.requested_artifact_feedback_sent = true;
                return FinalDecision::RequestedArtifactFeedback;
            }
            return FinalDecision::MissingArtifacts;
        }
        if policy.enable_completion_without_write_feedback && !action_requirement_satisfied(
            policy.action_requirement,
            self.file_change_count,
            self.repository_evidence_count,
        ) {
            if !self.action_required_feedback_sent {
                self.action_required_feedback_sent = true;
                let kind = match policy.action_requirement {
                    ActionRequirement::RepositoryEvidenceRequired => ActionFeedback::RepositoryEvidence,
                    _ => ActionFeedback::Action,
                };
                return FinalDecision::ActionRequiredFeedback(kind);
            }
            return FinalDecision::ActionRequiredNoEvidence;
        }
        FinalDecision::Accept
    }
}


/// A string argument of a tool call, or the empty text.
pub open spec fn arg_or_empty(args: JsonView, key: Seq<char>) -> Seq<char> {
    match string_arg(args, key) {
        Some(s) => s,
        None => Seq::empty(),
    }
}

/// A path and the byte size of a text, as `path <n>B`.
pub open spec fn path_and_size(path: Seq<char>, text: Seq<char>) -> Seq<char> {
    path + " "@ + decimal(encode_utf8(text).len()) + "B"@
}

/// What a tool call's event shows of its arguments: the path for `Read`,
/// the path and the size in bytes of the new text for `Write` and `Edit`,
/// the command for `Bash`, the pattern for `Glob` and `Grep`, and the raw
/// arguments for any other tool; bounded as event text.
pub open spec fn args_summary(name: Seq<char>, args_json: Seq<char>, args: JsonView) -> Seq<char> {
    let summary = if name == "Read"@ {
        arg_or_empty(args, "path"@)
    } else if name == "Write"@ {
        path_and_size(arg_or_empty(args, "path"@), arg_or_empty(args, "content"@))
    } else if name == "Edit"@ {
        path_and_size(arg_or_empty(args, "path"@), arg_or_empty(args, "new"@))
    } else if name == "Bash"@ {
        arg_or_empty(args, "command"@)
    } else if name == "Glob"@ || name == "Grep"@ {
        arg_or_empty(args, "pattern"@)
    } else {
        args_json
    };
    event_text(summary)
}

fn arg_text(args: &JsonValue, key: &str) -> (r: String)
    ensures
        r@ == arg_or_empty(json_view(*args), key@),
{
    if let JsonValue::Object(fields) = args {
        if let Some(JsonValue::Str(s)) = crate::json_value::member_of(fields, key) {
            return copy_string(s);
        }
    }
    proof {
        reveal_strlit("");
    }
    owned("")
}

fn path_and_size_of(path: &str, text: &str) -> (r: String)
    ensures
        r@ == path_and_size(path@, text@),
{
    let n = text.as_bytes().len();
    proof {
        reveal_strlit(" ");
        reveal_strlit("B");
    }
    let mut r = owned(path);
    push_str(&mut r, " ");
    let d = crate::text::usize_to_string(n);
    push_str(&mut r, d.as_str());
    push_str(&mut r, "B");
    r
}

/// The summary of a tool call's arguments shown in its event: its JSON
/// arguments read, or `invalid args` when they are not JSON.
pub fn compact_tool_args_summary(name: &str, args_json: &str) -> (r: String)
    ensures
        match json_document(args_json@) {
            Some(v) => r@ == args_summary(name@, args_json@, v),
            None => r@ == "invalid args"@,
        },
{
    match parse_json(args_json) {
        Ok(v) => tool_args_summary(name, args_json, &v),
        Err(_) => owned("invalid args"),
    }
}

/// The summary of a tool call's arguments, read as the JSON value `args`.
pub fn tool_args_summary(name: &str, args_json: &str, args: &JsonValue) -> (r: String)
    ensures
        r@ == args_summary(name@, args_json@, json_view(*args)),
{
    let v = args;
    let summary = if str_eq(name, "Read") {
        arg_text(v, "path")
    } else if str_eq(name, "Write") {
        let p = arg_text(v, "path");
        let c = arg_text(v, "content");
        path_and_size_of(p.as_str(), c.as_str())
    } else if str_eq(name, "Edit") {
        let p = arg_text(v, "path");
        let c = arg_text(v, "new");
        path_and_size_of(p.as_str(), c.as_str())
    } else if str_eq(name, "Bash") {
        arg_text(v, "command")
    } else if str_eq(name, "Glob") || str_eq(name, "Grep") {
        arg_text(v, "pattern")
    } else {
        owned(args_json)
    };
    bounded_event_text(summary.as_str())
}

/// The status event of each expected artifact, in order: missing when it is
/// among the missing paths, else present.
pub fn artifact_status_events(expected: &Vec<String>, missing: &Vec<String>) -> (r: Vec<RuntimeEvent>)
    ensures
        r@.len() == expected@.len(),
        forall|i: int|
            0 <= i < r@.len() ==> match #[trigger] r@[i] {
                RuntimeEvent::ArtifactStatus { scope, path, status } => scope == ArtifactScope::StepExpectedPath
                    && path@ == event_text(expected@[i]@) && status == (if views(missing@).contains(expected@[i]@) {
                    ArtifactStatus::Missing
                } else {
                    ArtifactStatus::Present
                }),
                _ => false,
            },
{
    let mut out: Vec<RuntimeEvent> = Vec::new();
    let mut i: usize = 0;
    while i < expected.len()
        invariant
            i <= expected@.len(),
            out@.len() == i,
            forall|k: int|
                0 <= k < i ==> match #[trigger] out@[k] {
                    RuntimeEvent::ArtifactStatus { scope, path, status } => scope == ArtifactScope::StepExpectedPath
                        && path@ == event_text(expected@[k]@) && status == (if views(missing@).contains(
                        expected@[k]@,
                    ) {
                        ArtifactStatus::Missing
                    } else {
                        ArtifactStatus::Present
                    }),
                    _ => false,
                },
        decreases expected.len() - i,
    {
        let is_missing = crate::plan_lint::contains_path(missing, expected[i].as_str());
        let status = if is_missing {
            ArtifactStatus::Missing
        } else {
            ArtifactStatus::Present
        };
        out.push(
            RuntimeEvent::ArtifactStatus {
                scope: ArtifactScope::StepExpectedPath,
                path: bounded_event_text(expected[i].as_str()),
                status,
            },
        );
        i = i + 1;
    }
    out
}

/// The expected artifacts that are not present, in order; `present` tells,
/// for each expected artifact, whether it resolved inside the workspace and
/// exists.
pub fn missing_artifacts(expected: &Vec<String>, present: &Vec<bool>) -> (r: Vec<String>)
    requires
        present@.len() == expected@.len(),
    ensures
        views(r@) == missing_views(views(expected@), present@),
{
    let mut out: Vec<String> = Vec::new();
    let mut i: usize = 0;
    while i < expected.len()
        invariant
            i <= expected@.len(),
            present@.len() == expected@.len(),
            views(out@) == missing_views(views(expected@).take(i as int), present@.take(i as int)),
        decreases expected.len() - i,
    {
        let ghost before = out@;
        proof {
            assert(views(expected@).take(i + 1).drop_last() == views(expected@).take(i as int));
            assert(present@.take(i + 1).drop_last() == present@.take(i as int));
        }
        if !present[i] {
            out.push(copy_string(&expected[i]));
            assert(views(out@) =~= views(before).push(expected@[i as int]@));
        }
        i = i + 1;
    }
    assert(views(expected@).take(expected@.len() as int) == views(expected@));
    assert(present@.take(present@.len() as int) == present@);
    out
}

/// The paths whose presence flag is false, in order.
pub open spec fn missing_views(paths: Seq<Seq<char>>, present: Seq<bool>) -> Seq<Seq<char>>
    decreases paths.len(),
{
    if paths.len() == 0 || present.len() == 0 {
        Seq::empty()
    } else {
        let rest = missing_views(paths.drop_last(), present.drop_last());
        if present.last() {
            rest
        } else {
            rest.push(paths.last())
        }
    }
}

/// The tool calls of a response: a parse error in its content is the
/// error; otherwise its native calls, if any; otherwise what was extracted
/// from its content.
pub fn tool_calls_from_response<T>(
    parse_error: Option<String>,
    native_calls: Vec<T>,
    extracted: Result<Vec<T>, String>,
) -> (r: Result<Vec<T>, String>)
    ensures
        match parse_error {
            Some(e) => r == Err::<Vec<T>, String>(e),
            None => if native_calls@.len() > 0 {
                r == Ok::<Vec<T>, String>(native_calls)
            } else {
                r == extracted
            },
        },
{
    if let Some(e) = parse_error {
        return Err(e);
    }
    if native_calls.len() > 0 {
        return Ok(native_calls);
    }
    extracted
}

/// What the assistant's turn records in the history: its own content when
/// calls were made natively with ids; otherwise the rendered calls,
/// after the content when there is any.
pub open spec fn history_content(content: Seq<char>, calls_have_ids: bool, mode: ToolCallMode, rendered: Seq<char>) -> Seq<char> {
    if mode != ToolCallMode::XmlFallback && calls_have_ids {
        content
    } else if trim(content).len() == 0 {
        rendered
    } else {
        content + "\n"@ + rendered
    }
}

/// The assistant history entry for a response with tool calls;
/// `calls_have_ids` tells whether any call carries an id, `rendered_calls`
/// is the calls rendered in the fallback format.
pub fn assistant_history_content(
    content: &str,
    calls_have_ids: bool,
    mode: ToolCallMode,
    rendered_calls: &str,
) -> (r: String)
    ensures
        r@ == history_content(content@, calls_have_ids, mode, rendered_calls@),
{
    if mode != ToolCallMode::XmlFallback && calls_have_ids {
        return owned(content);
    }
    let t = crate::text::trim_str(content);
    if crate::text::char_count(t.as_str()) == 0 {
        owned(rendered_calls)
    } else {
        let mut r = owned(content);
        push_str(&mut r, "\n");
        push_str(&mut r, rendered_calls);
        r
    }
}


/// What a model response turned out to hold.
#[derive(Debug, Clone, Copy, PartialEq, Eq, Structural)]
pub enum ResponseKind {
    /// Tool calls, native or extracted from its content.
    ToolCalls,
    /// An answer that calls no tool.
    Answer,
    /// Tool calls that could not be parsed.
    Unparsable,
}

/// What the loop does after a response.
#[derive(Debug, Clone, Copy, PartialEq, Eq, Structural)]
pub enum SessionAction {
    /// Run the calls in order, record each result, then ask again.
    RunTools,
    /// Send the parser feedback and ask again in the fallback format.
    ParserFeedback,
    /// What becomes of an answer without tool calls.
    Final(FinalDecision),
}

/// The action after a response and the state after it: tool calls are run
/// and leave the state alone, an unparsable response switches to the
/// fallback format, and an answer is decided by `final_decision`.
pub open spec fn step_decision(
    s: SessionState,
    p: FinalAnswerPolicy,
    response: ResponseKind,
    violates: bool,
    artifacts_missing: bool,
) -> (SessionAction, SessionState) {
    match response {
        ResponseKind::ToolCalls => (SessionAction::RunTools, s),
        ResponseKind::Unparsable => (SessionAction::ParserFeedback, SessionState { mode: ToolCallMode::XmlFallback, ..s }),
        ResponseKind::Answer => {
            let (d, next) = final_decision(s, p, violates, artifacts_missing);
            (SessionAction::Final(d), next)
        },
    }
}

/// Whether the run goes on to another request after the action: every
/// action but a stop and an accepted answer does.
pub open spec fn action_continues(a: SessionAction) -> bool {
    match a {
        SessionAction::Final(d) => d == FinalDecision::FutureActionFeedback || d
            == FinalDecision::RequestedArtifactFeedback || d is ActionRequiredFeedback,
        _ => true,
    }
}

impl SessionAction {
    /// Whether the run asks the model again after this action (when the
    /// iteration cap allows it).
    pub fn continues(&self) -> (r: bool)
        ensures
            r == action_continues(*self),
    {
        match self {
            SessionAction::Final(d) => match d {
                FinalDecision::FutureActionFeedback => true,
                FinalDecision::RequestedArtifactFeedback => true,
                FinalDecision::ActionRequiredFeedback(_) => true,
                _ => false,
            },
            _ => true,
        }
    }
}

impl SessionState {
    /// Decides what the loop does with a model response, given its content
    /// and the expected artifacts still missing, and updates the state.
    pub fn session_step(
        &mut self,
        policy: &FinalAnswerPolicy,
        response: ResponseKind,
        content: &str,
        missing: &Vec<String>,
    ) -> (r: SessionAction)
        ensures
            (r, *final(self)) == step_decision(
                *old(self),
                *policy,
                response,
                violates_contract(content@),
                missing@.len() > 0,
            ),
    {
        match response {
            ResponseKind::ToolCalls => SessionAction::RunTools,
            ResponseKind::Unparsable => {
                self.record_parse_failure();
                SessionAction::ParserFeedback
            },
            ResponseKind::Answer => {
                let d = self.decide_final_answer(policy, content, missing);
                SessionAction::Final(d)
            },
        }
    }
}

/// The iteration that follows `done` iterations, where the run allows
/// `max_iterations`: iterations are numbered from 1, and none follows the
/// last one (the run then stops for reaching its cap).
pub fn next_iteration(done: usize, max_iterations: usize) -> (r: Option<usize>)
    ensures
        r == (if done < max_iterations {
            Some((done + 1) as usize)
        } else {
            None::<usize>
        }),
{
    if done < max_iterations {
        Some(done + 1)
    } else {
        None
    }
}

/// The error that stops the run for a decision, if it stops it: the
/// answer for a broken final-answer contract or a missing action, the
/// missing paths for missing artifacts.
pub open spec fn stop_error_text(d: FinalDecision, content: Seq<char>, missing: Seq<Seq<char>>) -> Option<Seq<char>> {
    match d {
        FinalDecision::FinalAnswerContract => Some("assistant violated final answer contract: "@ + content),
        FinalDecision::MissingArtifacts => Some("missing expected artifacts: "@ + join(missing, ", "@)),
        FinalDecision::ActionRequiredNoEvidence => Some(
            "assistant did not provide required repository evidence: "@ + content,
        ),
        _ => None,
    }
}

/// The error with which a decision stops the run, or `None` where it
/// does not stop it.
pub fn stop_error(decision: FinalDecision, content: &str, missing: &Vec<String>) -> (r: Option<MinimalLoopError>)
    ensures
        match stop_error_text(decision, content@, views(missing@)) {
            Some(t) => r is Some && loop_error_text(r->0) == t,
            None => r is None,
        },
        decision == FinalDecision::FinalAnswerContract ==> (r matches Some(
            MinimalLoopError::FinalAnswerContract(m),
        ) && m@ == content@),
        decision == FinalDecision::MissingArtifacts ==> (r matches Some(MinimalLoopError::MissingArtifacts(paths))
            && views(paths@) == views(missing@)),
        decision == FinalDecision::ActionRequiredNoEvidence ==> (r matches Some(
            MinimalLoopError::ActionRequiredNoEvidence(m),
        ) && m@ == content@),
{
    match decision {
        FinalDecision::FinalAnswerContract => Some(MinimalLoopError::FinalAnswerContract(owned(content))),
        FinalDecision::MissingArtifacts => Some(MinimalLoopError::MissingArtifacts(copy_strings(missing))),
        FinalDecision::ActionRequiredNoEvidence => Some(MinimalLoopError::ActionRequiredNoEvidence(owned(content))),
        _ => None,
    }
}

/// A guard-feedback event of the given iteration, kind, format and missing paths.
pub open spec fn is_guard_event(
    e: RuntimeEvent,
    iteration: usize,
    kind: GuardFeedbackKind,
    mode: ToolCallMode,
    missing: Seq<Seq<char>>,
) -> bool {
    match e {
        RuntimeEvent::GuardFeedbackSent { iteration: i, kind: k, tool_call_mode: m, missing_artifacts } => i
            == iteration && k == kind && m == mode && views(missing_artifacts@) == missing,
        _ => false,
    }
}

/// A session-error event whose message is the event text of `text`.
pub open spec fn is_error_event(e: RuntimeEvent, text: Seq<char>) -> bool {
    match e {
        RuntimeEvent::SessionError { message } => message@ == event_text(text),
        _ => false,
    }
}

/// The status event of an expected path.
pub open spec fn is_status_event(e: RuntimeEvent, path: Seq<char>, missing: Seq<Seq<char>>) -> bool {
    match e {
        RuntimeEvent::ArtifactStatus { scope, path: p, status } => scope == ArtifactScope::StepExpectedPath && p@
            == event_text(path) && status == (if missing.contains(path) {
            ArtifactStatus::Missing
        } else {
            ArtifactStatus::Present
        }),
        _ => false,
    }
}

/// The events of an answer that calls no tool, in order. An answer that
/// breaks the final-answer contract gives only the future-action feedback
/// or the error. Any other answer first reports the status of each
/// expected artifact, then the feedback sent, the error, or the accepted
/// answer with its length in characters.
pub fn answer_events(
    iteration: usize,
    mode: ToolCallMode,
    decision: FinalDecision,
    content: &str,
    expected: &Vec<String>,
    missing: &Vec<String>,
) -> (r: Vec<RuntimeEvent>)
    ensures
        decision == FinalDecision::FutureActionFeedback ==> r@.len() == 1 && is_guard_event(
            r@[0],
            iteration,
            GuardFeedbackKind::FutureAction,
            mode,
            Seq::empty(),
        ),
        decision == FinalDecision::FinalAnswerContract ==> r@.len() == 1 && is_error_event(
            r@[0],
            stop_error_text(decision, content@, views(missing@))->0,
        ),
        decision != FinalDecision::FutureActionFeedback && decision != FinalDecision::FinalAnswerContract ==> {
            &&& r@.len() == expected@.len() + 1
            &&& forall|i: int|
                0 <= i < expected@.len() ==> is_status_event(#[trigger] r@[i], expected@[i]@, views(missing@))
            &&& match decision {
                FinalDecision::RequestedArtifactFeedback => is_guard_event(
                    r@.last(),
                    iteration,
                    GuardFeedbackKind::RequestedArtifacts,
                    mode,
                    views(missing@),
                ),
                FinalDecision::ActionRequiredFeedback(_) => is_guard_event(
                    r@.last(),
                    iteration,
                    GuardFeedbackKind::ActionRequired,
                    mode,
                    Seq::empty(),
                ),
                FinalDecision::Accept => r@.last() matches RuntimeEvent::FinalAnswerAccepted {
                    iteration: i,
                    answer_chars,
                } && i == iteration && answer_chars == content@.len(),
                _ => is_error_event(r@.last(), stop_error_text(decision, content@, views(missing@))->0),
            }
        },
{
    let mut out: Vec<RuntimeEvent> = Vec::new();
    if decision == FinalDecision::FutureActionFeedback {
        out.push(
            RuntimeEvent::GuardFeedbackSent {
                iteration,
                kind: GuardFeedbackKind::FutureAction,
                tool_call_mode: mode,
                missing_artifacts: Vec::new(),
            },
        );
        proof {
            assert(views(Seq::<String>::empty()) =~= Seq::<Seq<char>>::empty());
        }
        return out;
    }
    if decision == FinalDecision::FinalAnswerContract {
        let err = MinimalLoopError::FinalAnswerContract(owned(content));
        let text = err.to_string();
        out.push(RuntimeEvent::SessionError { message: bounded_event_text(text.as_str()) });
        return out;
    }
    out = artifact_status_events(expected, missing);
    let ghost statuses = out@;
    let last = match decision {
        FinalDecision::RequestedArtifactFeedback => RuntimeEvent::GuardFeedbackSent {
            iteration,
            kind: GuardFeedbackKind::RequestedArtifacts,
            tool_call_mode: mode,
            missing_artifacts: copy_strings(missing),
        },
        FinalDecision::ActionRequiredFeedback(_) => {
            proof {
                assert(views(Seq::<String>::empty()) =~= Seq::<Seq<char>>::empty());
            }
            RuntimeEvent::GuardFeedbackSent {
                iteration,
                kind: GuardFeedbackKind::ActionRequired,
                tool_call_mode: mode,
                missing_artifacts: Vec::new(),
            }
        },
        FinalDecision::Accept => RuntimeEvent::FinalAnswerAccepted {
            iteration,
            answer_chars: crate::text::char_count(content),
        },
        _ => {
            let err = stop_error(decision, content, missing);
            let text = match err {
                Some(e) => e.to_string(),
                None => String::new(),
            };
            RuntimeEvent::SessionError { message: bounded_event_text(text.as_str()) }
        },
    };
    out.push(last);
    proof {
        assert forall|i: int| 0 <= i < expected@.len() implies is_status_event(
            #[trigger] out@[i],
            expected@[i]@,
            views(missing@),
        ) by {
            assert(out@[i] == statuses[i]);
        }
    }
    out
}

/// The event of an unparsable response: the parser feedback sent, with the
/// formats before and after the step and the bounded parse error.
pub fn parser_feedback_event(iteration: usize, before: &SessionState, after: &SessionState, error: &str) -> (r:
    RuntimeEvent)
    ensures
        r matches RuntimeEvent::ParserFeedbackSent {
            iteration: i,
            previous_tool_call_mode,
            next_tool_call_mode,
            error: e,
        } && i == iteration && previous_tool_call_mode == before.mode && next_tool_call_mode == after.mode && e@
            == event_text(error@),
{
    RuntimeEvent::ParserFeedbackSent {
        iteration,
        previous_tool_call_mode: before.mode,
        next_tool_call_mode: after.mode,
        error: bounded_event_text(error),
    }
}

/// The events after a tool call finished: its result, then, when its
/// output was cut, the truncation with the original and returned lengths.
pub fn tool_result_events(
    iteration: usize,
    name: &str,
    ok: bool,
    output_chars: usize,
    truncated: bool,
    original_chars: usize,
) -> (r: Vec<RuntimeEvent>)
    ensures
        r@.len() == (if truncated { 2int } else { 1int }),
        r@[0] matches RuntimeEvent::ToolCallFinished { iteration: i, tool_name, ok: o, output_chars: n, error } && i
            == iteration && tool_name@ == name@ && o == ok && n == output_chars && error is None,
        truncated ==> (r@[1] matches RuntimeEvent::ToolResultTruncated {
            iteration: i,
            tool_name,
            original_chars: a,
            returned_chars: b,
            reason,
        } && i == iteration && tool_name@ == name@ && a == original_chars && b == output_chars && reason@
            == "max_output_chars"@),
{
    let mut out: Vec<RuntimeEvent> = Vec::new();
    out.push(
        RuntimeEvent::ToolCallFinished { iteration, tool_name: owned(name), ok, output_chars, error: None },
    );
    if truncated {
        out.push(
            RuntimeEvent::ToolResultTruncated {
                iteration,
                tool_name: owned(name),
                original_chars,
                returned_chars: output_chars,
                reason: owned("max_output_chars"),
            },
        );
    }
    out
}

/// The events of a tool call that failed to run: its failed result with
/// the bounded error, then the session error, since the run stops.
pub fn tool_failure_events(iteration: usize, name: &str, err: &MinimalLoopError) -> (r: Vec<RuntimeEvent>)
    ensures
        r@.len() == 2,
        match r@[0] {
            RuntimeEvent::ToolCallFinished { iteration: i, tool_name, ok, output_chars, error } => i == iteration
                && tool_name@ == name@ && !ok && output_chars == 0 && match error {
                Some(m) => m@ == event_text(loop_error_text(*err)),
                None => false,
            },
            _ => false,
        },
        is_error_event(r@[1], loop_error_text(*err)),
{
    let text = err.to_string();
    let mut out: Vec<RuntimeEvent> = Vec::new();
    out.push(
        RuntimeEvent::ToolCallFinished {
            iteration,
            tool_name: owned(name),
            ok: false,
            output_chars: 0,
            error: Some(bounded_event_text(text.as_str())),
        },
    );
    out.push(RuntimeEvent::SessionError { message: bounded_event_text(text.as_str()) });
    out
}

/// Only an answer without tool calls ends a run before its iteration cap:
/// tool calls and unparsable responses always lead to another request.
pub proof fn lemma_only_answers_end_the_run(
    s: SessionState,
    p: FinalAnswerPolicy,
    response: ResponseKind,
    violates: bool,
    artifacts_missing: bool,
)
    ensures
        !action_continues(step_decision(s, p, response, violates, artifacts_missing).0) ==> response
            == ResponseKind::Answer,
{
}

} // verus!
