//! Runtime events reported to observers while a session runs.
pub use crate::minimal_loop::ToolCallMode;
use crate::text::{chars_of, push_str, string_of, trim_end};
use vstd::prelude::*;

verus! {

/// The most characters of free text an event carries.
pub const MAX_EVENT_TEXT_CHARS: usize = 160;

/// Token accounting reported by a provider for one response.
#[derive(Debug, Clone, PartialEq, Eq, Default)]
pub struct ModelUsage {
    pub input_tokens: Option<u64>,
    pub cached_input_tokens: Option<u64>,
    pub output_tokens: Option<u64>,
    pub reasoning_tokens: Option<u64>,
    pub total_tokens: Option<u64>,
    pub request_count: u64,
    pub unavailable_reason: Option<String>,
}

impl ModelUsage {
    /// Usage that the provider did not report, with the reason.
    pub fn unavailable(reason: &str) -> (r: Self)
        ensures
            r.input_tokens is None,
            r.cached_input_tokens is None,
            r.output_tokens is None,
            r.reasoning_tokens is None,
            r.total_tokens is None,
            r.request_count == 0,
            crate::text::opt_view(r.unavailable_reason) == Some(reason@),
    {
        ModelUsage {
            input_tokens: None,
            cached_input_tokens: None,
            output_tokens: None,
            reasoning_tokens: None,
            total_tokens: None,
            request_count: 0,
            unavailable_reason: Some(crate::text::owned(reason)),
        }
    }
}

/// Something that happened during planning or execution.
#[derive(Debug, Clone, PartialEq, Eq)]
pub enum RuntimeEvent {
    PlanGenerationStarted { kind: PlanKind, goal: String, profile: String },
    PlanGenerationFinished { kind: PlanKind, item_count: usize },
    PlanSaved { kind: PlanKind, path: String, item_ids: Vec<String> },
    UltraPhaseStarted { index: usize, total: usize, phase_id: String },
    UltraPhaseFinished { index: usize, total: usize, phase_id: String },
    UltraPhaseFailed { index: usize, total: usize, phase_id: String, error: String },
    ProfileVerificationFailed { profile: String, failures: Vec<String> },
    StepStarted { index: usize, total: usize, step_id: String },
    StepFinished { index: usize, total: usize, step_id: String },
    StepFailed {
        index: usize,
        total: usize,
        step_id: String,
        error: String,
        missing_expected_paths: Vec<String>,
    },
    VerifierStarted { step_id: String, command: String },
    VerifierFinished { step_id: String, command: String, ok: bool, failure_count: usize },
    DependencySetupStarted { step_id: String, command: String },
    DependencySetupFinished {
        step_id: String,
        command: String,
        ok: bool,
        elapsed_ms: u128,
        status: String,
    },
    RecoveryTaskStarted {
        step_id: String,
        attempt: usize,
        active_job: String,
        dispatch_status: String,
        execution_envelope: Option<String>,
        target_path: Option<String>,
    },
    RepairAttemptStarted {
        step_id: String,
        attempt: usize,
        max_attempts: usize,
        missing_expected_paths: Vec<String>,
    },
    RepairExhausted {
        step_id: String,
        repair_path: String,
        suggested_command: String,
        missing_expected_paths: Vec<String>,
    },
    ModelRequestStarted { iteration: usize, model: String, tool_call_mode: ToolCallMode },
    ModelResponseReceived {
        iteration: usize,
        tool_call_mode: ToolCallMode,
        tool_call_count: usize,
        content_chars: usize,
        elapsed_ms: u128,
        usage: ModelUsage,
    },
    ParserFeedbackSent {
        iteration: usize,
        previous_tool_call_mode: ToolCallMode,
        next_tool_call_mode: ToolCallMode,
        error: String,
    },
    GuardFeedbackSent {
        iteration: usize,
        kind: GuardFeedbackKind,
        tool_call_mode: ToolCallMode,
        missing_artifacts: Vec<String>,
    },
    ArtifactStatus { scope: ArtifactScope, path: String, status: ArtifactStatus },
    ToolCallStarted { iteration: usize, tool_name: String, args_summary: String },
    ToolCallFinished {
        iteration: usize,
        tool_name: String,
        ok: bool,
        output_chars: usize,
        error: Option<String>,
    },
    ToolResultTruncated {
        iteration: usize,
        tool_name: String,
        original_chars: usize,
        returned_chars: usize,
        reason: String,
    },
    FinalAnswerAccepted { iteration: usize, answer_chars: usize },
    SessionError { message: String },
}

/// Why the loop sent guard feedback to the model.
#[derive(Debug, Clone, Copy, PartialEq, Eq)]
pub enum GuardFeedbackKind {
    FutureAction,
    RequestedArtifacts,
    ActionRequired,
}

/// Which kind of plan an event is about.
#[derive(Debug, Clone, Copy, PartialEq, Eq)]
pub enum PlanKind {
    StepPlan,
    UltraPlan,
    PhaseStepPlan,
}

/// Where an artifact status was checked.
#[derive(Debug, Clone, Copy, PartialEq, Eq)]
pub enum ArtifactScope {
    StepExpectedPath,
    FinalRequiredArtifact,
}

/// Whether an artifact was found.
#[derive(Debug, Clone, Copy, PartialEq, Eq)]
pub enum ArtifactStatus {
    Present,
    Missing,
    Unchecked,
}

/// Receives runtime events; the default ignores them.
pub trait RuntimeObserver {
    fn on_event(&mut self, event: RuntimeEvent) {
    }
}

/// An observer that ignores every event.
#[derive(Debug, Default)]
pub struct NoopRuntimeObserver;

impl RuntimeObserver for NoopRuntimeObserver {

}

/// A control character, in the C0 or C1 range or DEL.
pub open spec fn is_control(c: char) -> bool {
    (c as u32) < 0x20 || (c as u32) == 0x7f || (0x80 <= (c as u32) && (c as u32) <= 0x9f)
}

/// A character as shown in event text: control characters become spaces.
pub open spec fn sanitized(c: char) -> char {
    if is_control(c) { ' ' } else { c }
}

/// Event text: at most `MAX_EVENT_TEXT_CHARS` sanitized characters, `...`
/// when the input was longer, and no trailing whitespace.
pub open spec fn event_text(s: Seq<char>) -> Seq<char> {
    let n = if s.len() > MAX_EVENT_TEXT_CHARS { MAX_EVENT_TEXT_CHARS as int } else { s.len() as int };
    let kept = s.take(n).map_values(|c: char| sanitized(c));
    trim_end(if s.len() > MAX_EVENT_TEXT_CHARS { kept + "..."@ } else { kept })
}

/// Bounds and sanitizes free text before it is put in an event.
pub fn bounded_event_text(input: &str) -> (r: String)
    ensures
        r@ == event_text(input@),
{
    let v = chars_of(input);
    let n: usize = if v.len() > MAX_EVENT_TEXT_CHARS { MAX_EVENT_TEXT_CHARS } else { v.len() };
    let mut out: Vec<char> = Vec::new();
    let mut i: usize = 0;
    while i < n
        invariant
            i <= n <= v@.len(),
            out@ == v@.take(i as int).map_values(|c: char| sanitized(c)),
        decreases n - i,
    {
        let c = v[i];
        let cp: u32 = c as u32;
        let shown = if cp < 0x20 || cp == 0x7f || (0x80 <= cp && cp <= 0x9f) { ' ' } else { c };
        out.push(shown);
        i = i + 1;
        assert(v@.take(i as int) == v@.take(i - 1).push(c));
        assert(v@.take(i as int).map_values(|c: char| sanitized(c)) == v@.take(i - 1).map_values(
            |c: char| sanitized(c),
        ).push(sanitized(c)));
    }
    let mut s = string_of(out.as_slice());
    if v.len() > MAX_EVENT_TEXT_CHARS {
        push_str(&mut s, "...");
    }
    crate::text::trim_end_str(s.as_str())
}


proof fn lemma_trim_end_prefix(s: Seq<char>) -> (k: int)
    ensures
        0 <= k <= s.len(),
        trim_end(s) == s.take(k),
    decreases s.len(),
{
    if s.len() > 0 && crate::text::is_ws(s.last()) {
        let k = lemma_trim_end_prefix(s.drop_last());
        assert(s.drop_last().take(k) =~= s.take(k));
        k
    } else {
        assert(s.take(s.len() as int) =~= s);
        s.len() as int
    }
}

/// Event text is short and printable: at most `MAX_EVENT_TEXT_CHARS`
/// characters and a three-dot marker, none of them a control character.
pub proof fn lemma_event_text_bounded(s: Seq<char>)
    ensures
        event_text(s).len() <= MAX_EVENT_TEXT_CHARS + 3,
        forall|k: int| 0 <= k < event_text(s).len() ==> !is_control(#[trigger] event_text(s)[k]),
{
    reveal_strlit("...");
    let n = if s.len() > MAX_EVENT_TEXT_CHARS { MAX_EVENT_TEXT_CHARS as int } else { s.len() as int };
    let kept = s.take(n).map_values(|c: char| sanitized(c));
    let full = if s.len() > MAX_EVENT_TEXT_CHARS { kept + "..."@ } else { kept };
    let k = lemma_trim_end_prefix(full);
    assert forall|i: int| 0 <= i < full.len() implies !is_control(#[trigger] full[i]) by {
        if i < kept.len() {
            assert(full[i] == sanitized(s.take(n)[i]));
        } else {
            assert(full[i] == '.');
        }
    }
    assert forall|i: int| 0 <= i < event_text(s).len() implies !is_control(#[trigger] event_text(s)[i]) by {
        assert(event_text(s)[i] == full[i]);
    }
}

} // verus!
