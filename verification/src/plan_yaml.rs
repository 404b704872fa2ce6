//! The YAML form of a step plan: rendering, line-by-line parsing with the
//! indentation drift that models produce, block scalars, and validation.
//!
//! String values are written as JSON string literals; quoted values are read
//! back with `serde_json`, unquoted ones are taken as they stand.
use crate::plan::{
    hyphenate, intent_name, intent_named, kind_name, kind_named, normalized, result_name,
    result_named, ExpectedResult, StepKind, StepPlan, StepPlanStep, WorkIntent,
};
use crate::json_value::{json_document, parse_json, JsonValue, JsonView};
use crate::plan_error::PlanError;
use crate::text::{
    chars_of, contains, contains_any, copy_string, is_blank, is_blank_str, is_ws, join, lower, lower_str,
    opt_view, owned, push_char, push_str, slice_range, starts_with, str_contains_any, str_eq,
    str_starts_with, str_views, string_of, strip_prefix_str, after_prefix, trim, trim_end, trim_end_str, trim_start,
    trim_start_str, trim_str, views,
};
use vstd::prelude::*;

verus! {

// ---------------------------------------------------------------------------
// JSON string literals (serde_json)
// ---------------------------------------------------------------------------

/// The lower-case hexadecimal digit of a value below sixteen.
pub open spec fn hex_digit(n: int) -> char {
    seq!['0', '1', '2', '3', '4', '5', '6', '7', '8', '9', 'a', 'b', 'c', 'd', 'e', 'f'][n]
}

/// How `serde_json` writes one character inside a string literal: quote and
/// backslash escaped, the control characters with a short escape where JSON
/// has one and `\u00XX` otherwise, everything else as it is.
pub open spec fn json_escape(c: char) -> Seq<char> {
    if c == '"' {
        seq!['\\', '"']
    } else if c == '\\' {
        seq!['\\', '\\']
    } else if c == '\u{8}' {
        seq!['\\', 'b']
    } else if c == '\t' {
        seq!['\\', 't']
    } else if c == '\n' {
        seq!['\\', 'n']
    } else if c == '\u{c}' {
        seq!['\\', 'f']
    } else if c == '\r' {
        seq!['\\', 'r']
    } else if (c as u32) < 0x20 {
        seq!['\\', 'u', '0', '0', hex_digit((c as u32) as int / 16), hex_digit((c as u32) as int % 16)]
    } else {
        seq![c]
    }
}

/// The characters of a string, each written as `json_escape` says.
pub open spec fn json_escaped(s: Seq<char>) -> Seq<char>
    decreases s.len(),
{
    if s.len() == 0 {
        Seq::empty()
    } else {
        json_escaped(s.drop_last()) + json_escape(s.last())
    }
}

/// The JSON string literal of a string: its escaped characters in double
/// quotes.
pub open spec fn json_quoted(s: Seq<char>) -> Seq<char> {
    seq!['"'] + json_escaped(s) + seq!['"']
}

/// The string a JSON text denotes when it is a JSON string; `None` when it
/// is not JSON or denotes another kind of value.
pub open spec fn json_string_value(s: Seq<char>) -> Option<Seq<char>> {
    match json_document(s) {
        Some(JsonView::Str(v)) => Some(v),
        _ => None,
    }
}

/// `serde_json::to_string` on a string slice. Serializing a string cannot
/// fail (its `Serialize` impl never errors and the buffer is in memory);
/// the text is the string quoted with the escapes of `json_quoted`, and
/// `serde_json::from_str` reads it back as the same string.
#[verifier::external_body]
fn json_encode(s: &str) -> (r: Option<String>)
    ensures
        opt_view(r) == Some(json_quoted(s@)),
        r matches Some(e) ==> json_document(e@) == Some(JsonView::Str(s@)),
{
    serde_json::to_string(s).ok()
}

/// The string a JSON string literal denotes; `None` for a text that is not
/// JSON or not a string.
fn json_string_literal(s: &str) -> (r: Option<String>)
    ensures
        opt_view(r) == json_string_value(s@),
{
    match parse_json(s) {
        Ok(JsonValue::Str(v)) => Some(v),
        _ => None,
    }
}

/// No escaped character is a line break.
proof fn lemma_escaped_no_breaks(s: Seq<char>)
    ensures
        forall|i: int| 0 <= i < json_escaped(s).len() ==> json_escaped(s)[i] != '\n' && json_escaped(s)[i] != '\r',
    decreases s.len(),
{
    if s.len() > 0 {
        lemma_escaped_no_breaks(s.drop_last());
        let c = s.last();
        let e = json_escape(c);
        assert(forall|i: int| 0 <= i < e.len() ==> e[i] != '\n' && e[i] != '\r') by {
            if (c as u32) < 0x20 && c != '\u{8}' && c != '\t' && c != '\n' && c != '\u{c}' && c != '\r' {
                let hi = (c as u32) as int / 16;
                let lo = (c as u32) as int % 16;
                assert(0 <= hi < 16 && 0 <= lo < 16);
                let digits = seq!['0', '1', '2', '3', '4', '5', '6', '7', '8', '9', 'a', 'b', 'c', 'd', 'e', 'f'];
                assert(forall|k: int| 0 <= k < 16 ==> digits[k] != '\n' && digits[k] != '\r');
            }
        }
        let a = json_escaped(s.drop_last());
        assert(json_escaped(s) == a + e);
        assert forall|i: int| 0 <= i < json_escaped(s).len() implies json_escaped(s)[i] != '\n'
            && json_escaped(s)[i] != '\r' by {
            if i < a.len() {
                assert(json_escaped(s)[i] == a[i]);
            } else {
                assert(json_escaped(s)[i] == e[i - a.len()]);
            }
        }
    }
}

/// A JSON string literal is quoted and holds no line break.
pub proof fn lemma_json_quoted_shape(s: Seq<char>)
    ensures
        json_quoted(s).len() >= 2,
        json_quoted(s)[0] == '"',
        json_quoted(s).last() == '"',
        forall|i: int| 0 <= i < json_quoted(s).len() ==> json_quoted(s)[i] != '\n' && json_quoted(s)[i] != '\r',
{
    lemma_escaped_no_breaks(s);
    let q = json_quoted(s);
    let m = json_escaped(s);
    assert forall|i: int| 0 <= i < q.len() implies q[i] != '\n' && q[i] != '\r' by {
        if 1 <= i < q.len() - 1 {
            assert(q[i] == m[i - 1]);
        }
    }
}

/// A string as a YAML value: its JSON string literal.
pub open spec fn enc(s: Seq<char>) -> Seq<char> {
    json_quoted(s)
}

/// The string's JSON literal is a quoted text without line breaks that
/// reads back as the string.
pub open spec fn encodes(s: Seq<char>) -> bool {
    let e = json_quoted(s);
    e.len() >= 2 && e[0] == '"' && e.last() == '"' && (forall|i: int|
        0 <= i < e.len() ==> e[i] != '\n' && e[i] != '\r') && json_string_value(e) == Some(s)
}

pub open spec fn all_encode(items: Seq<Seq<char>>) -> bool {
    forall|k: int| 0 <= k < items.len() ==> encodes(#[trigger] items[k])
}

fn yaml_string(value: &str) -> (r: String)
    ensures
        r@ == enc(value@),
        encodes(value@),
        r@.len() >= 2 && r@[0] == '"' && r@.last() == '"',
        forall|i: int| 0 <= i < r@.len() ==> r@[i] != '\n' && r@[i] != '\r',
        json_string_value(r@) == Some(value@),
{
    proof {
        lemma_json_quoted_shape(value@);
    }
    match json_encode(value) {
        Some(e) => e,
        None => owned("\"\""),
    }
}

// ---------------------------------------------------------------------------
// Errors and plans as values
// ---------------------------------------------------------------------------

/// A plan error as a mathematical value.
pub enum PlanErrorView {
    MissingField(Seq<char>),
    EmptyField(Seq<char>),
    NoSteps,
    InvalidStepId(Seq<char>),
    DuplicateStepId(Seq<char>),
    InvalidYaml(Seq<char>),
    InvalidEnum { field: Seq<char>, value: Seq<char> },
    InvalidPlanInput(Seq<char>),
    Io { path: Seq<char>, message: Seq<char> },
}

pub open spec fn error_view(e: PlanError) -> PlanErrorView {
    match e {
        PlanError::MissingField(f) => PlanErrorView::MissingField(f@),
        PlanError::EmptyField(f) => PlanErrorView::EmptyField(f@),
        PlanError::NoSteps => PlanErrorView::NoSteps,
        PlanError::InvalidStepId(i) => PlanErrorView::InvalidStepId(i@),
        PlanError::DuplicateStepId(i) => PlanErrorView::DuplicateStepId(i@),
        PlanError::InvalidYaml(m) => PlanErrorView::InvalidYaml(m@),
        PlanError::InvalidEnum { field, value } => PlanErrorView::InvalidEnum {
            field: field@,
            value: value@,
        },
        PlanError::InvalidPlanInput(m) => PlanErrorView::InvalidPlanInput(m@),
        PlanError::Io { path, message } => PlanErrorView::Io { path: path@, message: message@ },
    }
}

/// A step as a mathematical value.
pub struct StepView {
    pub id: Seq<char>,
    pub kind: StepKind,
    pub instruction: Seq<char>,
    pub result: ExpectedResult,
    pub paths: Seq<Seq<char>>,
    pub verify: Seq<Seq<char>>,
}

/// A plan as a mathematical value.
pub struct PlanView {
    pub goal: Seq<char>,
    pub profile: Seq<char>,
    pub style: Seq<char>,
    pub intent: WorkIntent,
    pub required: Seq<Seq<char>>,
    pub steps: Seq<StepView>,
}

pub open spec fn step_view(s: StepPlanStep) -> StepView {
    StepView {
        id: s.id@,
        kind: s.kind,
        instruction: s.instruction@,
        result: s.expected_result,
        paths: views(s.expected_paths@),
        verify: views(s.verify@),
    }
}

pub open spec fn plan_view(p: StepPlan) -> PlanView {
    PlanView {
        goal: p.goal@,
        profile: p.profile@,
        style: p.style@,
        intent: p.intent,
        required: views(p.required_artifacts@),
        steps: p.steps@.map_values(|s: StepPlanStep| step_view(s)),
    }
}

// ---------------------------------------------------------------------------
// Validation
// ---------------------------------------------------------------------------

pub open spec fn id_char(c: char) -> bool {
    ('0' <= c && c <= '9') || ('a' <= c && c <= 'z') || ('A' <= c && c <= 'Z') || c == '-' || c
        == '_'
}

/// A step id of ASCII letters, digits, `-` and `_` only.
pub open spec fn valid_id(id: Seq<char>) -> bool {
    forall|i: int| 0 <= i < id.len() ==> id_char(#[trigger] id[i])
}

/// The fault of the last step, given that the steps before it passed.
pub open spec fn step_check(steps: Seq<StepView>) -> Option<PlanErrorView> {
    let s = steps.last();
    let before = steps.drop_last();
    if is_blank(s.id) {
        Some(PlanErrorView::EmptyField("step.id"@))
    } else if !valid_id(s.id) {
        Some(PlanErrorView::InvalidStepId(s.id))
    } else if exists|j: int| 0 <= j < before.len() && #[trigger] before[j].id == s.id {
        Some(PlanErrorView::DuplicateStepId(s.id))
    } else if is_blank(s.instruction) {
        Some(PlanErrorView::EmptyField("step."@ + s.id + ".instruction"@))
    } else {
        None
    }
}

/// The first step fault, in order.
pub open spec fn steps_check(steps: Seq<StepView>) -> Option<PlanErrorView>
    decreases steps.len(),
{
    if steps.len() == 0 {
        None
    } else {
        match steps_check(steps.drop_last()) {
            Some(e) => Some(e),
            None => step_check(steps),
        }
    }
}

/// Why a plan is invalid, if it is: a blank goal, profile or style, no
/// steps, or a step with a blank or malformed or repeated id or a blank
/// instruction.
pub open spec fn validate_fault(p: PlanView) -> Option<PlanErrorView> {
    if is_blank(p.goal) {
        Some(PlanErrorView::EmptyField("goal"@))
    } else if is_blank(p.profile) {
        Some(PlanErrorView::EmptyField("profile"@))
    } else if is_blank(p.style) {
        Some(PlanErrorView::EmptyField("style"@))
    } else if p.steps.len() == 0 {
        Some(PlanErrorView::NoSteps)
    } else {
        steps_check(p.steps)
    }
}

fn is_valid_id(id: &str) -> (r: bool)
    ensures
        r == valid_id(id@),
{
    let v = chars_of(id);
    let mut i: usize = 0;
    while i < v.len()
        invariant
            i <= v@.len(),
            v@ == id@,
            forall|k: int| 0 <= k < i ==> id_char(#[trigger] v@[k]),
        decreases v.len() - i,
    {
        let c = v[i];
        if !(('0' <= c && c <= '9') || ('a' <= c && c <= 'z') || ('A' <= c && c <= 'Z') || c == '-'
            || c == '_') {
            assert(!id_char(v@[i as int]));
            return false;
        }
        i = i + 1;
    }
    true
}

/// Checks that a plan is complete and its step ids are well formed and
/// distinct.
pub fn validate_step_plan(plan: &StepPlan) -> (r: Result<(), PlanError>)
    ensures
        match validate_fault(plan_view(*plan)) {
            None => r is Ok,
            Some(v) => r matches Err(e) && error_view(e) == v,
        },
{
    if is_blank_str(plan.goal.as_str()) {
        return Err(PlanError::EmptyField(owned("goal")));
    }
    if is_blank_str(plan.profile.as_str()) {
        return Err(PlanError::EmptyField(owned("profile")));
    }
    if is_blank_str(plan.style.as_str()) {
        return Err(PlanError::EmptyField(owned("style")));
    }
    if plan.steps.len() == 0 {
        return Err(PlanError::NoSteps);
    }
    let ghost sv = plan_view(*plan).steps;
    let mut i: usize = 0;
    while i < plan.steps.len()
        invariant
            i <= plan.steps@.len(),
            sv == plan.steps@.map_values(|s: StepPlanStep| step_view(s)),
            steps_check(sv.take(i as int)) is None,
            !is_blank(plan.goal@),
            !is_blank(plan.profile@),
            !is_blank(plan.style@),
            plan.steps@.len() > 0,
        decreases plan.steps.len() - i,
    {
        let step = &plan.steps[i];
        proof {
            assert(sv.take(i + 1).drop_last() =~= sv.take(i as int));
            assert(sv.take(i + 1).last() == step_view(*step));
        }
        let id = step.id.as_str();
        let mut fault: Option<PlanError> = None;
        if is_blank_str(id) {
            fault = Some(PlanError::EmptyField(owned("step.id")));
        } else if !is_valid_id(id) {
            fault = Some(PlanError::InvalidStepId(owned(id)));
        } else {
            let mut j: usize = 0;
            let mut dup = false;
            while j < i
                invariant
                    j <= i < plan.steps@.len(),
                    sv == plan.steps@.map_values(|s: StepPlanStep| step_view(s)),
                    id@ == plan.steps@[i as int].id@,
                    dup == exists|k: int| 0 <= k < j && #[trigger] sv.take(i + 1).drop_last()[k].id == id@,
                decreases i - j,
            {
                if str_eq(plan.steps[j].id.as_str(), id) {
                    assert(sv.take(i + 1).drop_last()[j as int].id == id@);
                    dup = true;
                }
                j = j + 1;
            }
            if dup {
                fault = Some(PlanError::DuplicateStepId(owned(id)));
            } else if is_blank_str(step.instruction.as_str()) {
                let mut f = owned("step.");
                push_str(&mut f, id);
                push_str(&mut f, ".instruction");
                fault = Some(PlanError::EmptyField(f));
            }
        }
        assert(match fault {
            Some(e) => step_check(sv.take(i + 1)) == Some(error_view(e)),
            None => step_check(sv.take(i + 1)) is None,
        });
        match fault {
            Some(e) => {
                proof {
                    lemma_steps_check_prefix(sv, i as int + 1);
                }
                return Err(e);
            },
            None => {},
        }
        i = i + 1;
    }
    assert(sv.take(plan.steps@.len() as int) =~= sv);
    Ok(())
}

proof fn lemma_steps_check_prefix(steps: Seq<StepView>, n: int)
    requires
        1 <= n <= steps.len(),
        steps_check(steps.take(n)) is Some,
    ensures
        steps_check(steps) == steps_check(steps.take(n)),
    decreases steps.len() - n,
{
    if n < steps.len() {
        assert(steps.take(n + 1).drop_last() =~= steps.take(n));
        lemma_steps_check_prefix(steps, n + 1);
    } else {
        assert(steps.take(n) =~= steps);
    }
}


// ---------------------------------------------------------------------------
// Rendering
// ---------------------------------------------------------------------------

/// Each item as a line: the prefix and the item's JSON literal.
pub open spec fn item_lines(prefix: Seq<char>, items: Seq<Seq<char>>) -> Seq<Seq<char>> {
    items.map_values(|x: Seq<char>| prefix + enc(x))
}

/// The lines of one step.
pub open spec fn step_lines(s: StepView) -> Seq<Seq<char>> {
    seq![
        "  - id: "@ + enc(s.id),
        "    kind: "@ + enc(kind_name(s.kind)),
        "    instruction: "@ + enc(s.instruction),
        "    expected_result: "@ + enc(result_name(s.result)),
        "    expected_paths:"@,
    ] + item_lines("      - "@, s.paths) + seq!["    verify:"@] + item_lines("      - "@, s.verify)
}

pub open spec fn steps_lines(steps: Seq<StepView>) -> Seq<Seq<char>>
    decreases steps.len(),
{
    if steps.len() == 0 {
        Seq::empty()
    } else {
        steps_lines(steps.drop_last()) + step_lines(steps.last())
    }
}

pub open spec fn header_lines(p: PlanView) -> Seq<Seq<char>> {
    seq![
        "goal: "@ + enc(p.goal),
        "profile: "@ + enc(p.profile),
        "style: "@ + enc(p.style),
        "intent: "@ + enc(intent_name(p.intent)),
        "required_artifacts:"@,
    ]
}

/// The lines of a rendered plan.
pub open spec fn render_lines(p: PlanView) -> Seq<Seq<char>> {
    header_lines(p) + item_lines("  - "@, p.required) + seq!["steps:"@] + steps_lines(p.steps)
}

/// The lines, each followed by a newline.
pub open spec fn terminated(lines: Seq<Seq<char>>) -> Seq<char>
    decreases lines.len(),
{
    if lines.len() == 0 {
        Seq::empty()
    } else {
        terminated(lines.drop_last()) + lines.last() + "\n"@
    }
}

/// The YAML text of a plan.
pub open spec fn render_spec(p: PlanView) -> Seq<char> {
    terminated(render_lines(p))
}

fn push_line(out: &mut String, prefix: &str, value: &str, ghost_lines: Ghost<Seq<Seq<char>>>)
    requires
        old(out)@ == terminated(ghost_lines@),
    ensures
        final(out)@ == terminated(ghost_lines@.push(prefix@ + value@)),
{
    let ghost before = ghost_lines@.push(prefix@ + value@);
    push_str(out, prefix);
    push_str(out, value);
    push_str(out, "\n");
    proof {
        assert(before.drop_last() =~= ghost_lines@);
        assert(final(out)@ =~= terminated(before));
    }
}

fn push_items(out: &mut String, prefix: &str, items: &Vec<String>, ghost_lines: Ghost<Seq<Seq<char>>>)
    requires
        old(out)@ == terminated(ghost_lines@),
    ensures
        final(out)@ == terminated(ghost_lines@ + item_lines(prefix@, views(items@))),
        all_encode(views(items@)),
{
    let ghost all = item_lines(prefix@, views(items@));
    let mut i: usize = 0;
    while i < items.len()
        invariant
            i <= items@.len(),
            all == item_lines(prefix@, views(items@)),
            out@ == terminated(ghost_lines@ + all.take(i as int)),
            forall|k: int| 0 <= k < i ==> encodes(#[trigger] views(items@)[k]),
        decreases items.len() - i,
    {
        let e = yaml_string(items[i].as_str());
        push_line(out, prefix, e.as_str(), Ghost(ghost_lines@ + all.take(i as int)));
        proof {
            assert((ghost_lines@ + all.take(i as int)).push(prefix@ + e@) =~= ghost_lines@ + all.take(i + 1));
        }
        i = i + 1;
    }
    assert(all.take(items@.len() as int) =~= all);
}

/// Renders a plan as YAML, every value a JSON string literal. A valid plan
/// whose required artifacts are distinct reads back as the same plan.
pub fn render_step_plan_yaml(plan: &StepPlan) -> (r: String)
    ensures
        r@ == render_spec(plan_view(*plan)),
        plan_encodes(plan_view(*plan)),
        validate_fault(plan_view(*plan)) is None && distinct(plan_view(*plan).required) ==> parse_spec(r@)
            == Ok::<PlanView, PlanErrorView>(plan_view(*plan)),
{
    let ghost pv = plan_view(*plan);
    proof {
        reveal_strlit("");
        assert(forall|x: Seq<char>| x + ""@ =~= x);
    }
    let mut out = String::new();
    let g = yaml_string(plan.goal.as_str());
    push_line(&mut out, "goal: ", g.as_str(), Ghost(Seq::empty()));
    assert(Seq::<Seq<char>>::empty().push("goal: "@ + g@) =~= header_lines(pv).take(1));
    let p = yaml_string(plan.profile.as_str());
    push_line(&mut out, "profile: ", p.as_str(), Ghost(header_lines(pv).take(1)));
    assert(header_lines(pv).take(1).push("profile: "@ + p@) =~= header_lines(pv).take(2));
    let s = yaml_string(plan.style.as_str());
    push_line(&mut out, "style: ", s.as_str(), Ghost(header_lines(pv).take(2)));
    assert(header_lines(pv).take(2).push("style: "@ + s@) =~= header_lines(pv).take(3));
    let it = yaml_string(plan.intent.as_str());
    push_line(&mut out, "intent: ", it.as_str(), Ghost(header_lines(pv).take(3)));
    assert(header_lines(pv).take(3).push("intent: "@ + it@) =~= header_lines(pv).take(4));
    push_line(&mut out, "required_artifacts:", "", Ghost(header_lines(pv).take(4)));
    assert(header_lines(pv).take(4).push("required_artifacts:"@ + ""@) =~= header_lines(pv));
    push_items(&mut out, "  - ", &plan.required_artifacts, Ghost(header_lines(pv)));
    let ghost pre = header_lines(pv) + item_lines("  - "@, pv.required);
    push_line(&mut out, "steps:", "", Ghost(pre));
    proof {
        assert(pre.push("steps:"@ + ""@) =~= pre + seq!["steps:"@]);
    }
    let ghost base = pre + seq!["steps:"@];
    let mut i: usize = 0;
    while i < plan.steps.len()
        invariant
            i <= plan.steps@.len(),
            pv == plan_view(*plan),
            out@ == terminated(base + steps_lines(pv.steps.take(i as int))),
            encodes(pv.goal) && encodes(pv.profile) && encodes(pv.style) && encodes(intent_name(pv.intent)),
            all_encode(pv.required),
            forall|k: int| 0 <= k < i ==> step_encodes(#[trigger] pv.steps[k]),
        decreases plan.steps.len() - i,
    {
        let step = &plan.steps[i];
        let ghost sv = step_view(*step);
        let ghost l0 = base + steps_lines(pv.steps.take(i as int));
        let ghost sl = step_lines(sv);
        proof {
            reveal_strlit("");
            assert(forall|x: Seq<char>| x + ""@ =~= x);
        }
        let e = yaml_string(step.id.as_str());
        push_line(&mut out, "  - id: ", e.as_str(), Ghost(l0));
        assert(l0.push("  - id: "@ + e@) =~= l0 + sl.take(1));
        let e = yaml_string(step.kind.as_str());
        push_line(&mut out, "    kind: ", e.as_str(), Ghost(l0 + sl.take(1)));
        assert((l0 + sl.take(1)).push("    kind: "@ + e@) =~= l0 + sl.take(2));
        let e = yaml_string(step.instruction.as_str());
        push_line(&mut out, "    instruction: ", e.as_str(), Ghost(l0 + sl.take(2)));
        assert((l0 + sl.take(2)).push("    instruction: "@ + e@) =~= l0 + sl.take(3));
        let e = yaml_string(step.expected_result.as_str());
        push_line(&mut out, "    expected_result: ", e.as_str(), Ghost(l0 + sl.take(3)));
        assert((l0 + sl.take(3)).push("    expected_result: "@ + e@) =~= l0 + sl.take(4));
        push_line(&mut out, "    expected_paths:", "", Ghost(l0 + sl.take(4)));
        assert((l0 + sl.take(4)).push("    expected_paths:"@ + ""@) =~= l0 + sl.take(5));
        push_items(&mut out, "      - ", &step.expected_paths, Ghost(l0 + sl.take(5)));
        let ghost l1 = l0 + sl.take(5) + item_lines("      - "@, sv.paths);
        push_line(&mut out, "    verify:", "", Ghost(l1));
        push_items(&mut out, "      - ", &step.verify, Ghost(l1.push("    verify:"@ + ""@)));
        proof {
            assert(l1.push("    verify:"@ + ""@) + item_lines("      - "@, sv.verify) =~= l0 + sl);
            assert(pv.steps.take(i + 1).drop_last() =~= pv.steps.take(i as int));
            assert(pv.steps.take(i + 1).last() == sv);
            assert(base + steps_lines(pv.steps.take(i + 1)) =~= l0 + sl);
            assert(step_encodes(pv.steps[i as int]));
        }
        i = i + 1;
    }
    proof {
        assert(pv.steps.take(plan.steps@.len() as int) =~= pv.steps);
        assert(base + steps_lines(pv.steps) =~= render_lines(pv));
        if validate_fault(pv) is None && distinct(pv.required) {
            lemma_render_round_trip(pv);
        }
    }
    out
}


// ---------------------------------------------------------------------------
// Lines and fences
// ---------------------------------------------------------------------------

pub open spec fn strip_cr(s: Seq<char>) -> Seq<char> {
    if s.len() > 0 && s.last() == '\r' {
        s.drop_last()
    } else {
        s
    }
}

/// The lines ended so far, and the line being read.
pub open spec fn lines_state(s: Seq<char>) -> (Seq<Seq<char>>, Seq<char>)
    decreases s.len(),
{
    if s.len() == 0 {
        (Seq::empty(), Seq::empty())
    } else {
        let (done, cur) = lines_state(s.drop_last());
        if s.last() == '\n' {
            (done.push(strip_cr(cur)), Seq::empty())
        } else {
            (done, cur.push(s.last()))
        }
    }
}

/// The lines of a text (`str::lines`): split at `\n`, a `\r` before it
/// dropped, no empty line after a final line break.
pub open spec fn lines_of(s: Seq<char>) -> Seq<Seq<char>> {
    let (done, cur) = lines_state(s);
    if cur.len() > 0 {
        done.push(cur)
    } else {
        done
    }
}

/// The lines of a text.
pub fn text_lines(s: &str) -> (r: Vec<String>)
    ensures
        views(r@) == lines_of(s@),
{
    let v = chars_of(s);
    let mut done: Vec<String> = Vec::new();
    let mut cur: Vec<char> = Vec::new();
    let mut i: usize = 0;
    while i < v.len()
        invariant
            i <= v@.len(),
            (views(done@), cur@) == lines_state(v@.subrange(0, i as int)),
        decreases v.len() - i,
    {
        let c = v[i];
        proof {
            assert(v@.subrange(0, i + 1).drop_last() == v@.subrange(0, i as int));
        }
        if c == '\n' {
            let n = cur.len();
            let line = if n > 0 && cur[n - 1] == '\r' {
                string_of(slice_range(cur.as_slice(), 0, n - 1).as_slice())
            } else {
                string_of(cur.as_slice())
            };
            proof {
                if n > 0 && cur@[n - 1] == '\r' {
                    assert(cur@.subrange(0, n - 1) =~= cur@.drop_last());
                }
            }
            let ghost before = done@;
            done.push(line);
            assert(views(done@) =~= views(before).push(strip_cr(cur@)));
            cur = Vec::new();
        } else {
            cur.push(c);
        }
        i = i + 1;
    }
    assert(v@.subrange(0, v@.len() as int) == v@);
    if cur.len() > 0 {
        let ghost before = done@;
        done.push(string_of(cur.as_slice()));
        assert(views(done@) =~= views(before).push(cur@));
    }
    done
}

pub open spec fn fence_body(rest: Seq<char>) -> Seq<char> {
    let r = trim(rest);
    if r.len() >= 3 && r.subrange(r.len() - 3, r.len() as int) == "```"@ {
        trim(r.subrange(0, r.len() - 3))
    } else {
        r
    }
}

/// The text inside a Markdown code fence (```` ```yaml ```` or ```` ``` ````),
/// or the trimmed text when it is not fenced.
pub open spec fn strip_fence(text: Seq<char>) -> Seq<char> {
    let t = trim(text);
    if starts_with(t, "```yaml"@) {
        fence_body(t.skip(7))
    } else if starts_with(t, "```"@) {
        fence_body(t.skip(3))
    } else {
        t
    }
}

/// The body of a code fence after its opening marker.
pub fn fence_body_of(rest: &str) -> (r: String)
    ensures
        r@ == fence_body(rest@),
{
    let t = trim_str(rest);
    let v = chars_of(t.as_str());
    let n = v.len();
    if n >= 3 && v[n - 3] == '`' && v[n - 2] == '`' && v[n - 1] == '`' {
        proof {
            reveal_strlit("```");
            assert(v@.subrange(n - 3, n as int) =~= "```"@);
        }
        let inner = string_of(slice_range(v.as_slice(), 0, n - 3).as_slice());
        trim_str(inner.as_str())
    } else {
        proof {
            reveal_strlit("```");
            if n >= 3 {
                assert(v@.subrange(n - 3, n as int)[0] == v@[n - 3]);
                assert(v@.subrange(n - 3, n as int)[1] == v@[n - 2]);
                assert(v@.subrange(n - 3, n as int)[2] == v@[n - 1]);
            }
        }
        t
    }
}

/// The text inside a code fence, or the trimmed text.
pub fn strip_yaml_fence(text: &str) -> (r: String)
    ensures
        r@ == strip_fence(text@),
{
    let t = trim_str(text);
    match strip_prefix_str(t.as_str(), "```yaml") {
        Some(rest) => {
            proof {
                reveal_strlit("```yaml");
            }
            fence_body_of(rest.as_str())
        },
        None => match strip_prefix_str(t.as_str(), "```") {
            Some(rest) => {
                proof {
                    reveal_strlit("```");
                }
                fence_body_of(rest.as_str())
            },
            None => t,
        },
    }
}

// ---------------------------------------------------------------------------
// Values
// ---------------------------------------------------------------------------

/// A YAML value: a quoted value is read as a JSON string, any other value
/// is taken as it stands.
pub open spec fn yaml_str(v: Seq<char>) -> Result<Seq<char>, PlanErrorView> {
    if starts_with(v, "\""@) {
        match json_string_value(v) {
            Some(s) => Ok(s),
            None => Err(PlanErrorView::InvalidYaml("invalid string: "@ + v)),
        }
    } else {
        Ok(v)
    }
}

fn parse_yaml_string(value: &str) -> (r: Result<String, PlanError>)
    ensures
        match yaml_str(value@) {
            Ok(s) => r matches Ok(x) && x@ == s,
            Err(e) => r matches Err(x) && error_view(x) == e,
        },
{
    if str_starts_with(value, "\"") {
        match json_string_literal(value) {
            Some(s) => Ok(s),
            None => {
                let mut m = owned("invalid string: ");
                push_str(&mut m, value);
                Err(PlanError::InvalidYaml(m))
            },
        }
    } else {
        Ok(owned(value))
    }
}

pub open spec fn intent_parse(s: Seq<char>) -> Result<WorkIntent, PlanErrorView> {
    match intent_named(normalized(s)) {
        Some(i) => Ok(i),
        None => Err(PlanErrorView::InvalidEnum { field: "intent"@, value: normalized(s) }),
    }
}

pub open spec fn kind_parse(s: Seq<char>) -> Result<StepKind, PlanErrorView> {
    match kind_named(normalized(s)) {
        Some(k) => Ok(k),
        None => Err(PlanErrorView::InvalidEnum { field: "step.kind"@, value: normalized(s) }),
    }
}

pub open spec fn result_parse(s: Seq<char>) -> Result<ExpectedResult, PlanErrorView> {
    match result_named(hyphenate(normalized(s))) {
        Some(k) => Ok(k),
        None => Err(
            PlanErrorView::InvalidEnum {
                field: "step.expected_result"@,
                value: hyphenate(normalized(s)),
            },
        ),
    }
}

// ---------------------------------------------------------------------------
// Block scalars
// ---------------------------------------------------------------------------

/// The number of leading spaces.
pub open spec fn indent_of(s: Seq<char>) -> int
    decreases s.len(),
{
    if s.len() > 0 && s[0] == ' ' {
        1 + indent_of(s.skip(1))
    } else {
        0
    }
}

/// A block scalar indicator: `|` or `|-` (literal), `>` or `>-` (folded).
pub open spec fn block_indicator(v: Seq<char>) -> Option<bool> {
    let t = trim(v);
    if t == "|"@ || t == "|-"@ {
        Some(false)
    } else if t == ">"@ || t == ">-"@ {
        Some(true)
    } else {
        None
    }
}

/// The index after the block that starts at `j`: blank lines and lines
/// indented deeper than the field line.
pub open spec fn block_end(lines: Seq<Seq<char>>, j: int, ind: int) -> int
    decreases lines.len() - j,
{
    if 0 <= j < lines.len() && (is_blank(lines[j]) || indent_of(lines[j]) > ind) {
        block_end(lines, j + 1, ind)
    } else {
        j
    }
}

pub open spec fn drop_trailing_blank(ls: Seq<Seq<char>>) -> Seq<Seq<char>>
    decreases ls.len(),
{
    if ls.len() > 0 && is_blank(ls.last()) {
        drop_trailing_blank(ls.drop_last())
    } else {
        ls
    }
}

/// The indentation of the first non-blank line.
pub open spec fn first_indent(ls: Seq<Seq<char>>) -> int
    decreases ls.len(),
{
    if ls.len() == 0 {
        0
    } else if !is_blank(ls[0]) {
        indent_of(ls[0])
    } else {
        first_indent(ls.skip(1))
    }
}

/// A block line without the block's indentation and trailing whitespace.
pub open spec fn dedent(line: Seq<char>, k: int) -> Seq<char> {
    if is_blank(line) {
        Seq::empty()
    } else {
        let n = if indent_of(line) < k { indent_of(line) } else { k };
        trim_end(line.skip(n))
    }
}

/// The text of a block: its lines dedented, joined by newlines (literal)
/// or by spaces (folded).
pub open spec fn block_text(ls: Seq<Seq<char>>, folded: bool) -> Seq<char> {
    let k = first_indent(ls);
    join(ls.map_values(|l: Seq<char>| dedent(l, k)), if folded { " "@ } else { "\n"@ })
}

/// A field's scalar value and the index of the line after it.
pub open spec fn scalar(
    lines: Seq<Seq<char>>,
    next: int,
    field_line: Seq<char>,
    value: Seq<char>,
    name: Seq<char>,
) -> Result<(Seq<char>, int), PlanErrorView> {
    match block_indicator(value) {
        None => match yaml_str(trim(value)) {
            Ok(v) => Ok((v, next)),
            Err(e) => Err(e),
        },
        Some(folded) => {
            let end = block_end(lines, next, indent_of(field_line));
            let content = drop_trailing_blank(lines.subrange(next, end));
            if content.len() == 0 {
                Err(PlanErrorView::InvalidYaml(name + " block scalar has no content"@))
            } else {
                Ok((block_text(content, folded), end))
            }
        },
    }
}

proof fn lemma_indent_bound(s: Seq<char>)
    ensures
        0 <= indent_of(s) <= s.len(),
    decreases s.len(),
{
    if s.len() > 0 && s[0] == ' ' {
        lemma_indent_bound(s.skip(1));
    }
}

fn indentation(s: &str) -> (r: usize)
    ensures
        r as int == indent_of(s@),
{
    let v = chars_of(s);
    let mut i: usize = 0;
    assert(s@.skip(0) =~= s@);
    while i < v.len() && v[i] == ' '
        invariant
            i <= v@.len(),
            v@ == s@,
            indent_of(s@) == i + indent_of(s@.skip(i as int)),
        decreases v.len() - i,
    {
        proof {
            assert(s@.skip(i as int).skip(1) =~= s@.skip(i + 1));
        }
        i = i + 1;
    }
    i
}

fn block_indicator_of(v: &str) -> (r: Option<bool>)
    ensures
        r == block_indicator(v@),
{
    let t = trim_str(v);
    let t = t.as_str();
    if str_eq(t, "|") || str_eq(t, "|-") {
        Some(false)
    } else if str_eq(t, ">") || str_eq(t, ">-") {
        Some(true)
    } else {
        None
    }
}

fn block_scalar(lines: &Vec<String>, next: usize, field_line: &str, folded: bool, name: &str) -> (r: Result<(String, usize), PlanError>)
    requires
        next <= lines@.len(),
    ensures
        ({
            let end = block_end(views(lines@), next as int, indent_of(field_line@));
            let content = drop_trailing_blank(views(lines@).subrange(next as int, end));
            if content.len() == 0 {
                r matches Err(x) && error_view(x) == PlanErrorView::InvalidYaml(name@ + " block scalar has no content"@)
            } else {
                r matches Ok((t, j)) && t@ == block_text(content, folded) && j as int == end
            }
        }),
{
    let ghost ls = views(lines@);
    let ind = indentation(field_line);
    let mut end: usize = next;
    while end < lines.len() && (is_blank_str(lines[end].as_str()) || indentation(lines[end].as_str()) > ind)
        invariant
            next <= end <= lines@.len(),
            ls == views(lines@),
            block_end(ls, next as int, ind as int) == block_end(ls, end as int, ind as int),
        decreases lines.len() - end,
    {
        end = end + 1;
    }
    let mut hi: usize = end;
    while hi > next && is_blank_str(lines[hi - 1].as_str())
        invariant
            next <= hi <= end,
            end <= lines@.len(),
            ls == views(lines@),
            drop_trailing_blank(ls.subrange(next as int, end as int)) == drop_trailing_blank(ls.subrange(next as int, hi as int)),
        decreases hi,
    {
        proof {
            assert(ls.subrange(next as int, hi as int).drop_last() =~= ls.subrange(next as int, hi - 1));
        }
        hi = hi - 1;
    }
    let ghost content = ls.subrange(next as int, hi as int);
    proof {
        if content.len() > 0 {
            assert(!is_blank(content.last()));
        }
        assert(drop_trailing_blank(content) == content);
    }
    if hi == next {
        let mut m = owned(name);
        push_str(&mut m, " block scalar has no content");
        return Err(PlanError::InvalidYaml(m));
    }
    let mut k: usize = next;
    assert(content.skip(0) =~= content);
    while k < hi && is_blank_str(lines[k].as_str())
        invariant
            next <= k <= hi,
            hi <= lines@.len(),
            ls == views(lines@),
            content == ls.subrange(next as int, hi as int),
            first_indent(content) == first_indent(content.skip(k - next)),
        decreases hi - k,
    {
        proof {
            assert(content.skip(k - next).skip(1) =~= content.skip(k + 1 - next));
        }
        k = k + 1;
    }
    let block_indent = if k < hi { indentation(lines[k].as_str()) } else { 0 };
    proof {
        if k < hi {
            assert(content.skip(k - next)[0] == ls[k as int]);
        } else {
            assert(content.skip(k - next).len() == 0);
        }
    }
    let mut parts: Vec<String> = Vec::new();
    let mut j: usize = next;
    while j < hi
        invariant
            next <= j <= hi,
            hi <= lines@.len(),
            ls == views(lines@),
            content == ls.subrange(next as int, hi as int),
            block_indent as int == first_indent(content),
            views(parts@) == content.take(j - next).map_values(|l: Seq<char>| dedent(l, first_indent(content))),
        decreases hi - j,
    {
        let line = lines[j].as_str();
        let d = if is_blank_str(line) {
            String::new()
        } else {
            let n0 = indentation(line);
            proof {
                lemma_indent_bound(line@);
            }
            let n = if n0 < block_indent { n0 } else { block_indent };
            let v = chars_of(line);
            let rest = string_of(slice_range(v.as_slice(), n, v.len()).as_slice());
            trim_end_str(rest.as_str())
        };
        let ghost before = parts@;
        parts.push(d);
        proof {
            assert(content.take(j + 1 - next) =~= content.take(j - next).push(ls[j as int]));
            assert(views(parts@) =~= views(before).push(dedent(ls[j as int], first_indent(content))));
        }
        j = j + 1;
    }
    assert(content.take(hi - next) =~= content);
    let text = if folded { crate::text::join_strings(&parts, " ") } else { crate::text::join_strings(&parts, "\n") };
    Ok((text, end))
}

/// A field's scalar value: a block scalar or a YAML value.
fn parse_yaml_scalar(lines: &Vec<String>, next: usize, field_line: &str, value: &str, name: &str) -> (r: Result<(String, usize), PlanError>)
    requires
        next <= lines@.len(),
    ensures
        match scalar(views(lines@), next as int, field_line@, value@, name@) {
            Ok((t, j)) => r matches Ok((x, k)) && x@ == t && k as int == j,
            Err(e) => r matches Err(x) && error_view(x) == e,
        },
{
    match block_indicator_of(value) {
        Some(folded) => block_scalar(lines, next, field_line, folded, name),
        None => {
            let t = trim_str(value);
            match parse_yaml_string(t.as_str()) {
                Ok(v) => Ok((v, next)),
                Err(e) => Err(e),
            }
        },
    }
}


// ---------------------------------------------------------------------------
// Parsing
// ---------------------------------------------------------------------------

/// The list that item lines currently add to.
#[derive(Debug, Clone, Copy, PartialEq, Eq, Structural)]
pub enum ListField {
    RequiredArtifacts,
    ExpectedPaths,
    Verify,
}

/// What the parser has read so far.
pub struct ParseView {
    pub goal: Option<Seq<char>>,
    pub profile: Option<Seq<char>>,
    pub style: Option<Seq<char>>,
    pub intent: Option<WorkIntent>,
    pub required: Seq<Seq<char>>,
    pub steps: Seq<StepView>,
    pub current: Option<StepView>,
    pub explicit: bool,
    pub list: Option<ListField>,
}

pub open spec fn initial_view() -> ParseView {
    ParseView {
        goal: None,
        profile: None,
        style: None,
        intent: None,
        required: Seq::empty(),
        steps: Seq::empty(),
        current: None,
        explicit: false,
        list: None,
    }
}

pub open spec fn step_id_value(line: Seq<char>) -> Option<Seq<char>> {
    match after_prefix(line, "  - id:"@) {
        Some(v) => Some(v),
        None => after_prefix(line, "- id:"@),
    }
}

pub open spec fn step_field_value(line: Seq<char>, field: Seq<char>) -> Option<Seq<char>> {
    match after_prefix(line, "    "@ + field + ":"@) {
        Some(v) => Some(v),
        None => match after_prefix(line, "  "@ + field + ":"@) {
            Some(v) => Some(v),
            None => after_prefix(line, field + ":"@),
        },
    }
}

pub open spec fn is_step_field(line: Seq<char>, field: Seq<char>) -> bool {
    line == "    "@ + field + ":"@ || line == "  "@ + field + ":"@ || line == field + ":"@
}

pub open spec fn list_item_value(line: Seq<char>) -> Option<Seq<char>> {
    after_prefix(trim_start(line), "- "@)
}

/// An indented `action:` annotation, which models add and the plan ignores.
pub open spec fn is_annotation(line: Seq<char>) -> bool {
    starts_with(trim_start(line), "action:"@) && (starts_with(line, "  "@) || starts_with(
        line,
        "    "@,
    ))
}

pub open spec fn infer_kind(instruction: Seq<char>, paths: Seq<Seq<char>>, verify: Seq<Seq<char>>) -> StepKind {
    let l = lower(instruction);
    if contains_any(l, seq!["verify"@, "validate"@, "test"@, "build"@, "check"@]) || verify.len() > 0 {
        StepKind::Verify
    } else if contains_any(l, seq!["install"@, "configure"@, "setup"@]) {
        StepKind::Setup
    } else if contains_any(l, seq!["fix"@, "repair"@]) {
        StepKind::Repair
    } else if contains_any(l, seq!["report"@, "summarize"@]) {
        StepKind::Report
    } else if contains_any(l, seq!["edit"@, "update"@, "modify"@]) {
        StepKind::Edit
    } else if paths.len() > 0 || contains_any(l, seq!["create"@, "write"@, "add"@, "implement"@]) {
        StepKind::Create
    } else {
        StepKind::Inspect
    }
}

/// How a step written without a kind gets one from its instruction (read
/// in lower case), its verify commands and its expected paths: a step with
/// verify commands, or that speaks of verifying, validating, testing,
/// building or checking, verifies; otherwise one that speaks of
/// installing, configuring or setting up is setup; otherwise fixing or
/// repairing is repair; otherwise reporting or summarizing is a report;
/// otherwise editing, updating or modifying is an edit; otherwise a step
/// with expected paths, or that speaks of creating, writing, adding or
/// implementing, creates; and any other step inspects.
pub proof fn lemma_inferred_kind(instruction: Seq<char>, paths: Seq<Seq<char>>, verify: Seq<Seq<char>>)
    ensures
        ({
            let l = lower(instruction);
            let k = infer_kind(instruction, paths, verify);
            let verifies = verify.len() > 0 || contains(l, "verify"@) || contains(l, "validate"@) || contains(
                l,
                "test"@,
            ) || contains(l, "build"@) || contains(l, "check"@);
            let sets_up = contains(l, "install"@) || contains(l, "configure"@) || contains(l, "setup"@);
            let repairs = contains(l, "fix"@) || contains(l, "repair"@);
            let reports = contains(l, "report"@) || contains(l, "summarize"@);
            let edits = contains(l, "edit"@) || contains(l, "update"@) || contains(l, "modify"@);
            let creates = paths.len() > 0 || contains(l, "create"@) || contains(l, "write"@) || contains(
                l,
                "add"@,
            ) || contains(l, "implement"@);
            &&& verifies ==> k == StepKind::Verify
            &&& !verifies && sets_up ==> k == StepKind::Setup
            &&& !verifies && !sets_up && repairs ==> k == StepKind::Repair
            &&& !verifies && !sets_up && !repairs && reports ==> k == StepKind::Report
            &&& !verifies && !sets_up && !repairs && !reports && edits ==> k == StepKind::Edit
            &&& !verifies && !sets_up && !repairs && !reports && !edits && creates ==> k == StepKind::Create
            &&& !verifies && !sets_up && !repairs && !reports && !edits && !creates ==> k == StepKind::Inspect
        }),
{
    let l = lower(instruction);
    crate::text::lemma_contains_any5(l, "verify"@, "validate"@, "test"@, "build"@, "check"@);
    crate::text::lemma_contains_any3(l, "install"@, "configure"@, "setup"@);
    crate::text::lemma_contains_any2(l, "fix"@, "repair"@);
    crate::text::lemma_contains_any2(l, "report"@, "summarize"@);
    crate::text::lemma_contains_any3(l, "edit"@, "update"@, "modify"@);
    crate::text::lemma_contains_any4(l, "create"@, "write"@, "add"@, "implement"@);
}

/// A finished step: its kind is inferred unless the plan gave one.
pub open spec fn finalize(s: StepView, explicit: bool) -> StepView {
    if explicit {
        s
    } else {
        StepView { kind: infer_kind(s.instruction, s.paths, s.verify), ..s }
    }
}

/// The steps with the step being read finished and appended.
pub open spec fn flushed(st: ParseView) -> Seq<StepView> {
    match st.current {
        Some(c) => st.steps.push(finalize(c, st.explicit)),
        None => st.steps,
    }
}

pub open spec fn new_step(id: Seq<char>) -> StepView {
    StepView {
        id,
        kind: StepKind::Inspect,
        instruction: Seq::empty(),
        result: ExpectedResult::Pass,
        paths: Seq::empty(),
        verify: Seq::empty(),
    }
}

pub open spec fn yaml_err(m: Seq<char>) -> PlanErrorView {
    PlanErrorView::InvalidYaml(m)
}

/// `[]` closes an inline list; any other inline list value is refused.
pub open spec fn inline_empty(v: Seq<char>) -> Result<(), PlanErrorView> {
    if trim(v) == "[]"@ {
        Ok(())
    } else {
        Err(yaml_err("unsupported inline list value: "@ + trim(v)))
    }
}

/// A top-level field line: goal, profile, style, intent, the required
/// artifacts list, or the steps list.
pub open spec fn header_line(line: Seq<char>) -> bool {
    starts_with(line, "goal:"@) || starts_with(line, "profile:"@) || starts_with(line, "style:"@)
        || starts_with(line, "intent:"@) || starts_with(line, "required_artifacts:"@) || line
        == "steps:"@
}

/// A step line: its id, kind, instruction or expected result.
pub open spec fn step_line(line: Seq<char>) -> bool {
    step_id_value(line) is Some || step_field_value(line, "kind"@) is Some || step_field_value(
        line,
        "instruction"@,
    ) is Some || step_field_value(line, "expected_result"@) is Some
}

/// A list line: a step list header or a list item.
pub open spec fn list_line(line: Seq<char>) -> bool {
    is_step_field(line, "expected_paths"@) || step_field_value(line, "expected_paths"@) is Some
        || is_step_field(line, "verify"@) || step_field_value(line, "verify"@) is Some
        || list_item_value(line) is Some
}

pub open spec fn apply_header(lines: Seq<Seq<char>>, i: int, line: Seq<char>, st: ParseView) -> Result<(ParseView, int), PlanErrorView> {
    let next = i + 1;
    if starts_with(line, "goal:"@) {
        match scalar(lines, next, line, line.skip(5), "goal"@) {
            Ok((v, j)) => Ok((ParseView { goal: Some(v), list: None, ..st }, j)),
            Err(e) => Err(e),
        }
    } else if starts_with(line, "profile:"@) {
        match yaml_str(trim(line.skip(8))) {
            Ok(v) => Ok((ParseView { profile: Some(v), list: None, ..st }, next)),
            Err(e) => Err(e),
        }
    } else if starts_with(line, "style:"@) {
        match yaml_str(trim(line.skip(6))) {
            Ok(v) => Ok((ParseView { style: Some(v), list: None, ..st }, next)),
            Err(e) => Err(e),
        }
    } else if starts_with(line, "intent:"@) {
        match yaml_str(trim(line.skip(7))) {
            Ok(v) => match intent_parse(v) {
                Ok(x) => Ok((ParseView { intent: Some(x), list: None, ..st }, next)),
                Err(e) => Err(e),
            },
            Err(e) => Err(e),
        }
    } else if line == "required_artifacts:"@ {
        Ok((ParseView { list: Some(ListField::RequiredArtifacts), ..st }, next))
    } else if starts_with(line, "required_artifacts:"@) {
        match inline_empty(line.skip(19)) {
            Ok(()) => Ok((ParseView { list: None, ..st }, next)),
            Err(e) => Err(e),
        }
    } else {
        Ok((ParseView { list: None, ..st }, next))
    }
}

pub open spec fn apply_step(lines: Seq<Seq<char>>, i: int, line: Seq<char>, st: ParseView) -> Result<(ParseView, int), PlanErrorView> {
    let next = i + 1;
    if step_id_value(line) is Some {
        match yaml_str(trim(step_id_value(line)->0)) {
            Ok(id) => Ok(
                (
                    ParseView {
                        steps: flushed(st),
                        current: Some(new_step(id)),
                        explicit: false,
                        list: None,
                        ..st
                    },
                    next,
                ),
            ),
            Err(e) => Err(e),
        }
    } else if step_field_value(line, "kind"@) is Some {
        match st.current {
            None => Err(yaml_err("kind appears before step id"@)),
            Some(c) => match yaml_str(trim(step_field_value(line, "kind"@)->0)) {
                Ok(v) => match kind_parse(v) {
                    Ok(k) => Ok(
                        (
                            ParseView {
                                current: Some(StepView { kind: k, ..c }),
                                explicit: true,
                                list: None,
                                ..st
                            },
                            next,
                        ),
                    ),
                    Err(e) => Err(e),
                },
                Err(e) => Err(e),
            },
        }
    } else if step_field_value(line, "instruction"@) is Some {
        match st.current {
            None => Err(yaml_err("instruction appears before step id"@)),
            Some(c) => match scalar(lines, next, line, step_field_value(line, "instruction"@)->0, "instruction"@) {
                Ok((v, j)) => Ok(
                    (ParseView { current: Some(StepView { instruction: v, ..c }), list: None, ..st }, j),
                ),
                Err(e) => Err(e),
            },
        }
    } else {
        match st.current {
            None => Err(yaml_err("expected_result appears before step id"@)),
            Some(c) => match yaml_str(trim(step_field_value(line, "expected_result"@)->0)) {
                Ok(v) => match result_parse(v) {
                    Ok(x) => Ok(
                        (ParseView { current: Some(StepView { result: x, ..c }), list: None, ..st }, next),
                    ),
                    Err(e) => Err(e),
                },
                Err(e) => Err(e),
            },
        }
    }
}

pub open spec fn apply_list(i: int, line: Seq<char>, st: ParseView) -> Result<(ParseView, int), PlanErrorView> {
    let next = i + 1;
    if is_step_field(line, "expected_paths"@) {
        Ok((ParseView { list: Some(ListField::ExpectedPaths), ..st }, next))
    } else if step_field_value(line, "expected_paths"@) is Some {
        match inline_empty(step_field_value(line, "expected_paths"@)->0) {
            Err(e) => Err(e),
            Ok(()) => if st.current is None {
                Err(yaml_err("expected_paths appears before step id"@))
            } else {
                Ok((ParseView { list: None, ..st }, next))
            },
        }
    } else if is_step_field(line, "verify"@) {
        Ok((ParseView { list: Some(ListField::Verify), ..st }, next))
    } else if step_field_value(line, "verify"@) is Some {
        match inline_empty(step_field_value(line, "verify"@)->0) {
            Err(e) => Err(e),
            Ok(()) => if st.current is None {
                Err(yaml_err("verify appears before step id"@))
            } else {
                Ok((ParseView { list: None, ..st }, next))
            },
        }
    } else {
        let v = trim(list_item_value(line)->0);
        if st.list == Some(ListField::RequiredArtifacts) {
            match yaml_str(v) {
                Ok(x) => Ok((ParseView { required: st.required.push(x), ..st }, next)),
                Err(e) => Err(e),
            }
        } else {
            match st.current {
                None => Err(yaml_err("list item appears before step id"@)),
                Some(c) => match st.list {
                    Some(ListField::ExpectedPaths) => match yaml_str(v) {
                        Ok(x) => Ok(
                            (ParseView { current: Some(StepView { paths: c.paths.push(x), ..c }), ..st }, next),
                        ),
                        Err(e) => Err(e),
                    },
                    Some(ListField::Verify) => match yaml_str(v) {
                        Ok(x) => Ok(
                            (ParseView { current: Some(StepView { verify: c.verify.push(x), ..c }), ..st }, next),
                        ),
                        Err(e) => Err(e),
                    },
                    _ => Err(yaml_err("list item appears outside a known list"@)),
                },
            }
        }
    }
}

pub open spec fn apply_other(i: int, line: Seq<char>, st: ParseView) -> Result<(ParseView, int), PlanErrorView> {
    if is_annotation(line) {
        if st.current is None {
            Err(yaml_err("step annotation appears before step id"@))
        } else {
            Ok((ParseView { list: None, ..st }, i + 1))
        }
    } else {
        Err(yaml_err("unexpected line: "@ + line))
    }
}

/// The parser state after line `i`, and the index of the next line to read.
/// Lines are tried as top-level fields, step fields, list lines and step
/// annotations, in that order.
#[verifier::opaque]
pub open spec fn apply_line(lines: Seq<Seq<char>>, i: int, st: ParseView) -> Result<(ParseView, int), PlanErrorView> {
    let line = trim_end(lines[i]);
    if is_blank(line) {
        Ok((st, i + 1))
    } else if header_line(line) {
        apply_header(lines, i, line, st)
    } else if step_line(line) {
        apply_step(lines, i, line, st)
    } else if list_line(line) {
        apply_list(i, line, st)
    } else {
        apply_other(i, line, st)
    }
}

/// The parser state after the lines from `i` on.
pub open spec fn parse_from(lines: Seq<Seq<char>>, i: int, st: ParseView) -> Result<ParseView, PlanErrorView>
    decreases lines.len() - i,
{
    if i < 0 || i >= lines.len() {
        Ok(st)
    } else {
        match apply_line(lines, i, st) {
            Err(e) => Err(e),
            Ok((st2, j)) => if j <= i || j > lines.len() {
                Ok(st2)
            } else {
                parse_from(lines, j, st2)
            },
        }
    }
}

/// The first occurrences of the items, in order.
pub open spec fn dedupe(s: Seq<Seq<char>>) -> Seq<Seq<char>>
    decreases s.len(),
{
    if s.len() == 0 {
        s
    } else {
        let d = dedupe(s.drop_last());
        if d.contains(s.last()) {
            d
        } else {
            d.push(s.last())
        }
    }
}

/// The plan the parser state describes, once validated.
pub open spec fn finish(st: ParseView) -> Result<PlanView, PlanErrorView> {
    match st.goal {
        None => Err(PlanErrorView::MissingField("goal"@)),
        Some(goal) => match st.profile {
            None => Err(PlanErrorView::MissingField("profile"@)),
            Some(profile) => {
                let p = PlanView {
                    goal,
                    profile,
                    style: match st.style {
                        Some(s) => s,
                        None => "default"@,
                    },
                    intent: match st.intent {
                        Some(i) => i,
                        None => WorkIntent::Unknown,
                    },
                    required: dedupe(st.required),
                    steps: flushed(st),
                };
                match validate_fault(p) {
                    Some(e) => Err(e),
                    None => Ok(p),
                }
            },
        },
    }
}

/// The plan a YAML text describes.
pub open spec fn parse_spec(yaml: Seq<char>) -> Result<PlanView, PlanErrorView> {
    match parse_from(lines_of(strip_fence(yaml)), 0, initial_view()) {
        Err(e) => Err(e),
        Ok(st) => finish(st),
    }
}


/// The parser's state.
struct ParseState {
    goal: Option<String>,
    profile: Option<String>,
    style: Option<String>,
    intent: Option<WorkIntent>,
    required: Vec<String>,
    steps: Vec<StepPlanStep>,
    current: Option<StepPlanStep>,
    explicit: bool,
    list: Option<ListField>,
}

impl ParseState {
    spec fn view(&self) -> ParseView {
        ParseView {
            goal: opt_view(self.goal),
            profile: opt_view(self.profile),
            style: opt_view(self.style),
            intent: self.intent,
            required: views(self.required@),
            steps: self.steps@.map_values(|s: StepPlanStep| step_view(s)),
            current: match self.current {
                Some(c) => Some(step_view(c)),
                None => None,
            },
            explicit: self.explicit,
            list: self.list,
        }
    }
}

fn step_id_value_of(line: &str) -> (r: Option<String>)
    ensures
        opt_view(r) == step_id_value(line@),
{
    match strip_prefix_str(line, "  - id:") {
        Some(v) => Some(v),
        None => strip_prefix_str(line, "- id:"),
    }
}

fn field_forms(field: &str) -> (r: (String, String, String))
    ensures
        r.0@ == "    "@ + field@ + ":"@,
        r.1@ == "  "@ + field@ + ":"@,
        r.2@ == field@ + ":"@,
{
    let mut a = owned("    ");
    push_str(&mut a, field);
    push_str(&mut a, ":");
    let mut b = owned("  ");
    push_str(&mut b, field);
    push_str(&mut b, ":");
    let mut c = owned(field);
    push_str(&mut c, ":");
    (a, b, c)
}

fn step_field_value_of(line: &str, field: &str) -> (r: Option<String>)
    ensures
        opt_view(r) == step_field_value(line@, field@),
{
    let (a, b, c) = field_forms(field);
    match strip_prefix_str(line, a.as_str()) {
        Some(v) => Some(v),
        None => match strip_prefix_str(line, b.as_str()) {
            Some(v) => Some(v),
            None => strip_prefix_str(line, c.as_str()),
        },
    }
}

fn is_step_field_of(line: &str, field: &str) -> (r: bool)
    ensures
        r == is_step_field(line@, field@),
{
    let (a, b, c) = field_forms(field);
    str_eq(line, a.as_str()) || str_eq(line, b.as_str()) || str_eq(line, c.as_str())
}

fn list_item_value_of(line: &str) -> (r: Option<String>)
    ensures
        opt_view(r) == list_item_value(line@),
{
    let t = trim_start_str(line);
    strip_prefix_str(t.as_str(), "- ")
}

fn is_annotation_of(line: &str) -> (r: bool)
    ensures
        r == is_annotation(line@),
{
    let t = trim_start_str(line);
    str_starts_with(t.as_str(), "action:") && (str_starts_with(line, "  ") || str_starts_with(line, "    "))
}

fn inline_empty_of(v: &str) -> (r: Result<(), PlanError>)
    ensures
        match inline_empty(v@) {
            Ok(()) => r is Ok,
            Err(e) => r matches Err(x) && error_view(x) == e,
        },
{
    let t = trim_str(v);
    if str_eq(t.as_str(), "[]") {
        Ok(())
    } else {
        let mut m = owned("unsupported inline list value: ");
        push_str(&mut m, t.as_str());
        Err(PlanError::InvalidYaml(m))
    }
}

fn yaml_error(m: &str) -> (r: PlanError)
    ensures
        error_view(r) == yaml_err(m@),
{
    PlanError::InvalidYaml(owned(m))
}

fn infer_step_kind(instruction: &str, paths: &Vec<String>, verify: &Vec<String>) -> (r: StepKind)
    ensures
        r == infer_kind(instruction@, views(paths@), views(verify@)),
{
    let lower = lower_str(instruction);
    let l = lower.as_str();
    let v = ["verify", "validate", "test", "build", "check"];
    assert(str_views(v@) == seq!["verify"@, "validate"@, "test"@, "build"@, "check"@]);
    let st = ["install", "configure", "setup"];
    assert(str_views(st@) == seq!["install"@, "configure"@, "setup"@]);
    let rp = ["fix", "repair"];
    assert(str_views(rp@) == seq!["fix"@, "repair"@]);
    let rep = ["report", "summarize"];
    assert(str_views(rep@) == seq!["report"@, "summarize"@]);
    let ed = ["edit", "update", "modify"];
    assert(str_views(ed@) == seq!["edit"@, "update"@, "modify"@]);
    let cr = ["create", "write", "add", "implement"];
    assert(str_views(cr@) == seq!["create"@, "write"@, "add"@, "implement"@]);
    if str_contains_any(l, &v) || verify.len() > 0 {
        StepKind::Verify
    } else if str_contains_any(l, &st) {
        StepKind::Setup
    } else if str_contains_any(l, &rp) {
        StepKind::Repair
    } else if str_contains_any(l, &rep) {
        StepKind::Report
    } else if str_contains_any(l, &ed) {
        StepKind::Edit
    } else if paths.len() > 0 || str_contains_any(l, &cr) {
        StepKind::Create
    } else {
        StepKind::Inspect
    }
}

fn finalize_step(step: StepPlanStep, explicit: bool) -> (r: StepPlanStep)
    ensures
        step_view(r) == finalize(step_view(step), explicit),
{
    if explicit {
        step
    } else {
        let kind = infer_step_kind(step.instruction.as_str(), &step.expected_paths, &step.verify);
        StepPlanStep { kind, ..step }
    }
}

fn flush(st: &mut ParseState)
    ensures
        final(st).view() == (ParseView { steps: flushed(old(st).view()), current: None, ..old(st).view() }),
{
    let mut cur: Option<StepPlanStep> = None;
    std::mem::swap(&mut cur, &mut st.current);
    match cur {
        Some(c) => {
            let ghost before = st.steps@;
            let explicit = st.explicit;
            st.steps.push(finalize_step(c, explicit));
            proof {
                assert(st.steps@.map_values(|s: StepPlanStep| step_view(s)) =~= before.map_values(
                    |s: StepPlanStep| step_view(s),
                ).push(finalize(step_view(c), explicit)));
            }
        },
        None => {},
    }
}


fn take_current(st: &mut ParseState) -> (r: Option<StepPlanStep>)
    ensures
        r == old(st).current,
        final(st).view() == (ParseView { current: None, ..old(st).view() }),
{
    let mut cur: Option<StepPlanStep> = None;
    std::mem::swap(&mut cur, &mut st.current);
    cur
}

#[verifier::rlimit(30)]
fn apply_header_exec(st: &mut ParseState, lines: &Vec<String>, i: usize, line: &str) -> (r: Result<usize, PlanError>)
    requires
        i < lines@.len(),
        header_line(line@),
    ensures
        match apply_header(views(lines@), i as int, line@, old(st).view()) {
            Ok((v, j)) => r matches Ok(k) && k as int == j && final(st).view() == v,
            Err(e) => r matches Err(x) && error_view(x) == e,
        },
{
    let n: usize = lines.len();
    assert(i < n);
    let next = i + 1;
    if str_starts_with(line, "goal:") {
        let v = strip_prefix_str(line, "goal:");
        proof {
            reveal_strlit("goal:");
        }
        let value = match v {
            Some(x) => x,
            None => String::new(),
        };
        match parse_yaml_scalar(lines, next, line, value.as_str(), "goal") {
            Ok((g, j)) => {
                st.goal = Some(g);
                st.list = None;
                return Ok(j);
            },
            Err(e) => {
                return Err(e);
            },
        }
    }
    if str_starts_with(line, "profile:") {
        let v = strip_prefix_str(line, "profile:");
        proof {
            reveal_strlit("profile:");
        }
        let value = match v {
            Some(x) => x,
            None => String::new(),
        };
        let t = trim_str(value.as_str());
        match parse_yaml_string(t.as_str()) {
            Ok(x) => {
                st.profile = Some(x);
                st.list = None;
                return Ok(next);
            },
            Err(e) => {
                return Err(e);
            },
        }
    }
    if str_starts_with(line, "style:") {
        let v = strip_prefix_str(line, "style:");
        proof {
            reveal_strlit("style:");
        }
        let value = match v {
            Some(x) => x,
            None => String::new(),
        };
        let t = trim_str(value.as_str());
        match parse_yaml_string(t.as_str()) {
            Ok(x) => {
                st.style = Some(x);
                st.list = None;
                return Ok(next);
            },
            Err(e) => {
                return Err(e);
            },
        }
    }
    if str_starts_with(line, "intent:") {
        let v = strip_prefix_str(line, "intent:");
        proof {
            reveal_strlit("intent:");
        }
        let value = match v {
            Some(x) => x,
            None => String::new(),
        };
        let t = trim_str(value.as_str());
        match parse_yaml_string(t.as_str()) {
            Ok(x) => match WorkIntent::parse(x.as_str()) {
                Ok(intent) => {
                    st.intent = Some(intent);
                    st.list = None;
                    return Ok(next);
                },
                Err(e) => {
                    return Err(e);
                },
            },
            Err(e) => {
                return Err(e);
            },
        }
    }
    if str_eq(line, "required_artifacts:") {
        st.list = Some(ListField::RequiredArtifacts);
        return Ok(next);
    }
    if str_starts_with(line, "required_artifacts:") {
        let v = strip_prefix_str(line, "required_artifacts:");
        proof {
            reveal_strlit("required_artifacts:");
        }
        let value = match v {
            Some(x) => x,
            None => String::new(),
        };
        match inline_empty_of(value.as_str()) {
            Ok(()) => {
                st.list = None;
                return Ok(next);
            },
            Err(e) => {
                return Err(e);
            },
        }
    }
    st.list = None;
    Ok(next)
}

#[verifier::rlimit(30)]
fn apply_step_exec(st: &mut ParseState, lines: &Vec<String>, i: usize, line: &str) -> (r: Result<usize, PlanError>)
    requires
        i < lines@.len(),
        step_line(line@),
    ensures
        match apply_step(views(lines@), i as int, line@, old(st).view()) {
            Ok((v, j)) => r matches Ok(k) && k as int == j && final(st).view() == v,
            Err(e) => r matches Err(x) && error_view(x) == e,
        },
{
    let n: usize = lines.len();
    assert(i < n);
    let next = i + 1;
    match step_id_value_of(line) {
        Some(v) => {
            let t = trim_str(v.as_str());
            match parse_yaml_string(t.as_str()) {
                Ok(id) => {
                    flush(st);
                    st.current = Some(
                        StepPlanStep {
                            id,
                            kind: StepKind::Inspect,
                            instruction: String::new(),
                            expected_result: ExpectedResult::Pass,
                            expected_paths: Vec::new(),
                            verify: Vec::new(),
                        },
                    );
                    st.explicit = false;
                    st.list = None;
                    proof {
                        let c = st.current->0;
                        assert(views(c.expected_paths@) =~= Seq::<Seq<char>>::empty());
                        assert(views(c.verify@) =~= Seq::<Seq<char>>::empty());
                    }
                    return Ok(next);
                },
                Err(e) => {
                    return Err(e);
                },
            }
        },
        None => {},
    }
    match step_field_value_of(line, "kind") {
        Some(v) => {
            if st.current.is_none() {
                return Err(yaml_error("kind appears before step id"));
            }
            let t = trim_str(v.as_str());
            match parse_yaml_string(t.as_str()) {
                Ok(x) => match StepKind::parse(x.as_str()) {
                    Ok(k) => {
                        let cur = take_current(st);
                        match cur {
                            Some(c) => {
                                st.current = Some(StepPlanStep { kind: k, ..c });
                            },
                            None => {},
                        }
                        st.explicit = true;
                        st.list = None;
                        return Ok(next);
                    },
                    Err(e) => {
                        return Err(e);
                    },
                },
                Err(e) => {
                    return Err(e);
                },
            }
        },
        None => {},
    }
    match step_field_value_of(line, "instruction") {
        Some(v) => {
            if st.current.is_none() {
                return Err(yaml_error("instruction appears before step id"));
            }
            match parse_yaml_scalar(lines, next, line, v.as_str(), "instruction") {
                Ok((text, j)) => {
                    let cur = take_current(st);
                    match cur {
                        Some(c) => {
                            st.current = Some(StepPlanStep { instruction: text, ..c });
                        },
                        None => {},
                    }
                    st.list = None;
                    return Ok(j);
                },
                Err(e) => {
                    return Err(e);
                },
            }
        },
        None => {},
    }
    match step_field_value_of(line, "expected_result") {
        Some(v) => {
            if st.current.is_none() {
                return Err(yaml_error("expected_result appears before step id"));
            }
            let t = trim_str(v.as_str());
            match parse_yaml_string(t.as_str()) {
                Ok(x) => match ExpectedResult::parse(x.as_str()) {
                    Ok(res) => {
                        let cur = take_current(st);
                        match cur {
                            Some(c) => {
                                st.current = Some(StepPlanStep { expected_result: res, ..c });
                            },
                            None => {},
                        }
                        st.list = None;
                        return Ok(next);
                    },
                    Err(e) => {
                        return Err(e);
                    },
                },
                Err(e) => {
                    return Err(e);
                },
            }
        },
        None => {},
    }
    Ok(next)
}

#[verifier::rlimit(30)]
fn apply_list_exec(st: &mut ParseState, lines: &Vec<String>, i: usize, line: &str) -> (r: Result<usize, PlanError>)
    requires
        i < lines@.len(),
        list_line(line@),
    ensures
        match apply_list(i as int, line@, old(st).view()) {
            Ok((v, j)) => r matches Ok(k) && k as int == j && final(st).view() == v,
            Err(e) => r matches Err(x) && error_view(x) == e,
        },
{
    let n: usize = lines.len();
    assert(i < n);
    let next = i + 1;
    if is_step_field_of(line, "expected_paths") {
        st.list = Some(ListField::ExpectedPaths);
        return Ok(next);
    }
    match step_field_value_of(line, "expected_paths") {
        Some(v) => {
            match inline_empty_of(v.as_str()) {
                Err(e) => {
                    return Err(e);
                },
                Ok(()) => {},
            }
            if st.current.is_none() {
                return Err(yaml_error("expected_paths appears before step id"));
            }
            st.list = None;
            return Ok(next);
        },
        None => {},
    }
    if is_step_field_of(line, "verify") {
        st.list = Some(ListField::Verify);
        return Ok(next);
    }
    match step_field_value_of(line, "verify") {
        Some(v) => {
            match inline_empty_of(v.as_str()) {
                Err(e) => {
                    return Err(e);
                },
                Ok(()) => {},
            }
            if st.current.is_none() {
                return Err(yaml_error("verify appears before step id"));
            }
            st.list = None;
            return Ok(next);
        },
        None => {},
    }
    match list_item_value_of(line) {
        Some(v) => {
            let t = trim_str(v.as_str());
            if st.list == Some(ListField::RequiredArtifacts) {
                match parse_yaml_string(t.as_str()) {
                    Ok(x) => {
                        let ghost before = st.required@;
                        st.required.push(x);
                        assert(views(st.required@) =~= views(before).push(x@));
                        return Ok(next);
                    },
                    Err(e) => {
                        return Err(e);
                    },
                }
            }
            if st.current.is_none() {
                return Err(yaml_error("list item appears before step id"));
            }
            match st.list {
                Some(ListField::ExpectedPaths) => match parse_yaml_string(t.as_str()) {
                    Ok(x) => {
                        let cur = take_current(st);
                        match cur {
                            Some(c) => {
                                let mut c = c;
                                let ghost before = c.expected_paths@;
                                c.expected_paths.push(x);
                                assert(views(c.expected_paths@) =~= views(before).push(x@));
                                st.current = Some(c);
                            },
                            None => {},
                        }
                        return Ok(next);
                    },
                    Err(e) => {
                        return Err(e);
                    },
                },
                Some(ListField::Verify) => match parse_yaml_string(t.as_str()) {
                    Ok(x) => {
                        let cur = take_current(st);
                        match cur {
                            Some(c) => {
                                let mut c = c;
                                let ghost before = c.verify@;
                                c.verify.push(x);
                                assert(views(c.verify@) =~= views(before).push(x@));
                                st.current = Some(c);
                            },
                            None => {},
                        }
                        return Ok(next);
                    },
                    Err(e) => {
                        return Err(e);
                    },
                },
                _ => {
                    return Err(yaml_error("list item appears outside a known list"));
                },
            }
        },
        None => {},
    }
    Ok(next)
}

#[verifier::rlimit(10)]
fn apply_other_exec(st: &mut ParseState, lines: &Vec<String>, i: usize, line: &str) -> (r: Result<usize, PlanError>)
    requires
        i < lines@.len(),
        true,
    ensures
        match apply_other(i as int, line@, old(st).view()) {
            Ok((v, j)) => r matches Ok(k) && k as int == j && final(st).view() == v,
            Err(e) => r matches Err(x) && error_view(x) == e,
        },
{
    let n: usize = lines.len();
    assert(i < n);
    let next = i + 1;
    if is_annotation_of(line) {
        if st.current.is_none() {
            return Err(yaml_error("step annotation appears before step id"));
        }
        st.list = None;
        return Ok(next);
    }
    let mut m = owned("unexpected line: ");
    push_str(&mut m, line);
    Err(PlanError::InvalidYaml(m))
}

/// Reads line `i`; returns the index of the next line to read.
fn apply_line_exec(st: &mut ParseState, lines: &Vec<String>, i: usize) -> (r: Result<usize, PlanError>)
    requires
        i < lines@.len(),
    ensures
        match apply_line(views(lines@), i as int, old(st).view()) {
            Ok((v, j)) => r matches Ok(k) && k as int == j && final(st).view() == v,
            Err(e) => r matches Err(x) && error_view(x) == e,
        },
{
    proof {
        reveal(apply_line);
    }
    let trimmed = trim_end_str(lines[i].as_str());
    let line = trimmed.as_str();
    assert(line@ == trim_end(views(lines@)[i as int]));
    let n: usize = lines.len();
    assert(i < n);
    if is_blank_str(line) {
        return Ok(i + 1);
    }
    if str_starts_with(line, "goal:") || str_starts_with(line, "profile:") || str_starts_with(line, "style:")
        || str_starts_with(line, "intent:") || str_starts_with(line, "required_artifacts:") || str_eq(line, "steps:") {
        return apply_header_exec(st, lines, i, line);
    }
    if step_id_value_of(line).is_some() || step_field_value_of(line, "kind").is_some() || step_field_value_of(
        line,
        "instruction",
    ).is_some() || step_field_value_of(line, "expected_result").is_some() {
        return apply_step_exec(st, lines, i, line);
    }
    if is_step_field_of(line, "expected_paths") || step_field_value_of(line, "expected_paths").is_some()
        || is_step_field_of(line, "verify") || step_field_value_of(line, "verify").is_some()
        || list_item_value_of(line).is_some() {
        return apply_list_exec(st, lines, i, line);
    }
    apply_other_exec(st, lines, i, line)
}


fn dedupe_required(paths: Vec<String>) -> (r: Vec<String>)
    ensures
        views(r@) == dedupe(views(paths@)),
{
    let ghost vs = views(paths@);
    let mut out: Vec<String> = Vec::new();
    let mut i: usize = 0;
    while i < paths.len()
        invariant
            i <= paths@.len(),
            vs == views(paths@),
            views(out@) == dedupe(vs.take(i as int)),
        decreases paths.len() - i,
    {
        proof {
            assert(vs.take(i + 1).drop_last() =~= vs.take(i as int));
        }
        let p = paths[i].as_str();
        let mut seen = false;
        let mut k: usize = 0;
        while k < out.len()
            invariant
                k <= out@.len(),
                seen == exists|m: int| 0 <= m < k && #[trigger] views(out@)[m] == p@,
            decreases out.len() - k,
        {
            if str_eq(out[k].as_str(), p) {
                assert(views(out@)[k as int] == p@);
                seen = true;
            }
            k = k + 1;
        }
        assert(seen == views(out@).contains(p@));
        if !seen {
            let ghost before = out@;
            out.push(copy_string(&paths[i]));
            assert(views(out@) =~= views(before).push(p@));
        }
        i = i + 1;
    }
    assert(vs.take(paths@.len() as int) =~= vs);
    out
}

/// Parses the YAML of a step plan, fenced or not, and validates it.
pub fn parse_step_plan_yaml(yaml: &str) -> (r: Result<StepPlan, PlanError>)
    ensures
        match parse_spec(yaml@) {
            Ok(p) => r matches Ok(x) && plan_view(x) == p,
            Err(e) => r matches Err(x) && error_view(x) == e,
        },
{
    let text = strip_yaml_fence(yaml);
    let lines = text_lines(text.as_str());
    let ghost ls = views(lines@);
    let mut st = ParseState {
        goal: None,
        profile: None,
        style: None,
        intent: None,
        required: Vec::new(),
        steps: Vec::new(),
        current: None,
        explicit: false,
        list: None,
    };
    proof {
        assert(st.view().required =~= Seq::<Seq<char>>::empty());
        assert(st.view().steps =~= Seq::<StepView>::empty());
        assert(st.view() == initial_view());
    }
    let mut i: usize = 0;
    while i < lines.len()
        invariant_except_break
            parse_from(ls, 0, initial_view()) == parse_from(ls, i as int, st.view()),
        invariant
            i <= lines@.len(),
            ls == views(lines@),
            ls == lines_of(strip_fence(yaml@)),
        ensures
            parse_from(ls, 0, initial_view()) == Ok::<ParseView, PlanErrorView>(st.view()),
        decreases lines.len() - i,
    {
        match apply_line_exec(&mut st, &lines, i) {
            Err(e) => {
                return Err(e);
            },
            Ok(j) => {
                if j <= i || j > lines.len() {
                    break;
                }
                i = j;
            },
        }
    }
    let ghost done = st.view();
    assert(parse_from(ls, 0, initial_view()) == Ok::<ParseView, PlanErrorView>(done));
    flush(&mut st);
    let goal = match st.goal {
        Some(g) => g,
        None => {
            return Err(PlanError::MissingField(owned("goal")));
        },
    };
    let profile = match st.profile {
        Some(p) => p,
        None => {
            return Err(PlanError::MissingField(owned("profile")));
        },
    };
    let style = match st.style {
        Some(s) => s,
        None => owned("default"),
    };
    let intent = match st.intent {
        Some(x) => x,
        None => WorkIntent::Unknown,
    };
    let plan = StepPlan {
        goal,
        profile,
        style,
        intent,
        required_artifacts: dedupe_required(st.required),
        steps: st.steps,
    };
    match validate_step_plan(&plan) {
        Ok(()) => Ok(plan),
        Err(e) => Err(e),
    }
}

/// Parses the plan out of a model response, inside a code fence or not.
pub fn extract_plan_from_response(response: &str) -> (r: Result<StepPlan, PlanError>)
    ensures
        match parse_spec(strip_fence(trim(response@))) {
            Ok(p) => r matches Ok(x) && plan_view(x) == p,
            Err(e) => r matches Err(x) && error_view(x) == e,
        },
{
    let t = trim_str(response);
    let yaml = strip_yaml_fence(t.as_str());
    parse_step_plan_yaml(yaml.as_str())
}


/// Text without a code fence, once trimmed, is left alone by fence
/// stripping.
proof fn lemma_unfenced_strip(y: Seq<char>)
    requires
        !crate::text::contains(y, "```"@),
    ensures
        strip_fence(trim(y)) == trim(y),
        strip_fence(y) == trim(y),
{
    reveal_strlit("```");
    reveal_strlit("```yaml");
    crate::text::lemma_trim_idempotent(y);
    let (a, b) = crate::text::lemma_trim_within(y);
    let t = trim(y);
    if starts_with(t, "```"@) {
        assert(y.subrange(a, a + 3) =~= t.subrange(0, 3));
        assert(crate::text::occurs_at(y, "```"@, a));
    }
    if starts_with(t, "```yaml"@) {
        assert(t.subrange(0, 3) =~= "```"@);
        assert(y.subrange(a, a + 3) =~= t.subrange(0, 3));
        assert(crate::text::occurs_at(y, "```"@, a));
    }
}

/// A plan response parses as its YAML does, whether it is the YAML itself
/// or the YAML in a ```` ```yaml ```` fence, for YAML that holds no fence.
pub proof fn lemma_fenced_response_parses_as_yaml(y: Seq<char>)
    requires
        !crate::text::contains(y, "```"@),
    ensures
        parse_spec(strip_fence(trim(y))) == parse_spec(y),
        parse_spec(strip_fence(trim("```yaml\n"@ + y + "```"@))) == parse_spec(y),
{
    reveal_strlit("```");
    reveal_strlit("```yaml");
    reveal_strlit("```yaml\n");
    lemma_unfenced_strip(y);
    crate::text::lemma_trim_idempotent(y);
    let tick: Seq<char> = "```"@;
    let t = "```yaml\n"@ + y + tick;
    // The fenced response is already trimmed.
    let k = crate::text::lemma_trim_start_shape(t);
    if k > 0 {
        assert(t[0] == '`');
    }
    assert(t.skip(0) =~= t);
    let ts = trim_start(t);
    let e = crate::text::lemma_trim_end_shape(ts);
    if e < ts.len() {
        assert(ts[ts.len() - 1] == '`');
    }
    assert(ts.take(ts.len() as int) =~= ts);
    assert(trim(t) == t);
    assert(t.subrange(0, 7) =~= "```yaml"@);
    // After the opening marker: a line break, the YAML, the closing marker.
    let rest = t.skip(7);
    assert(rest =~= seq!['\n'] + (y + tick));
    assert(trim_start(rest) == trim_start(y + tick)) by {
        assert(rest[0] == '\n');
        assert(rest.drop_first() =~= y + tick);
    }
    crate::text::lemma_trim_start_concat(y, tick);
    let r0 = trim_start(y) + tick;
    let e2 = crate::text::lemma_trim_end_shape(r0);
    if e2 < r0.len() {
        assert(r0[r0.len() - 1] == '`');
    }
    assert(r0.take(r0.len() as int) =~= r0);
    assert(trim(rest) == r0);
    assert(r0.subrange(r0.len() - 3, r0.len() as int) =~= tick);
    assert(r0.subrange(0, r0.len() - 3) =~= trim_start(y));
    assert(fence_body(rest) == trim(trim_start(y)));
    assert(trim(trim_start(y)) == trim(y));
    assert(strip_fence(t) == trim(y));
}

// ---------------------------------------------------------------------------
// Reading back what was rendered
// ---------------------------------------------------------------------------

proof fn lemma_trim_quoted(e: Seq<char>)
    requires
        e.len() >= 2,
        e[0] == '"',
        e.last() == '"',
    ensures
        trim(e) == e,
        trim(" "@ + e) == e,
        trim_end(e) == e,
{
    reveal_strlit(" ");
    assert(!is_ws('"'));
    assert(trim_start(e) == e);
    assert(trim_end(e) == e);
    let se = " "@ + e;
    assert(se[0] == ' ');
    assert(se.drop_first() =~= e);
    assert(trim_start(se) == trim_start(e));
}

/// A rendered value reads back as the string it was rendered from.
proof fn lemma_yaml_str_enc(x: Seq<char>)
    requires
        encodes(x),
    ensures
        yaml_str(enc(x)) == Ok::<Seq<char>, PlanErrorView>(x),
        yaml_str(trim(enc(x))) == Ok::<Seq<char>, PlanErrorView>(x),
        yaml_str(trim(" "@ + enc(x))) == Ok::<Seq<char>, PlanErrorView>(x),
        block_indicator(" "@ + enc(x)) is None,
{
    let e = enc(x);
    reveal_strlit("\"");
    lemma_trim_quoted(e);
    assert(e.subrange(0, 1) =~= "\""@);
    reveal_strlit("|");
    reveal_strlit("|-");
    reveal_strlit(">");
    reveal_strlit(">-");
    assert(e != "|"@ && e != "|-"@ && e != ">"@ && e != ">-"@) by {
        assert(e[0] == '"');
        assert(e.len() >= 2);
    }
}

/// A prefix of `s` agrees with `s` at every index it has.
proof fn lemma_prefix_char(s: Seq<char>, k: int)
    requires
        0 <= k < s.len(),
    ensures
        forall|p: Seq<char>| #[trigger] starts_with(s, p) && k < p.len() ==> p[k] == s[k],
{
    assert forall|p: Seq<char>| #[trigger] starts_with(s, p) && k < p.len() implies p[k] == s[k] by {
        assert(s.subrange(0, p.len() as int)[k] == s[k]);
    }
}

proof fn lemma_item_line(lines: Seq<Seq<char>>, i: int, st: ParseView, x: Seq<char>)
    requires
        0 <= i < lines.len(),
        lines[i] == "      - "@ + enc(x),
        encodes(x),
        st.current is Some,
        st.list == Some(ListField::ExpectedPaths) || st.list == Some(ListField::Verify),
    ensures
        apply_line(lines, i, st) == Ok::<(ParseView, int), PlanErrorView>(
            (
                if st.list == Some(ListField::ExpectedPaths) {
                    ParseView { current: Some(StepView { paths: st.current->0.paths.push(x), ..st.current->0 }), ..st }
                } else {
                    ParseView { current: Some(StepView { verify: st.current->0.verify.push(x), ..st.current->0 }), ..st }
                },
                i + 1,
            ),
        ),
{
    reveal(apply_line);
    let e = enc(x);
    let line = lines[i];
    reveal_strlit("      - ");
    lemma_trim_quoted(e);
    assert(line.last() == '"');
    assert(trim_end(line) == line);
    assert(line[0] == ' ' && line[2] == ' ' && line[4] == ' ' && line[6] == '-' && line[8] == '"');
    assert(!is_blank(line));
    lemma_prefix_char(line, 0);
    lemma_prefix_char(line, 2);
    lemma_prefix_char(line, 4);
    reveal_strlit("goal:");
    reveal_strlit("profile:");
    reveal_strlit("style:");
    reveal_strlit("intent:");
    reveal_strlit("required_artifacts:");
    reveal_strlit("steps:");
    assert(!header_line(line));
    reveal_strlit("  - id:");
    reveal_strlit("- id:");
    reveal_strlit("    ");
    reveal_strlit("  ");
    reveal_strlit(":");
    reveal_strlit("kind");
    reveal_strlit("instruction");
    reveal_strlit("expected_result");
    assert(!step_line(line));
    reveal_strlit("expected_paths");
    reveal_strlit("verify");
    reveal_strlit("- ");
    assert forall|j: int| 0 <= j < 6 implies is_ws(#[trigger] line[j]) by {}
    crate::text::lemma_trim_start_skip(line, 6);
    assert(line.subrange(6, line.len() as int) =~= "- "@ + e);
    assert(trim_start(line) == "- "@ + e);
    assert(("- "@ + e).skip(2) =~= e);
    assert(("- "@ + e).subrange(0, 2) =~= "- "@);
    assert(list_item_value(line) == Some(e));
    lemma_yaml_str_enc(x);
}



proof fn lemma_goal_line(lines: Seq<Seq<char>>, i: int, st: ParseView, x: Seq<char>)
    requires
        0 <= i < lines.len(),
        lines[i] == "goal: "@ + enc(x),
        encodes(x),
    ensures
        apply_line(lines, i, st) == Ok::<(ParseView, int), PlanErrorView>((ParseView { goal: Some(x), list: None, ..st }, i + 1)),
{
    reveal(apply_line);
    let e = enc(x);
    let line = lines[i];
    reveal_strlit("goal: ");
    reveal_strlit(" ");
    lemma_trim_quoted(e);
    lemma_yaml_str_enc(x);
    assert(line.last() == '"');
    assert(trim_end(line) == line);
    assert(line[6] == '"');
    assert(!is_blank(line));
    reveal_strlit("goal:");
    reveal_strlit("profile:");
    reveal_strlit("style:");
    reveal_strlit("intent:");
    reveal_strlit("required_artifacts:");
    reveal_strlit("steps:");
    reveal_strlit("  - id:");
    reveal_strlit("- id:");
    reveal_strlit("    ");
    reveal_strlit("  ");
    reveal_strlit(":");
    reveal_strlit("kind");
    reveal_strlit("instruction");
    reveal_strlit("expected_result");
    reveal_strlit("expected_paths");
    reveal_strlit("verify");
    reveal_strlit("- ");
    reveal_strlit("action:");
    lemma_prefix_char(line, 0);
    lemma_prefix_char(line, 1);
    lemma_prefix_char(line, 2);
    lemma_prefix_char(line, 3);
    lemma_prefix_char(line, 4);
    lemma_prefix_char(line, 5);
    lemma_prefix_char(line, 6);
    assert(line.skip(5) =~= " "@ + e);
    assert(line.subrange(0, 5) =~= "goal:"@);
}

proof fn lemma_profile_line(lines: Seq<Seq<char>>, i: int, st: ParseView, x: Seq<char>)
    requires
        0 <= i < lines.len(),
        lines[i] == "profile: "@ + enc(x),
        encodes(x),
    ensures
        apply_line(lines, i, st) == Ok::<(ParseView, int), PlanErrorView>((ParseView { profile: Some(x), list: None, ..st }, i + 1)),
{
    reveal(apply_line);
    let e = enc(x);
    let line = lines[i];
    reveal_strlit("profile: ");
    reveal_strlit(" ");
    lemma_trim_quoted(e);
    lemma_yaml_str_enc(x);
    assert(line.last() == '"');
    assert(trim_end(line) == line);
    assert(line[9] == '"');
    assert(!is_blank(line));
    reveal_strlit("goal:");
    reveal_strlit("profile:");
    reveal_strlit("style:");
    reveal_strlit("intent:");
    reveal_strlit("required_artifacts:");
    reveal_strlit("steps:");
    reveal_strlit("  - id:");
    reveal_strlit("- id:");
    reveal_strlit("    ");
    reveal_strlit("  ");
    reveal_strlit(":");
    reveal_strlit("kind");
    reveal_strlit("instruction");
    reveal_strlit("expected_result");
    reveal_strlit("expected_paths");
    reveal_strlit("verify");
    reveal_strlit("- ");
    reveal_strlit("action:");
    lemma_prefix_char(line, 0);
    lemma_prefix_char(line, 1);
    lemma_prefix_char(line, 2);
    lemma_prefix_char(line, 3);
    lemma_prefix_char(line, 4);
    lemma_prefix_char(line, 5);
    lemma_prefix_char(line, 6);
    lemma_prefix_char(line, 7);
    lemma_prefix_char(line, 8);
    lemma_prefix_char(line, 9);
    assert(line.skip(8) =~= " "@ + e);
    assert(line.subrange(0, 8) =~= "profile:"@);
}

proof fn lemma_style_line(lines: Seq<Seq<char>>, i: int, st: ParseView, x: Seq<char>)
    requires
        0 <= i < lines.len(),
        lines[i] == "style: "@ + enc(x),
        encodes(x),
    ensures
        apply_line(lines, i, st) == Ok::<(ParseView, int), PlanErrorView>((ParseView { style: Some(x), list: None, ..st }, i + 1)),
{
    reveal(apply_line);
    let e = enc(x);
    let line = lines[i];
    reveal_strlit("style: ");
    reveal_strlit(" ");
    lemma_trim_quoted(e);
    lemma_yaml_str_enc(x);
    assert(line.last() == '"');
    assert(trim_end(line) == line);
    assert(line[7] == '"');
    assert(!is_blank(line));
    reveal_strlit("goal:");
    reveal_strlit("profile:");
    reveal_strlit("style:");
    reveal_strlit("intent:");
    reveal_strlit("required_artifacts:");
    reveal_strlit("steps:");
    reveal_strlit("  - id:");
    reveal_strlit("- id:");
    reveal_strlit("    ");
    reveal_strlit("  ");
    reveal_strlit(":");
    reveal_strlit("kind");
    reveal_strlit("instruction");
    reveal_strlit("expected_result");
    reveal_strlit("expected_paths");
    reveal_strlit("verify");
    reveal_strlit("- ");
    reveal_strlit("action:");
    lemma_prefix_char(line, 0);
    lemma_prefix_char(line, 1);
    lemma_prefix_char(line, 2);
    lemma_prefix_char(line, 3);
    lemma_prefix_char(line, 4);
    lemma_prefix_char(line, 5);
    lemma_prefix_char(line, 6);
    lemma_prefix_char(line, 7);
    assert(line.skip(6) =~= " "@ + e);
    assert(line.subrange(0, 6) =~= "style:"@);
}

proof fn lemma_intent_line(lines: Seq<Seq<char>>, i: int, st: ParseView, it: WorkIntent)
    requires
        0 <= i < lines.len(),
        lines[i] == "intent: "@ + enc(intent_name(it)),
        encodes(intent_name(it)),
    ensures
        apply_line(lines, i, st) == Ok::<(ParseView, int), PlanErrorView>((ParseView { intent: Some(it), list: None, ..st }, i + 1)),
{
    reveal(apply_line);
    let x = intent_name(it);
    let e = enc(x);
    let line = lines[i];
    reveal_strlit("intent: ");
    reveal_strlit(" ");
    lemma_trim_quoted(e);
    lemma_yaml_str_enc(x);
    crate::plan::lemma_intent_name_round_trip(it);
    assert(line.last() == '"');
    assert(trim_end(line) == line);
    assert(line[8] == '"');
    assert(!is_blank(line));
    reveal_strlit("goal:");
    reveal_strlit("profile:");
    reveal_strlit("style:");
    reveal_strlit("intent:");
    reveal_strlit("required_artifacts:");
    reveal_strlit("steps:");
    reveal_strlit("  - id:");
    reveal_strlit("- id:");
    reveal_strlit("    ");
    reveal_strlit("  ");
    reveal_strlit(":");
    reveal_strlit("kind");
    reveal_strlit("instruction");
    reveal_strlit("expected_result");
    reveal_strlit("expected_paths");
    reveal_strlit("verify");
    reveal_strlit("- ");
    reveal_strlit("action:");
    lemma_prefix_char(line, 0);
    lemma_prefix_char(line, 1);
    lemma_prefix_char(line, 2);
    lemma_prefix_char(line, 3);
    lemma_prefix_char(line, 4);
    lemma_prefix_char(line, 5);
    lemma_prefix_char(line, 6);
    lemma_prefix_char(line, 7);
    lemma_prefix_char(line, 8);
    assert(line.skip(7) =~= " "@ + e);
    assert(line.subrange(0, 7) =~= "intent:"@);
}

proof fn lemma_required_header_line(lines: Seq<Seq<char>>, i: int, st: ParseView)
    requires
        0 <= i < lines.len(),
        lines[i] == "required_artifacts:"@,
    ensures
        apply_line(lines, i, st) == Ok::<(ParseView, int), PlanErrorView>((ParseView { list: Some(ListField::RequiredArtifacts), ..st }, i + 1)),
{
    reveal(apply_line);
    let line = lines[i];
    reveal_strlit("required_artifacts:");
    assert(line.last() == ':');
    assert(trim_end(line) == line);
    assert(!is_blank(line)) by {
        assert(!is_ws(line.last()));
    }
    reveal_strlit("goal:");
    reveal_strlit("profile:");
    reveal_strlit("style:");
    reveal_strlit("intent:");
    reveal_strlit("required_artifacts:");
    reveal_strlit("steps:");
    reveal_strlit("  - id:");
    reveal_strlit("- id:");
    reveal_strlit("    ");
    reveal_strlit("  ");
    reveal_strlit(":");
    reveal_strlit("kind");
    reveal_strlit("instruction");
    reveal_strlit("expected_result");
    reveal_strlit("expected_paths");
    reveal_strlit("verify");
    reveal_strlit("- ");
    reveal_strlit("action:");
    lemma_prefix_char(line, 0);
    lemma_prefix_char(line, 1);
    lemma_prefix_char(line, 2);
    lemma_prefix_char(line, 3);
    lemma_prefix_char(line, 4);
    lemma_prefix_char(line, 5);
    lemma_prefix_char(line, 6);
    lemma_prefix_char(line, 7);
    lemma_prefix_char(line, 8);
    lemma_prefix_char(line, 9);
    lemma_prefix_char(line, 10);
    lemma_prefix_char(line, 11);
    lemma_prefix_char(line, 12);
    lemma_prefix_char(line, 13);
    lemma_prefix_char(line, 14);
    lemma_prefix_char(line, 15);
    lemma_prefix_char(line, 16);
    lemma_prefix_char(line, 17);
    lemma_prefix_char(line, 18);
    assert(line.subrange(0, 19) =~= "required_artifacts:"@);
}

proof fn lemma_steps_header_line(lines: Seq<Seq<char>>, i: int, st: ParseView)
    requires
        0 <= i < lines.len(),
        lines[i] == "steps:"@,
    ensures
        apply_line(lines, i, st) == Ok::<(ParseView, int), PlanErrorView>((ParseView { list: None, ..st }, i + 1)),
{
    reveal(apply_line);
    let line = lines[i];
    reveal_strlit("steps:");
    assert(line.last() == ':');
    assert(trim_end(line) == line);
    assert(!is_blank(line)) by {
        assert(!is_ws(line.last()));
    }
    reveal_strlit("goal:");
    reveal_strlit("profile:");
    reveal_strlit("style:");
    reveal_strlit("intent:");
    reveal_strlit("required_artifacts:");
    reveal_strlit("steps:");
    reveal_strlit("  - id:");
    reveal_strlit("- id:");
    reveal_strlit("    ");
    reveal_strlit("  ");
    reveal_strlit(":");
    reveal_strlit("kind");
    reveal_strlit("instruction");
    reveal_strlit("expected_result");
    reveal_strlit("expected_paths");
    reveal_strlit("verify");
    reveal_strlit("- ");
    reveal_strlit("action:");
    lemma_prefix_char(line, 0);
    lemma_prefix_char(line, 1);
    lemma_prefix_char(line, 2);
    lemma_prefix_char(line, 3);
    lemma_prefix_char(line, 4);
    lemma_prefix_char(line, 5);
}

proof fn lemma_paths_header_line(lines: Seq<Seq<char>>, i: int, st: ParseView)
    requires
        0 <= i < lines.len(),
        lines[i] == "    expected_paths:"@,
    ensures
        apply_line(lines, i, st) == Ok::<(ParseView, int), PlanErrorView>((ParseView { list: Some(ListField::ExpectedPaths), ..st }, i + 1)),
{
    reveal(apply_line);
    let line = lines[i];
    reveal_strlit("    expected_paths:");
    assert(line.last() == ':');
    assert(trim_end(line) == line);
    assert(!is_blank(line)) by {
        assert(!is_ws(line.last()));
    }
    reveal_strlit("goal:");
    reveal_strlit("profile:");
    reveal_strlit("style:");
    reveal_strlit("intent:");
    reveal_strlit("required_artifacts:");
    reveal_strlit("steps:");
    reveal_strlit("  - id:");
    reveal_strlit("- id:");
    reveal_strlit("    ");
    reveal_strlit("  ");
    reveal_strlit(":");
    reveal_strlit("kind");
    reveal_strlit("instruction");
    reveal_strlit("expected_result");
    reveal_strlit("expected_paths");
    reveal_strlit("verify");
    reveal_strlit("- ");
    reveal_strlit("action:");
    lemma_prefix_char(line, 0);
    lemma_prefix_char(line, 1);
    lemma_prefix_char(line, 2);
    lemma_prefix_char(line, 3);
    lemma_prefix_char(line, 4);
    lemma_prefix_char(line, 5);
    lemma_prefix_char(line, 6);
    lemma_prefix_char(line, 7);
    lemma_prefix_char(line, 8);
    lemma_prefix_char(line, 9);
    lemma_prefix_char(line, 10);
    lemma_prefix_char(line, 11);
    lemma_prefix_char(line, 12);
    lemma_prefix_char(line, 13);
    lemma_prefix_char(line, 14);
    lemma_prefix_char(line, 15);
    lemma_prefix_char(line, 16);
    lemma_prefix_char(line, 17);
    lemma_prefix_char(line, 18);
    assert(line =~= "    "@ + "expected_paths"@ + ":"@);
}

proof fn lemma_verify_header_line(lines: Seq<Seq<char>>, i: int, st: ParseView)
    requires
        0 <= i < lines.len(),
        lines[i] == "    verify:"@,
    ensures
        apply_line(lines, i, st) == Ok::<(ParseView, int), PlanErrorView>((ParseView { list: Some(ListField::Verify), ..st }, i + 1)),
{
    reveal(apply_line);
    let line = lines[i];
    reveal_strlit("    verify:");
    assert(line.last() == ':');
    assert(trim_end(line) == line);
    assert(!is_blank(line)) by {
        assert(!is_ws(line.last()));
    }
    reveal_strlit("goal:");
    reveal_strlit("profile:");
    reveal_strlit("style:");
    reveal_strlit("intent:");
    reveal_strlit("required_artifacts:");
    reveal_strlit("steps:");
    reveal_strlit("  - id:");
    reveal_strlit("- id:");
    reveal_strlit("    ");
    reveal_strlit("  ");
    reveal_strlit(":");
    reveal_strlit("kind");
    reveal_strlit("instruction");
    reveal_strlit("expected_result");
    reveal_strlit("expected_paths");
    reveal_strlit("verify");
    reveal_strlit("- ");
    reveal_strlit("action:");
    lemma_prefix_char(line, 0);
    lemma_prefix_char(line, 1);
    lemma_prefix_char(line, 2);
    lemma_prefix_char(line, 3);
    lemma_prefix_char(line, 4);
    lemma_prefix_char(line, 5);
    lemma_prefix_char(line, 6);
    lemma_prefix_char(line, 7);
    lemma_prefix_char(line, 8);
    lemma_prefix_char(line, 9);
    lemma_prefix_char(line, 10);
    assert(line =~= "    "@ + "verify"@ + ":"@);
}

proof fn lemma_id_line(lines: Seq<Seq<char>>, i: int, st: ParseView, x: Seq<char>)
    requires
        0 <= i < lines.len(),
        lines[i] == "  - id: "@ + enc(x),
        encodes(x),
    ensures
        apply_line(lines, i, st) == Ok::<(ParseView, int), PlanErrorView>(
            (ParseView { steps: flushed(st), current: Some(new_step(x)), explicit: false, list: None, ..st }, i + 1),
        ),
{
    reveal(apply_line);
    let e = enc(x);
    let line = lines[i];
    reveal_strlit("  - id: ");
    reveal_strlit(" ");
    lemma_trim_quoted(e);
    lemma_yaml_str_enc(x);
    assert(line.last() == '"');
    assert(trim_end(line) == line);
    assert(line[8] == '"');
    assert(!is_blank(line));
    reveal_strlit("goal:");
    reveal_strlit("profile:");
    reveal_strlit("style:");
    reveal_strlit("intent:");
    reveal_strlit("required_artifacts:");
    reveal_strlit("steps:");
    reveal_strlit("  - id:");
    reveal_strlit("- id:");
    reveal_strlit("    ");
    reveal_strlit("  ");
    reveal_strlit(":");
    reveal_strlit("kind");
    reveal_strlit("instruction");
    reveal_strlit("expected_result");
    reveal_strlit("expected_paths");
    reveal_strlit("verify");
    reveal_strlit("- ");
    reveal_strlit("action:");
    lemma_prefix_char(line, 0);
    lemma_prefix_char(line, 1);
    lemma_prefix_char(line, 2);
    lemma_prefix_char(line, 3);
    lemma_prefix_char(line, 4);
    lemma_prefix_char(line, 5);
    lemma_prefix_char(line, 6);
    lemma_prefix_char(line, 7);
    lemma_prefix_char(line, 8);
    assert(line.skip(7) =~= " "@ + e);
    assert(line.subrange(0, 7) =~= "  - id:"@);
}

proof fn lemma_kind_line(lines: Seq<Seq<char>>, i: int, st: ParseView, k: StepKind)
    requires
        0 <= i < lines.len(),
        lines[i] == "    kind: "@ + enc(kind_name(k)),
        encodes(kind_name(k)),
        st.current is Some,
    ensures
        apply_line(lines, i, st) == Ok::<(ParseView, int), PlanErrorView>(
            (ParseView { current: Some(StepView { kind: k, ..st.current->0 }), explicit: true, list: None, ..st }, i + 1),
        ),
{
    reveal(apply_line);
    let x = kind_name(k);
    let e = enc(x);
    let line = lines[i];
    reveal_strlit("    kind: ");
    reveal_strlit(" ");
    lemma_trim_quoted(e);
    lemma_yaml_str_enc(x);
    crate::plan::lemma_kind_name_round_trip(k);
    assert(line.last() == '"');
    assert(trim_end(line) == line);
    assert(line[10] == '"');
    assert(!is_blank(line));
    reveal_strlit("goal:");
    reveal_strlit("profile:");
    reveal_strlit("style:");
    reveal_strlit("intent:");
    reveal_strlit("required_artifacts:");
    reveal_strlit("steps:");
    reveal_strlit("  - id:");
    reveal_strlit("- id:");
    reveal_strlit("    ");
    reveal_strlit("  ");
    reveal_strlit(":");
    reveal_strlit("kind");
    reveal_strlit("instruction");
    reveal_strlit("expected_result");
    reveal_strlit("expected_paths");
    reveal_strlit("verify");
    reveal_strlit("- ");
    reveal_strlit("action:");
    lemma_prefix_char(line, 0);
    lemma_prefix_char(line, 1);
    lemma_prefix_char(line, 2);
    lemma_prefix_char(line, 3);
    lemma_prefix_char(line, 4);
    lemma_prefix_char(line, 5);
    lemma_prefix_char(line, 6);
    lemma_prefix_char(line, 7);
    lemma_prefix_char(line, 8);
    lemma_prefix_char(line, 9);
    lemma_prefix_char(line, 10);
    assert(line.skip(9) =~= " "@ + e);
    assert(line.subrange(0, 9) =~= "    "@ + "kind"@ + ":"@);
}

proof fn lemma_instruction_line(lines: Seq<Seq<char>>, i: int, st: ParseView, x: Seq<char>)
    requires
        0 <= i < lines.len(),
        lines[i] == "    instruction: "@ + enc(x),
        encodes(x),
        st.current is Some,
    ensures
        apply_line(lines, i, st) == Ok::<(ParseView, int), PlanErrorView>(
            (ParseView { current: Some(StepView { instruction: x, ..st.current->0 }), list: None, ..st }, i + 1),
        ),
{
    reveal(apply_line);
    let e = enc(x);
    let line = lines[i];
    reveal_strlit("    instruction: ");
    reveal_strlit(" ");
    lemma_trim_quoted(e);
    lemma_yaml_str_enc(x);
    assert(line.last() == '"');
    assert(trim_end(line) == line);
    assert(line[17] == '"');
    assert(!is_blank(line));
    reveal_strlit("goal:");
    reveal_strlit("profile:");
    reveal_strlit("style:");
    reveal_strlit("intent:");
    reveal_strlit("required_artifacts:");
    reveal_strlit("steps:");
    reveal_strlit("  - id:");
    reveal_strlit("- id:");
    reveal_strlit("    ");
    reveal_strlit("  ");
    reveal_strlit(":");
    reveal_strlit("kind");
    reveal_strlit("instruction");
    reveal_strlit("expected_result");
    reveal_strlit("expected_paths");
    reveal_strlit("verify");
    reveal_strlit("- ");
    reveal_strlit("action:");
    lemma_prefix_char(line, 0);
    lemma_prefix_char(line, 1);
    lemma_prefix_char(line, 2);
    lemma_prefix_char(line, 3);
    lemma_prefix_char(line, 4);
    lemma_prefix_char(line, 5);
    lemma_prefix_char(line, 6);
    lemma_prefix_char(line, 7);
    lemma_prefix_char(line, 8);
    lemma_prefix_char(line, 9);
    lemma_prefix_char(line, 10);
    lemma_prefix_char(line, 11);
    lemma_prefix_char(line, 12);
    lemma_prefix_char(line, 13);
    lemma_prefix_char(line, 14);
    lemma_prefix_char(line, 15);
    lemma_prefix_char(line, 16);
    lemma_prefix_char(line, 17);
    assert(line.skip(16) =~= " "@ + e);
    assert(line.subrange(0, 16) =~= "    "@ + "instruction"@ + ":"@);
}

proof fn lemma_result_line(lines: Seq<Seq<char>>, i: int, st: ParseView, r: ExpectedResult)
    requires
        0 <= i < lines.len(),
        lines[i] == "    expected_result: "@ + enc(result_name(r)),
        encodes(result_name(r)),
        st.current is Some,
    ensures
        apply_line(lines, i, st) == Ok::<(ParseView, int), PlanErrorView>(
            (ParseView { current: Some(StepView { result: r, ..st.current->0 }), list: None, ..st }, i + 1),
        ),
{
    reveal(apply_line);
    let x = result_name(r);
    let e = enc(x);
    let line = lines[i];
    reveal_strlit("    expected_result: ");
    reveal_strlit(" ");
    lemma_trim_quoted(e);
    lemma_yaml_str_enc(x);
    crate::plan::lemma_result_name_round_trip(r);
    assert(line.last() == '"');
    assert(trim_end(line) == line);
    assert(line[21] == '"');
    assert(!is_blank(line));
    reveal_strlit("goal:");
    reveal_strlit("profile:");
    reveal_strlit("style:");
    reveal_strlit("intent:");
    reveal_strlit("required_artifacts:");
    reveal_strlit("steps:");
    reveal_strlit("  - id:");
    reveal_strlit("- id:");
    reveal_strlit("    ");
    reveal_strlit("  ");
    reveal_strlit(":");
    reveal_strlit("kind");
    reveal_strlit("instruction");
    reveal_strlit("expected_result");
    reveal_strlit("expected_paths");
    reveal_strlit("verify");
    reveal_strlit("- ");
    reveal_strlit("action:");
    lemma_prefix_char(line, 0);
    lemma_prefix_char(line, 1);
    lemma_prefix_char(line, 2);
    lemma_prefix_char(line, 3);
    lemma_prefix_char(line, 4);
    lemma_prefix_char(line, 5);
    lemma_prefix_char(line, 6);
    lemma_prefix_char(line, 7);
    lemma_prefix_char(line, 8);
    lemma_prefix_char(line, 9);
    lemma_prefix_char(line, 10);
    lemma_prefix_char(line, 11);
    lemma_prefix_char(line, 12);
    lemma_prefix_char(line, 13);
    lemma_prefix_char(line, 14);
    lemma_prefix_char(line, 15);
    lemma_prefix_char(line, 16);
    lemma_prefix_char(line, 17);
    lemma_prefix_char(line, 18);
    lemma_prefix_char(line, 19);
    lemma_prefix_char(line, 20);
    lemma_prefix_char(line, 21);
    assert(line.skip(20) =~= " "@ + e);
    assert(line.subrange(0, 20) =~= "    "@ + "expected_result"@ + ":"@);
}

proof fn lemma_required_item_line(lines: Seq<Seq<char>>, i: int, st: ParseView, x: Seq<char>)
    requires
        0 <= i < lines.len(),
        lines[i] == "  - "@ + enc(x),
        encodes(x),
        st.list == Some(ListField::RequiredArtifacts),
    ensures
        apply_line(lines, i, st) == Ok::<(ParseView, int), PlanErrorView>(
            (ParseView { required: st.required.push(x), ..st }, i + 1),
        ),
{
    reveal(apply_line);
    let e = enc(x);
    let line = lines[i];
    reveal_strlit("  - ");
    lemma_trim_quoted(e);
    assert(line.last() == '"');
    assert(trim_end(line) == line);
    assert(line[4] == '"');
    assert(!is_blank(line));
    reveal_strlit("goal:");
    reveal_strlit("profile:");
    reveal_strlit("style:");
    reveal_strlit("intent:");
    reveal_strlit("required_artifacts:");
    reveal_strlit("steps:");
    reveal_strlit("  - id:");
    reveal_strlit("- id:");
    reveal_strlit("    ");
    reveal_strlit("  ");
    reveal_strlit(":");
    reveal_strlit("kind");
    reveal_strlit("instruction");
    reveal_strlit("expected_result");
    reveal_strlit("expected_paths");
    reveal_strlit("verify");
    reveal_strlit("- ");
    reveal_strlit("action:");
    lemma_prefix_char(line, 0);
    lemma_prefix_char(line, 1);
    lemma_prefix_char(line, 2);
    lemma_prefix_char(line, 3);
    lemma_prefix_char(line, 4);
    assert forall|j: int| 0 <= j < 2 implies is_ws(#[trigger] line[j]) by {}
    crate::text::lemma_trim_start_skip(line, 2);
    assert(line.subrange(2, line.len() as int) =~= "- "@ + e);
    assert(trim_start(line) == "- "@ + e);
    assert(("- "@ + e).skip(2) =~= e);
    assert(("- "@ + e).subrange(0, 2) =~= "- "@);
    assert(list_item_value(line) == Some(e));
    lemma_yaml_str_enc(x);
}

proof fn lemma_parse_step(lines: Seq<Seq<char>>, i: int, st: ParseView, st2: ParseView)
    requires
        0 <= i < lines.len(),
        apply_line(lines, i, st) == Ok::<(ParseView, int), PlanErrorView>((st2, i + 1)),
    ensures
        parse_from(lines, i, st) == parse_from(lines, i + 1, st2),
{
}

proof fn lemma_required_items(lines: Seq<Seq<char>>, i: int, items: Seq<Seq<char>>, st: ParseView)
    requires
        0 <= i,
        i + items.len() <= lines.len(),
        forall|k: int| 0 <= k < items.len() ==> lines[i + k] == "  - "@ + enc(#[trigger] items[k]),
        all_encode(items),
        st.list == Some(ListField::RequiredArtifacts),
    ensures
        parse_from(lines, i, st) == parse_from(
            lines,
            i + items.len(),
            ParseView { required: st.required + items, ..st },
        ),
    decreases items.len(),
{
    if items.len() == 0 {
        assert(st.required + items =~= st.required);
    } else {
        let x = items[0];
        assert(lines[i + 0] == "  - "@ + enc(items[0]));
        lemma_required_item_line(lines, i, st, x);
        let st1 = ParseView { required: st.required.push(x), ..st };
        lemma_parse_step(lines, i, st, st1);
        let rest = items.skip(1);
        assert forall|k: int| 0 <= k < rest.len() implies lines[(i + 1) + k] == "  - "@ + enc(#[trigger] rest[k]) by {
            assert(rest[k] == items[k + 1]);
            assert(lines[i + (k + 1)] == "  - "@ + enc(items[k + 1]));
        }
        assert forall|k: int| 0 <= k < rest.len() implies encodes(#[trigger] rest[k]) by {
            assert(rest[k] == items[k + 1]);
        }
        lemma_required_items(lines, i + 1, rest, st1);
        assert(st1.required + rest =~= st.required + items);
    }
}

proof fn lemma_step_items(lines: Seq<Seq<char>>, i: int, items: Seq<Seq<char>>, st: ParseView)
    requires
        0 <= i,
        i + items.len() <= lines.len(),
        forall|k: int| 0 <= k < items.len() ==> lines[i + k] == "      - "@ + enc(#[trigger] items[k]),
        all_encode(items),
        st.current is Some,
        st.list == Some(ListField::ExpectedPaths) || st.list == Some(ListField::Verify),
    ensures
        parse_from(lines, i, st) == parse_from(
            lines,
            i + items.len(),
            if st.list == Some(ListField::ExpectedPaths) {
                ParseView { current: Some(StepView { paths: st.current->0.paths + items, ..st.current->0 }), ..st }
            } else {
                ParseView { current: Some(StepView { verify: st.current->0.verify + items, ..st.current->0 }), ..st }
            },
        ),
    decreases items.len(),
{
    let c = st.current->0;
    if items.len() == 0 {
        assert(c.paths + items =~= c.paths);
        assert(c.verify + items =~= c.verify);
        assert(StepView { paths: c.paths, ..c } == c);
        assert(StepView { verify: c.verify, ..c } == c);
    } else {
        let x = items[0];
        assert(lines[i + 0] == "      - "@ + enc(items[0]));
        lemma_item_line(lines, i, st, x);
        let st1 = if st.list == Some(ListField::ExpectedPaths) {
            ParseView { current: Some(StepView { paths: c.paths.push(x), ..c }), ..st }
        } else {
            ParseView { current: Some(StepView { verify: c.verify.push(x), ..c }), ..st }
        };
        lemma_parse_step(lines, i, st, st1);
        let rest = items.skip(1);
        assert forall|k: int| 0 <= k < rest.len() implies lines[(i + 1) + k] == "      - "@ + enc(#[trigger] rest[k]) by {
            assert(rest[k] == items[k + 1]);
            assert(lines[i + (k + 1)] == "      - "@ + enc(items[k + 1]));
        }
        assert forall|k: int| 0 <= k < rest.len() implies encodes(#[trigger] rest[k]) by {
            assert(rest[k] == items[k + 1]);
        }
        lemma_step_items(lines, i + 1, rest, st1);
        assert(c.paths.push(x) + rest =~= c.paths + items);
        assert(c.verify.push(x) + rest =~= c.verify + items);
    }
}

/// Each string of the step has a JSON literal that reads back.
pub open spec fn step_encodes(s: StepView) -> bool {
    encodes(s.id) && encodes(kind_name(s.kind)) && encodes(s.instruction) && encodes(
        result_name(s.result),
    ) && all_encode(s.paths) && all_encode(s.verify)
}

/// Each string of the plan has a JSON literal that reads back.
pub open spec fn plan_encodes(p: PlanView) -> bool {
    &&& encodes(p.goal)
    &&& encodes(p.profile)
    &&& encodes(p.style)
    &&& encodes(intent_name(p.intent))
    &&& all_encode(p.required)
    &&& forall|k: int| 0 <= k < p.steps.len() ==> step_encodes(#[trigger] p.steps[k])
}

#[verifier::spinoff_prover]
#[verifier::rlimit(80)]
proof fn lemma_step_block(lines: Seq<Seq<char>>, i: int, s: StepView, st: ParseView)
    requires
        0 <= i,
        i + step_lines(s).len() <= lines.len(),
        forall|k: int| 0 <= k < step_lines(s).len() ==> lines[i + k] == #[trigger] step_lines(s)[k],
        step_encodes(s),
    ensures
        parse_from(lines, i, st) == parse_from(
            lines,
            i + step_lines(s).len(),
            ParseView { steps: flushed(st), current: Some(s), explicit: true, list: Some(ListField::Verify), ..st },
        ),
{
    let sl = step_lines(s);
    let np = s.paths.len() as int;
    let nv = s.verify.len() as int;
    assert(sl.len() == 6 + np + nv);
    assert(lines[i] == sl[0]);
    assert(lines[i + 1] == sl[1]);
    assert(lines[i + 2] == sl[2]);
    assert(lines[i + 3] == sl[3]);
    assert(lines[i + 4] == sl[4]);
    assert(lines[i + 5 + np] == sl[5 + np]);
    let s0 = ParseView { steps: flushed(st), current: Some(new_step(s.id)), explicit: false, list: None, ..st };
    lemma_id_line(lines, i, st, s.id);
    lemma_parse_step(lines, i, st, s0);
    let c1 = StepView { kind: s.kind, ..new_step(s.id) };
    let s1 = ParseView { current: Some(c1), explicit: true, list: None, ..s0 };
    lemma_kind_line(lines, i + 1, s0, s.kind);
    lemma_parse_step(lines, i + 1, s0, s1);
    let c2 = StepView { instruction: s.instruction, ..c1 };
    let s2 = ParseView { current: Some(c2), list: None, ..s1 };
    lemma_instruction_line(lines, i + 2, s1, s.instruction);
    lemma_parse_step(lines, i + 2, s1, s2);
    let c3 = StepView { result: s.result, ..c2 };
    let s3 = ParseView { current: Some(c3), list: None, ..s2 };
    lemma_result_line(lines, i + 3, s2, s.result);
    lemma_parse_step(lines, i + 3, s2, s3);
    let s4 = ParseView { list: Some(ListField::ExpectedPaths), ..s3 };
    lemma_paths_header_line(lines, i + 4, s3);
    lemma_parse_step(lines, i + 4, s3, s4);
    assert forall|k: int| 0 <= k < s.paths.len() implies lines[(i + 5) + k] == "      - "@ + enc(#[trigger] s.paths[k]) by {
        assert(lines[i + (5 + k)] == sl[5 + k]);
    }
    lemma_step_items(lines, i + 5, s.paths, s4);
    let c5 = StepView { paths: c3.paths + s.paths, ..c3 };
    let s5 = ParseView { current: Some(c5), ..s4 };
    let s6 = ParseView { list: Some(ListField::Verify), ..s5 };
    lemma_verify_header_line(lines, i + 5 + np, s5);
    lemma_parse_step(lines, i + 5 + np, s5, s6);
    assert forall|k: int| 0 <= k < s.verify.len() implies lines[(i + 6 + np) + k] == "      - "@ + enc(#[trigger] s.verify[k]) by {
        assert(lines[i + (6 + np + k)] == sl[6 + np + k]);
    }
    lemma_step_items(lines, i + 6 + np, s.verify, s6);
    let c7 = StepView { verify: c5.verify + s.verify, ..c5 };
    assert(c3.paths + s.paths =~= s.paths);
    assert(c5.verify + s.verify =~= s.verify);
    assert(c7 == s);
}

proof fn lemma_steps(lines: Seq<Seq<char>>, i: int, steps: Seq<StepView>, st: ParseView)
    requires
        0 <= i,
        steps.len() > 0,
        i + steps_lines(steps).len() <= lines.len(),
        forall|k: int| 0 <= k < steps_lines(steps).len() ==> lines[i + k] == #[trigger] steps_lines(steps)[k],
        forall|k: int| 0 <= k < steps.len() ==> step_encodes(#[trigger] steps[k]),
        st.current is None,
    ensures
        parse_from(lines, i, st) == parse_from(
            lines,
            i + steps_lines(steps).len(),
            ParseView {
                steps: st.steps + steps.drop_last(),
                current: Some(steps.last()),
                explicit: true,
                list: Some(ListField::Verify),
                ..st
            },
        ),
    decreases steps.len(),
{
    let a = steps.drop_last();
    let last = steps.last();
    let la = steps_lines(a);
    assert(steps_lines(steps) == la + step_lines(last));
    assert(step_encodes(steps[steps.len() - 1]));
    if a.len() == 0 {
        assert(la.len() == 0);
        assert forall|k: int| 0 <= k < step_lines(last).len() implies lines[i + k] == #[trigger] step_lines(last)[k] by {
            assert(steps_lines(steps)[k] == step_lines(last)[k]);
        }
        lemma_step_block(lines, i, last, st);
        assert(st.steps + a =~= st.steps);
    } else {
        assert forall|k: int| 0 <= k < la.len() implies lines[i + k] == #[trigger] la[k] by {
            assert(steps_lines(steps)[k] == la[k]);
        }
        assert forall|k: int| 0 <= k < a.len() implies step_encodes(#[trigger] a[k]) by {
            assert(a[k] == steps[k]);
        }
        lemma_steps(lines, i, a, st);
        let sa = ParseView {
            steps: st.steps + a.drop_last(),
            current: Some(a.last()),
            explicit: true,
            list: Some(ListField::Verify),
            ..st
        };
        assert forall|k: int| 0 <= k < step_lines(last).len() implies lines[(i + la.len()) + k] == #[trigger] step_lines(last)[k] by {
            assert(steps_lines(steps)[la.len() + k] == step_lines(last)[k]);
            assert(lines[i + (la.len() + k)] == steps_lines(steps)[la.len() + k]);
        }
        lemma_step_block(lines, i + la.len(), last, sa);
        assert(flushed(sa) =~= st.steps + a);
        assert(a == steps.drop_last());
    }
}


/// A rendered line: not empty, without line breaks, ending in a character
/// that is not whitespace.
pub open spec fn plain_line(l: Seq<char>) -> bool {
    l.len() > 0 && (forall|i: int| 0 <= i < l.len() ==> l[i] != '\n') && !is_ws(l.last())
}

proof fn lemma_value_line_plain(prefix: Seq<char>, x: Seq<char>)
    requires
        encodes(x),
        forall|i: int| 0 <= i < prefix.len() ==> prefix[i] != '\n',
    ensures
        plain_line(prefix + enc(x)),
{
    let l = prefix + enc(x);
    assert(l.last() == '"');
    assert forall|i: int| 0 <= i < l.len() implies l[i] != '\n' by {
        if i >= prefix.len() {
            assert(l[i] == enc(x)[i - prefix.len()]);
        }
    }
}

proof fn lemma_items_plain(prefix: Seq<char>, items: Seq<Seq<char>>)
    requires
        all_encode(items),
        forall|i: int| 0 <= i < prefix.len() ==> prefix[i] != '\n',
    ensures
        forall|k: int| 0 <= k < items.len() ==> plain_line(#[trigger] item_lines(prefix, items)[k]),
{
    assert forall|k: int| 0 <= k < items.len() implies plain_line(#[trigger] item_lines(prefix, items)[k]) by {
        lemma_value_line_plain(prefix, items[k]);
    }
}

proof fn lemma_step_lines_plain(s: StepView)
    requires
        step_encodes(s),
    ensures
        forall|k: int| 0 <= k < step_lines(s).len() ==> plain_line(#[trigger] step_lines(s)[k]),
{
    reveal_strlit("  - id: ");
    reveal_strlit("    kind: ");
    reveal_strlit("    instruction: ");
    reveal_strlit("    expected_result: ");
    reveal_strlit("    expected_paths:");
    reveal_strlit("    verify:");
    reveal_strlit("      - ");
    lemma_value_line_plain("  - id: "@, s.id);
    lemma_value_line_plain("    kind: "@, kind_name(s.kind));
    lemma_value_line_plain("    instruction: "@, s.instruction);
    lemma_value_line_plain("    expected_result: "@, result_name(s.result));
    lemma_items_plain("      - "@, s.paths);
    lemma_items_plain("      - "@, s.verify);
    let sl = step_lines(s);
    let np = s.paths.len() as int;
    assert forall|k: int| 0 <= k < sl.len() implies plain_line(#[trigger] sl[k]) by {
        if k == 4 {
            assert(sl[k] == "    expected_paths:"@);
            assert(!is_ws(sl[k].last()));
        } else if k == 5 + np {
            assert(sl[k] == "    verify:"@);
            assert(!is_ws(sl[k].last()));
        } else if 5 <= k < 5 + np {
            assert(sl[k] == item_lines("      - "@, s.paths)[k - 5]);
        } else if k > 5 + np {
            assert(sl[k] == item_lines("      - "@, s.verify)[k - 6 - np]);
        }
    }
}

proof fn lemma_steps_lines_plain(steps: Seq<StepView>)
    requires
        forall|k: int| 0 <= k < steps.len() ==> step_encodes(#[trigger] steps[k]),
    ensures
        forall|k: int| 0 <= k < steps_lines(steps).len() ==> plain_line(#[trigger] steps_lines(steps)[k]),
    decreases steps.len(),
{
    if steps.len() > 0 {
        let a = steps.drop_last();
        assert forall|k: int| 0 <= k < a.len() implies step_encodes(#[trigger] a[k]) by {
            assert(a[k] == steps[k]);
        }
        lemma_steps_lines_plain(a);
        assert(step_encodes(steps[steps.len() - 1]));
        lemma_step_lines_plain(steps.last());
        let sl = steps_lines(steps);
        let la = steps_lines(a);
        assert forall|k: int| 0 <= k < sl.len() implies plain_line(#[trigger] sl[k]) by {
            if k < la.len() {
                assert(sl[k] == la[k]);
            } else {
                assert(sl[k] == step_lines(steps.last())[k - la.len()]);
            }
        }
    }
}

proof fn lemma_render_lines_plain(p: PlanView)
    requires
        plan_encodes(p),
    ensures
        forall|k: int| 0 <= k < render_lines(p).len() ==> plain_line(#[trigger] render_lines(p)[k]),
        render_lines(p)[0][0] == 'g',
{
    reveal_strlit("goal: ");
    reveal_strlit("profile: ");
    reveal_strlit("style: ");
    reveal_strlit("intent: ");
    reveal_strlit("required_artifacts:");
    reveal_strlit("steps:");
    reveal_strlit("  - ");
    lemma_value_line_plain("goal: "@, p.goal);
    lemma_value_line_plain("profile: "@, p.profile);
    lemma_value_line_plain("style: "@, p.style);
    lemma_value_line_plain("intent: "@, intent_name(p.intent));
    lemma_items_plain("  - "@, p.required);
    lemma_steps_lines_plain(p.steps);
    let l = render_lines(p);
    let h = header_lines(p);
    let r = item_lines("  - "@, p.required);
    let nr = p.required.len() as int;
    assert forall|k: int| 0 <= k < l.len() implies plain_line(#[trigger] l[k]) by {
        if k < 5 {
            assert(l[k] == h[k]);
            if k == 4 {
                assert(!is_ws(h[4].last()));
            }
        } else if k < 5 + nr {
            assert(l[k] == r[k - 5]);
        } else if k == 5 + nr {
            assert(l[k] == "steps:"@);
            assert(!is_ws(l[k].last()));
        } else {
            assert(l[k] == steps_lines(p.steps)[k - 6 - nr]);
        }
    }
    assert(l[0] == "goal: "@ + enc(p.goal));
}

proof fn lemma_lines_state_append(x: Seq<char>, c: Seq<char>)
    requires
        forall|i: int| 0 <= i < c.len() ==> c[i] != '\n',
    ensures
        lines_state(x + c) == (lines_state(x).0, lines_state(x).1 + c),
    decreases c.len(),
{
    if c.len() == 0 {
        assert(x + c =~= x);
        assert(lines_state(x).1 + c =~= lines_state(x).1);
    } else {
        lemma_lines_state_append(x, c.drop_last());
        assert((x + c).drop_last() =~= x + c.drop_last());
        assert((x + c).last() == c.last());
        assert(c.last() != '\n');
        assert((lines_state(x).1 + c.drop_last()).push(c.last()) =~= lines_state(x).1 + c);
    }
}

proof fn lemma_lines_state_terminated(lines: Seq<Seq<char>>)
    requires
        forall|k: int| 0 <= k < lines.len() ==> plain_line(#[trigger] lines[k]),
    ensures
        lines_state(terminated(lines)) == (lines, Seq::<char>::empty()),
    decreases lines.len(),
{
    reveal_strlit("\n");
    if lines.len() > 0 {
        let a = lines.drop_last();
        let l = lines.last();
        assert forall|k: int| 0 <= k < a.len() implies plain_line(#[trigger] a[k]) by {
            assert(a[k] == lines[k]);
        }
        lemma_lines_state_terminated(a);
        assert(plain_line(lines[lines.len() - 1]));
        lemma_lines_state_append(terminated(a), l);
        let t = terminated(lines);
        assert(t == terminated(a) + l + "\n"@);
        assert(t.drop_last() =~= terminated(a) + l);
        assert(t.last() == '\n');
        assert(Seq::<char>::empty() + l =~= l);
        assert(l.last() != '\r');
        assert(strip_cr(l) == l);
        assert(a.push(l) =~= lines);
    }
}

/// The rendered text reads back as its lines.
proof fn lemma_render_text_lines(p: PlanView)
    requires
        plan_encodes(p),
    ensures
        lines_of(strip_fence(render_spec(p))) == render_lines(p),
{
    let l = render_lines(p);
    lemma_render_lines_plain(p);
    reveal_strlit("\n");
    let t = terminated(l);
    let a = l.drop_last();
    let last = l.last();
    assert(plain_line(l[l.len() - 1]));
    assert forall|k: int| 0 <= k < a.len() implies plain_line(#[trigger] a[k]) by {
        assert(a[k] == l[k]);
    }
    lemma_lines_state_terminated(a);
    lemma_lines_state_append(terminated(a), last);
    assert(t == terminated(a) + last + "\n"@);
    let body = terminated(a) + last;
    assert(t.drop_last() =~= body);
    // trimming drops the final line break only
    assert(t[0] == 'g') by {
        assert(plain_line(l[0]));
        if a.len() > 0 {
            lemma_terminated_first(a);
            assert(terminated(a)[0] == a[0][0]);
            assert(t[0] == terminated(a)[0]);
        } else {
            assert(terminated(a).len() == 0);
            assert(t[0] == last[0]);
        }
    }
    assert(!is_ws(t[0]));
    assert(trim_start(t) == t);
    assert(is_ws(t.last()));
    assert(body.last() == last.last());
    assert(!is_ws(body.last()));
    assert(trim_end(body) == body);
    assert(trim_end(t) == trim_end(body));
    assert(trim(t) == body);
    reveal_strlit("```yaml");
    reveal_strlit("```");
    assert(body[0] == 'g');
    lemma_prefix_char(body, 0);
    assert(strip_fence(t) == body);
    assert(Seq::<char>::empty() + last =~= last);
    assert(a.push(last) =~= l);
}

proof fn lemma_terminated_first(lines: Seq<Seq<char>>)
    requires
        lines.len() > 0,
        lines[0].len() > 0,
    ensures
        terminated(lines).len() > 0,
        terminated(lines)[0] == lines[0][0],
    decreases lines.len(),
{
    if lines.len() == 1 {
        assert(terminated(lines.drop_last()).len() == 0);
    } else {
        lemma_terminated_first(lines.drop_last());
        assert(lines.drop_last()[0] == lines[0]);
    }
}

/// No item occurs twice.
pub open spec fn distinct(s: Seq<Seq<char>>) -> bool {
    forall|i: int, j: int| 0 <= i < j < s.len() ==> s[i] != s[j]
}

proof fn lemma_dedupe_distinct(s: Seq<Seq<char>>)
    requires
        distinct(s),
    ensures
        dedupe(s) == s,
    decreases s.len(),
{
    if s.len() > 0 {
        let a = s.drop_last();
        assert(distinct(a));
        lemma_dedupe_distinct(a);
        assert(!a.contains(s.last())) by {
            if a.contains(s.last()) {
                let i = choose|i: int| 0 <= i < a.len() && a[i] == s.last();
                assert(s[i] == s[s.len() - 1]);
            }
        }
        assert(a.push(s.last()) =~= s);
    }
}

/// The parser's state after reading a rendered plan.
pub open spec fn rendered_state(p: PlanView) -> ParseView {
    ParseView {
        goal: Some(p.goal),
        profile: Some(p.profile),
        style: Some(p.style),
        intent: Some(p.intent),
        required: p.required,
        steps: p.steps.drop_last(),
        current: Some(p.steps.last()),
        explicit: true,
        list: Some(ListField::Verify),
    }
}

#[verifier::rlimit(60)]
proof fn lemma_parse_rendered_lines(p: PlanView)
    requires
        plan_encodes(p),
        p.steps.len() > 0,
    ensures
        parse_from(render_lines(p), 0, initial_view()) == Ok::<ParseView, PlanErrorView>(rendered_state(p)),
{
    let l = render_lines(p);
    let h = header_lines(p);
    let nr = p.required.len() as int;
    let sl = steps_lines(p.steps);
    assert(l.len() == 6 + nr + sl.len());
    let s0 = initial_view();
    assert(l[0] == h[0]);
    assert(l[1] == h[1]);
    assert(l[2] == h[2]);
    assert(l[3] == h[3]);
    assert(l[4] == h[4]);
    let s1 = ParseView { goal: Some(p.goal), list: None, ..s0 };
    lemma_goal_line(l, 0, s0, p.goal);
    lemma_parse_step(l, 0, s0, s1);
    let s2 = ParseView { profile: Some(p.profile), list: None, ..s1 };
    lemma_profile_line(l, 1, s1, p.profile);
    lemma_parse_step(l, 1, s1, s2);
    let s3 = ParseView { style: Some(p.style), list: None, ..s2 };
    lemma_style_line(l, 2, s2, p.style);
    lemma_parse_step(l, 2, s2, s3);
    let s4 = ParseView { intent: Some(p.intent), list: None, ..s3 };
    lemma_intent_line(l, 3, s3, p.intent);
    lemma_parse_step(l, 3, s3, s4);
    let s5 = ParseView { list: Some(ListField::RequiredArtifacts), ..s4 };
    lemma_required_header_line(l, 4, s4);
    lemma_parse_step(l, 4, s4, s5);
    assert forall|k: int| 0 <= k < p.required.len() implies l[5 + k] == "  - "@ + enc(#[trigger] p.required[k]) by {
        assert(l[5 + k] == item_lines("  - "@, p.required)[k]);
    }
    lemma_required_items(l, 5, p.required, s5);
    let s6 = ParseView { required: s5.required + p.required, ..s5 };
    assert(s5.required + p.required =~= p.required);
    assert(l[5 + nr] == "steps:"@);
    let s7 = ParseView { list: None, ..s6 };
    lemma_steps_header_line(l, 5 + nr, s6);
    lemma_parse_step(l, 5 + nr, s6, s7);
    assert forall|k: int| 0 <= k < sl.len() implies l[(6 + nr) + k] == #[trigger] sl[k] by {}
    lemma_steps(l, 6 + nr, p.steps, s7);
    assert(s7.steps + p.steps.drop_last() =~= p.steps.drop_last());
}

/// A rendered plan reads back as itself when it is valid, its required
/// artifacts are distinct, and each of its strings has a JSON literal that
/// reads back.
pub proof fn lemma_render_round_trip(p: PlanView)
    requires
        plan_encodes(p),
        validate_fault(p) is None,
        distinct(p.required),
    ensures
        parse_spec(render_spec(p)) == Ok::<PlanView, PlanErrorView>(p),
{
    lemma_render_text_lines(p);
    assert(p.steps.len() > 0);
    lemma_parse_rendered_lines(p);
    lemma_dedupe_distinct(p.required);
    let st = rendered_state(p);
    assert(flushed(st) =~= p.steps);
}

} // verus!
