//! Reading a step plan from model output that is either YAML or JSON: a
//! JSON plan object, or a bare JSON array of steps completed from defaults.
//!
//! JSON text is read with `serde_json` into a [`JsonValue`]; what the plan
//! reader does with the value — field aliases, list fields, step-kind
//! inference, defaults and validation — is stated over its view.
use crate::json_value::{
    array_view, json_document, json_error_text, json_view, lemma_array_view, lemma_object_view, member,
    member_of, object_view, parse_json, scalar_text, scalar_text_of, JsonValue, JsonView,
};
use crate::plan::{ExpectedResult, StepKind, StepPlan, StepPlanStep, WorkIntent};
use crate::plan_error::{prefixed, PlanError};
use crate::plan_yaml::{
    error_view, fence_body, kind_parse, intent_parse, parse_spec, parse_step_plan_yaml, plan_view,
    result_parse, step_view, validate_fault, validate_step_plan, PlanErrorView, PlanView, StepView,
};
use crate::text::{
    contains, contains_any, copy_string, decimal, is_blank_str, lower, lower_str, owned, push_str,
    starts_with, str_contains_any, str_starts_with, str_views, strip_prefix_str, trim, trim_start,
    trim_str, usize_to_string, views,
};
use vstd::prelude::*;

verus! {

/// What a bare array of steps is completed from.
#[derive(Debug, Clone, Copy)]
pub struct StepPlanInputDefaults<'a> {
    pub goal: &'a str,
    pub profile: &'a str,
    pub style: &'a str,
    pub intent: WorkIntent,
    pub required_artifacts: &'a [String],
}

// ---------------------------------------------------------------------------
// Fields of JSON objects
// ---------------------------------------------------------------------------

/// The text of a member that stands for a string.
pub open spec fn field_text(fields: Seq<(Seq<char>, JsonView)>, key: Seq<char>) -> Option<Seq<char>> {
    match member(fields, key) {
        Some(v) => scalar_text(v),
        None => None,
    }
}

fn field_text_of(fields: &Vec<(String, JsonValue)>, key: &str) -> (r: Option<String>)
    ensures
        opt_seq(r) == field_text(object_view(*fields), key@),
{
    match member_of(fields, key) {
        Some(v) => scalar_text_of(v),
        None => None,
    }
}

/// The view of an optional string.
pub open spec fn opt_seq(o: Option<String>) -> Option<Seq<char>> {
    match o {
        Some(s) => Some(s@),
        None => None,
    }
}

/// The first present of two options.
pub open spec fn either(a: Option<Seq<char>>, b: Option<Seq<char>>) -> Option<Seq<char>> {
    if a is Some { a } else { b }
}

/// The items of a list field, each standing for a string.
pub open spec fn list_items(key: Seq<char>, vs: Seq<JsonView>) -> Result<Seq<Seq<char>>, PlanErrorView>
    decreases vs.len(),
{
    if vs.len() == 0 {
        Ok(Seq::empty())
    } else {
        match list_items(key, vs.drop_last()) {
            Err(e) => Err(e),
            Ok(xs) => match scalar_text(vs.last()) {
                Some(t) => Ok(xs.push(t)),
                None => Err(PlanErrorView::InvalidPlanInput(key + " entries must be strings"@)),
            },
        }
    }
}

/// A list field: absent is empty; an array of strings; a blank string is
/// empty and any other string is a list of one; anything else is an error.
pub open spec fn field_list(fields: Seq<(Seq<char>, JsonView)>, key: Seq<char>) -> Result<Seq<Seq<char>>, PlanErrorView> {
    match member(fields, key) {
        None => Ok(Seq::empty()),
        Some(v) => match v {
            JsonView::Array(vs) => list_items(key, vs),
            JsonView::Str(s) => if trim(s).len() == 0 {
                Ok(Seq::empty())
            } else {
                Ok(seq![s])
            },
            _ => Err(PlanErrorView::InvalidPlanInput(key + " must be a string or array"@)),
        },
    }
}

/// The first list that reads without error, else the last error.
pub open spec fn first_ok(
    a: Result<Seq<Seq<char>>, PlanErrorView>,
    b: Result<Seq<Seq<char>>, PlanErrorView>,
) -> Result<Seq<Seq<char>>, PlanErrorView> {
    if a is Ok { a } else { b }
}

/// The result of a list read as plain values.
pub open spec fn list_result(r: Result<Vec<String>, PlanError>) -> Result<Seq<Seq<char>>, PlanErrorView> {
    match r {
        Ok(v) => Ok(views(v@)),
        Err(e) => Err(error_view(e)),
    }
}

/// An error in a prefix of the items is the error of all of them.
proof fn lemma_list_items_err(key: Seq<char>, vs: Seq<JsonView>, n: int)
    requires
        0 <= n <= vs.len(),
        list_items(key, vs.take(n)) is Err,
    ensures
        list_items(key, vs) == list_items(key, vs.take(n)),
    decreases vs.len() - n,
{
    if n < vs.len() {
        assert(vs.take(n + 1).drop_last() == vs.take(n));
        lemma_list_items_err(key, vs, n + 1);
    } else {
        assert(vs.take(n) == vs);
    }
}

fn field_list_of(fields: &Vec<(String, JsonValue)>, key: &str) -> (r: Result<Vec<String>, PlanError>)
    ensures
        list_result(r) == field_list(object_view(*fields), key@),
{
    match member_of(fields, key) {
        None => {
            let v: Vec<String> = Vec::new();
            assert(views(v@) =~= Seq::<Seq<char>>::empty());
            Ok(v)
        },
        Some(value) => match value {
            JsonValue::Array(vs) => {
                let ghost av = array_view(*vs);
                proof {
                    lemma_array_view(*vs);
                }
                let mut out: Vec<String> = Vec::new();
                let mut i: usize = 0;
                assert(av.take(0) =~= Seq::<JsonView>::empty());
                assert(views(out@) =~= Seq::<Seq<char>>::empty());
                while i < vs.len()
                    invariant
                        i <= vs@.len(),
                        av.len() == vs@.len(),
                        forall|k: int| 0 <= k < vs@.len() ==> #[trigger] av[k] == json_view(vs@[k]),
                        field_list(object_view(*fields), key@) == list_items(key@, av),
                        list_items(key@, av.take(i as int)) == Ok::<Seq<Seq<char>>, PlanErrorView>(
                            views(out@),
                        ),
                    decreases vs.len() - i,
                {
                    proof {
                        assert(av.take(i + 1).drop_last() == av.take(i as int));
                        assert(av.take(i + 1).last() == av[i as int]);
                    }
                    match scalar_text_of(&vs[i]) {
                        Some(t) => {
                            let ghost before = out@;
                            let ghost tv = t@;
                            out.push(t);
                            assert(views(out@) =~= views(before).push(tv));
                        },
                        None => {
                            proof {
                                assert(scalar_text(av[i as int]) is None);
                                assert(list_items(key@, av.take(i + 1)) == Err::<Seq<Seq<char>>, PlanErrorView>(
                                    PlanErrorView::InvalidPlanInput(key@ + " entries must be strings"@),
                                ));
                                lemma_list_items_err(key@, av, i + 1);
                            }
                            return Err(PlanError::InvalidPlanInput(prefixed(key, " entries must be strings")));
                        },
                    }
                    i = i + 1;
                }
                assert(av.take(av.len() as int) == av);
                Ok(out)
            },
            JsonValue::Str(s) => {
                if is_blank_str(s.as_str()) {
                    let v: Vec<String> = Vec::new();
                    assert(views(v@) =~= Seq::<Seq<char>>::empty());
                    Ok(v)
                } else {
                    let v = vec![copy_string(s)];
                    assert(views(v@) =~= seq![s@]);
                    Ok(v)
                }
            },
            _ => Err(PlanError::InvalidPlanInput(prefixed(key, " must be a string or array"))),
        },
    }
}


// ---------------------------------------------------------------------------
// Steps
// ---------------------------------------------------------------------------

pub open spec fn verify_words() -> Seq<Seq<char>> {
    seq!["verify"@, "validate"@, "test"@, "build"@]
}

pub open spec fn setup_words() -> Seq<Seq<char>> {
    seq!["install"@, "setup"@, "configure"@]
}

pub open spec fn repair_words() -> Seq<Seq<char>> {
    seq!["fix"@, "repair"@]
}

pub open spec fn report_words() -> Seq<Seq<char>> {
    seq!["report"@, "summarize"@, "summarise"@]
}

pub open spec fn edit_words() -> Seq<Seq<char>> {
    seq!["edit"@, "update"@, "modify"@]
}

pub open spec fn create_words() -> Seq<Seq<char>> {
    seq!["create"@, "write"@, "add"@, "implement"@]
}

/// The kind of a step that names none: verification when it has commands
/// or its instruction says so, then setup, repair, report and edit by the
/// instruction's words, creation when it names paths or says so, else
/// inspection.
pub open spec fn inferred_kind(instruction: Seq<char>, paths: Seq<Seq<char>>, verify: Seq<Seq<char>>) -> StepKind {
    let l = lower(instruction);
    if verify.len() > 0 || contains_any(l, verify_words()) {
        StepKind::Verify
    } else if contains_any(l, setup_words()) {
        StepKind::Setup
    } else if contains_any(l, repair_words()) {
        StepKind::Repair
    } else if contains_any(l, report_words()) {
        StepKind::Report
    } else if contains_any(l, edit_words()) {
        StepKind::Edit
    } else if paths.len() > 0 || contains_any(l, create_words()) {
        StepKind::Create
    } else {
        StepKind::Inspect
    }
}

fn infer_json_step_kind(instruction: &str, expected_paths: &Vec<String>, verify: &Vec<String>) -> (r: StepKind)
    ensures
        r == inferred_kind(instruction@, views(expected_paths@), views(verify@)),
{
    let lowered = lower_str(instruction);
    let l = lowered.as_str();
    let w1 = ["verify", "validate", "test", "build"];
    assert(str_views(w1@) =~= verify_words());
    let w2 = ["install", "setup", "configure"];
    assert(str_views(w2@) =~= setup_words());
    let w3 = ["fix", "repair"];
    assert(str_views(w3@) =~= repair_words());
    let w4 = ["report", "summarize", "summarise"];
    assert(str_views(w4@) =~= report_words());
    let w5 = ["edit", "update", "modify"];
    assert(str_views(w5@) =~= edit_words());
    let w6 = ["create", "write", "add", "implement"];
    assert(str_views(w6@) =~= create_words());
    if verify.len() > 0 || str_contains_any(l, &w1) {
        StepKind::Verify
    } else if str_contains_any(l, &w2) {
        StepKind::Setup
    } else if str_contains_any(l, &w3) {
        StepKind::Repair
    } else if str_contains_any(l, &w4) {
        StepKind::Report
    } else if str_contains_any(l, &w5) {
        StepKind::Edit
    } else if expected_paths.len() > 0 || str_contains_any(l, &w6) {
        StepKind::Create
    } else {
        StepKind::Inspect
    }
}

/// The expected paths of a step: `expected_paths`, else `output_paths`,
/// else `artifacts`, each alias read only when the one before is malformed.
pub open spec fn step_paths(fs: Seq<(Seq<char>, JsonView)>) -> Result<Seq<Seq<char>>, PlanErrorView> {
    first_ok(
        field_list(fs, "expected_paths"@),
        first_ok(field_list(fs, "output_paths"@), field_list(fs, "artifacts"@)),
    )
}

/// The verification commands of a step: `verify`, else `verification`,
/// `checks` or `commands`, each read only when the one before is malformed.
pub open spec fn step_verify(fs: Seq<(Seq<char>, JsonView)>) -> Result<Seq<Seq<char>>, PlanErrorView> {
    first_ok(
        field_list(fs, "verify"@),
        first_ok(
            field_list(fs, "verification"@),
            first_ok(field_list(fs, "checks"@), field_list(fs, "commands"@)),
        ),
    )
}

/// The id of the step at an index: its own, else `step-<n>` counting from 1.
pub open spec fn step_id(fs: Seq<(Seq<char>, JsonView)>, index: int) -> Seq<char> {
    match field_text(fs, "id"@) {
        Some(t) => t,
        None => "step-"@ + decimal((index + 1) as nat),
    }
}

/// The instruction of a step: `instruction`, else `step`, else `task`.
pub open spec fn step_instruction(fs: Seq<(Seq<char>, JsonView)>) -> Option<Seq<char>> {
    either(field_text(fs, "instruction"@), either(field_text(fs, "step"@), field_text(fs, "task"@)))
}

/// The step a JSON object describes, or the first fault in the order the
/// fields are read: kind, instruction, expected result, paths, commands.
pub open spec fn json_step(index: int, v: JsonView) -> Result<StepView, PlanErrorView> {
    match v {
        JsonView::Object(fs) => {
            let id = step_id(fs, index);
            let kind_text = either(field_text(fs, "kind"@), field_text(fs, "type"@));
            let instr = step_instruction(fs);
            let result = match field_text(fs, "expected_result"@) {
                Some(t) => result_parse(t),
                None => Ok(ExpectedResult::Pass),
            };
            let paths = step_paths(fs);
            let verify = step_verify(fs);
            if kind_text is Some && kind_parse(kind_text->0) is Err {
                Err(kind_parse(kind_text->0)->Err_0)
            } else if instr is None {
                Err(PlanErrorView::MissingField("step."@ + id + ".instruction"@))
            } else if result is Err {
                Err(result->Err_0)
            } else if paths is Err {
                Err(paths->Err_0)
            } else if verify is Err {
                Err(verify->Err_0)
            } else {
                Ok(
                    StepView {
                        id: id,
                        kind: if kind_text is Some {
                            kind_parse(kind_text->0)->Ok_0
                        } else {
                            inferred_kind(instr->0, paths->Ok_0, verify->Ok_0)
                        },
                        instruction: instr->0,
                        result: result->Ok_0,
                        paths: paths->Ok_0,
                        verify: verify->Ok_0,
                    },
                )
            }
        },
        _ => Err(PlanErrorView::InvalidPlanInput("each step must be an object"@)),
    }
}

/// The steps of a JSON array, or the first step's fault.
pub open spec fn json_steps(vs: Seq<JsonView>) -> Result<Seq<StepView>, PlanErrorView>
    decreases vs.len(),
{
    if vs.len() == 0 {
        Ok(Seq::empty())
    } else {
        match json_steps(vs.drop_last()) {
            Err(e) => Err(e),
            Ok(steps) => match json_step(vs.len() - 1, vs.last()) {
                Err(e) => Err(e),
                Ok(s) => Ok(steps.push(s)),
            },
        }
    }
}

fn or_else_list(
    a: Result<Vec<String>, PlanError>,
    fields: &Vec<(String, JsonValue)>,
    key: &str,
) -> (r: Result<Vec<String>, PlanError>)
    ensures
        list_result(r) == first_ok(list_result(a), field_list(object_view(*fields), key@)),
{
    match a {
        Ok(v) => Ok(v),
        Err(_) => field_list_of(fields, key),
    }
}

fn first_text(a: Option<String>, b: Option<String>) -> (r: Option<String>)
    ensures
        opt_seq(r) == either(opt_seq(a), opt_seq(b)),
{
    match a {
        Some(x) => Some(x),
        None => b,
    }
}

fn parse_json_step(index: usize, value: &JsonValue) -> (r: Result<StepPlanStep, PlanError>)
    requires
        index < usize::MAX,
    ensures
        match json_step(index as int, json_view(*value)) {
            Ok(s) => r matches Ok(x) && step_view(x) == s,
            Err(e) => r matches Err(x) && error_view(x) == e,
        },
{
    let fields = match value {
        JsonValue::Object(fields) => fields,
        _ => {
            return Err(PlanError::InvalidPlanInput(owned("each step must be an object")));
        },
    };
    let id = match field_text_of(fields, "id") {
        Some(t) => t,
        None => {
            let n = usize_to_string(index + 1);
            prefixed("step-", n.as_str())
        },
    };
    let kind_text = first_text(field_text_of(fields, "kind"), field_text_of(fields, "type"));
    let kind = match &kind_text {
        Some(t) => match StepKind::parse(t.as_str()) {
            Ok(k) => Some(k),
            Err(e) => {
                return Err(e);
            },
        },
        None => None,
    };
    let instruction = match first_text(
        field_text_of(fields, "instruction"),
        first_text(field_text_of(fields, "step"), field_text_of(fields, "task")),
    ) {
        Some(t) => t,
        None => {
            let mut m = prefixed("step.", id.as_str());
            push_str(&mut m, ".instruction");
            return Err(PlanError::MissingField(m));
        },
    };
    let expected_result = match field_text_of(fields, "expected_result") {
        Some(t) => match ExpectedResult::parse(t.as_str()) {
            Ok(x) => x,
            Err(e) => {
                return Err(e);
            },
        },
        None => ExpectedResult::Pass,
    };
    let paths = or_else_list(
        or_else_list(field_list_of(fields, "expected_paths"), fields, "output_paths"),
        fields,
        "artifacts",
    );
    proof {
        let fs = object_view(*fields);
        assert(first_ok(first_ok(field_list(fs, "expected_paths"@), field_list(fs, "output_paths"@)), field_list(fs, "artifacts"@))
            == step_paths(fs));
    }
    let expected_paths = match paths {
        Ok(p) => p,
        Err(e) => {
            return Err(e);
        },
    };
    let verify_r = or_else_list(
        or_else_list(
            or_else_list(field_list_of(fields, "verify"), fields, "verification"),
            fields,
            "checks",
        ),
        fields,
        "commands",
    );
    let verify = match verify_r {
        Ok(v) => v,
        Err(e) => {
            return Err(e);
        },
    };
    let kind = match kind {
        Some(k) => k,
        None => infer_json_step_kind(instruction.as_str(), &expected_paths, &verify),
    };
    Ok(StepPlanStep { id, kind, instruction, expected_result, expected_paths, verify })
}


fn parse_json_steps(value: &JsonValue) -> (r: Result<Vec<StepPlanStep>, PlanError>)
    ensures
        match json_steps_of(json_view(*value)) {
            Ok(steps) => r matches Ok(x) && x@.map_values(|s: StepPlanStep| step_view(s)) == steps,
            Err(e) => r matches Err(x) && error_view(x) == e,
        },
{
    let vs = match value {
        JsonValue::Array(vs) => vs,
        _ => {
            return Err(PlanError::InvalidPlanInput(owned("steps must be an array")));
        },
    };
    let ghost av = array_view(*vs);
    proof {
        lemma_array_view(*vs);
    }
    let mut steps: Vec<StepPlanStep> = Vec::new();
    let mut i: usize = 0;
    assert(av.take(0) =~= Seq::<JsonView>::empty());
    assert(steps@.map_values(|s: StepPlanStep| step_view(s)) =~= Seq::<StepView>::empty());
    while i < vs.len()
        invariant
            i <= vs@.len(),
            av.len() == vs@.len(),
            forall|k: int| 0 <= k < vs@.len() ==> #[trigger] av[k] == json_view(vs@[k]),
            json_steps_of(json_view(*value)) == json_steps(av),
            json_steps(av.take(i as int)) == Ok::<Seq<StepView>, PlanErrorView>(
                steps@.map_values(|s: StepPlanStep| step_view(s)),
            ),
        decreases vs.len() - i,
    {
        proof {
            assert(av.take(i + 1).drop_last() == av.take(i as int));
            assert(av.take(i + 1).last() == av[i as int]);
        }
        match parse_json_step(i, &vs[i]) {
            Ok(step) => {
                let ghost before = steps@;
                let ghost sv = step_view(step);
                steps.push(step);
                assert(steps@.map_values(|s: StepPlanStep| step_view(s)) =~= before.map_values(
                    |s: StepPlanStep| step_view(s),
                ).push(sv));
            },
            Err(e) => {
                proof {
                    lemma_json_steps_err(av, i + 1);
                }
                return Err(e);
            },
        }
        i = i + 1;
    }
    assert(av.take(av.len() as int) == av);
    Ok(steps)
}

/// A fault in a prefix of the steps is the fault of all of them.
proof fn lemma_json_steps_err(vs: Seq<JsonView>, n: int)
    requires
        0 <= n <= vs.len(),
        json_steps(vs.take(n)) is Err,
    ensures
        json_steps(vs) == json_steps(vs.take(n)),
    decreases vs.len() - n,
{
    if n < vs.len() {
        assert(vs.take(n + 1).drop_last() == vs.take(n));
        lemma_json_steps_err(vs, n + 1);
    } else {
        assert(vs.take(n) == vs);
    }
}

/// The steps of a `steps` value: an array of steps, or a fault.
pub open spec fn json_steps_of(v: JsonView) -> Result<Seq<StepView>, PlanErrorView> {
    match v {
        JsonView::Array(vs) => json_steps(vs),
        _ => Err(PlanErrorView::InvalidPlanInput("steps must be an array"@)),
    }
}

// ---------------------------------------------------------------------------
// Plans
// ---------------------------------------------------------------------------

/// The plan if it validates, else its fault.
pub open spec fn validated(p: PlanView) -> Result<PlanView, PlanErrorView> {
    match validate_fault(p) {
        Some(e) => Err(e),
        None => Ok(p),
    }
}

pub open spec fn default_text(d: Option<StepPlanInputDefaults>, which: int) -> Option<Seq<char>> {
    match d {
        Some(x) => Some(if which == 0 { x.goal@ } else if which == 1 { x.profile@ } else { x.style@ }),
        None => None,
    }
}

/// The plan a JSON value describes: an object with a goal and profile (or
/// their defaults), an optional style (else the default, else `default`),
/// intent and required artifacts (empty ones taken from the defaults), and
/// `steps` (or `plan`); or, with defaults, a bare array of steps. Either
/// way the plan must validate.
pub open spec fn json_plan(v: JsonView, d: Option<StepPlanInputDefaults>) -> Result<PlanView, PlanErrorView> {
    match v {
        JsonView::Object(fs) => {
            let goal = either(field_text(fs, "goal"@), default_text(d, 0));
            let profile = either(field_text(fs, "profile"@), default_text(d, 1));
            let style = match either(field_text(fs, "style"@), default_text(d, 2)) {
                Some(t) => t,
                None => "default"@,
            };
            let intent_text = field_text(fs, "intent"@);
            let req = field_list(fs, "required_artifacts"@);
            let steps_value = match member(fs, "steps"@) {
                Some(x) => Some(x),
                None => member(fs, "plan"@),
            };
            if goal is None {
                Err(PlanErrorView::MissingField("goal"@))
            } else if profile is None {
                Err(PlanErrorView::MissingField("profile"@))
            } else if intent_text is Some && intent_parse(intent_text->0) is Err {
                Err(intent_parse(intent_text->0)->Err_0)
            } else if req is Err {
                Err(req->Err_0)
            } else if steps_value is None {
                Err(PlanErrorView::MissingField("steps"@))
            } else {
                match json_steps_of(steps_value->0) {
                    Err(e) => Err(e),
                    Ok(steps) => validated(
                        PlanView {
                            goal: goal->0,
                            profile: profile->0,
                            style: style,
                            intent: if intent_text is Some {
                                intent_parse(intent_text->0)->Ok_0
                            } else if d is Some {
                                d->0.intent
                            } else {
                                WorkIntent::Unknown
                            },
                            required: if req->Ok_0.len() == 0 && d is Some {
                                views(d->0.required_artifacts@)
                            } else {
                                req->Ok_0
                            },
                            steps: steps,
                        },
                    ),
                }
            }
        },
        JsonView::Array(vs) => match d {
            None => Err(PlanErrorView::MissingField("goal"@)),
            Some(x) => match json_steps(vs) {
                Err(e) => Err(e),
                Ok(steps) => validated(
                    PlanView {
                        goal: x.goal@,
                        profile: x.profile@,
                        style: x.style@,
                        intent: x.intent,
                        required: views(x.required_artifacts@),
                        steps: steps,
                    },
                ),
            },
        },
        _ => Err(PlanErrorView::InvalidPlanInput("top-level JSON plan must be an object or steps array"@)),
    }
}

/// A plan result as plain values.
pub open spec fn plan_result(r: Result<StepPlan, PlanError>) -> Result<PlanView, PlanErrorView> {
    match r {
        Ok(p) => Ok(plan_view(p)),
        Err(e) => Err(error_view(e)),
    }
}

fn copy_all(v: &[String]) -> (r: Vec<String>)
    ensures
        views(r@) == views(v@),
{
    let mut out: Vec<String> = Vec::new();
    let mut i: usize = 0;
    while i < v.len()
        invariant
            i <= v@.len(),
            views(out@) == views(v@).take(i as int),
        decreases v.len() - i,
    {
        let ghost before = out@;
        out.push(copy_string(&v[i]));
        proof {
            assert(views(v@).take(i + 1) == views(v@).take(i as int).push(v@[i as int]@));
            assert(views(out@) =~= views(before).push(v@[i as int]@));
        }
        i = i + 1;
    }
    assert(views(v@).take(v@.len() as int) == views(v@));
    out
}

fn checked(plan: StepPlan) -> (r: Result<StepPlan, PlanError>)
    ensures
        plan_result(r) == validated(plan_view(plan)),
{
    match validate_step_plan(&plan) {
        Ok(()) => Ok(plan),
        Err(e) => Err(e),
    }
}

fn default_str(d: Option<StepPlanInputDefaults>, which: u8) -> (r: Option<String>)
    ensures
        opt_seq(r) == default_text(d, which as int),
{
    match d {
        Some(x) => Some(owned(if which == 0 { x.goal } else if which == 1 { x.profile } else { x.style })),
        None => None,
    }
}

/// Reads a step plan from a JSON value, completing a bare array of steps
/// from the defaults.
pub fn parse_json_plan_value(value: &JsonValue, defaults: Option<StepPlanInputDefaults>) -> (r: Result<StepPlan, PlanError>)
    ensures
        plan_result(r) == json_plan(json_view(*value), defaults),
{
    match value {
        JsonValue::Object(fields) => {
            let goal = match first_text(field_text_of(fields, "goal"), default_str(defaults, 0)) {
                Some(g) => g,
                None => {
                    return Err(PlanError::MissingField(owned("goal")));
                },
            };
            let profile = match first_text(field_text_of(fields, "profile"), default_str(defaults, 1)) {
                Some(p) => p,
                None => {
                    return Err(PlanError::MissingField(owned("profile")));
                },
            };
            let style = match first_text(field_text_of(fields, "style"), default_str(defaults, 2)) {
                Some(s) => s,
                None => owned("default"),
            };
            let intent = match field_text_of(fields, "intent") {
                Some(t) => match WorkIntent::parse(t.as_str()) {
                    Ok(i) => i,
                    Err(e) => {
                        return Err(e);
                    },
                },
                None => match defaults {
                    Some(d) => d.intent,
                    None => WorkIntent::Unknown,
                },
            };
            let mut required = match field_list_of(fields, "required_artifacts") {
                Ok(v) => v,
                Err(e) => {
                    return Err(e);
                },
            };
            if required.len() == 0 {
                match defaults {
                    Some(d) => {
                        required = copy_all(d.required_artifacts);
                    },
                    None => {},
                }
            }
            let steps_value = match member_of(fields, "steps") {
                Some(x) => x,
                None => match member_of(fields, "plan") {
                    Some(x) => x,
                    None => {
                        return Err(PlanError::MissingField(owned("steps")));
                    },
                },
            };
            let steps = match parse_json_steps(steps_value) {
                Ok(s) => s,
                Err(e) => {
                    return Err(e);
                },
            };
            let plan = StepPlan { goal, profile, style, intent, required_artifacts: required, steps };
            checked(plan)
        },
        JsonValue::Array(_) => match defaults {
            None => Err(PlanError::MissingField(owned("goal"))),
            Some(d) => {
                let steps = match parse_json_steps(value) {
                    Ok(s) => s,
                    Err(e) => {
                        return Err(e);
                    },
                };
                let plan = StepPlan {
                    goal: owned(d.goal),
                    profile: owned(d.profile),
                    style: owned(d.style),
                    intent: d.intent,
                    required_artifacts: copy_all(d.required_artifacts),
                    steps,
                };
                checked(plan)
            },
        },
        _ => Err(PlanError::InvalidPlanInput(owned("top-level JSON plan must be an object or steps array"))),
    }
}

// ---------------------------------------------------------------------------
// Plan input text
// ---------------------------------------------------------------------------

/// The plan text inside a Markdown code fence (```` ```json ````,
/// ```` ```yaml ```` or ```` ``` ````), or the trimmed text when it is not
/// fenced.
pub open spec fn input_text(text: Seq<char>) -> Seq<char> {
    let t = trim(text);
    if starts_with(t, "```json"@) {
        fence_body(t.skip(7))
    } else if starts_with(t, "```yaml"@) {
        fence_body(t.skip(7))
    } else if starts_with(t, "```"@) {
        fence_body(t.skip(3))
    } else {
        t
    }
}

/// The plan text with its code fence removed.
pub fn plan_input_text(text: &str) -> (r: String)
    ensures
        r@ == input_text(text@),
{
    let t = trim_str(text);
    match strip_prefix_str(t.as_str(), "```json") {
        Some(rest) => {
            proof {
                reveal_strlit("```json");
            }
            crate::plan_yaml::fence_body_of(rest.as_str())
        },
        None => match strip_prefix_str(t.as_str(), "```yaml") {
            Some(rest) => {
                proof {
                    reveal_strlit("```yaml");
                }
                crate::plan_yaml::fence_body_of(rest.as_str())
            },
            None => match strip_prefix_str(t.as_str(), "```") {
                Some(rest) => {
                    proof {
                        reveal_strlit("```");
                    }
                    crate::plan_yaml::fence_body_of(rest.as_str())
                },
                None => t,
            },
        },
    }
}

/// The plan text opens a JSON object or array.
pub open spec fn json_like(t: Seq<char>) -> bool {
    starts_with(t, "{"@) || starts_with(t, "["@)
}

/// Whether the plan text, unfenced, is JSON rather than YAML.
pub fn looks_like_json_plan_input(text: &str) -> (r: bool)
    ensures
        r == json_like(trim_start(input_text(text@))),
{
    let t = plan_input_text(text);
    let s = crate::text::trim_start_str(t.as_str());
    str_starts_with(s.as_str(), "{") || str_starts_with(s.as_str(), "[")
}

/// A text read as JSON: the value it denotes, or the parser's message.
pub open spec fn json_reading(t: Seq<char>) -> Result<JsonView, Seq<char>> {
    match json_document(t) {
        Some(v) => Ok(v),
        None => Err(json_error_text(t)),
    }
}

/// The plan a JSON text describes, or `json parse error: <message>` when
/// the text is not JSON.
pub open spec fn json_text_plan(t: Seq<char>, d: Option<StepPlanInputDefaults>) -> Result<PlanView, PlanErrorView> {
    match json_reading(t) {
        Err(m) => Err(PlanErrorView::InvalidPlanInput("json parse error: "@ + m)),
        Ok(v) => json_plan(v, d),
    }
}

/// The plan read from model output: a JSON plan when the unfenced, trimmed
/// text opens a JSON object or array, else a YAML plan.
pub open spec fn plan_input(text: Seq<char>, d: Option<StepPlanInputDefaults>) -> Result<PlanView, PlanErrorView> {
    let t = trim(input_text(text));
    if json_like(t) {
        json_text_plan(t, d)
    } else {
        parse_spec(t)
    }
}

/// Reads a step plan from JSON text, completing a bare array of steps from
/// the defaults.
pub fn parse_json_step_plan(text: &str, defaults: Option<StepPlanInputDefaults>) -> (r: Result<StepPlan, PlanError>)
    ensures
        plan_result(r) == json_text_plan(text@, defaults),
{
    match parse_json(text) {
        Err(m) => Err(PlanError::InvalidPlanInput(prefixed("json parse error: ", m.as_str()))),
        Ok(v) => parse_json_plan_value(&v, defaults),
    }
}

/// Reads a step plan from model output, YAML or JSON, completing a bare
/// JSON array of steps from the defaults.
pub fn parse_step_plan_input_with_defaults(
    text: &str,
    defaults: Option<StepPlanInputDefaults>,
) -> (r: Result<StepPlan, PlanError>)
    ensures
        plan_result(r) == plan_input(text@, defaults),
{
    let unfenced = plan_input_text(text);
    let t = trim_str(unfenced.as_str());
    if str_starts_with(t.as_str(), "{") || str_starts_with(t.as_str(), "[") {
        parse_json_step_plan(t.as_str(), defaults)
    } else {
        parse_step_plan_yaml(t.as_str())
    }
}

/// Reads a step plan from model output without defaults.
pub fn parse_step_plan_input(text: &str) -> (r: Result<StepPlan, PlanError>)
    ensures
        plan_result(r) == plan_input(text@, None),
{
    parse_step_plan_input_with_defaults(text, None)
}

} // verus!
