//! Step plans and their enumerated fields.
use crate::plan_error::PlanError;
use crate::text::{chars_of, lower, lower_str, owned, str_eq, string_of, trim, trim_str};
use vstd::prelude::*;

verus! {

/// A plan of small executable steps toward a goal.
#[derive(Debug, Clone, PartialEq, Eq)]
pub struct StepPlan {
    pub goal: String,
    pub profile: String,
    pub style: String,
    pub intent: WorkIntent,
    pub required_artifacts: Vec<String>,
    pub steps: Vec<StepPlanStep>,
}

/// One step of a plan.
#[derive(Debug, Clone, PartialEq, Eq)]
pub struct StepPlanStep {
    pub id: String,
    pub kind: StepKind,
    pub instruction: String,
    pub expected_result: ExpectedResult,
    pub expected_paths: Vec<String>,
    pub verify: Vec<String>,
}

/// What kind of work a goal asks for.
#[derive(Debug, Clone, Copy, PartialEq, Eq, Structural)]
pub enum WorkIntent {
    New,
    Modify,
    Investigate,
    Document,
    Data,
    Unknown,
}

/// What a step does.
#[derive(Debug, Clone, Copy, PartialEq, Eq, Structural)]
pub enum StepKind {
    Inspect,
    Create,
    Edit,
    Setup,
    Verify,
    Repair,
    Report,
}

/// The result a step's verification is expected to have.
#[derive(Debug, Clone, Copy, PartialEq, Eq, Structural)]
pub enum ExpectedResult {
    Pass,
    Fail,
    Unavailable,
}

/// The normalized form of an enumerated value: trimmed and ASCII lower-cased.
pub open spec fn normalized(v: Seq<char>) -> Seq<char> {
    lower(trim(v))
}

/// The work intent a normalized value names, if any.
pub open spec fn intent_named(n: Seq<char>) -> Option<WorkIntent> {
    if n == "new"@ || n == "create"@ {
        Some(WorkIntent::New)
    } else if n == "modify"@ || n == "fix"@ || n == "enhance"@ || n == "refactor"@ {
        Some(WorkIntent::Modify)
    } else if n == "investigate"@ || n == "triage"@ || n == "debug"@ {
        Some(WorkIntent::Investigate)
    } else if n == "document"@ || n == "docs"@ {
        Some(WorkIntent::Document)
    } else if n == "data"@ || n == "data-analysis"@ || n == "data-pipeline"@ {
        Some(WorkIntent::Data)
    } else if n == "unknown"@ || n == ""@ {
        Some(WorkIntent::Unknown)
    } else {
        None
    }
}

/// The canonical name of a work intent.
pub open spec fn intent_name(i: WorkIntent) -> Seq<char> {
    match i {
        WorkIntent::New => "new"@,
        WorkIntent::Modify => "modify"@,
        WorkIntent::Investigate => "investigate"@,
        WorkIntent::Document => "document"@,
        WorkIntent::Data => "data"@,
        WorkIntent::Unknown => "unknown"@,
    }
}

/// The step kind a normalized value names, if any.
pub open spec fn kind_named(n: Seq<char>) -> Option<StepKind> {
    if n == "inspect"@ || n == "read"@ || n == "analyze"@ || n == "analyse"@ {
        Some(StepKind::Inspect)
    } else if n == "create"@ {
        Some(StepKind::Create)
    } else if n == "edit"@ || n == "modify"@ || n == "update"@ {
        Some(StepKind::Edit)
    } else if n == "setup"@ || n == "install"@ || n == "configure"@ {
        Some(StepKind::Setup)
    } else if n == "verify"@ || n == "check"@ || n == "test"@ || n == "shell"@ || n == "command"@
        || n == "run"@ {
        Some(StepKind::Verify)
    } else if n == "repair"@ || n == "fix"@ {
        Some(StepKind::Repair)
    } else if n == "report"@ || n == "summarize"@ || n == "summarise"@ {
        Some(StepKind::Report)
    } else {
        None
    }
}

/// The canonical name of a step kind.
pub open spec fn kind_name(k: StepKind) -> Seq<char> {
    match k {
        StepKind::Inspect => "inspect"@,
        StepKind::Create => "create"@,
        StepKind::Edit => "edit"@,
        StepKind::Setup => "setup"@,
        StepKind::Verify => "verify"@,
        StepKind::Repair => "repair"@,
        StepKind::Report => "report"@,
    }
}

/// Underscores replaced by hyphens.
pub open spec fn hyphenate(s: Seq<char>) -> Seq<char> {
    s.map_values(|c: char| if c == '_' { '-' } else { c })
}

/// The expected result a normalized value names, if any.
pub open spec fn result_named(n: Seq<char>) -> Option<ExpectedResult> {
    if n == "pass"@ || n == "passed"@ || n == "success"@ || n == "successful"@ || n == "ok"@ || n
        == "available"@ {
        Some(ExpectedResult::Pass)
    } else if n == "fail"@ || n == "failed"@ || n == "failure"@ || n == "expected-failure"@ {
        Some(ExpectedResult::Fail)
    } else if n == "unavailable"@ || n == "not-available"@ || n == "not-available-yet"@ {
        Some(ExpectedResult::Unavailable)
    } else {
        None
    }
}

/// The canonical name of an expected result.
pub open spec fn result_name(r: ExpectedResult) -> Seq<char> {
    match r {
        ExpectedResult::Pass => "pass"@,
        ExpectedResult::Fail => "fail"@,
        ExpectedResult::Unavailable => "unavailable"@,
    }
}

/// The outcome of parsing an enumerated field: the named value, or an
/// invalid-enum error carrying the field and the normalized value.
pub open spec fn parse_outcome<T>(named: Option<T>, r: Result<T, PlanError>, field: Seq<char>, n: Seq<char>) -> bool {
    match named {
        Some(v) => r == Ok::<T, PlanError>(v),
        None => r matches Err(PlanError::InvalidEnum { field: f, value: v }) && f@ == field && v@
            == n,
    }
}

impl WorkIntent {
    /// Parses a work intent, accepting common aliases in any ASCII case.
    pub fn parse(value: &str) -> (r: Result<Self, PlanError>)
        ensures
            parse_outcome(intent_named(normalized(value@)), r, "intent"@, normalized(value@)),
    {
        let t = trim_str(value);
        let n = lower_str(t.as_str());
        let s = n.as_str();
        if str_eq(s, "new") || str_eq(s, "create") {
            Ok(WorkIntent::New)
        } else if str_eq(s, "modify") || str_eq(s, "fix") || str_eq(s, "enhance") || str_eq(s, "refactor") {
            Ok(WorkIntent::Modify)
        } else if str_eq(s, "investigate") || str_eq(s, "triage") || str_eq(s, "debug") {
            Ok(WorkIntent::Investigate)
        } else if str_eq(s, "document") || str_eq(s, "docs") {
            Ok(WorkIntent::Document)
        } else if str_eq(s, "data") || str_eq(s, "data-analysis") || str_eq(s, "data-pipeline") {
            Ok(WorkIntent::Data)
        } else if str_eq(s, "unknown") || str_eq(s, "") {
            Ok(WorkIntent::Unknown)
        } else {
            Err(PlanError::InvalidEnum { field: owned("intent"), value: n })
        }
    }

    /// The canonical name.
    pub fn as_str(self) -> (r: &'static str)
        ensures
            r@ == intent_name(self),
    {
        match self {
            WorkIntent::New => "new",
            WorkIntent::Modify => "modify",
            WorkIntent::Investigate => "investigate",
            WorkIntent::Document => "document",
            WorkIntent::Data => "data",
            WorkIntent::Unknown => "unknown",
        }
    }
}

impl StepKind {
    /// Parses a step kind, accepting common aliases in any ASCII case.
    pub fn parse(value: &str) -> (r: Result<Self, PlanError>)
        ensures
            parse_outcome(kind_named(normalized(value@)), r, "step.kind"@, normalized(value@)),
    {
        let t = trim_str(value);
        let n = lower_str(t.as_str());
        let s = n.as_str();
        if str_eq(s, "inspect") || str_eq(s, "read") || str_eq(s, "analyze") || str_eq(s, "analyse") {
            Ok(StepKind::Inspect)
        } else if str_eq(s, "create") {
            Ok(StepKind::Create)
        } else if str_eq(s, "edit") || str_eq(s, "modify") || str_eq(s, "update") {
            Ok(StepKind::Edit)
        } else if str_eq(s, "setup") || str_eq(s, "install") || str_eq(s, "configure") {
            Ok(StepKind::Setup)
        } else if str_eq(s, "verify") || str_eq(s, "check") || str_eq(s, "test") || str_eq(s, "shell")
            || str_eq(s, "command") || str_eq(s, "run") {
            Ok(StepKind::Verify)
        } else if str_eq(s, "repair") || str_eq(s, "fix") {
            Ok(StepKind::Repair)
        } else if str_eq(s, "report") || str_eq(s, "summarize") || str_eq(s, "summarise") {
            Ok(StepKind::Report)
        } else {
            Err(PlanError::InvalidEnum { field: owned("step.kind"), value: n })
        }
    }

    /// The canonical name.
    pub fn as_str(self) -> (r: &'static str)
        ensures
            r@ == kind_name(self),
    {
        match self {
            StepKind::Inspect => "inspect",
            StepKind::Create => "create",
            StepKind::Edit => "edit",
            StepKind::Setup => "setup",
            StepKind::Verify => "verify",
            StepKind::Repair => "repair",
            StepKind::Report => "report",
        }
    }
}

impl ExpectedResult {
    /// Parses an expected result; underscores count as hyphens.
    pub fn parse(value: &str) -> (r: Result<Self, PlanError>)
        ensures
            parse_outcome(
                result_named(hyphenate(normalized(value@))),
                r,
                "step.expected_result"@,
                hyphenate(normalized(value@)),
            ),
    {
        let t = trim_str(value);
        let l = lower_str(t.as_str());
        let n = hyphenate_str(l.as_str());
        let s = n.as_str();
        if str_eq(s, "pass") || str_eq(s, "passed") || str_eq(s, "success") || str_eq(s, "successful")
            || str_eq(s, "ok") || str_eq(s, "available") {
            Ok(ExpectedResult::Pass)
        } else if str_eq(s, "fail") || str_eq(s, "failed") || str_eq(s, "failure") || str_eq(
            s,
            "expected-failure",
        ) {
            Ok(ExpectedResult::Fail)
        } else if str_eq(s, "unavailable") || str_eq(s, "not-available") || str_eq(
            s,
            "not-available-yet",
        ) {
            Ok(ExpectedResult::Unavailable)
        } else {
            Err(PlanError::InvalidEnum { field: owned("step.expected_result"), value: n })
        }
    }

    /// The canonical name.
    pub fn as_str(self) -> (r: &'static str)
        ensures
            r@ == result_name(self),
    {
        match self {
            ExpectedResult::Pass => "pass",
            ExpectedResult::Fail => "fail",
            ExpectedResult::Unavailable => "unavailable",
        }
    }
}

/// Replaces every underscore with a hyphen.
fn hyphenate_str(s: &str) -> (r: String)
    ensures
        r@ == hyphenate(s@),
{
    let v = chars_of(s);
    let mut out: Vec<char> = Vec::new();
    let mut i: usize = 0;
    while i < v.len()
        invariant
            i <= v@.len(),
            out@ == hyphenate(v@.subrange(0, i as int)),
        decreases v.len() - i,
    {
        let c = v[i];
        out.push(if c == '_' { '-' } else { c });
        i = i + 1;
        assert(hyphenate(v@.subrange(0, i as int)) == hyphenate(v@.subrange(0, i - 1)).push(
            if c == '_' { '-' } else { c },
        ));
    }
    assert(v@.subrange(0, v@.len() as int) == v@);
    string_of(out.as_slice())
}


/// A lower-case ASCII word is its own normalized and hyphenated form.
proof fn lemma_plain_word(s: Seq<char>)
    requires
        s.len() > 0,
        forall|i: int| 0 <= i < s.len() ==> 'a' <= #[trigger] s[i] && s[i] <= 'z',
    ensures
        normalized(s) == s,
        hyphenate(s) == s,
{
    assert(!crate::text::is_ws(s[0]));
    assert(crate::text::trim_start(s) == s);
    assert(!crate::text::is_ws(s.last()));
    assert(crate::text::trim_end(s) == s);
    assert(lower(s) =~= s);
    assert(hyphenate(s) =~= s);
}

/// Every work intent reads back from its canonical name.
pub proof fn lemma_intent_name_round_trip(x: WorkIntent)
    ensures
        intent_named(normalized(intent_name(x))) == Some(x),
{
    reveal_strlit("");
    reveal_strlit("create");
    reveal_strlit("data");
    reveal_strlit("data-analysis");
    reveal_strlit("data-pipeline");
    reveal_strlit("debug");
    reveal_strlit("docs");
    reveal_strlit("document");
    reveal_strlit("enhance");
    reveal_strlit("fix");
    reveal_strlit("investigate");
    reveal_strlit("modify");
    reveal_strlit("new");
    reveal_strlit("refactor");
    reveal_strlit("triage");
    reveal_strlit("unknown");
    match x {
        WorkIntent::New => {
            reveal_strlit("new");
            lemma_plain_word("new"@);
        },
        WorkIntent::Modify => {
            reveal_strlit("modify");
            lemma_plain_word("modify"@);
        },
        WorkIntent::Investigate => {
            reveal_strlit("investigate");
            lemma_plain_word("investigate"@);
        },
        WorkIntent::Document => {
            reveal_strlit("document");
            lemma_plain_word("document"@);
        },
        WorkIntent::Data => {
            reveal_strlit("data");
            lemma_plain_word("data"@);
        },
        WorkIntent::Unknown => {
            reveal_strlit("unknown");
            lemma_plain_word("unknown"@);
        },
    }
}

/// Every step kind reads back from its canonical name.
pub proof fn lemma_kind_name_round_trip(x: StepKind)
    ensures
        kind_named(normalized(kind_name(x))) == Some(x),
{
    reveal_strlit("analyse");
    reveal_strlit("analyze");
    reveal_strlit("check");
    reveal_strlit("command");
    reveal_strlit("configure");
    reveal_strlit("create");
    reveal_strlit("edit");
    reveal_strlit("fix");
    reveal_strlit("inspect");
    reveal_strlit("install");
    reveal_strlit("modify");
    reveal_strlit("read");
    reveal_strlit("repair");
    reveal_strlit("report");
    reveal_strlit("run");
    reveal_strlit("setup");
    reveal_strlit("shell");
    reveal_strlit("summarise");
    reveal_strlit("summarize");
    reveal_strlit("test");
    reveal_strlit("update");
    reveal_strlit("verify");
    match x {
        StepKind::Inspect => {
            reveal_strlit("inspect");
            lemma_plain_word("inspect"@);
        },
        StepKind::Create => {
            reveal_strlit("create");
            lemma_plain_word("create"@);
        },
        StepKind::Edit => {
            reveal_strlit("edit");
            lemma_plain_word("edit"@);
        },
        StepKind::Setup => {
            reveal_strlit("setup");
            lemma_plain_word("setup"@);
        },
        StepKind::Verify => {
            reveal_strlit("verify");
            lemma_plain_word("verify"@);
        },
        StepKind::Repair => {
            reveal_strlit("repair");
            lemma_plain_word("repair"@);
        },
        StepKind::Report => {
            reveal_strlit("report");
            lemma_plain_word("report"@);
        },
    }
}

/// Every expected result reads back from its canonical name.
pub proof fn lemma_result_name_round_trip(x: ExpectedResult)
    ensures
        result_named(hyphenate(normalized(result_name(x)))) == Some(x),
{
    reveal_strlit("available");
    reveal_strlit("expected-failure");
    reveal_strlit("fail");
    reveal_strlit("failed");
    reveal_strlit("failure");
    reveal_strlit("not-available");
    reveal_strlit("not-available-yet");
    reveal_strlit("ok");
    reveal_strlit("pass");
    reveal_strlit("passed");
    reveal_strlit("success");
    reveal_strlit("successful");
    reveal_strlit("unavailable");
    match x {
        ExpectedResult::Pass => {
            reveal_strlit("pass");
            lemma_plain_word("pass"@);
        },
        ExpectedResult::Fail => {
            reveal_strlit("fail");
            lemma_plain_word("fail"@);
        },
        ExpectedResult::Unavailable => {
            reveal_strlit("unavailable");
            lemma_plain_word("unavailable"@);
        },
    }
}
} // verus!
