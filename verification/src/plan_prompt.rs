//! Prompts that ask a model for a step plan or for a corrected plan.
use crate::plan::{intent_name, WorkIntent};
use crate::plan_error::{plan_error_message, PlanError};
use crate::text::{contains_any, join, lower, lower_str, owned, push_str, str_contains_any, str_eq, views};
use vstd::prelude::*;

verus! {

/// The schema and rules that open every plan generation prompt.
pub const PLAN_PROMPT_RULES: &'static str = "Create a small step plan for CommandAgent.\n\
Return only YAML in this schema:\n\
goal: <string>\n\
profile: <string>\n\
style: <string>\n\
intent: <new|modify|investigate|document|data|unknown>\n\
required_artifacts:\n\
- <repository-relative final artifact path>\n\
steps:\n\
- id: <short-slug>\n\
kind: <inspect|create|edit|setup|verify|repair|report>\n\
instruction: <concrete action for one minimal-loop turn>\n\
expected_result: <pass|fail|unavailable>\n\
expected_paths:\n\
- <repository-relative file path>\n\
verify:\n\
- <local verification command>\n\
\n\
Rules:\n\
- Keep steps small and executable.\n\
- Use only canonical kind values in output: inspect, create, edit, setup, verify, repair, report.\n\
- Use kind inspect instead of read/analyze, and kind verify instead of shell/run.\n\
- Do not mix setup and final verification in the same step.\n\
- If a create/edit/setup step produces new expected_paths, keep verifier commands to direct existence/syntax checks. Put npm run build, cargo check/test/build, pytest, or other integration checks in a separate verify step.\n\
- File creation or modification steps must be executable with Write/Edit, not shell scaffolding.\n\
- Do not create directory-only steps; Write creates parent directories automatically.\n\
- Do not plan dependency installation as a required success step; dependency installs may be unavailable offline.\n\
- expected_paths must be actual required file outputs for this step, not package names, concepts, directories, optional inspection targets, or dependency caches.\n\
- If a step says a file may exist, such as \"if it exists\" or \"if present\", do not put that file in expected_paths and do not require test -f for it. Inspect it with Read/Glob only when present.\n\
- Inspect steps are observation-only: use verify: [] unless the step is intentionally asserting a required existing file listed in expected_paths. Do not use test -d/test -f to make optional discovery fatal.\n\
- Verifier commands must be one simple local check each; split shell chaining into separate list items and avoid unquoted &&, ||, or ;.\n\
- Prefer canonical verifier commands: test -f <path>, python -m py_compile <path.py>, python -m pytest <path-or-test>, cargo check, cargo test, npm run build, or grep -q <literal> <path>.\n\
- For source-code behavior, use build/test/check commands: Rust uses cargo check/cargo test; Next.js uses npm run build; Python/FastAPI uses python -m py_compile or pytest. Use grep -q only for literal documentation, data, or content requirements, not source-code semantics.\n\
- If no file path is expected for a step, use an empty list.\n\
- required_artifacts are final user-requested outputs and must be preserved exactly.\n\
- setup prepares local dependencies or configuration; verify runs deterministic checks and must not change files.\n\
- report steps explicitly report blockers such as dependency_missing or verifier_unavailable and should use verify: [].\n\
- Do not use true as a verifier; use an empty verify list for report-only steps.\n\
- Do not include tool-call fields such as action, path, content, old, or new in the plan.\n\
- Multi-line instructions may use YAML block scalars (| or >); do not use anchors, aliases, or tags.\n\
- Verifier commands must match the active profile.\n\
\n\
";

/// Plan guidance for Rust projects.
pub const RUST_PLAN_GUIDANCE: &'static str = "For new Rust projects, plan explicit file creation for Cargo.toml and src/main.rs. Do not plan cargo init or cargo new shell scaffolding.";

/// Plan guidance for Next.js projects.
pub const NEXTJS_PLAN_GUIDANCE: &'static str = "For Next.js projects, declare next, react, and react-dom in package.json with React 18.2 or newer compatibility. Do not use exact React pins below 18.2. Declare typescript 5.x compatibility with a stable TypeScript 5.x range such as ^5.4.0, not exact TypeScript pins such as 5.0.0, and declare @types/react 18.x compatibility. If source imports use @/*, plan a tsconfig.json paths entry for that alias. Do not use latest as the compatibility strategy. Use plain CSS unless the goal asks for Tailwind; when Tailwind is used, the same step plan must also include tailwindcss, postcss, and autoprefixer in package.json and explicit creation of tailwind.config.js and postcss.config.js. Do not plan npm install or other dependency installation steps.";

/// Plan guidance for every other profile.
pub const GENERIC_PLAN_GUIDANCE: &'static str = "No additional profile-specific plan guidance.";

/// The work intent a goal suggests, by keywords checked in a fixed order on
/// the ASCII-lower-cased goal.
pub open spec fn detected_intent(goal: Seq<char>) -> WorkIntent {
    let l = lower(goal);
    if contains_any(l, seq!["investigate"@, "triage"@, "debug"@, "原因"@, "調査"@]) {
        WorkIntent::Investigate
    } else if contains_any(l, seq!["document"@, "docs"@, "readme"@, "ドキュメント"@]) {
        WorkIntent::Document
    } else if contains_any(l, seq!["fix"@, "modify"@, "update"@, "repair"@, "修正"@, "改修"@]) {
        WorkIntent::Modify
    } else if contains_any(l, seq!["data"@, "csv"@, "report"@, "分析"@, "整形"@]) {
        WorkIntent::Data
    } else if contains_any(l, seq!["create"@, "build"@, "implement"@, "new"@, "作成"@, "開発"@]) {
        WorkIntent::New
    } else {
        WorkIntent::Unknown
    }
}

/// Detects the work intent of a goal from its keywords.
pub fn detect_work_intent(goal: &str) -> (r: WorkIntent)
    ensures
        r == detected_intent(goal@),
{
    let lower_goal = lower_str(goal);
    let l = lower_goal.as_str();
    let investigate = ["investigate", "triage", "debug", "原因", "調査"];
    let document = ["document", "docs", "readme", "ドキュメント"];
    let modify = ["fix", "modify", "update", "repair", "修正", "改修"];
    let data = ["data", "csv", "report", "分析", "整形"];
    let new = ["create", "build", "implement", "new", "作成", "開発"];
    proof {
        assert(crate::text::str_views(investigate@) == seq!["investigate"@, "triage"@, "debug"@, "原因"@, "調査"@]);
        assert(crate::text::str_views(document@) == seq!["document"@, "docs"@, "readme"@, "ドキュメント"@]);
        assert(crate::text::str_views(modify@) == seq!["fix"@, "modify"@, "update"@, "repair"@, "修正"@, "改修"@]);
        assert(crate::text::str_views(data@) == seq!["data"@, "csv"@, "report"@, "分析"@, "整形"@]);
        assert(crate::text::str_views(new@) == seq!["create"@, "build"@, "implement"@, "new"@, "作成"@, "開発"@]);
    }
    if str_contains_any(l, &investigate) {
        WorkIntent::Investigate
    } else if str_contains_any(l, &document) {
        WorkIntent::Document
    } else if str_contains_any(l, &modify) {
        WorkIntent::Modify
    } else if str_contains_any(l, &data) {
        WorkIntent::Data
    } else if str_contains_any(l, &new) {
        WorkIntent::New
    } else {
        WorkIntent::Unknown
    }
}

/// The plan guidance for a profile.
pub open spec fn profile_guidance(profile: Seq<char>) -> Seq<char> {
    if profile == "rust"@ {
        RUST_PLAN_GUIDANCE@
    } else if profile == "nextjs"@ {
        NEXTJS_PLAN_GUIDANCE@
    } else {
        GENERIC_PLAN_GUIDANCE@
    }
}

/// One `- value` line per value, or `- none` for an empty list.
pub open spec fn bullet_list(values: Seq<Seq<char>>) -> Seq<char> {
    if values.len() == 0 {
        "- none"@
    } else {
        join(values.map_values(|v: Seq<char>| "- "@ + v), "\n"@)
    }
}

/// The plan generation prompt.
pub open spec fn generation_prompt(
    goal: Seq<char>,
    profile: Seq<char>,
    style: Seq<char>,
    intent: WorkIntent,
    artifacts: Seq<Seq<char>>,
) -> Seq<char> {
    PLAN_PROMPT_RULES@ + "Goal: "@ + goal + "\nProfile: "@ + profile + "\nStyle: "@ + style
        + "\nIntent: "@ + intent_name(intent) + "\nRequired final artifacts:\n"@ + bullet_list(artifacts)
        + "\nProfile guidance:\n"@ + profile_guidance(profile)
}

/// Asks for a small YAML step plan for the goal.
pub fn plan_generation_prompt(
    goal: &str,
    profile: &str,
    style: &str,
    intent: WorkIntent,
    required_artifacts: &[String],
) -> (r: String)
    ensures
        r@ == generation_prompt(goal@, profile@, style@, intent, views(required_artifacts@)),
{
    let mut out = owned(PLAN_PROMPT_RULES);
    push_str(&mut out, "Goal: ");
    push_str(&mut out, goal);
    push_str(&mut out, "\nProfile: ");
    push_str(&mut out, profile);
    push_str(&mut out, "\nStyle: ");
    push_str(&mut out, style);
    push_str(&mut out, "\nIntent: ");
    push_str(&mut out, intent.as_str());
    push_str(&mut out, "\nRequired final artifacts:\n");
    let bullets = bullet_lines(required_artifacts);
    push_str(&mut out, bullets.as_str());
    push_str(&mut out, "\nProfile guidance:\n");
    push_str(&mut out, plan_profile_guidance(profile));
    out
}

/// The plan guidance for a profile.
fn plan_profile_guidance(profile: &str) -> (r: &'static str)
    ensures
        r@ == profile_guidance(profile@),
{
    if str_eq(profile, "rust") {
        RUST_PLAN_GUIDANCE
    } else if str_eq(profile, "nextjs") {
        NEXTJS_PLAN_GUIDANCE
    } else {
        GENERIC_PLAN_GUIDANCE
    }
}

/// The correction prompt for an invalid plan.
pub open spec fn correction_prompt(goal: Seq<char>, plan: Seq<char>, error: PlanError) -> Seq<char> {
    "The generated step plan is invalid and must be corrected.\nOriginal goal:\n"@ + goal
        + "\n\nValidation error:\n"@ + plan_error_message(error) + "\n\nInvalid plan:\n"@ + plan
        + "\n\nIf the invalid plan includes tool-call fields such as action, path, content, old, or new, rewrite them into instruction and expected_paths fields.\nReturn only corrected YAML using the required CommandAgent step plan schema."@
}

/// Asks for a corrected plan, quoting the validation error and the plan.
pub fn invalid_plan_correction_prompt(original_goal: &str, invalid_plan: &str, error: &PlanError) -> (r: String)
    ensures
        r@ == correction_prompt(original_goal@, invalid_plan@, *error),
{
    let mut out = owned("The generated step plan is invalid and must be corrected.\nOriginal goal:\n");
    push_str(&mut out, original_goal);
    push_str(&mut out, "\n\nValidation error:\n");
    let message = error.to_string();
    push_str(&mut out, message.as_str());
    push_str(&mut out, "\n\nInvalid plan:\n");
    push_str(&mut out, invalid_plan);
    push_str(
        &mut out,
        "\n\nIf the invalid plan includes tool-call fields such as action, path, content, old, or new, rewrite them into instruction and expected_paths fields.\nReturn only corrected YAML using the required CommandAgent step plan schema.",
    );
    out
}

/// One `- value` line per value, or `- none` for an empty list.
pub fn bullet_lines(values: &[String]) -> (r: String)
    ensures
        r@ == bullet_list(views(values@)),
{
    if values.len() == 0 {
        return owned("- none");
    }
    let ghost vs = views(values@);
    let mut lines: Vec<String> = Vec::new();
    let mut i: usize = 0;
    while i < values.len()
        invariant
            i <= values@.len(),
            vs == views(values@),
            views(lines@) == vs.take(i as int).map_values(|v: Seq<char>| "- "@ + v),
        decreases values.len() - i,
    {
        let mut line = owned("- ");
        push_str(&mut line, values[i].as_str());
        lines.push(line);
        i = i + 1;
        assert(vs.take(i as int) == vs.take(i - 1).push(vs[i - 1]));
        assert(vs.take(i as int).map_values(|v: Seq<char>| "- "@ + v) == vs.take(i - 1).map_values(
            |v: Seq<char>| "- "@ + v,
        ).push("- "@ + vs[i - 1]));
    }
    assert(vs.take(values@.len() as int) == vs);
    crate::text::join_strings(&lines, "\n")
}

} // verus!
