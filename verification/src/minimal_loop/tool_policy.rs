//! Which tool calls a step's tool policy admits, and the string arguments
//! a tool call must carry.
use crate::json_value::{json_document, json_error_text, json_view, member, member_of, parse_json, JsonValue, JsonView};
use crate::minimal_loop::config::StepToolPolicy;
use crate::minimal_loop::result::{MinimalLoopError, ToolArgError};
use crate::paths::{is_one_of, one_of, path_segments, path_segments_of};
use crate::text::{copy_string, lower, lower_str, owned, push_str, starts_with, str_eq, str_starts_with, str_views};
use vstd::prelude::*;

verus! {

/// The file names, lower-cased, that a setup step may write.
pub open spec fn setup_config_names() -> Seq<Seq<char>> {
    seq![
        "package.json"@,
        "package-lock.json"@,
        "pnpm-lock.yaml"@,
        "yarn.lock"@,
        "tsconfig.json"@,
        "jsconfig.json"@,
        "cargo.toml"@,
        "cargo.lock"@,
        "pyproject.toml"@,
        "requirements.txt"@,
        "requirements-dev.txt"@,
        "vite.config.js"@,
        "vite.config.ts"@,
        "vite.config.mjs"@,
        "next.config.js"@,
        "next.config.mjs"@,
        "next.config.ts"@,
        "postcss.config.js"@,
        "postcss.config.cjs"@,
        "postcss.config.mjs"@,
        "tailwind.config.js"@,
        "tailwind.config.cjs"@,
        "tailwind.config.mjs"@,
        "tailwind.config.ts"@,
        "eslint.config.js"@,
        "eslint.config.mjs"@,
        ".eslintrc"@,
        ".eslintrc.json"@,
        ".prettierrc"@,
        ".prettierrc.json"@
    ]
}

/// The path begins with a `.` component.
pub open spec fn leading_cur_dir(s: Seq<char>) -> bool {
    s.len() >= 1 && s[0] == '.' && (s.len() == 1 || s[1] == '/')
}

/// A relative path of exactly one component, neither `.` nor `..`, whose
/// lower-cased name is a setup or configuration file.
pub open spec fn setup_or_config_path(s: Seq<char>) -> bool {
    let segs = path_segments(s);
    &&& !starts_with(s, "/"@)
    &&& !leading_cur_dir(s)
    &&& segs.len() == 1
    &&& segs[0] != ".."@
    &&& one_of(lower(segs[0]), setup_config_names())
}

/// Whether a setup step may write the path.
pub fn is_setup_or_config_path(path: &str) -> (r: bool)
    ensures
        r == setup_or_config_path(path@),
{
    proof {
        reveal_strlit("/");
        reveal_strlit("..");
    }
    if str_starts_with(path, "/") {
        return false;
    }
    let v = crate::text::chars_of(path);
    if v.len() >= 1 && v[0] == '.' && (v.len() == 1 || v[1] == '/') {
        return false;
    }
    let segs = path_segments_of(path);
    if segs.len() != 1 {
        return false;
    }
    assert(crate::text::views(segs@)[0] == segs@[0]@);
    if str_eq(segs[0].as_str(), "..") {
        return false;
    }
    let names = [
        "package.json",
        "package-lock.json",
        "pnpm-lock.yaml",
        "yarn.lock",
        "tsconfig.json",
        "jsconfig.json",
        "cargo.toml",
        "cargo.lock",
        "pyproject.toml",
        "requirements.txt",
        "requirements-dev.txt",
        "vite.config.js",
        "vite.config.ts",
        "vite.config.mjs",
        "next.config.js",
        "next.config.mjs",
        "next.config.ts",
        "postcss.config.js",
        "postcss.config.cjs",
        "postcss.config.mjs",
        "tailwind.config.js",
        "tailwind.config.cjs",
        "tailwind.config.mjs",
        "tailwind.config.ts",
        "eslint.config.js",
        "eslint.config.mjs",
        ".eslintrc",
        ".eslintrc.json",
        ".prettierrc",
        ".prettierrc.json"
    ];
    assert(str_views(names@) == setup_config_names());
    let l = lower_str(segs[0].as_str());
    is_one_of(l.as_str(), &names)
}

/// The string value of a tool argument, if the arguments are an object
/// holding one under the key.
pub open spec fn string_arg(args: JsonView, key: Seq<char>) -> Option<Seq<char>> {
    match args {
        JsonView::Object(fields) => match member(fields, key) {
            Some(JsonView::Str(s)) => Some(s),
            _ => None,
        },
        _ => None,
    }
}

/// The error for a tool call without a required string argument.
pub open spec fn missing_field_error(tool: Seq<char>, key: Seq<char>, e: MinimalLoopError) -> bool {
    match e {
        MinimalLoopError::ToolArgs(ToolArgError::MissingRequiredStringField { tool: t, field, required_fields }) => t@
            == tool && field@ == key && required_fields@.len() == 0,
        _ => false,
    }
}

/// A required string argument of a tool call.
pub fn required_str(tool: &str, args: &JsonValue, key: &str) -> (r: Result<String, MinimalLoopError>)
    ensures
        match string_arg(json_view(*args), key@) {
            Some(s) => r matches Ok(v) && v@ == s,
            None => r matches Err(e) && missing_field_error(tool@, key@, e),
        },
{
    if let JsonValue::Object(fields) = args {
        if let Some(JsonValue::Str(s)) = member_of(fields, key) {
            return Ok(copy_string(s));
        }
    }
    Err(
        MinimalLoopError::ToolArgs(
            ToolArgError::MissingRequiredStringField {
                tool: owned(tool),
                field: owned(key),
                required_fields: Vec::new(),
            },
        ),
    )
}

/// The error for a tool call whose arguments are not JSON.
pub open spec fn invalid_json_error(tool: Seq<char>, message: Seq<char>, e: MinimalLoopError) -> bool {
    match e {
        MinimalLoopError::ToolArgs(ToolArgError::InvalidJson { tool: t, message: m }) => t@ == tool && m@ == message,
        _ => false,
    }
}

/// The JSON arguments of a tool call, or the error naming the tool and the
/// parser's message when they are not JSON.
pub fn parse_tool_args(tool: &str, args_json: &str) -> (r: Result<JsonValue, MinimalLoopError>)
    ensures
        match json_document(args_json@) {
            Some(v) => r matches Ok(x) && json_view(x) == v,
            None => r matches Err(e) && invalid_json_error(tool@, json_error_text(args_json@), e),
        },
{
    match parse_json(args_json) {
        Ok(v) => Ok(v),
        Err(message) => Err(MinimalLoopError::ToolArgs(ToolArgError::InvalidJson { tool: owned(tool), message })),
    }
}

/// What the shell policy said of a command: whether it is allowed, whether
/// it only reads, and its message (or the command's class) to report.
#[derive(Debug, Clone, PartialEq, Eq)]
pub struct BashVerdict {
    pub allowed: bool,
    pub read_only: bool,
    pub detail: String,
}

/// The text of a policy violation.
pub open spec fn violation_text(message: Seq<char>) -> Seq<char> {
    "tool_policy_violation: "@ + message
}

/// How a tool call fares under a step's tool policy: `Ok` when admitted,
/// the missing argument, or the violation's message.
pub enum PolicyOutcome {
    Admitted,
    MissingArgument(Seq<char>),
    Violation(Seq<char>),
}

/// Read-only steps admit reading tools, shell commands the shell policy
/// allows as read-only, and unknown tools; writes and edits are refused.
pub open spec fn read_only_outcome(tool: Seq<char>, args: JsonView, bash: BashVerdict) -> PolicyOutcome {
    if tool == "Read"@ || tool == "Glob"@ || tool == "Grep"@ {
        PolicyOutcome::Admitted
    } else if tool == "Bash"@ {
        match string_arg(args, "command"@) {
            None => PolicyOutcome::MissingArgument("command"@),
            Some(_) => if bash.allowed && bash.read_only {
                PolicyOutcome::Admitted
            } else {
                PolicyOutcome::Violation("Bash command is not read-only for this step: "@ + bash.detail@)
            },
        }
    } else if tool == "Write"@ || tool == "Edit"@ {
        PolicyOutcome::Violation(tool + " is not allowed in a read-only step"@)
    } else {
        PolicyOutcome::Admitted
    }
}

/// The outcome of a tool call under each step tool policy.
pub open spec fn policy_outcome(policy: StepToolPolicy, tool: Seq<char>, args: JsonView, bash: BashVerdict) -> PolicyOutcome {
    match policy {
        StepToolPolicy::FileMutationAllowed => PolicyOutcome::Admitted,
        StepToolPolicy::ReadOnly => read_only_outcome(tool, args, bash),
        StepToolPolicy::NoMutation => if tool == "Write"@ || tool == "Edit"@ {
            PolicyOutcome::Violation(tool + " is not allowed in a no-mutation step"@)
        } else {
            PolicyOutcome::Admitted
        },
        StepToolPolicy::SetupMutationOnly => if tool == "Read"@ || tool == "Glob"@ || tool == "Grep"@ {
            PolicyOutcome::Admitted
        } else if tool == "Bash"@ {
            read_only_outcome(tool, args, bash)
        } else if tool == "Write"@ || tool == "Edit"@ {
            match string_arg(args, "path"@) {
                None => PolicyOutcome::MissingArgument("path"@),
                Some(p) => if setup_or_config_path(p) {
                    PolicyOutcome::Admitted
                } else {
                    PolicyOutcome::Violation(tool + " may only change setup/config files in a setup step: "@ + p)
                },
            }
        } else {
            PolicyOutcome::Admitted
        },
    }
}

/// Whether a result is the given policy outcome.
pub open spec fn is_outcome(tool: Seq<char>, r: Result<(), MinimalLoopError>, o: PolicyOutcome) -> bool {
    match o {
        PolicyOutcome::Admitted => r is Ok,
        PolicyOutcome::MissingArgument(k) => r matches Err(e) && missing_field_error(tool, k, e),
        PolicyOutcome::Violation(m) => r matches Err(e) && e matches MinimalLoopError::Tool(t) && t@ == violation_text(m),
    }
}

fn violation(message: String) -> (r: MinimalLoopError)
    ensures
        r matches MinimalLoopError::Tool(t) && t@ == violation_text(message@),
{
    let mut t = owned("tool_policy_violation: ");
    push_str(&mut t, message.as_str());
    MinimalLoopError::Tool(t)
}

fn is_reading_tool(tool: &str) -> (r: bool)
    ensures
        r == (tool@ == "Read"@ || tool@ == "Glob"@ || tool@ == "Grep"@),
{
    str_eq(tool, "Read") || str_eq(tool, "Glob") || str_eq(tool, "Grep")
}

fn is_writing_tool(tool: &str) -> (r: bool)
    ensures
        r == (tool@ == "Write"@ || tool@ == "Edit"@),
{
    str_eq(tool, "Write") || str_eq(tool, "Edit")
}

fn enforce_read_only(tool: &str, args: &JsonValue, bash: &BashVerdict) -> (r: Result<(), MinimalLoopError>)
    ensures
        is_outcome(tool@, r, read_only_outcome(tool@, json_view(*args), *bash)),
{
    if is_reading_tool(tool) {
        Ok(())
    } else if str_eq(tool, "Bash") {
        match required_str(tool, args, "command") {
            Err(e) => Err(e),
            Ok(_) => {
                if bash.allowed && bash.read_only {
                    Ok(())
                } else {
                    Err(violation(prefixed_owned("Bash command is not read-only for this step: ", bash.detail.as_str())))
                }
            },
        }
    } else if is_writing_tool(tool) {
        let mut m = owned(tool);
        push_str(&mut m, " is not allowed in a read-only step");
        Err(violation(m))
    } else {
        Ok(())
    }
}

fn prefixed_owned(p: &str, s: &str) -> (r: String)
    ensures
        r@ == p@ + s@,
{
    let mut t = owned(p);
    push_str(&mut t, s);
    t
}

/// Whether a step's tool policy admits a tool call. `bash` is what the
/// shell policy said of the call's command; it is read only for `Bash`
/// calls under the read-only and setup policies.
pub fn enforce_step_tool_policy(
    policy: StepToolPolicy,
    tool: &str,
    args: &JsonValue,
    bash: &BashVerdict,
) -> (r: Result<(), MinimalLoopError>)
    ensures
        is_outcome(tool@, r, policy_outcome(policy, tool@, json_view(*args), *bash)),
{
    match policy {
        StepToolPolicy::FileMutationAllowed => Ok(()),
        StepToolPolicy::ReadOnly => enforce_read_only(tool, args, bash),
        StepToolPolicy::NoMutation => {
            if is_writing_tool(tool) {
                let mut m = owned(tool);
                push_str(&mut m, " is not allowed in a no-mutation step");
                Err(violation(m))
            } else {
                Ok(())
            }
        },
        StepToolPolicy::SetupMutationOnly => {
            if is_reading_tool(tool) {
                Ok(())
            } else if str_eq(tool, "Bash") {
                enforce_read_only(tool, args, bash)
            } else if is_writing_tool(tool) {
                match required_str(tool, args, "path") {
                    Err(e) => Err(e),
                    Ok(path) => {
                        if is_setup_or_config_path(path.as_str()) {
                            Ok(())
                        } else {
                            let mut m = owned(tool);
                            push_str(&mut m, " may only change setup/config files in a setup step: ");
                            push_str(&mut m, path.as_str());
                            Err(violation(m))
                        }
                    },
                }
            } else {
                Ok(())
            }
        },
    }
}


/// Only a step that allows file mutation lets `Write` or `Edit` change an
/// arbitrary file: read-only and no-mutation steps refuse them, and a setup
/// step admits them exactly for a setup or configuration path.
pub proof fn lemma_mutation_needs_permission(tool: Seq<char>, args: JsonView, bash: BashVerdict)
    requires
        tool == "Write"@ || tool == "Edit"@,
    ensures
        policy_outcome(StepToolPolicy::FileMutationAllowed, tool, args, bash) == PolicyOutcome::Admitted,
        policy_outcome(StepToolPolicy::ReadOnly, tool, args, bash) is Violation,
        policy_outcome(StepToolPolicy::NoMutation, tool, args, bash) is Violation,
        (policy_outcome(StepToolPolicy::SetupMutationOnly, tool, args, bash) == PolicyOutcome::Admitted)
            <==> (string_arg(args, "path"@) matches Some(p) && setup_or_config_path(p)),
{
    reveal_strlit("Write");
    reveal_strlit("Edit");
    reveal_strlit("Read");
    reveal_strlit("Glob");
    reveal_strlit("Grep");
    reveal_strlit("Bash");
    assert("Write"@ != "Read"@) by {
        assert("Write"@[0] != "Read"@[0]);
    }
    assert("Write"@ != "Glob"@) by {
        assert("Write"@[0] != "Glob"@[0]);
    }
    assert("Write"@ != "Grep"@) by {
        assert("Write"@[0] != "Grep"@[0]);
    }
    assert("Write"@ != "Bash"@) by {
        assert("Write"@[0] != "Bash"@[0]);
    }
    assert("Edit"@ != "Read"@) by {
        assert("Edit"@[0] != "Read"@[0]);
    }
    assert("Edit"@ != "Glob"@) by {
        assert("Edit"@[0] != "Glob"@[0]);
    }
    assert("Edit"@ != "Grep"@) by {
        assert("Edit"@[0] != "Grep"@[0]);
    }
    assert("Edit"@ != "Bash"@) by {
        assert("Edit"@[0] != "Bash"@[0]);
    }
}

} // verus!
