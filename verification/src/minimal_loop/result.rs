//! Tool execution records and the minimal loop's errors.
use crate::text::{copy_string, join, join_strings, owned, push_str, views};
use vstd::prelude::*;

verus! {

/// What one tool call did: its name, whether it succeeded, its (possibly
/// truncated) output and the paths it targeted.
#[derive(Debug, Clone, PartialEq, Eq)]
pub struct ToolExecutionRecord {
    pub name: String,
    pub ok: bool,
    pub output: String,
    pub output_truncated: bool,
    pub original_output_chars: usize,
    pub target_paths: Vec<String>,
}

/// A tool call whose arguments could not be used.
#[derive(Debug, Clone, PartialEq, Eq)]
pub enum ToolArgError {
    InvalidJson { tool: String, message: String },
    MissingRequiredStringField { tool: String, field: String, required_fields: Vec<String> },
}

/// Why the minimal loop stopped without a result.
#[derive(Debug, Clone, PartialEq, Eq)]
pub enum MinimalLoopError {
    MaxIterations,
    Model(String),
    ToolArgs(ToolArgError),
    Tool(String),
    FinalAnswerContract(String),
    ActionRequiredNoEvidence(String),
    MissingArtifacts(Vec<String>),
    ProgressBudgetExhausted(String),
}

/// The required fields as listed in an excerpt: `unknown` when there are
/// none, else joined by `, `.
pub open spec fn required_text(fields: Seq<Seq<char>>) -> Seq<char> {
    if fields.len() == 0 {
        "unknown"@
    } else {
        join(fields, ", "@)
    }
}

/// The feedback excerpt for a tool-argument error.
pub open spec fn excerpt_of(e: ToolArgError) -> Seq<char> {
    match e {
        ToolArgError::InvalidJson { tool, message } => "The previous tool call for "@ + tool@
            + " had invalid JSON arguments: "@ + message@
            + ". Emit exactly one valid tool call with complete JSON for the current step; do not answer in prose."@,
        ToolArgError::MissingRequiredStringField { tool, field, required_fields } =>
            "The previous tool call for "@ + tool@ + " was invalid because required string field `"@
            + field@ + "` was missing. "@ + tool@ + " requires: "@ + required_text(views(required_fields@))
            + ". Emit exactly one valid tool call with complete JSON for the current step; do not answer in prose."@,
    }
}

/// The display text of a tool-argument error.
pub open spec fn arg_error_text(e: ToolArgError) -> Seq<char> {
    match e {
        ToolArgError::InvalidJson { tool, message } => tool@ + " arguments are not valid JSON: "@ + message@,
        ToolArgError::MissingRequiredStringField { tool, field, required_fields } => if required_fields@.len() == 0 {
            tool@ + " missing string field `"@ + field@ + "`"@
        } else {
            tool@ + " missing string field `"@ + field@ + "` (required fields: "@ + join(
                views(required_fields@),
                ", "@,
            ) + ")"@
        },
    }
}

impl ToolArgError {
    /// The machine-readable reason.
    pub fn reason_code(&self) -> (r: &'static str)
        ensures
            r@ == (match *self {
                ToolArgError::InvalidJson { .. } => "tool_args_invalid_json"@,
                ToolArgError::MissingRequiredStringField { .. } => "tool_args_missing_required_field"@,
            }),
    {
        match self {
            ToolArgError::InvalidJson { .. } => "tool_args_invalid_json",
            ToolArgError::MissingRequiredStringField { .. } => "tool_args_missing_required_field",
        }
    }

    /// The tool whose arguments were rejected.
    pub fn tool_name(&self) -> (r: &str)
        ensures
            r@ == (match *self {
                ToolArgError::InvalidJson { tool, .. } => tool@,
                ToolArgError::MissingRequiredStringField { tool, .. } => tool@,
            }),
    {
        match self {
            ToolArgError::InvalidJson { tool, .. } => tool.as_str(),
            ToolArgError::MissingRequiredStringField { tool, .. } => tool.as_str(),
        }
    }

    /// The missing field, if that is the error.
    pub fn missing_field(&self) -> (r: Option<&str>)
        ensures
            match *self {
                ToolArgError::MissingRequiredStringField { field, .. } => r matches Some(f) && f@ == field@,
                ToolArgError::InvalidJson { .. } => r is None,
            },
    {
        match self {
            ToolArgError::MissingRequiredStringField { field, .. } => Some(field.as_str()),
            ToolArgError::InvalidJson { .. } => None,
        }
    }

    /// The tool's required fields, if the error lists them.
    pub fn required_fields(&self) -> (r: Vec<String>)
        ensures
            views(r@) == (match *self {
                ToolArgError::MissingRequiredStringField { required_fields, .. } => views(required_fields@),
                ToolArgError::InvalidJson { .. } => Seq::empty(),
            }),
    {
        match self {
            ToolArgError::MissingRequiredStringField { required_fields, .. } => crate::text::copy_strings(
                required_fields,
            ),
            ToolArgError::InvalidJson { .. } => {
                let r: Vec<String> = Vec::new();
                assert(views(r@) =~= Seq::empty());
                r
            },
        }
    }

    /// The feedback that asks the model for one valid tool call.
    pub fn diagnostic_excerpt(&self) -> (r: String)
        ensures
            r@ == excerpt_of(*self),
    {
        match self {
            ToolArgError::InvalidJson { tool, message } => {
                let mut s = owned("The previous tool call for ");
                push_str(&mut s, tool.as_str());
                push_str(&mut s, " had invalid JSON arguments: ");
                push_str(&mut s, message.as_str());
                push_str(
                    &mut s,
                    ". Emit exactly one valid tool call with complete JSON for the current step; do not answer in prose.",
                );
                s
            },
            ToolArgError::MissingRequiredStringField { tool, field, required_fields } => {
                let required = if required_fields.len() == 0 {
                    owned("unknown")
                } else {
                    join_strings(required_fields, ", ")
                };
                let mut s = owned("The previous tool call for ");
                push_str(&mut s, tool.as_str());
                push_str(&mut s, " was invalid because required string field `");
                push_str(&mut s, field.as_str());
                push_str(&mut s, "` was missing. ");
                push_str(&mut s, tool.as_str());
                push_str(&mut s, " requires: ");
                push_str(&mut s, required.as_str());
                push_str(
                    &mut s,
                    ". Emit exactly one valid tool call with complete JSON for the current step; do not answer in prose.",
                );
                s
            },
        }
    }

    /// The display text of the error.
    pub fn to_string(&self) -> (r: String)
        ensures
            r@ == arg_error_text(*self),
    {
        match self {
            ToolArgError::InvalidJson { tool, message } => {
                let mut s = copy_string(tool);
                push_str(&mut s, " arguments are not valid JSON: ");
                push_str(&mut s, message.as_str());
                s
            },
            ToolArgError::MissingRequiredStringField { tool, field, required_fields } => {
                let mut s = copy_string(tool);
                push_str(&mut s, " missing string field `");
                push_str(&mut s, field.as_str());
                if required_fields.len() > 0 {
                    push_str(&mut s, "` (required fields: ");
                    let joined = join_strings(required_fields, ", ");
                    push_str(&mut s, joined.as_str());
                    push_str(&mut s, ")");
                } else {
                    push_str(&mut s, "`");
                }
                s
            },
        }
    }
}

/// The display text of a loop error.
pub open spec fn loop_error_text(e: MinimalLoopError) -> Seq<char> {
    match e {
        MinimalLoopError::MaxIterations => "minimal loop reached max iterations"@,
        MinimalLoopError::Model(m) => "model error: "@ + m@,
        MinimalLoopError::ToolArgs(a) => "invalid tool arguments: "@ + arg_error_text(a),
        MinimalLoopError::Tool(m) => "tool error: "@ + m@,
        MinimalLoopError::FinalAnswerContract(m) => "assistant violated final answer contract: "@ + m@,
        MinimalLoopError::ActionRequiredNoEvidence(m) => "assistant did not provide required repository evidence: "@
            + m@,
        MinimalLoopError::MissingArtifacts(paths) => "missing expected artifacts: "@ + join(
            views(paths@),
            ", "@,
        ),
        MinimalLoopError::ProgressBudgetExhausted(m) => "minimal loop progress budget exhausted: "@ + m@,
    }
}

fn prefixed(prefix: &str, rest: &str) -> (r: String)
    ensures
        r@ == prefix@ + rest@,
{
    let mut s = owned(prefix);
    push_str(&mut s, rest);
    s
}

impl MinimalLoopError {
    /// The display text of the error.
    pub fn to_string(&self) -> (r: String)
        ensures
            r@ == loop_error_text(*self),
    {
        match self {
            MinimalLoopError::MaxIterations => owned("minimal loop reached max iterations"),
            MinimalLoopError::Model(m) => prefixed("model error: ", m.as_str()),
            MinimalLoopError::ToolArgs(a) => {
                let t = a.to_string();
                prefixed("invalid tool arguments: ", t.as_str())
            },
            MinimalLoopError::Tool(m) => prefixed("tool error: ", m.as_str()),
            MinimalLoopError::FinalAnswerContract(m) => prefixed(
                "assistant violated final answer contract: ",
                m.as_str(),
            ),
            MinimalLoopError::ActionRequiredNoEvidence(m) => prefixed(
                "assistant did not provide required repository evidence: ",
                m.as_str(),
            ),
            MinimalLoopError::MissingArtifacts(paths) => {
                let joined = join_strings(paths, ", ");
                prefixed("missing expected artifacts: ", joined.as_str())
            },
            MinimalLoopError::ProgressBudgetExhausted(m) => prefixed(
                "minimal loop progress budget exhausted: ",
                m.as_str(),
            ),
        }
    }
}

} // verus!
