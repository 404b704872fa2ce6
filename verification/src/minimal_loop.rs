//! The minimal tool loop's deterministic parts: tool records and errors,
//! feedback texts, the system prompt and the loop configuration.
pub mod config;
pub mod guards;
pub mod prompt;
pub mod result;
pub mod session;
pub mod tool_policy;

use vstd::prelude::*;

verus! {

/// How the model is asked to call tools.
#[derive(Debug, Clone, Copy, PartialEq, Eq, Structural)]
pub enum ToolCallMode {
    Native,
    XmlFallback,
}

/// A tool offered to the model: its name and what it does.
#[derive(Debug, Clone, PartialEq, Eq)]
pub struct ToolSpec {
    pub name: String,
    pub description: String,
}

} // verus!
