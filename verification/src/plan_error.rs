//! Errors of plan parsing, validation and storage.
use crate::text::{owned, push_str};
use vstd::prelude::*;

verus! {

/// Why a step plan was rejected.
#[derive(Debug, Clone, PartialEq, Eq)]
pub enum PlanError {
    MissingField(String),
    EmptyField(String),
    NoSteps,
    InvalidStepId(String),
    DuplicateStepId(String),
    InvalidYaml(String),
    InvalidEnum { field: String, value: String },
    InvalidPlanInput(String),
    Io { path: String, message: String },
}

/// The human-readable message of an error.
pub open spec fn plan_error_message(e: PlanError) -> Seq<char> {
    match e {
        PlanError::MissingField(f) => "missing required field: "@ + f@,
        PlanError::EmptyField(f) => "field must not be empty: "@ + f@,
        PlanError::NoSteps => "step plan must contain at least one step"@,
        PlanError::InvalidStepId(id) => "invalid step id: "@ + id@,
        PlanError::DuplicateStepId(id) => "duplicate step id: "@ + id@,
        PlanError::InvalidYaml(m) => "invalid plan YAML: "@ + m@,
        PlanError::InvalidEnum { field, value } => "invalid "@ + field@ + ": "@ + value@,
        PlanError::InvalidPlanInput(m) => "invalid plan input: "@ + m@,
        PlanError::Io { path, message } => path@ + ": "@ + message@,
    }
}

/// `prefix` followed by `value`.
pub fn prefixed(prefix: &str, value: &str) -> (r: String)
    ensures
        r@ == prefix@ + value@,
{
    let mut s = owned(prefix);
    push_str(&mut s, value);
    s
}

impl PlanError {
    /// The human-readable message of the error.
    pub fn to_string(&self) -> (r: String)
        ensures
            r@ == plan_error_message(*self),
    {
        match self {
            PlanError::MissingField(f) => prefixed("missing required field: ", f.as_str()),
            PlanError::EmptyField(f) => prefixed("field must not be empty: ", f.as_str()),
            PlanError::NoSteps => owned("step plan must contain at least one step"),
            PlanError::InvalidStepId(id) => prefixed("invalid step id: ", id.as_str()),
            PlanError::DuplicateStepId(id) => prefixed("duplicate step id: ", id.as_str()),
            PlanError::InvalidYaml(m) => prefixed("invalid plan YAML: ", m.as_str()),
            PlanError::InvalidEnum { field, value } => {
                let mut s = prefixed("invalid ", field.as_str());
                push_str(&mut s, ": ");
                push_str(&mut s, value.as_str());
                s
            },
            PlanError::InvalidPlanInput(m) => prefixed("invalid plan input: ", m.as_str()),
            PlanError::Io { path, message } => {
                let mut s = prefixed(path.as_str(), ": ");
                push_str(&mut s, message.as_str());
                s
            },
        }
    }
}

} // verus!
