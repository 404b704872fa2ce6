//! Deterministic planning, evidence and guard logic of a coding agent.
pub mod budget;
pub mod correction_evidence;
pub mod event_protocol;
pub mod events;
pub mod evidence;
pub mod plan;
pub mod plan_error;
pub mod plan_prompt;
pub mod text;
pub mod active_job;
pub mod completion_evidence;
pub mod evidence_binding;
pub mod deliverable_obligation;
pub mod paths;
pub mod profiles;
pub mod profile_artifact;
pub mod command_classification;
pub mod artifact_graph;
pub mod plan_lint;
pub mod plan_yaml;
pub mod failure_observation;
pub mod integrity_guard;
pub mod contract_conflict;
pub mod mechanical_repair;
pub mod minimal_loop;
pub mod workspace_scope;
pub mod artifact_ownership;
pub mod artifact_ledger;
pub mod evidence_authority;
pub mod evidence_producer;
pub mod artifact_completion;
pub mod json_value;
pub mod plan_input;
pub mod plan_store;
pub mod repl;
pub mod slash_command;
