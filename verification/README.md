# commandagent

The deterministic core of a command-line coding agent, written in Verus:
every function in `src/` carries a `requires`/`ensures` contract over
mathematical models (`Seq`, `Option`, spec functions and views), and Verus
proves each body against it.

## Layout

- `src/` — the verified library.
  - Plans: `plan` (the plan model), `plan_yaml` (YAML render, parse and
    validation, with the render/parse round trip proved), `plan_input`
    (plans from JSON model output), `plan_lint`, `plan_prompt`,
    `plan_store` (where a plan is saved), `plan_error`.
  - Artifacts: `artifact_graph`, `artifact_ledger`, `artifact_ownership`,
    `artifact_completion`, `profile_artifact`, `profiles`, `paths`,
    `workspace_scope`.
  - Evidence and recovery: `correction_evidence`, `evidence`,
    `evidence_binding`, `evidence_authority`, `evidence_producer`,
    `completion_evidence`, `failure_observation`, `contract_conflict`,
    `integrity_guard`, `mechanical_repair`, `active_job`,
    `deliverable_obligation`, `command_classification`.
  - Runtime: `events`, `event_protocol`, `budget`, `minimal_loop` (tool
    policies, loop decisions, prompts, feedback, results), `repl`,
    `slash_command`.
  - `text` and `json_value`: strings as character sequences, and JSON values
    as the library reads them (the text itself is read by `serde_json`).
- `tests/` — tests of the library through its public API.
- `app/` — the edges the library leaves to its caller: files, the terminal, the workspace listing, event logs and saving plans.

The library makes its decisions from plain values; whatever depends on the
file system, the clock or a model provider is read by the caller and handed
in (the contents of a referenced file, the paths that exist, the time).
