//! Step instructions must keep to their step kind: no dependency installs,
//! no directory-only steps, read-only inspection, non-mutating verification,
//! and no shell scaffolding generators.
use super::{exists_in, path_exists, LintFault};
use super::verifiers::{builds_or_tests, runs_build_test, verifier_runs_build_test};
use crate::plan::StepKind;
use crate::text::{
    contains_any, lower, lower_str, starts_with, str_contains_any, str_eq, str_starts_with,
    str_views, trim, trim_str, views,
};
use vstd::prelude::*;

verus! {

pub open spec fn dependency_install_phrases() -> Seq<Seq<char>> {
    seq!["npm install"@, "npm ci"@, "pnpm install"@, "pip install"@, "python -m pip"@]
}

pub open spec fn creation_words() -> Seq<Seq<char>> {
    seq!["create"@, "make"@, "initialize"@, "init"@]
}

pub open spec fn directory_words() -> Seq<Seq<char>> {
    seq![" directory"@, " directories"@, " folder"@, " folders"@]
}

pub open spec fn inspect_mutation_words() -> Seq<Seq<char>> {
    seq!["create "@, "write "@, "edit "@, "modify "@, "update "@, "fix "@, "add "@]
}

pub open spec fn verify_mutation_words() -> Seq<Seq<char>> {
    seq!["write "@, "edit "@, "modify "@, "update "@, "fix "@, "repair "@]
}

pub open spec fn optional_phrases() -> Seq<Seq<char>> {
    seq![
        "if it exists"@,
        "if exists"@,
        "if present"@,
        "if available"@,
        "when present"@,
        "if any"@,
        "if there is"@,
        "if there are"@,
    ]
}

pub open spec fn setup_words() -> Seq<Seq<char>> {
    seq![
        "create "@,
        "write "@,
        "edit "@,
        "add "@,
        "install "@,
        "scaffold "@,
        "configure "@,
        "implement "@,
    ]
}

pub open spec fn verify_words() -> Seq<Seq<char>> {
    seq![
        "verify "@,
        "validate "@,
        "run build"@,
        "npm run build"@,
        "cargo check"@,
        "cargo test"@,
        "cargo build"@,
        "pytest"@,
        "test "@,
    ]
}

pub open spec fn sequence_words() -> Seq<Seq<char>> {
    seq![
        " and run "@,
        " then run "@,
        " and verify "@,
        " then verify "@,
        " and validate "@,
        " then validate "@,
        " and test "@,
        " then test "@,
        " and build "@,
        " then build "@,
    ]
}

/// Why a step's instruction is refused for its kind, if it is.
pub open spec fn instruction_fault(kind: StepKind, instruction: Seq<char>, no_paths: bool) -> Option<Seq<char>> {
    let l = lower(instruction);
    if contains_any(l, dependency_install_phrases()) {
        Some(
            "dependency installation must not be a required success step; report dependency_missing when offline"@,
        )
    } else if (kind == StepKind::Setup || kind == StepKind::Create) && no_paths && contains_any(
        l,
        creation_words().push("ensure"@),
    ) && contains_any(l, directory_words()) && (contains_any(l, creation_words()) || contains_any(
        l,
        seq!["exists"@, "exist"@],
    )) {
        Some(
            "directory-only steps are unnecessary because Write creates parent directories automatically"@,
        )
    } else if kind == StepKind::Inspect && contains_any(l, inspect_mutation_words()) {
        Some(
            "inspect steps are read-only; move file creation or edits into create/edit/repair steps"@,
        )
    } else if kind == StepKind::Verify && contains_any(l, verify_mutation_words()) {
        Some("verify steps must not mutate files; move fixes into create/edit/repair steps"@)
    } else {
        None
    }
}

/// Why an inspect step's optional targets are refused, if they are.
pub open spec fn optional_inspection_fault(kind: StepKind, instruction: Seq<char>, no_paths: bool) -> Option<Seq<char>> {
    if kind == StepKind::Inspect && !no_paths && contains_any(lower(instruction), optional_phrases()) {
        Some(
            "optional inspection targets must not be placed in expected_paths; use Read/Glob inspection and an empty expected_paths list"@,
        )
    } else {
        None
    }
}

/// The command checks that a file or directory exists.
pub open spec fn existence_check(c: Seq<char>) -> bool {
    let l = lower(trim(c));
    starts_with(l, "test -f "@) || starts_with(l, "test -d "@)
}

/// Why an inspect step's verifiers are refused, if they are.
pub open spec fn inspect_verifier_fault(kind: StepKind, no_paths: bool, verify: Seq<Seq<char>>) -> Option<Seq<char>> {
    if kind == StepKind::Inspect && no_paths && verify.len() > 0 && exists|i: int|
        0 <= i < verify.len() && existence_check(#[trigger] verify[i]) {
        Some(
            "inspect steps must not make optional file or directory discovery a fatal verifier; use verify: [] and observe with Read/Glob"@,
        )
    } else {
        None
    }
}

/// The step both creates new files and verifies them.
pub open spec fn mixes_setup_and_verify(
    kind: StepKind,
    instruction: Seq<char>,
    verify: Seq<Seq<char>>,
    has_expected_paths: bool,
    paths_already_exist: bool,
) -> bool {
    let l = lower(instruction);
    let setup = contains_any(l, setup_words());
    let vbt = runs_build_test(verify);
    let verifies = contains_any(l, verify_words()) || vbt;
    let sequence = contains_any(l, sequence_words());
    kind != StepKind::Verify && kind != StepKind::Report && has_expected_paths && !paths_already_exist
        && setup && verifies && (sequence || vbt)
}

pub open spec fn next_scaffold_phrases() -> Seq<Seq<char>> {
    seq![
        "create-next-app"@,
        "npm create next-app"@,
        "pnpm create next-app"@,
        "yarn create next-app"@,
    ]
}

pub open spec fn migration_phrases() -> Seq<Seq<char>> {
    seq!["migrate"@, "migration"@, "move app root"@, "move route root"@]
}

/// Why a Next.js step splits the app root, if it does.
pub open spec fn root_drift_fault(
    kind: StepKind,
    l: Seq<char>,
    expected: Seq<Seq<char>>,
    ws: Option<Seq<Seq<char>>>,
) -> Option<Seq<char>> {
    let has_src_app = exists_in(ws, "src/app/page.tsx"@) || exists_in(ws, "src/app/layout.tsx"@);
    let has_root_app = exists_in(ws, "app/page.tsx"@) || exists_in(ws, "app/layout.tsx"@);
    if !(kind == StepKind::Create || kind == StepKind::Edit || kind == StepKind::Repair) {
        None
    } else if contains_any(l, migration_phrases()) || ws is None {
        None
    } else if has_src_app && !has_root_app && expected.contains("app/page.tsx"@) {
        Some(
            "Next.js workspace already uses src/app; creating app/page.tsx would split the app root unless this is an explicit migration"@,
        )
    } else if has_root_app && !has_src_app && expected.contains("src/app/page.tsx"@) {
        Some(
            "Next.js workspace already uses app; creating src/app/page.tsx would split the app root unless this is an explicit migration"@,
        )
    } else {
        None
    }
}

/// The profile's scaffolding rules for one step.
pub open spec fn scaffold_fault(
    profile: Seq<char>,
    step_id: Seq<char>,
    kind: StepKind,
    instruction: Seq<char>,
    expected: Seq<Seq<char>>,
    ws: Option<Seq<Seq<char>>>,
) -> Option<LintFault> {
    let l = lower(instruction);
    if profile == "rust"@ && contains_any(l, seq!["cargo init"@, "cargo new"@]) {
        Some(
            LintFault::ShellScaffold {
                step_id,
                command: "cargo init/new"@,
                guidance: "create Cargo.toml and src/main.rs with Write/Edit"@,
            },
        )
    } else if profile == "nextjs"@ {
        if contains_any(l, next_scaffold_phrases()) {
            Some(
                LintFault::ShellScaffold {
                    step_id,
                    command: "create-next-app"@,
                    guidance: "create package.json and app/page.tsx with Write/Edit"@,
                },
            )
        } else {
            match root_drift_fault(kind, l, expected, ws) {
                Some(reason) => Some(LintFault::InvalidStepInstruction { step_id, reason }),
                None => if contains_any(l, seq!["build script"@]) && contains_any(
                    l,
                    seq!["echo ok"@, "true"@],
                ) {
                    Some(
                        LintFault::InvalidStepInstruction {
                            step_id,
                            reason: "Next.js build script must remain honest; do not replace it with no-op commands"@,
                        },
                    )
                } else {
                    None
                },
            }
        }
    } else {
        None
    }
}

/// The reason a step's instruction is refused for its kind, if it is.
pub fn step_instruction_fault(kind: StepKind, instruction: &str, no_paths: bool) -> (r: Option<&'static str>)
    ensures
        match r {
            Some(reason) => instruction_fault(kind, instruction@, no_paths) == Some(reason@),
            None => instruction_fault(kind, instruction@, no_paths) is None,
        },
{
    let lower = lower_str(instruction);
    let l = lower.as_str();
    let installs = ["npm install", "npm ci", "pnpm install", "pip install", "python -m pip"];
    assert(str_views(installs@) == dependency_install_phrases());
    if str_contains_any(l, &installs) {
        return Some(
            "dependency installation must not be a required success step; report dependency_missing when offline",
        );
    }
    let creating = ["create", "make", "initialize", "init", "ensure"];
    assert(str_views(creating@) == creation_words().push("ensure"@));
    let dirs = [" directory", " directories", " folder", " folders"];
    assert(str_views(dirs@) == directory_words());
    let creation = ["create", "make", "initialize", "init"];
    assert(str_views(creation@) == creation_words());
    let exist = ["exists", "exist"];
    assert(str_views(exist@) == seq!["exists"@, "exist"@]);
    let setup_or_create = match kind {
        StepKind::Setup | StepKind::Create => true,
        _ => false,
    };
    if setup_or_create && no_paths && str_contains_any(l, &creating) && str_contains_any(l, &dirs)
        && (str_contains_any(l, &creation) || str_contains_any(l, &exist)) {
        return Some(
            "directory-only steps are unnecessary because Write creates parent directories automatically",
        );
    }
    let inspect_words = ["create ", "write ", "edit ", "modify ", "update ", "fix ", "add "];
    assert(str_views(inspect_words@) == inspect_mutation_words());
    if kind == StepKind::Inspect && str_contains_any(l, &inspect_words) {
        return Some(
            "inspect steps are read-only; move file creation or edits into create/edit/repair steps",
        );
    }
    let verify_words = ["write ", "edit ", "modify ", "update ", "fix ", "repair "];
    assert(str_views(verify_words@) == verify_mutation_words());
    if kind == StepKind::Verify && str_contains_any(l, &verify_words) {
        return Some("verify steps must not mutate files; move fixes into create/edit/repair steps");
    }
    None
}

/// The reason an inspect step's optional targets are refused, if they are.
pub fn optional_inspection_paths_fault(kind: StepKind, instruction: &str, no_paths: bool) -> (r: Option<&'static str>)
    ensures
        match r {
            Some(reason) => optional_inspection_fault(kind, instruction@, no_paths) == Some(reason@),
            None => optional_inspection_fault(kind, instruction@, no_paths) is None,
        },
{
    if kind != StepKind::Inspect || no_paths {
        return None;
    }
    let lower = lower_str(instruction);
    let phrases = [
        "if it exists",
        "if exists",
        "if present",
        "if available",
        "when present",
        "if any",
        "if there is",
        "if there are",
    ];
    assert(str_views(phrases@) == optional_phrases());
    if str_contains_any(lower.as_str(), &phrases) {
        Some(
            "optional inspection targets must not be placed in expected_paths; use Read/Glob inspection and an empty expected_paths list",
        )
    } else {
        None
    }
}

fn is_existence_check(c: &str) -> (r: bool)
    ensures
        r == existence_check(c@),
{
    let t = trim_str(c);
    let l = lower_str(t.as_str());
    str_starts_with(l.as_str(), "test -f ") || str_starts_with(l.as_str(), "test -d ")
}

/// The reason an inspect step's verifiers are refused, if they are.
pub fn inspect_verifier_boundary_fault(kind: StepKind, no_paths: bool, verify: &Vec<String>) -> (r: Option<&'static str>)
    ensures
        match r {
            Some(reason) => inspect_verifier_fault(kind, no_paths, views(verify@)) == Some(reason@),
            None => inspect_verifier_fault(kind, no_paths, views(verify@)) is None,
        },
{
    if kind != StepKind::Inspect || !no_paths || verify.len() == 0 {
        return None;
    }
    let mut i: usize = 0;
    while i < verify.len()
        invariant
            i <= verify@.len(),
            forall|k: int| 0 <= k < i ==> !existence_check(#[trigger] views(verify@)[k]),
            kind == StepKind::Inspect,
            no_paths,
            verify@.len() > 0,
        decreases verify.len() - i,
    {
        if is_existence_check(verify[i].as_str()) {
            assert(existence_check(views(verify@)[i as int]));
            return Some(
                "inspect steps must not make optional file or directory discovery a fatal verifier; use verify: [] and observe with Read/Glob",
            );
        }
        i = i + 1;
    }
    None
}

/// Whether the step both creates new files and verifies them.
pub fn step_mixes_setup_and_verify(
    kind: StepKind,
    instruction: &str,
    verify: &Vec<String>,
    has_expected_paths: bool,
    paths_already_exist: bool,
) -> (r: bool)
    ensures
        r == mixes_setup_and_verify(kind, instruction@, views(verify@), has_expected_paths, paths_already_exist),
{
    if kind == StepKind::Verify || kind == StepKind::Report {
        return false;
    }
    let lower = lower_str(instruction);
    let l = lower.as_str();
    let setup_list = [
        "create ",
        "write ",
        "edit ",
        "add ",
        "install ",
        "scaffold ",
        "configure ",
        "implement ",
    ];
    assert(str_views(setup_list@) == setup_words());
    let verify_list = [
        "verify ",
        "validate ",
        "run build",
        "npm run build",
        "cargo check",
        "cargo test",
        "cargo build",
        "pytest",
        "test ",
    ];
    assert(str_views(verify_list@) == verify_words());
    let sequence_list = [
        " and run ",
        " then run ",
        " and verify ",
        " then verify ",
        " and validate ",
        " then validate ",
        " and test ",
        " then test ",
        " and build ",
        " then build ",
    ];
    assert(str_views(sequence_list@) == sequence_words());
    let setup = str_contains_any(l, &setup_list);
    let vbt = verifier_runs_build_test(verify);
    let verifies = str_contains_any(l, &verify_list) || vbt;
    let sequence = str_contains_any(l, &sequence_list);
    has_expected_paths && !paths_already_exist && setup && verifies && (sequence || vbt)
}

fn nextjs_root_drift_fault(
    kind: StepKind,
    l: &str,
    expected: &Vec<String>,
    ws: Option<&Vec<String>>,
) -> (r: Option<&'static str>)
    ensures
        match r {
            Some(reason) => root_drift_fault(kind, l@, views(expected@), super::ws_view(ws)) == Some(reason@),
            None => root_drift_fault(kind, l@, views(expected@), super::ws_view(ws)) is None,
        },
{
    let mutating = match kind {
        StepKind::Create | StepKind::Edit | StepKind::Repair => true,
        _ => false,
    };
    if !mutating {
        return None;
    }
    let migration = ["migrate", "migration", "move app root", "move route root"];
    assert(str_views(migration@) == migration_phrases());
    if str_contains_any(l, &migration) || ws.is_none() {
        return None;
    }
    let has_src_app = path_exists(ws, "src/app/page.tsx") || path_exists(ws, "src/app/layout.tsx");
    let has_root_app = path_exists(ws, "app/page.tsx") || path_exists(ws, "app/layout.tsx");
    if has_src_app && !has_root_app && super::contains_path(expected, "app/page.tsx") {
        return Some(
            "Next.js workspace already uses src/app; creating app/page.tsx would split the app root unless this is an explicit migration",
        );
    }
    if has_root_app && !has_src_app && super::contains_path(expected, "src/app/page.tsx") {
        return Some(
            "Next.js workspace already uses app; creating src/app/page.tsx would split the app root unless this is an explicit migration",
        );
    }
    None
}

/// The profile's scaffolding rules for one step: no `cargo init`/`cargo new`
/// in Rust, and in Next.js no `create-next-app`, no split app root and no
/// no-op build script.
pub fn profile_scaffold_fault(
    profile: &str,
    step_id: &str,
    kind: StepKind,
    instruction: &str,
    expected: &Vec<String>,
    ws: Option<&Vec<String>>,
) -> (r: Result<(), super::PlanLintError>)
    ensures
        super::lint_result(r, scaffold_fault(profile@, step_id@, kind, instruction@, views(expected@), super::ws_view(ws))),
{
    let lower = lower_str(instruction);
    let l = lower.as_str();
    let cargo = ["cargo init", "cargo new"];
    assert(str_views(cargo@) == seq!["cargo init"@, "cargo new"@]);
    if str_eq(profile, "rust") && str_contains_any(l, &cargo) {
        return Err(
            super::PlanLintError::ShellScaffold {
                step_id: crate::text::owned(step_id),
                command: crate::text::owned("cargo init/new"),
                guidance: crate::text::owned("create Cargo.toml and src/main.rs with Write/Edit"),
            },
        );
    }
    if str_eq(profile, "nextjs") {
        let next = [
            "create-next-app",
            "npm create next-app",
            "pnpm create next-app",
            "yarn create next-app",
        ];
        assert(str_views(next@) == next_scaffold_phrases());
        if str_contains_any(l, &next) {
            return Err(
                super::PlanLintError::ShellScaffold {
                    step_id: crate::text::owned(step_id),
                    command: crate::text::owned("create-next-app"),
                    guidance: crate::text::owned(
                        "create package.json and app/page.tsx with Write/Edit",
                    ),
                },
            );
        }
        match nextjs_root_drift_fault(kind, l, expected, ws) {
            Some(reason) => {
                return Err(
                    super::PlanLintError::InvalidStepInstruction {
                        step_id: crate::text::owned(step_id),
                        reason: crate::text::owned(reason),
                    },
                );
            },
            None => {},
        }
        let build = ["build script"];
        assert(str_views(build@) == seq!["build script"@]);
        let noop = ["echo ok", "true"];
        assert(str_views(noop@) == seq!["echo ok"@, "true"@]);
        if str_contains_any(l, &build) && str_contains_any(l, &noop) {
            return Err(
                super::PlanLintError::InvalidStepInstruction {
                    step_id: crate::text::owned(step_id),
                    reason: crate::text::owned(
                        "Next.js build script must remain honest; do not replace it with no-op commands",
                    ),
                },
            );
        }
    }
    Ok(())
}

} // verus!
