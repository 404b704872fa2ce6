//! Deterministic shell command classification for setup and verifier evidence.
//!
//! Nothing here runs a command or grants setup authority: a proposed shell
//! command is named as verifier-owned setup, inspection, mutation or blocked
//! dependency/network work, and the setup and recovery contracts decide.
use crate::paths::{underscore_words, underscored};
use crate::text::{
    contains, owned, push_str, split_words, str_contains, str_eq, views, words,
};
use vstd::prelude::*;

verus! {

/// What kind of work a shell command does.
#[derive(Debug, Clone, Copy, PartialEq, Eq, Structural)]
pub enum CommandClass {
    Verifier,
    SetupCheck,
    SetupExecution,
    Inspection,
    Mutation,
    NetworkOrDependency,
    Blocked,
    Unknown,
}

/// The authority a shell command needs before it may run.
#[derive(Debug, Clone, Copy, PartialEq, Eq, Structural)]
pub enum CommandAuthority {
    OriginalVerifier,
    VerifierOwnedSetup,
    ReadOnlyInspection,
    UserVisibleMutation,
    ExplicitSetupPolicyRequired,
    BlockedByPolicy,
    Unknown,
}

pub open spec fn class_name(c: CommandClass) -> Seq<char> {
    match c {
        CommandClass::Verifier => "verifier"@,
        CommandClass::SetupCheck => "setup_check"@,
        CommandClass::SetupExecution => "setup_execution"@,
        CommandClass::Inspection => "inspection"@,
        CommandClass::Mutation => "mutation"@,
        CommandClass::NetworkOrDependency => "network_or_dependency"@,
        CommandClass::Blocked => "blocked"@,
        CommandClass::Unknown => "unknown"@,
    }
}

pub open spec fn authority_name(a: CommandAuthority) -> Seq<char> {
    match a {
        CommandAuthority::OriginalVerifier => "original_verifier"@,
        CommandAuthority::VerifierOwnedSetup => "verifier_owned_setup"@,
        CommandAuthority::ReadOnlyInspection => "read_only_inspection"@,
        CommandAuthority::UserVisibleMutation => "user_visible_mutation"@,
        CommandAuthority::ExplicitSetupPolicyRequired => "explicit_setup_policy_required"@,
        CommandAuthority::BlockedByPolicy => "blocked_by_policy"@,
        CommandAuthority::Unknown => "unknown"@,
    }
}

impl CommandClass {
    /// The snake-case name of the class.
    pub fn as_str(self) -> (r: &'static str)
        ensures
            r@ == class_name(self),
    {
        match self {
            CommandClass::Verifier => "verifier",
            CommandClass::SetupCheck => "setup_check",
            CommandClass::SetupExecution => "setup_execution",
            CommandClass::Inspection => "inspection",
            CommandClass::Mutation => "mutation",
            CommandClass::NetworkOrDependency => "network_or_dependency",
            CommandClass::Blocked => "blocked",
            CommandClass::Unknown => "unknown",
        }
    }
}

impl CommandAuthority {
    /// The snake-case name of the authority.
    pub fn as_str(self) -> (r: &'static str)
        ensures
            r@ == authority_name(self),
    {
        match self {
            CommandAuthority::OriginalVerifier => "original_verifier",
            CommandAuthority::VerifierOwnedSetup => "verifier_owned_setup",
            CommandAuthority::ReadOnlyInspection => "read_only_inspection",
            CommandAuthority::UserVisibleMutation => "user_visible_mutation",
            CommandAuthority::ExplicitSetupPolicyRequired => "explicit_setup_policy_required",
            CommandAuthority::BlockedByPolicy => "blocked_by_policy",
            CommandAuthority::Unknown => "unknown",
        }
    }
}

/// A classified shell command: its class, the authority it needs and why.
#[derive(Debug, Clone, PartialEq, Eq)]
pub struct ShellCommandClassification {
    pub command_class: CommandClass,
    pub authority: CommandAuthority,
    pub reason: String,
}

/// The token list begins with `a`.
pub open spec fn starts1(ws: Seq<Seq<char>>, a: Seq<char>) -> bool {
    ws.len() >= 1 && ws[0] == a
}

/// The token list begins with `a b`.
pub open spec fn starts2(ws: Seq<Seq<char>>, a: Seq<char>, b: Seq<char>) -> bool {
    ws.len() >= 2 && ws[0] == a && ws[1] == b
}

/// The token list begins with `a b c`.
pub open spec fn starts3(ws: Seq<Seq<char>>, a: Seq<char>, b: Seq<char>, c: Seq<char>) -> bool {
    ws.len() >= 3 && ws[0] == a && ws[1] == b && ws[2] == c
}

/// A word holds a shell control sequence (`&&`, `||`, `;`, `|`, `$(` or a
/// backtick).
pub open spec fn has_shell_control(w: Seq<char>) -> bool {
    contains(w, "&&"@) || contains(w, "||"@) || contains(w, ";"@) || contains(w, "|"@)
        || contains(w, "$("@) || contains(w, "`"@)
}

/// Some word of the command holds a shell control sequence.
pub open spec fn shell_control(ws: Seq<Seq<char>>) -> bool {
    exists|i: int| 0 <= i < ws.len() && #[trigger] has_shell_control(ws[i])
}

pub open spec fn dependency_install(ws: Seq<Seq<char>>) -> bool {
    starts2(ws, "npm"@, "install"@) || starts2(ws, "npm"@, "i"@) || starts2(ws, "npm"@, "ci"@)
        || starts2(ws, "pnpm"@, "install"@) || starts2(ws, "yarn"@, "install"@) || starts2(
        ws,
        "pip"@,
        "install"@,
    ) || starts2(ws, "pip3"@, "install"@) || starts2(ws, "cargo"@, "install"@) || starts2(
        ws,
        "cargo"@,
        "fetch"@,
    )
}

pub open spec fn setup_execution(ws: Seq<Seq<char>>) -> bool {
    starts2(ws, "npm"@, "rebuild"@) || starts2(ws, "pnpm"@, "rebuild"@) || starts2(
        ws,
        "yarn"@,
        "rebuild"@,
    ) || starts2(ws, "cargo"@, "generate-lockfile"@)
}

pub open spec fn setup_check(ws: Seq<Seq<char>>) -> bool {
    starts2(ws, "node"@, "--version"@) || starts2(ws, "node"@, "-v"@) || starts2(
        ws,
        "npm"@,
        "--version"@,
    ) || starts2(ws, "npm"@, "-v"@) || starts2(ws, "cargo"@, "--version"@) || starts2(
        ws,
        "rustc"@,
        "--version"@,
    ) || starts2(ws, "python"@, "--version"@) || starts2(ws, "python3"@, "--version"@)
        || starts2(ws, "pip"@, "--version"@) || starts2(ws, "pip3"@, "--version"@)
}

pub open spec fn verifier_command(ws: Seq<Seq<char>>) -> bool {
    starts2(ws, "cargo"@, "test"@) || starts2(ws, "cargo"@, "check"@) || starts2(
        ws,
        "cargo"@,
        "clippy"@,
    ) || starts2(ws, "cargo"@, "build"@) || starts3(ws, "npm"@, "run"@, "build"@) || starts3(
        ws,
        "npm"@,
        "run"@,
        "test"@,
    ) || starts2(ws, "npm"@, "test"@) || starts2(ws, "pnpm"@, "test"@) || starts2(
        ws,
        "pnpm"@,
        "build"@,
    ) || starts1(ws, "pytest"@) || starts3(ws, "python"@, "-m"@, "pytest"@) || starts3(
        ws,
        "python3"@,
        "-m"@,
        "pytest"@,
    )
}

pub open spec fn inspection_program(w: Seq<char>) -> bool {
    w == "ls"@ || w == "pwd"@ || w == "cat"@ || w == "sed"@ || w == "rg"@ || w == "grep"@ || w
        == "find"@ || w == "wc"@ || w == "head"@ || w == "tail"@
}

pub open spec fn mutation_program(w: Seq<char>) -> bool {
    w == "mkdir"@ || w == "touch"@ || w == "cp"@ || w == "mv"@ || w == "chmod"@ || w == "git"@
        || w == "apply_patch"@
}

/// The class of a command given its whitespace-separated words, by the first
/// rule that applies: no words, shell control, dependency install, setup
/// execution, setup check, verifier, inspection program, mutation program.
pub open spec fn class_of(ws: Seq<Seq<char>>) -> CommandClass {
    if ws.len() == 0 {
        CommandClass::Unknown
    } else if shell_control(ws) {
        CommandClass::Blocked
    } else if dependency_install(ws) {
        CommandClass::NetworkOrDependency
    } else if setup_execution(ws) {
        CommandClass::SetupExecution
    } else if setup_check(ws) {
        CommandClass::SetupCheck
    } else if verifier_command(ws) {
        CommandClass::Verifier
    } else if inspection_program(ws[0]) {
        CommandClass::Inspection
    } else if mutation_program(ws[0]) {
        CommandClass::Mutation
    } else {
        CommandClass::Unknown
    }
}

/// A command, without shell control, that installs or fetches
/// dependencies (`npm install`, `npm i`, `npm ci`, `pnpm install`,
/// `yarn install`, `pip install`, `pip3 install`, `cargo install`,
/// `cargo fetch`, whatever follows) is network or dependency work: it needs
/// an explicit setup policy, and the reason says so.
pub proof fn lemma_dependency_installs(command: Seq<char>)
    requires
        ({
            let ws = words(command);
            &&& ws.len() >= 2
            &&& !shell_control(ws)
            &&& {
                ||| ws[0] == "npm"@ && (ws[1] == "install"@ || ws[1] == "i"@ || ws[1] == "ci"@)
                ||| ws[0] == "pnpm"@ && ws[1] == "install"@
                ||| ws[0] == "yarn"@ && ws[1] == "install"@
                ||| ws[0] == "pip"@ && ws[1] == "install"@
                ||| ws[0] == "pip3"@ && ws[1] == "install"@
                ||| ws[0] == "cargo"@ && (ws[1] == "install"@ || ws[1] == "fetch"@)
            }
        }),
    ensures
        class_of(words(command)) == CommandClass::NetworkOrDependency,
        authority_of(class_of(words(command))) == CommandAuthority::ExplicitSetupPolicyRequired,
        reason_of(words(command)) == "dependency setup requires a visible setup job and explicit policy"@,
{
}

/// A command, without shell control, that rebuilds installed packages or
/// generates the lock file (`npm rebuild`, `pnpm rebuild`, `yarn rebuild`,
/// `cargo generate-lockfile`) is local setup execution; one that asks a
/// tool for its version (`node --version` or `-v`, `npm --version` or
/// `-v`, `cargo`, `rustc`, `python`, `python3`, `pip` or `pip3` with
/// `--version`) is a setup check.
pub proof fn lemma_setup_commands(command: Seq<char>)
    requires
        words(command).len() >= 2,
        !shell_control(words(command)),
    ensures
        ({
            let ws = words(command);
            ||| (ws[0] == "npm"@ || ws[0] == "pnpm"@ || ws[0] == "yarn"@) && ws[1] == "rebuild"@
            ||| ws[0] == "cargo"@ && ws[1] == "generate-lockfile"@
        }) ==> class_of(words(command)) == CommandClass::SetupExecution,
        ({
            let ws = words(command);
            ||| (ws[0] == "node"@ || ws[0] == "npm"@) && (ws[1] == "--version"@ || ws[1] == "-v"@)
            ||| (ws[0] == "cargo"@ || ws[0] == "rustc"@ || ws[0] == "python"@ || ws[0] == "python3"@ || ws[0]
                == "pip"@ || ws[0] == "pip3"@) && ws[1] == "--version"@
        }) ==> class_of(words(command)) == CommandClass::SetupCheck,
{
    let ws = words(command);
    reveal_strlit("npm");
    reveal_strlit("pnpm");
    reveal_strlit("yarn");
    reveal_strlit("pip");
    reveal_strlit("pip3");
    reveal_strlit("cargo");
    reveal_strlit("node");
    reveal_strlit("rustc");
    reveal_strlit("python");
    reveal_strlit("python3");
    reveal_strlit("install");
    reveal_strlit("i");
    reveal_strlit("ci");
    reveal_strlit("fetch");
    reveal_strlit("rebuild");
    reveal_strlit("generate-lockfile");
    reveal_strlit("--version");
    reveal_strlit("-v");
    if ws[1] == "rebuild"@ {
        crate::text::lemma_differs_at(ws[1], "install"@, 0);
    }
    if ws[1] == "-v"@ {
        crate::text::lemma_differs_at(ws[1], "ci"@, 0);
    }
}

/// A command, without shell control, that runs the project's own checks
/// (`cargo test`, `cargo check`, `cargo clippy`, `cargo build`,
/// `npm run build`, `npm run test`, `npm test`, `pnpm test`, `pnpm build`,
/// `pytest`, `python -m pytest`, `python3 -m pytest`, whatever follows) is
/// an original verifier.
pub proof fn lemma_verifier_commands(command: Seq<char>)
    requires
        ({
            let ws = words(command);
            &&& ws.len() >= 1
            &&& !shell_control(ws)
            &&& {
                ||| ws.len() >= 2 && ws[0] == "cargo"@ && (ws[1] == "test"@ || ws[1] == "check"@ || ws[1] == "clippy"@
                    || ws[1] == "build"@)
                ||| ws.len() >= 3 && ws[0] == "npm"@ && ws[1] == "run"@ && (ws[2] == "build"@ || ws[2] == "test"@)
                ||| ws.len() >= 2 && ws[0] == "npm"@ && ws[1] == "test"@
                ||| ws.len() >= 2 && ws[0] == "pnpm"@ && (ws[1] == "test"@ || ws[1] == "build"@)
                ||| ws[0] == "pytest"@
                ||| ws.len() >= 3 && (ws[0] == "python"@ || ws[0] == "python3"@) && ws[1] == "-m"@ && ws[2]
                    == "pytest"@
            }
        }),
    ensures
        class_of(words(command)) == CommandClass::Verifier,
        authority_of(class_of(words(command))) == CommandAuthority::OriginalVerifier,
        reason_of(words(command)) == "command is an original verifier or test runner"@,
{
    let ws = words(command);
    reveal_strlit("npm");
    reveal_strlit("pnpm");
    reveal_strlit("yarn");
    reveal_strlit("pip");
    reveal_strlit("pip3");
    reveal_strlit("cargo");
    reveal_strlit("node");
    reveal_strlit("rustc");
    reveal_strlit("python");
    reveal_strlit("python3");
    reveal_strlit("pytest");
    reveal_strlit("install");
    reveal_strlit("i");
    reveal_strlit("ci");
    reveal_strlit("fetch");
    reveal_strlit("rebuild");
    reveal_strlit("generate-lockfile");
    reveal_strlit("--version");
    reveal_strlit("-v");
    reveal_strlit("test");
    reveal_strlit("check");
    reveal_strlit("clippy");
    reveal_strlit("build");
    reveal_strlit("run");
    reveal_strlit("-m");
    if ws[0] == "pytest"@ {
        crate::text::lemma_differs_at(ws[0], "python"@, 3);
    }
    if ws.len() >= 2 && ws[1] == "-m"@ {
        crate::text::lemma_differs_at(ws[1], "-v"@, 1);
        crate::text::lemma_differs_at(ws[1], "ci"@, 0);
    }
    if ws.len() >= 2 && ws[0] == "cargo"@ && ws[1] == "check"@ {
        crate::text::lemma_differs_at(ws[1], "fetch"@, 0);
    }
    if ws.len() >= 2 && ws[0] == "cargo"@ && ws[1] == "build"@ {
        crate::text::lemma_differs_at(ws[1], "fetch"@, 0);
    }
    assert(!dependency_install(ws));
    assert(!setup_execution(ws));
    assert(!setup_check(ws));
}

/// A command, without shell control, run by a read-only inspection program
/// (`ls`, `pwd`, `cat`, `sed`, `rg`, `grep`, `find`, `wc`, `head`, `tail`)
/// is inspection, and one run by a program that changes the workspace
/// (`mkdir`, `touch`, `cp`, `mv`, `chmod`, `git`, `apply_patch`) is
/// mutation, whatever its arguments.
pub proof fn lemma_program_classes(command: Seq<char>)
    requires
        words(command).len() >= 1,
        !shell_control(words(command)),
    ensures
        ({
            let w = words(command)[0];
            w == "ls"@ || w == "pwd"@ || w == "cat"@ || w == "sed"@ || w == "rg"@ || w == "grep"@ || w == "find"@ || w == "wc"@ || w == "head"@ || w == "tail"@
        }) ==> class_of(words(command)) == CommandClass::Inspection,
        ({
            let w = words(command)[0];
            w == "mkdir"@ || w == "touch"@ || w == "cp"@ || w == "mv"@ || w == "chmod"@ || w == "git"@ || w == "apply_patch"@
        }) ==> class_of(words(command)) == CommandClass::Mutation,
{
    let w = words(command)[0];
    reveal_strlit("npm");
    reveal_strlit("pnpm");
    reveal_strlit("yarn");
    reveal_strlit("pip");
    reveal_strlit("pip3");
    reveal_strlit("cargo");
    reveal_strlit("node");
    reveal_strlit("rustc");
    reveal_strlit("python");
    reveal_strlit("python3");
    reveal_strlit("pytest");
    reveal_strlit("ls");
    reveal_strlit("pwd");
    reveal_strlit("cat");
    reveal_strlit("sed");
    reveal_strlit("rg");
    reveal_strlit("grep");
    reveal_strlit("find");
    reveal_strlit("wc");
    reveal_strlit("head");
    reveal_strlit("tail");
    reveal_strlit("mkdir");
    reveal_strlit("touch");
    reveal_strlit("cp");
    reveal_strlit("mv");
    reveal_strlit("chmod");
    reveal_strlit("git");
    reveal_strlit("apply_patch");
    if w == "pwd"@ {
        crate::text::lemma_differs_at(w, "npm"@, 0);
        crate::text::lemma_differs_at(w, "pip"@, 1);
    }
    if w == "cat"@ {
        crate::text::lemma_differs_at(w, "npm"@, 0);
        crate::text::lemma_differs_at(w, "pip"@, 0);
    }
    if w == "sed"@ {
        crate::text::lemma_differs_at(w, "npm"@, 0);
        crate::text::lemma_differs_at(w, "pip"@, 0);
    }
    if w == "grep"@ {
        crate::text::lemma_differs_at(w, "pnpm"@, 0);
        crate::text::lemma_differs_at(w, "yarn"@, 0);
        crate::text::lemma_differs_at(w, "pip3"@, 0);
        crate::text::lemma_differs_at(w, "node"@, 0);
    }
    if w == "find"@ {
        crate::text::lemma_differs_at(w, "pnpm"@, 0);
        crate::text::lemma_differs_at(w, "yarn"@, 0);
        crate::text::lemma_differs_at(w, "pip3"@, 0);
        crate::text::lemma_differs_at(w, "node"@, 0);
    }
    if w == "head"@ {
        crate::text::lemma_differs_at(w, "pnpm"@, 0);
        crate::text::lemma_differs_at(w, "yarn"@, 0);
        crate::text::lemma_differs_at(w, "pip3"@, 0);
        crate::text::lemma_differs_at(w, "node"@, 0);
    }
    if w == "tail"@ {
        crate::text::lemma_differs_at(w, "pnpm"@, 0);
        crate::text::lemma_differs_at(w, "yarn"@, 0);
        crate::text::lemma_differs_at(w, "pip3"@, 0);
        crate::text::lemma_differs_at(w, "node"@, 0);
    }
    if w == "mkdir"@ {
        crate::text::lemma_differs_at(w, "cargo"@, 0);
        crate::text::lemma_differs_at(w, "rustc"@, 0);
    }
    if w == "touch"@ {
        crate::text::lemma_differs_at(w, "cargo"@, 0);
        crate::text::lemma_differs_at(w, "rustc"@, 0);
    }
    if w == "cp"@ {
        crate::text::lemma_differs_at(w, "ls"@, 0);
        crate::text::lemma_differs_at(w, "rg"@, 0);
        crate::text::lemma_differs_at(w, "wc"@, 0);
    }
    if w == "mv"@ {
        crate::text::lemma_differs_at(w, "ls"@, 0);
        crate::text::lemma_differs_at(w, "rg"@, 0);
        crate::text::lemma_differs_at(w, "wc"@, 0);
    }
    if w == "chmod"@ {
        crate::text::lemma_differs_at(w, "cargo"@, 1);
        crate::text::lemma_differs_at(w, "rustc"@, 0);
    }
    if w == "git"@ {
        crate::text::lemma_differs_at(w, "npm"@, 0);
        crate::text::lemma_differs_at(w, "pip"@, 0);
        crate::text::lemma_differs_at(w, "pwd"@, 0);
        crate::text::lemma_differs_at(w, "cat"@, 0);
        crate::text::lemma_differs_at(w, "sed"@, 0);
    }
}

/// The authority that goes with each class.
pub open spec fn authority_of(c: CommandClass) -> CommandAuthority {
    match c {
        CommandClass::Verifier => CommandAuthority::OriginalVerifier,
        CommandClass::SetupCheck => CommandAuthority::ReadOnlyInspection,
        CommandClass::SetupExecution => CommandAuthority::VerifierOwnedSetup,
        CommandClass::Inspection => CommandAuthority::ReadOnlyInspection,
        CommandClass::Mutation => CommandAuthority::UserVisibleMutation,
        CommandClass::NetworkOrDependency => CommandAuthority::ExplicitSetupPolicyRequired,
        CommandClass::Blocked => CommandAuthority::BlockedByPolicy,
        CommandClass::Unknown => CommandAuthority::Unknown,
    }
}

/// The reason given with the classification of a command.
pub open spec fn reason_of(ws: Seq<Seq<char>>) -> Seq<char> {
    if ws.len() == 0 {
        "empty command"@
    } else {
        match class_of(ws) {
            CommandClass::Blocked =>
                "compound shell control requires an explicit verifier or setup contract"@,
            CommandClass::NetworkOrDependency =>
                "dependency setup requires a visible setup job and explicit policy"@,
            CommandClass::SetupExecution =>
                "local setup execution is verifier-owned setup when admitted"@,
            CommandClass::SetupCheck => "setup check inspects toolchain or manifest state"@,
            CommandClass::Verifier => "command is an original verifier or test runner"@,
            CommandClass::Inspection => "command is read-only workspace inspection"@,
            CommandClass::Mutation =>
                "command mutates local workspace state and needs visible policy"@,
            CommandClass::Unknown => "command has no deterministic class"@,
        }
    }
}

/// Whether token `i` of the list is `lit`.
fn token_is(tokens: &Vec<String>, i: usize, lit: &str) -> (r: bool)
    ensures
        r == (i < tokens@.len() && views(tokens@)[i as int] == lit@),
{
    i < tokens.len() && str_eq(tokens[i].as_str(), lit)
}

fn begins2(tokens: &Vec<String>, a: &str, b: &str) -> (r: bool)
    ensures
        r == starts2(views(tokens@), a@, b@),
{
    token_is(tokens, 0, a) && token_is(tokens, 1, b)
}

fn begins3(tokens: &Vec<String>, a: &str, b: &str, c: &str) -> (r: bool)
    ensures
        r == starts3(views(tokens@), a@, b@, c@),
{
    token_is(tokens, 0, a) && token_is(tokens, 1, b) && token_is(tokens, 2, c)
}

fn word_has_shell_control(w: &str) -> (r: bool)
    ensures
        r == has_shell_control(w@),
{
    str_contains(w, "&&") || str_contains(w, "||") || str_contains(w, ";") || str_contains(w, "|")
        || str_contains(w, "$(") || str_contains(w, "`")
}

fn contains_shell_control(tokens: &Vec<String>) -> (r: bool)
    ensures
        r == shell_control(views(tokens@)),
{
    let mut i: usize = 0;
    while i < tokens.len()
        invariant
            i <= tokens@.len(),
            forall|k: int| 0 <= k < i ==> !has_shell_control(#[trigger] views(tokens@)[k]),
        decreases tokens.len() - i,
    {
        if word_has_shell_control(tokens[i].as_str()) {
            assert(has_shell_control(views(tokens@)[i as int]));
            return true;
        }
        i = i + 1;
    }
    false
}

fn is_dependency_install(t: &Vec<String>) -> (r: bool)
    ensures
        r == dependency_install(views(t@)),
{
    begins2(t, "npm", "install") || begins2(t, "npm", "i") || begins2(t, "npm", "ci") || begins2(
        t,
        "pnpm",
        "install",
    ) || begins2(t, "yarn", "install") || begins2(t, "pip", "install") || begins2(
        t,
        "pip3",
        "install",
    ) || begins2(t, "cargo", "install") || begins2(t, "cargo", "fetch")
}

fn is_setup_execution(t: &Vec<String>) -> (r: bool)
    ensures
        r == setup_execution(views(t@)),
{
    begins2(t, "npm", "rebuild") || begins2(t, "pnpm", "rebuild") || begins2(t, "yarn", "rebuild")
        || begins2(t, "cargo", "generate-lockfile")
}

fn is_setup_check(t: &Vec<String>) -> (r: bool)
    ensures
        r == setup_check(views(t@)),
{
    begins2(t, "node", "--version") || begins2(t, "node", "-v") || begins2(t, "npm", "--version")
        || begins2(t, "npm", "-v") || begins2(t, "cargo", "--version") || begins2(
        t,
        "rustc",
        "--version",
    ) || begins2(t, "python", "--version") || begins2(t, "python3", "--version") || begins2(
        t,
        "pip",
        "--version",
    ) || begins2(t, "pip3", "--version")
}

fn is_verifier(t: &Vec<String>) -> (r: bool)
    ensures
        r == verifier_command(views(t@)),
{
    begins2(t, "cargo", "test") || begins2(t, "cargo", "check") || begins2(t, "cargo", "clippy")
        || begins2(t, "cargo", "build") || begins3(t, "npm", "run", "build") || begins3(
        t,
        "npm",
        "run",
        "test",
    ) || begins2(t, "npm", "test") || begins2(t, "pnpm", "test") || begins2(t, "pnpm", "build")
        || token_is(t, 0, "pytest") || begins3(t, "python", "-m", "pytest") || begins3(
        t,
        "python3",
        "-m",
        "pytest",
    )
}

fn is_inspection(w: &str) -> (r: bool)
    ensures
        r == inspection_program(w@),
{
    str_eq(w, "ls") || str_eq(w, "pwd") || str_eq(w, "cat") || str_eq(w, "sed") || str_eq(w, "rg")
        || str_eq(w, "grep") || str_eq(w, "find") || str_eq(w, "wc") || str_eq(w, "head")
        || str_eq(w, "tail")
}

fn is_mutation(w: &str) -> (r: bool)
    ensures
        r == mutation_program(w@),
{
    str_eq(w, "mkdir") || str_eq(w, "touch") || str_eq(w, "cp") || str_eq(w, "mv") || str_eq(
        w,
        "chmod",
    ) || str_eq(w, "git") || str_eq(w, "apply_patch")
}

fn classify(class: CommandClass, reason: &str) -> (r: ShellCommandClassification)
    ensures
        r.command_class == class,
        r.authority == authority_of(class),
        r.reason@ == reason@,
{
    let authority = match class {
        CommandClass::Verifier => CommandAuthority::OriginalVerifier,
        CommandClass::SetupCheck => CommandAuthority::ReadOnlyInspection,
        CommandClass::SetupExecution => CommandAuthority::VerifierOwnedSetup,
        CommandClass::Inspection => CommandAuthority::ReadOnlyInspection,
        CommandClass::Mutation => CommandAuthority::UserVisibleMutation,
        CommandClass::NetworkOrDependency => CommandAuthority::ExplicitSetupPolicyRequired,
        CommandClass::Blocked => CommandAuthority::BlockedByPolicy,
        CommandClass::Unknown => CommandAuthority::Unknown,
    };
    ShellCommandClassification { command_class: class, authority, reason: owned(reason) }
}

/// Classifies a proposed shell command by its whitespace-separated words.
pub fn classify_shell_command(command: &str) -> (r: ShellCommandClassification)
    ensures
        r.command_class == class_of(words(command@)),
        r.authority == authority_of(class_of(words(command@))),
        r.reason@ == reason_of(words(command@)),
{
    let tokens = split_words(command);
    if tokens.len() == 0 {
        return classify(CommandClass::Unknown, "empty command");
    }
    if contains_shell_control(&tokens) {
        return classify(
            CommandClass::Blocked,
            "compound shell control requires an explicit verifier or setup contract",
        );
    }
    if is_dependency_install(&tokens) {
        return classify(
            CommandClass::NetworkOrDependency,
            "dependency setup requires a visible setup job and explicit policy",
        );
    }
    if is_setup_execution(&tokens) {
        return classify(
            CommandClass::SetupExecution,
            "local setup execution is verifier-owned setup when admitted",
        );
    }
    if is_setup_check(&tokens) {
        return classify(
            CommandClass::SetupCheck,
            "setup check inspects toolchain or manifest state",
        );
    }
    if is_verifier(&tokens) {
        return classify(CommandClass::Verifier, "command is an original verifier or test runner");
    }
    let first = tokens[0].as_str();
    if is_inspection(first) {
        return classify(CommandClass::Inspection, "command is read-only workspace inspection");
    }
    if is_mutation(first) {
        return classify(
            CommandClass::Mutation,
            "command mutates local workspace state and needs visible policy",
        );
    }
    classify(CommandClass::Unknown, "command has no deterministic class")
}

impl ShellCommandClassification {
    /// The report fields of the classification:
    /// `setup_command_classification=<class>`, `command_authority=<authority>`
    /// and `command_classification_reason=<reason with words joined by _>`.
    pub fn eval_report_fields(&self) -> (r: Vec<String>)
        ensures
            views(r@) == seq![
                "setup_command_classification="@ + class_name(self.command_class),
                "command_authority="@ + authority_name(self.authority),
                "command_classification_reason="@ + underscored(self.reason@),
            ],
    {
        let mut a = owned("setup_command_classification=");
        push_str(&mut a, self.command_class.as_str());
        let mut b = owned("command_authority=");
        push_str(&mut b, self.authority.as_str());
        let mut c = owned("command_classification_reason=");
        let reason = underscore_words(self.reason.as_str());
        push_str(&mut c, reason.as_str());
        let r = vec![a, b, c];
        assert(views(r@) =~= seq![a@, b@, c@]);
        r
    }
}

} // verus!
