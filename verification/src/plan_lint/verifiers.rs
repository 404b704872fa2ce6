//! Verifier commands must be one simple, honest local check.
use super::PlanLintError;
use crate::paths::{std_extension_in, std_extension_is};
use crate::text::{
    chars_of, contains, ends_with, lower, lower_str, owned, slice_range, split_words,
    starts_with, starts_with_any, str_contains, str_ends_with, str_eq, str_starts_with,
    str_starts_with_any, str_views, string_of, trim, trim_str, views, words,
};
use vstd::prelude::*;

verus! {

/// Whether shell chaining (`;`, `&&` or `||`) occurs outside quotes from
/// position `i` on, given the quoting state there.
pub open spec fn control_from(s: Seq<char>, i: int, single: bool, double: bool, escaped: bool) -> bool
    decreases s.len() - i,
{
    if i < 0 || i >= s.len() {
        false
    } else {
        let ch = s[i];
        let next_is = |c: char| i + 1 < s.len() && s[i + 1] == c;
        if escaped {
            control_from(s, i + 1, single, double, false)
        } else if ch == '\\' && double {
            control_from(s, i + 1, single, double, true)
        } else if ch == '\'' && !double {
            control_from(s, i + 1, !single, double, false)
        } else if ch == '"' && !single {
            control_from(s, i + 1, single, !double, false)
        } else if !single && !double && (ch == ';' || (ch == '&' && next_is('&')) || (ch == '|'
            && next_is('|'))) {
            true
        } else {
            control_from(s, i + 1, single, double, false)
        }
    }
}

/// The command chains shell commands outside quotes.
pub open spec fn unquoted_control(s: Seq<char>) -> bool {
    control_from(s, 0, false, false, false)
}

pub open spec fn is_quote(c: char) -> bool {
    c == '\'' || c == '"'
}

pub open spec fn strip_lead_quotes(s: Seq<char>) -> Seq<char>
    decreases s.len(),
{
    if s.len() > 0 && is_quote(s[0]) {
        strip_lead_quotes(s.skip(1))
    } else {
        s
    }
}

pub open spec fn strip_trail_quotes(s: Seq<char>) -> Seq<char>
    decreases s.len(),
{
    if s.len() > 0 && is_quote(s.last()) {
        strip_trail_quotes(s.drop_last())
    } else {
        s
    }
}

/// Quote characters removed from both ends.
pub open spec fn strip_quotes(s: Seq<char>) -> Seq<char> {
    strip_trail_quotes(strip_lead_quotes(s))
}

pub open spec fn source_extensions() -> Seq<Seq<char>> {
    seq![
        "c"@,
        "cc"@,
        "cpp"@,
        "cs"@,
        "go"@,
        "h"@,
        "hpp"@,
        "java"@,
        "js"@,
        "jsx"@,
        "kt"@,
        "php"@,
        "py"@,
        "rb"@,
        "rs"@,
        "swift"@,
        "ts"@,
        "tsx"@,
    ]
}

/// A `grep -q` check whose target, its last word, is a source file.
pub open spec fn source_grep(t: Seq<char>) -> bool {
    starts_with(lower(t), "grep -q "@) && words(t).len() > 0 && std_extension_in(
        strip_quotes(words(t).last()),
        source_extensions(),
    )
}

/// The index of the first word equal to `w`, or the number of words.
pub open spec fn word_index(ws: Seq<Seq<char>>, w: Seq<char>) -> int
    decreases ws.len(),
{
    if ws.len() == 0 {
        0
    } else {
        let k = word_index(ws.drop_last(), w);
        if k < ws.len() - 1 {
            k
        } else if ws.last() == w {
            ws.len() - 1
        } else {
            ws.len() as int
        }
    }
}

/// A `py_compile` check of some file that is not Python source.
pub open spec fn wrong_py_compile(t: Seq<char>) -> bool {
    let l = lower(t);
    let ws = words(t);
    let k = word_index(ws, "py_compile"@);
    (starts_with(l, "python -m py_compile "@) || starts_with(l, "python3 -m py_compile "@))
        && exists|j: int|
        k < j < ws.len() && !starts_with(#[trigger] ws[j], "-"@) && !ends_with(
            strip_quotes(ws[j]),
            ".py"@,
        )
}

/// A file check that needs a dependency cache to exist.
pub open spec fn requires_cache(t: Seq<char>) -> bool {
    let l = lower(trim(t));
    (starts_with(l, "test -f "@) || starts_with(l, "test -d "@)) && (contains(l, "node_modules/"@)
        || ends_with(l, " node_modules"@) || contains(l, " .venv/"@) || ends_with(l, " .venv"@))
}

pub open spec fn install_prefixes() -> Seq<Seq<char>> {
    seq![
        "npm install"@,
        "npm ci"@,
        "pnpm install"@,
        "pip install"@,
        "python -m pip"@,
        "cargo add"@,
        "cargo update"@,
    ]
}

/// Why a verifier command is refused, if it is.
pub open spec fn verifier_fault(command: Seq<char>) -> Option<Seq<char>> {
    let t = trim(command);
    let l = lower(t);
    if unquoted_control(t) {
        Some(
            "verifier commands must be one simple local check; split shell chaining into separate commands"@,
        )
    } else if l == "true"@ {
        Some("no-op verifier is not allowed; use an empty verify list for report-only steps"@)
    } else if source_grep(t) {
        Some(
            "source-code behavior must be verified with build/test/check commands; reserve grep -q for literal docs, data, or content checks"@,
        )
    } else if wrong_py_compile(t) {
        Some(
            "python -m py_compile only verifies Python files; use the profile's build/test/check command for other source files"@,
        )
    } else if starts_with_any(l, install_prefixes()) {
        Some("verifier commands must not install dependencies or mutate project state"@)
    } else if requires_cache(t) {
        Some(
            "verifier commands must not require generated dependency caches; report dependency_missing when local dependencies are unavailable"@,
        )
    } else {
        None
    }
}

/// A verifier command that chains shell commands (`;`, `&&` or `||`
/// outside quotes) is refused for it first; and a command that is only
/// `true`, in any case and with surrounding whitespace, is refused as a
/// no-op.
pub proof fn lemma_chained_and_noop_verifiers_refused(command: Seq<char>)
    ensures
        unquoted_control(trim(command)) ==> verifier_fault(command) == Some(
            "verifier commands must be one simple local check; split shell chaining into separate commands"@,
        ),
        !unquoted_control(trim(command)) && lower(trim(command)) == "true"@ ==> verifier_fault(command) == Some(
            "no-op verifier is not allowed; use an empty verify list for report-only steps"@,
        ),
{
}

/// A verifier command that installs dependencies or changes the project's
/// dependency set (its trimmed, lower-cased text starts with `npm install`,
/// `npm ci`, `pnpm install`, `pip install`, `python -m pip`, `cargo add` or
/// `cargo update`) is refused for it, unless it was already refused for
/// chaining shell commands.
pub proof fn lemma_install_verifiers_refused(command: Seq<char>)
    requires
        !unquoted_control(trim(command)),
        ({
            let l = lower(trim(command));
            ||| starts_with(l, "npm install"@)
            ||| starts_with(l, "npm ci"@)
            ||| starts_with(l, "pnpm install"@)
            ||| starts_with(l, "pip install"@)
            ||| starts_with(l, "python -m pip"@)
            ||| starts_with(l, "cargo add"@)
            ||| starts_with(l, "cargo update"@)
        }),
    ensures
        verifier_fault(command) == Some("verifier commands must not install dependencies or mutate project state"@),
{
    let t = trim(command);
    let l = lower(t);
    reveal_strlit("npm install");
    reveal_strlit("npm ci");
    reveal_strlit("pnpm install");
    reveal_strlit("pip install");
    reveal_strlit("python -m pip");
    reveal_strlit("cargo add");
    reveal_strlit("cargo update");
    reveal_strlit("true");
    reveal_strlit("grep -q ");
    reveal_strlit("python -m py_compile ");
    reveal_strlit("python3 -m py_compile ");
    let p = if starts_with(l, "npm install"@) {
        "npm install"@
    } else if starts_with(l, "npm ci"@) {
        "npm ci"@
    } else if starts_with(l, "pnpm install"@) {
        "pnpm install"@
    } else if starts_with(l, "pip install"@) {
        "pip install"@
    } else if starts_with(l, "python -m pip"@) {
        "python -m pip"@
    } else if starts_with(l, "cargo add"@) {
        "cargo add"@
    } else {
        "cargo update"@
    };
    assert(starts_with(l, p));
    assert(l != "true"@);
    crate::text::lemma_prefix_excludes(l, p, "grep -q "@, 0);
    if p == "python -m pip"@ {
        crate::text::lemma_prefix_excludes(l, p, "python -m py_compile "@, 11);
        crate::text::lemma_prefix_excludes(l, p, "python3 -m py_compile "@, 6);
    } else {
        crate::text::lemma_prefix_excludes(l, p, "python -m py_compile "@, 1);
        crate::text::lemma_prefix_excludes(l, p, "python3 -m py_compile "@, 1);
    }
    assert(!source_grep(t));
    assert(!wrong_py_compile(t));
    let ps = install_prefixes();
    assert(ps[0] == "npm install"@ && ps[1] == "npm ci"@ && ps[2] == "pnpm install"@ && ps[3] == "pip install"@
        && ps[4] == "python -m pip"@ && ps[5] == "cargo add"@ && ps[6] == "cargo update"@);
    assert(starts_with_any(l, ps));
}

/// A `test -f` or `test -d` verifier about a dependency cache
/// (`node_modules/` or `.venv`) is refused: it would need generated
/// dependency caches to exist.
pub proof fn lemma_cache_verifiers_refused(command: Seq<char>)
    requires
        !unquoted_control(trim(command)),
        ({
            let l = lower(trim(command));
            &&& starts_with(l, "test -f "@) || starts_with(l, "test -d "@)
            &&& contains(l, "node_modules/"@) || crate::text::ends_with(l, " node_modules"@) || contains(l, " .venv/"@)
                || crate::text::ends_with(l, " .venv"@)
        }),
    ensures
        verifier_fault(command) == Some(
            "verifier commands must not require generated dependency caches; report dependency_missing when local dependencies are unavailable"@,
        ),
{
    let t = trim(command);
    let l = lower(t);
    crate::text::lemma_trim_idempotent(command);
    reveal_strlit("test -f ");
    reveal_strlit("test -d ");
    reveal_strlit("true");
    reveal_strlit("grep -q ");
    reveal_strlit("python -m py_compile ");
    reveal_strlit("python3 -m py_compile ");
    let p = if starts_with(l, "test -f "@) { "test -f "@ } else { "test -d "@ };
    assert(l != "true"@) by {
        if l == "true"@ {
            assert(l.subrange(0, 8)[2] == l[2]);
        }
    }
    crate::text::lemma_prefix_excludes(l, p, "grep -q "@, 0);
    crate::text::lemma_prefix_excludes(l, p, "python -m py_compile "@, 0);
    crate::text::lemma_prefix_excludes(l, p, "python3 -m py_compile "@, 0);
    assert(!source_grep(t));
    assert(!wrong_py_compile(t));
    let ps = install_prefixes();
    assert(!starts_with_any(l, ps)) by {
        reveal_strlit("npm install");
        reveal_strlit("npm ci");
        reveal_strlit("pnpm install");
        reveal_strlit("pip install");
        reveal_strlit("python -m pip");
        reveal_strlit("cargo add");
        reveal_strlit("cargo update");
        assert forall|k: int| 0 <= k < ps.len() implies !starts_with(l, #[trigger] ps[k]) by {
            crate::text::lemma_prefix_excludes(l, p, ps[k], 0);
        }
    }
}

/// The first refused command of a list and why.
pub open spec fn commands_fault(cmds: Seq<Seq<char>>) -> Option<(Seq<char>, Seq<char>)>
    decreases cmds.len(),
{
    if cmds.len() == 0 {
        None
    } else {
        match commands_fault(cmds.drop_last()) {
            Some(f) => Some(f),
            None => match verifier_fault(cmds.last()) {
                Some(reason) => Some((cmds.last(), reason)),
                None => None,
            },
        }
    }
}

/// The command runs the project's build or tests.
pub open spec fn builds_or_tests(c: Seq<char>) -> bool {
    let l = lower(trim(c));
    ||| l == "npm run build"@
    ||| l == "cargo check"@
    ||| l == "cargo test"@
    ||| l == "cargo build"@
    ||| starts_with(l, "python -m pytest"@)
    ||| starts_with(l, "python3 -m pytest"@)
    ||| l == "pytest"@
    ||| starts_with(l, "pytest "@)
}

/// Some command of the list runs the build or tests.
pub open spec fn runs_build_test(cmds: Seq<Seq<char>>) -> bool {
    exists|i: int| 0 <= i < cmds.len() && builds_or_tests(#[trigger] cmds[i])
}

fn contains_unquoted_shell_control(command: &str) -> (r: bool)
    ensures
        r == unquoted_control(command@),
{
    let s = chars_of(command);
    let mut single = false;
    let mut double = false;
    let mut escaped = false;
    let mut i: usize = 0;
    while i < s.len()
        invariant
            i <= s@.len(),
            s@ == command@,
            control_from(s@, 0, false, false, false) == control_from(s@, i as int, single, double, escaped),
        decreases s.len() - i,
    {
        let ch = s[i];
        let next = if i + 1 < s.len() { s[i + 1] } else { ' ' };
        if escaped {
            escaped = false;
        } else if ch == '\\' && double {
            escaped = true;
        } else if ch == '\'' && !double {
            single = !single;
        } else if ch == '"' && !single {
            double = !double;
        } else if !single && !double && (ch == ';' || (ch == '&' && i + 1 < s.len() && next == '&')
            || (ch == '|' && i + 1 < s.len() && next == '|')) {
            return true;
        }
        i = i + 1;
    }
    false
}

/// Quote characters removed from both ends of a word.
fn strip_quote_chars(w: &str) -> (r: String)
    ensures
        r@ == strip_quotes(w@),
{
    let v = chars_of(w);
    let mut lo: usize = 0;
    assert(v@.subrange(0, v@.len() as int) =~= v@);
    while lo < v.len() && (v[lo] == '\'' || v[lo] == '"')
        invariant
            lo <= v@.len(),
            strip_lead_quotes(v@) == strip_lead_quotes(v@.subrange(lo as int, v@.len() as int)),
        decreases v.len() - lo,
    {
        proof {
            assert(v@.subrange(lo as int, v@.len() as int).skip(1) =~= v@.subrange(lo + 1, v@.len() as int));
        }
        lo = lo + 1;
    }
    let ghost t = v@.subrange(lo as int, v@.len() as int);
    assert(strip_lead_quotes(v@) == t);
    let mut hi: usize = v.len();
    while hi > lo && (v[hi - 1] == '\'' || v[hi - 1] == '"')
        invariant
            lo <= hi <= v@.len(),
            t == v@.subrange(lo as int, v@.len() as int),
            strip_trail_quotes(t) == strip_trail_quotes(v@.subrange(lo as int, hi as int)),
        decreases hi,
    {
        proof {
            assert(v@.subrange(lo as int, hi as int).drop_last() =~= v@.subrange(lo as int, hi - 1));
        }
        hi = hi - 1;
    }
    string_of(slice_range(v.as_slice(), lo, hi).as_slice())
}

fn is_source_grep_verifier(t: &str) -> (r: bool)
    ensures
        r == source_grep(t@),
{
    let l = lower_str(t);
    if !str_starts_with(l.as_str(), "grep -q ") {
        return false;
    }
    let ws = split_words(t);
    if ws.len() == 0 {
        return false;
    }
    assert(views(ws@).last() == ws@[ws@.len() - 1]@);
    let path = strip_quote_chars(ws[ws.len() - 1].as_str());
    let exts = [
        "c",
        "cc",
        "cpp",
        "cs",
        "go",
        "h",
        "hpp",
        "java",
        "js",
        "jsx",
        "kt",
        "php",
        "py",
        "rb",
        "rs",
        "swift",
        "ts",
        "tsx",
    ];
    assert(str_views(exts@) == source_extensions());
    std_extension_is(path.as_str(), &exts)
}

fn is_wrong_language_py_compile(t: &str) -> (r: bool)
    ensures
        r == wrong_py_compile(t@),
{
    let l = lower_str(t);
    if !(str_starts_with(l.as_str(), "python -m py_compile ") || str_starts_with(
        l.as_str(),
        "python3 -m py_compile ",
    )) {
        return false;
    }
    let ws = split_words(t);
    let ghost vs = views(ws@);
    let mut k: usize = 0;
    while k < ws.len() && !str_eq(ws[k].as_str(), "py_compile")
        invariant
            k <= ws@.len(),
            vs == views(ws@),
            word_index(vs.take(k as int), "py_compile"@) == k,
        decreases ws.len() - k,
    {
        proof {
            assert(vs.take(k + 1).drop_last() =~= vs.take(k as int));
        }
        k = k + 1;
    }
    if k == ws.len() {
        assert(vs.take(k as int) =~= vs);
        return false;
    }
    proof {
        assert(vs.take(k + 1).drop_last() =~= vs.take(k as int));
        assert(word_index(vs.take(k + 1), "py_compile"@) == k);
        lemma_word_index_prefix(vs, "py_compile"@, k as int + 1);
    }
    let mut j: usize = k + 1;
    while j < ws.len()
        invariant
            k < j,
            j <= ws@.len() + 1,
            vs == views(ws@),
            vs == words(t@),
            starts_with(lower(t@), "python -m py_compile "@) || starts_with(lower(t@), "python3 -m py_compile "@),
            word_index(vs, "py_compile"@) == k,
            forall|m: int| k < m < j && m < vs.len() ==> starts_with(#[trigger] vs[m], "-"@) || ends_with(
                strip_quotes(vs[m]),
                ".py"@,
            ),
        decreases ws.len() + 1 - j,
    {
        let w = ws[j].as_str();
        if !str_starts_with(w, "-") {
            let p = strip_quote_chars(w);
            if !str_ends_with(p.as_str(), ".py") {
                assert(k < j < vs.len() && !starts_with(vs[j as int], "-"@) && !ends_with(strip_quotes(vs[j as int]), ".py"@));
                return true;
            }
        }
        j = j + 1;
    }
    false
}

proof fn lemma_word_index_prefix(ws: Seq<Seq<char>>, w: Seq<char>, n: int)
    requires
        1 <= n <= ws.len(),
        word_index(ws.take(n), w) < n,
    ensures
        word_index(ws, w) == word_index(ws.take(n), w),
    decreases ws.len() - n,
{
    if n < ws.len() {
        assert(ws.take(n + 1).drop_last() =~= ws.take(n));
        lemma_word_index_prefix(ws, w, n + 1);
    } else {
        assert(ws.take(n) =~= ws);
    }
}

fn requires_dependency_cache(t: &str) -> (r: bool)
    ensures
        r == requires_cache(t@),
{
    let tt = trim_str(t);
    let l = lower_str(tt.as_str());
    let l = l.as_str();
    (str_starts_with(l, "test -f ") || str_starts_with(l, "test -d ")) && (str_contains(
        l,
        "node_modules/",
    ) || str_ends_with(l, " node_modules") || str_contains(l, " .venv/") || str_ends_with(
        l,
        " .venv",
    ))
}

/// The reason a verifier command is refused, if it is.
pub fn verifier_command_fault(command: &str) -> (r: Option<&'static str>)
    ensures
        match r {
            Some(reason) => verifier_fault(command@) == Some(reason@),
            None => verifier_fault(command@) is None,
        },
{
    let t = trim_str(command);
    let t = t.as_str();
    if contains_unquoted_shell_control(t) {
        return Some(
            "verifier commands must be one simple local check; split shell chaining into separate commands",
        );
    }
    let l = lower_str(t);
    if str_eq(l.as_str(), "true") {
        return Some(
            "no-op verifier is not allowed; use an empty verify list for report-only steps",
        );
    }
    if is_source_grep_verifier(t) {
        return Some(
            "source-code behavior must be verified with build/test/check commands; reserve grep -q for literal docs, data, or content checks",
        );
    }
    if is_wrong_language_py_compile(t) {
        return Some(
            "python -m py_compile only verifies Python files; use the profile's build/test/check command for other source files",
        );
    }
    let prefixes = [
        "npm install",
        "npm ci",
        "pnpm install",
        "pip install",
        "python -m pip",
        "cargo add",
        "cargo update",
    ];
    assert(str_views(prefixes@) == install_prefixes());
    if str_starts_with_any(l.as_str(), &prefixes) {
        return Some("verifier commands must not install dependencies or mutate project state");
    }
    if requires_dependency_cache(t) {
        return Some(
            "verifier commands must not require generated dependency caches; report dependency_missing when local dependencies are unavailable",
        );
    }
    None
}

/// Refuses the first verifier command of the step that is not one simple,
/// honest local check.
pub fn lint_verifier_commands(step_id: &str, commands: &Vec<String>) -> (r: Result<(), PlanLintError>)
    ensures
        match r {
            Ok(()) => commands_fault(views(commands@)) is None,
            Err(PlanLintError::InvalidVerifierCommand { step_id: s, command, reason }) => s@
                == step_id@ && commands_fault(views(commands@)) == Some((command@, reason@)),
            Err(_) => false,
        },
{
    let ghost vs = views(commands@);
    let mut i: usize = 0;
    while i < commands.len()
        invariant
            i <= commands@.len(),
            vs == views(commands@),
            commands_fault(vs.take(i as int)) is None,
        decreases commands.len() - i,
    {
        proof {
            assert(vs.take(i + 1).drop_last() =~= vs.take(i as int));
        }
        match verifier_command_fault(commands[i].as_str()) {
            Some(reason) => {
                proof {
                    lemma_commands_fault_prefix(vs, i as int + 1);
                }
                return Err(
                    PlanLintError::InvalidVerifierCommand {
                        step_id: owned(step_id),
                        command: owned(commands[i].as_str()),
                        reason: owned(reason),
                    },
                );
            },
            None => {},
        }
        i = i + 1;
    }
    assert(vs.take(commands@.len() as int) =~= vs);
    Ok(())
}

proof fn lemma_commands_fault_prefix(cmds: Seq<Seq<char>>, n: int)
    requires
        1 <= n <= cmds.len(),
        commands_fault(cmds.take(n)) is Some,
    ensures
        commands_fault(cmds) == commands_fault(cmds.take(n)),
    decreases cmds.len() - n,
{
    if n < cmds.len() {
        assert(cmds.take(n + 1).drop_last() =~= cmds.take(n));
        lemma_commands_fault_prefix(cmds, n + 1);
    } else {
        assert(cmds.take(n) =~= cmds);
    }
}

fn runs_build_or_test(c: &str) -> (r: bool)
    ensures
        r == builds_or_tests(c@),
{
    let t = trim_str(c);
    let l = lower_str(t.as_str());
    let l = l.as_str();
    str_eq(l, "npm run build") || str_eq(l, "cargo check") || str_eq(l, "cargo test") || str_eq(
        l,
        "cargo build",
    ) || str_starts_with(l, "python -m pytest") || str_starts_with(l, "python3 -m pytest")
        || str_eq(l, "pytest") || str_starts_with(l, "pytest ")
}

/// Whether some verifier command runs the project's build or tests.
pub fn verifier_runs_build_test(commands: &Vec<String>) -> (r: bool)
    ensures
        r == runs_build_test(views(commands@)),
{
    let mut i: usize = 0;
    while i < commands.len()
        invariant
            i <= commands@.len(),
            forall|k: int| 0 <= k < i ==> !builds_or_tests(#[trigger] views(commands@)[k]),
        decreases commands.len() - i,
    {
        if runs_build_or_test(commands[i].as_str()) {
            assert(builds_or_tests(views(commands@)[i as int]));
            return true;
        }
        i = i + 1;
    }
    false
}

} // verus!
