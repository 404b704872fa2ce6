//! Expected paths must name one concrete, repository-relative file.
use super::PlanLintError;
use crate::paths::{one_of, std_extension_in, std_extension_is, is_one_of};
use crate::text::{
    chars_of, contains, ends_with, has_char, owned, starts_with, str_contains, str_ends_with,
    str_eq, str_has_char, str_starts_with, str_views, trim, trim_str,
};
use vstd::prelude::*;

verus! {

pub open spec fn is_digit(c: char) -> bool {
    '0' <= c && c <= '9'
}

pub open spec fn is_ascii_alnum(c: char) -> bool {
    is_digit(c) || ('a' <= c && c <= 'z') || ('A' <= c && c <= 'Z')
}

/// Only digits and dots, with at least one of each (`18.2.0`).
pub open spec fn version_like(v: Seq<char>) -> bool {
    &&& forall|i: int| 0 <= i < v.len() ==> v[i] == '.' || is_digit(#[trigger] v[i])
    &&& has_char(v, '.')
    &&& exists|i: int| 0 <= i < v.len() && is_digit(#[trigger] v[i])
}

pub open spec fn dotfile_char(c: char) -> bool {
    is_ascii_alnum(c) || c == '-' || c == '_' || c == '.'
}

/// A dot file such as `.env` or `.eslintrc.json`.
pub open spec fn dotfile(p: Seq<char>) -> bool {
    &&& p.len() >= 2
    &&& p[0] == '.'
    &&& p.last() != '.'
    &&& forall|i: int| 1 <= i < p.len() ==> dotfile_char(#[trigger] p[i])
}

pub open spec fn known_file_names() -> Seq<Seq<char>> {
    seq!["Dockerfile"@, "Makefile"@, "README"@, "LICENSE"@, "Cargo.lock"@]
}

pub open spec fn file_extensions() -> Seq<Seq<char>> {
    seq![
        "cjs"@,
        "css"@,
        "go"@,
        "html"@,
        "js"@,
        "json"@,
        "jsx"@,
        "lock"@,
        "md"@,
        "mjs"@,
        "py"@,
        "rs"@,
        "toml"@,
        "ts"@,
        "tsx"@,
        "txt"@,
        "yaml"@,
        "yml"@,
    ]
}

/// The path names a file: a nested path not ending in `/`, a well-known
/// file name, a dot file, or a name with a known extension.
pub open spec fn file_like(p: Seq<char>) -> bool {
    if has_char(p, '/') {
        !ends_with(p, "/"@)
    } else {
        one_of(p, known_file_names()) || dotfile(p) || std_extension_in(p, file_extensions())
    }
}

/// A generated dependency cache or build directory.
pub open spec fn plan_dependency_cache(p: Seq<char>) -> bool {
    ||| p == "node_modules"@
    ||| starts_with(p, "node_modules/"@)
    ||| p == ".next"@
    ||| starts_with(p, ".next/"@)
    ||| p == ".venv"@
    ||| starts_with(p, ".venv/"@)
    ||| p == "target"@
    ||| starts_with(p, "target/"@)
    ||| p == ".git"@
    ||| starts_with(p, ".git/"@)
}

/// Why an expected path is refused, if it is.
pub open spec fn path_fault(path: Seq<char>) -> Option<Seq<char>> {
    let t = trim(path);
    if t.len() == 0 {
        Some("path is empty"@)
    } else if starts_with(t, "/"@) || contains(t, ".."@) {
        Some("path must be repository-relative and cannot contain parent traversal"@)
    } else if has_char(t, ':') || starts_with(t, "$."@) {
        Some("expected_paths must be file paths, not JSON/property selectors"@)
    } else if contains(t, " or "@) || contains(t, "||"@) {
        Some("expected_paths must be one concrete file, not alternatives"@)
    } else if has_char(t, '*') || has_char(t, '?') || has_char(t, '{') {
        Some("expected_paths must be concrete files, not glob patterns"@)
    } else if plan_dependency_cache(t) {
        Some("expected_paths must not name generated dependency caches"@)
    } else if version_like(t) {
        Some("expected_paths must be file paths, not version strings"@)
    } else if !file_like(t) {
        Some("expected_paths must name concrete files"@)
    } else {
        None
    }
}

/// The first refused path of a list and why.
pub open spec fn paths_fault(paths: Seq<Seq<char>>) -> Option<(Seq<char>, Seq<char>)>
    decreases paths.len(),
{
    if paths.len() == 0 {
        None
    } else {
        match paths_fault(paths.drop_last()) {
            Some(f) => Some(f),
            None => match path_fault(paths.last()) {
                Some(reason) => Some((paths.last(), reason)),
                None => None,
            },
        }
    }
}

fn looks_like_version(v: &str) -> (r: bool)
    ensures
        r == version_like(v@),
{
    let c = chars_of(v);
    let mut saw_dot = false;
    let mut saw_digit = false;
    let mut i: usize = 0;
    while i < c.len()
        invariant
            i <= c@.len(),
            c@ == v@,
            forall|k: int| 0 <= k < i ==> c@[k] == '.' || is_digit(#[trigger] c@[k]),
            saw_dot == exists|k: int| 0 <= k < i && c@[k] == '.',
            saw_digit == exists|k: int| 0 <= k < i && is_digit(#[trigger] c@[k]),
        decreases c.len() - i,
    {
        let ch = c[i];
        if ch == '.' {
            saw_dot = true;
        } else if '0' <= ch && ch <= '9' {
            saw_digit = true;
        } else {
            assert(!(c@[i as int] == '.' || is_digit(c@[i as int])));
            return false;
        }
        i = i + 1;
    }
    saw_dot && saw_digit
}

fn is_dotfile_path(p: &str) -> (r: bool)
    ensures
        r == dotfile(p@),
{
    let c = chars_of(p);
    if c.len() < 2 || c[0] != '.' || c[c.len() - 1] == '.' {
        return false;
    }
    let mut i: usize = 1;
    while i < c.len()
        invariant
            1 <= i <= c@.len(),
            c@ == p@,
            forall|k: int| 1 <= k < i ==> dotfile_char(#[trigger] c@[k]),
        decreases c.len() - i,
    {
        let ch = c[i];
        let ok = ('0' <= ch && ch <= '9') || ('a' <= ch && ch <= 'z') || ('A' <= ch && ch <= 'Z')
            || ch == '-' || ch == '_' || ch == '.';
        if !ok {
            assert(!dotfile_char(c@[i as int]));
            return false;
        }
        i = i + 1;
    }
    true
}

fn looks_like_file_path(p: &str) -> (r: bool)
    ensures
        r == file_like(p@),
{
    if str_has_char(p, '/') {
        return !str_ends_with(p, "/");
    }
    let names = ["Dockerfile", "Makefile", "README", "LICENSE", "Cargo.lock"];
    assert(str_views(names@) == known_file_names());
    if is_one_of(p, &names) {
        return true;
    }
    if is_dotfile_path(p) {
        return true;
    }
    let exts = [
        "cjs",
        "css",
        "go",
        "html",
        "js",
        "json",
        "jsx",
        "lock",
        "md",
        "mjs",
        "py",
        "rs",
        "toml",
        "ts",
        "tsx",
        "txt",
        "yaml",
        "yml",
    ];
    assert(str_views(exts@) == file_extensions());
    std_extension_is(p, &exts)
}

fn is_plan_dependency_cache(p: &str) -> (r: bool)
    ensures
        r == plan_dependency_cache(p@),
{
    str_eq(p, "node_modules") || str_starts_with(p, "node_modules/") || str_eq(p, ".next")
        || str_starts_with(p, ".next/") || str_eq(p, ".venv") || str_starts_with(p, ".venv/")
        || str_eq(p, "target") || str_starts_with(p, "target/") || str_eq(p, ".git")
        || str_starts_with(p, ".git/")
}

/// The reason an expected path is refused, if it is.
pub fn expected_path_fault(path: &str) -> (r: Option<&'static str>)
    ensures
        match r {
            Some(reason) => path_fault(path@) == Some(reason@),
            None => path_fault(path@) is None,
        },
{
    let t = trim_str(path);
    let t = t.as_str();
    if crate::text::char_count(t) == 0 {
        Some("path is empty")
    } else if str_starts_with(t, "/") || str_contains(t, "..") {
        Some("path must be repository-relative and cannot contain parent traversal")
    } else if str_has_char(t, ':') || str_starts_with(t, "$.") {
        Some("expected_paths must be file paths, not JSON/property selectors")
    } else if str_contains(t, " or ") || str_contains(t, "||") {
        Some("expected_paths must be one concrete file, not alternatives")
    } else if str_has_char(t, '*') || str_has_char(t, '?') || str_has_char(t, '{') {
        Some("expected_paths must be concrete files, not glob patterns")
    } else if is_plan_dependency_cache(t) {
        Some("expected_paths must not name generated dependency caches")
    } else if looks_like_version(t) {
        Some("expected_paths must be file paths, not version strings")
    } else if !looks_like_file_path(t) {
        Some("expected_paths must name concrete files")
    } else {
        None
    }
}

/// Refuses an expected path that is not one concrete repository file.
pub fn lint_expected_path(path: &str) -> (r: Result<(), PlanLintError>)
    ensures
        match r {
            Ok(()) => path_fault(path@) is None,
            Err(PlanLintError::InvalidExpectedPath { path: p, reason }) => p@ == path@
                && path_fault(path@) == Some(reason@),
            Err(_) => false,
        },
{
    match expected_path_fault(path) {
        Some(reason) => Err(PlanLintError::InvalidExpectedPath { path: owned(path), reason: owned(reason) }),
        None => Ok(()),
    }
}

/// Refuses the first path of the list that is not one concrete repository
/// file.
pub fn lint_expected_paths(paths: &Vec<String>) -> (r: Result<(), PlanLintError>)
    ensures
        match r {
            Ok(()) => paths_fault(crate::text::views(paths@)) is None,
            Err(PlanLintError::InvalidExpectedPath { path, reason }) => paths_fault(
                crate::text::views(paths@),
            ) == Some((path@, reason@)),
            Err(_) => false,
        },
{
    let ghost vs = crate::text::views(paths@);
    let mut i: usize = 0;
    while i < paths.len()
        invariant
            i <= paths@.len(),
            vs == crate::text::views(paths@),
            paths_fault(vs.take(i as int)) is None,
        decreases paths.len() - i,
    {
        proof {
            assert(vs.take(i + 1).drop_last() =~= vs.take(i as int));
        }
        match lint_expected_path(paths[i].as_str()) {
            Ok(()) => {},
            Err(e) => {
                proof {
                    lemma_paths_fault_prefix(vs, i as int + 1);
                }
                return Err(e);
            },
        }
        i = i + 1;
    }
    assert(vs.take(paths@.len() as int) =~= vs);
    Ok(())
}

proof fn lemma_paths_fault_prefix(paths: Seq<Seq<char>>, n: int)
    requires
        1 <= n <= paths.len(),
        paths_fault(paths.take(n)) is Some,
    ensures
        paths_fault(paths) == paths_fault(paths.take(n)),
    decreases paths.len() - n,
{
    if n < paths.len() {
        assert(paths.take(n + 1).drop_last() =~= paths.take(n));
        lemma_paths_fault_prefix(paths, n + 1);
    } else {
        assert(paths.take(n) =~= paths);
    }
}

} // verus!
