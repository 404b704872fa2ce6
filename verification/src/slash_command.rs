//! Slash commands typed at the prompt: `/plan-steps`, `/plan-run`,
//! `/run-plan` and their ultra-plan forms, with `--profile`, `--style`,
//! `--intent` and `--artifact` options, shell-like quoting, and
//! `$(cat <path>)` file references.
//!
//! The files a command references are read by the caller, which resolves
//! each path inside the workspace; their contents are spliced in here.
use crate::failure_observation::{find_from, find_from_exec, lemma_find_from_found};
use crate::text::{
    contains, occurs_at,
    chars_of, copy_string, is_ws, join, join_strings, owned, push_char, push_str, slice_range,
    starts_with, str_eq, string_of, trim, trim_start, trim_str, views, char_is_ws,
};
use vstd::prelude::*;

verus! {

/// The most bytes a referenced file may have.
pub const MAX_FILE_REF_BYTES: usize = 32768;

/// Which slash command was typed.
#[derive(Debug, Clone, Copy, PartialEq, Eq, Structural)]
pub enum SlashCommandKind {
    PlanSteps,
    PlanRun,
    RunPlan,
    UltraPlan,
    UltraPlanRun,
    RunUltraPlan,
}

/// A parsed slash command.
#[derive(Debug, Clone, PartialEq, Eq)]
pub struct SlashCommand {
    pub kind: SlashCommandKind,
    pub profile: Option<String>,
    pub style: Option<String>,
    pub intent: Option<String>,
    pub artifacts: Vec<String>,
    pub argument: String,
}

/// Why a slash command was rejected.
#[derive(Debug, Clone, PartialEq, Eq)]
pub enum SlashCommandError {
    UnknownCommand(String),
    MissingOptionValue(String),
    UnclosedQuote,
    UnclosedFileReference,
    Path(String),
    Io { path: String, message: String },
    FileReferenceTooLarge { path: String, bytes: u64, max: usize },
}

/// The message of an error.
pub open spec fn slash_error_text(e: SlashCommandError) -> Seq<char> {
    match e {
        SlashCommandError::UnknownCommand(c) => "unknown slash command: "@ + c@,
        SlashCommandError::MissingOptionValue(o) => "missing value for "@ + o@,
        SlashCommandError::UnclosedQuote => "unclosed quote in slash command"@,
        SlashCommandError::UnclosedFileReference => "unclosed $(cat ...) file reference"@,
        SlashCommandError::Path(m) => m@,
        SlashCommandError::Io { path, message } => path@ + ": "@ + message@,
        SlashCommandError::FileReferenceTooLarge { path, bytes, max } => "file reference is too large: "@
            + path@ + " has "@ + crate::text::decimal(bytes as nat) + " bytes; max is "@ + crate::text::decimal(
            max as nat,
        ),
    }
}

impl SlashCommandError {
    /// The message of the error.
    pub fn to_string(&self) -> (r: String)
        ensures
            r@ == slash_error_text(*self),
    {
        match self {
            SlashCommandError::UnknownCommand(c) => crate::plan_error::prefixed("unknown slash command: ", c.as_str()),
            SlashCommandError::MissingOptionValue(o) => crate::plan_error::prefixed("missing value for ", o.as_str()),
            SlashCommandError::UnclosedQuote => owned("unclosed quote in slash command"),
            SlashCommandError::UnclosedFileReference => owned("unclosed $(cat ...) file reference"),
            SlashCommandError::Path(m) => copy_string(m),
            SlashCommandError::Io { path, message } => {
                let mut s = copy_string(path);
                push_str(&mut s, ": ");
                push_str(&mut s, message.as_str());
                s
            },
            SlashCommandError::FileReferenceTooLarge { path, bytes, max } => {
                let mut s = owned("file reference is too large: ");
                push_str(&mut s, path.as_str());
                push_str(&mut s, " has ");
                let b = crate::text::u64_to_string(*bytes);
                push_str(&mut s, b.as_str());
                push_str(&mut s, " bytes; max is ");
                let m = crate::text::usize_to_string(*max);
                push_str(&mut s, m.as_str());
                s
            },
        }
    }
}

// ---------------------------------------------------------------------------
// Tokens
// ---------------------------------------------------------------------------

/// The tokenizer's state after a prefix: the finished tokens, the token
/// being read, the open quote, and whether a backslash escapes the next
/// character.
pub type TokenState = (Seq<Seq<char>>, Seq<char>, Option<char>, bool);

/// One character read by the tokenizer: inside quotes everything but the
/// closing quote is kept; outside, a quote opens, whitespace ends a token,
/// a backslash keeps the next character whatever it is.
pub open spec fn token_step(st: TokenState, c: char) -> TokenState {
    let (ts, cur, quote, esc) = st;
    if esc {
        (ts, cur.push(c), quote, false)
    } else {
        match quote {
            Some(q) => if c == q {
                (ts, cur, None, false)
            } else {
                (ts, cur.push(c), quote, false)
            },
            None => if c == '"' || c == '\'' {
                (ts, cur, Some(c), false)
            } else if is_ws(c) {
                if cur.len() > 0 {
                    (ts.push(cur), Seq::empty(), None, false)
                } else {
                    (ts, cur, None, false)
                }
            } else if c == '\\' {
                (ts, cur, None, true)
            } else {
                (ts, cur.push(c), None, false)
            },
        }
    }
}

pub open spec fn token_state(s: Seq<char>) -> TokenState
    decreases s.len(),
{
    if s.len() == 0 {
        (Seq::empty(), Seq::empty(), None, false)
    } else {
        token_step(token_state(s.drop_last()), s.last())
    }
}

/// The tokens of a command's arguments, or an unclosed quote.
pub open spec fn tokens_of(s: Seq<char>) -> Result<Seq<Seq<char>>, SlashCommandError> {
    let (ts, cur, quote, esc) = token_state(s);
    if quote is Some {
        Err(SlashCommandError::UnclosedQuote)
    } else if cur.len() > 0 {
        Ok(ts.push(cur))
    } else {
        Ok(ts)
    }
}

fn tokenize(input: &str) -> (r: Result<Vec<String>, SlashCommandError>)
    ensures
        match tokens_of(input@) {
            Ok(ts) => r matches Ok(v) && views(v@) == ts,
            Err(e) => r == Err::<Vec<String>, SlashCommandError>(e),
        },
{
    let v = chars_of(input);
    let mut ts: Vec<String> = Vec::new();
    let mut cur: Vec<char> = Vec::new();
    let mut quote: Option<char> = None;
    let mut esc = false;
    let mut i: usize = 0;
    while i < v.len()
        invariant
            i <= v@.len(),
            (views(ts@), cur@, quote, esc) == token_state(v@.take(i as int)),
        decreases v.len() - i,
    {
        let c = v[i];
        proof {
            assert(v@.take(i + 1).drop_last() == v@.take(i as int));
        }
        if esc {
            cur.push(c);
            esc = false;
        } else {
            match quote {
                Some(q) => {
                    if c == q {
                        quote = None;
                    } else {
                        cur.push(c);
                    }
                },
                None => {
                    if c == '"' || c == '\'' {
                        quote = Some(c);
                    } else if char_is_ws(c) {
                        if cur.len() > 0 {
                            let ghost before = ts@;
                            ts.push(string_of(cur.as_slice()));
                            assert(views(ts@) =~= views(before).push(cur@));
                            cur = Vec::new();
                        }
                    } else if c == '\\' {
                        esc = true;
                    } else {
                        cur.push(c);
                    }
                },
            }
        }
        i = i + 1;
    }
    assert(v@.take(v@.len() as int) == v@);
    if quote.is_some() {
        return Err(SlashCommandError::UnclosedQuote);
    }
    if cur.len() > 0 {
        let ghost before = ts@;
        ts.push(string_of(cur.as_slice()));
        assert(views(ts@) =~= views(before).push(cur@));
    }
    Ok(ts)
}

/// The index of the first whitespace character, or -1.
pub open spec fn first_ws(s: Seq<char>) -> int
    decreases s.len(),
{
    if s.len() == 0 {
        -1
    } else {
        let j = first_ws(s.drop_last());
        if j >= 0 {
            j
        } else if is_ws(s.last()) {
            s.len() - 1
        } else {
            -1
        }
    }
}

/// The command word and the rest, the rest with leading whitespace removed.
pub open spec fn split_command(s: Seq<char>) -> (Seq<char>, Seq<char>) {
    let i = first_ws(s);
    if i < 0 {
        (s, Seq::empty())
    } else {
        (s.take(i), trim_start(s.skip(i + 1)))
    }
}

proof fn lemma_first_ws(s: Seq<char>)
    ensures
        -1 <= first_ws(s) < s.len(),
        first_ws(s) >= 0 ==> is_ws(s[first_ws(s)]) && forall|k: int| 0 <= k < first_ws(s) ==> !is_ws(s[k]),
        first_ws(s) == -1 ==> forall|k: int| 0 <= k < s.len() ==> !is_ws(s[k]),
    decreases s.len(),
{
    if s.len() > 0 {
        let d = s.drop_last();
        lemma_first_ws(d);
        assert(forall|k: int| 0 <= k < d.len() ==> d[k] == s[k]);
    }
}

proof fn lemma_first_ws_at(s: Seq<char>, i: int)
    requires
        0 <= i < s.len(),
        is_ws(s[i]),
        forall|k: int| 0 <= k < i ==> !is_ws(s[k]),
    ensures
        first_ws(s) == i,
{
    lemma_first_ws(s);
    if first_ws(s) == -1 {
        assert(!is_ws(s[i]));
    } else if first_ws(s) < i {
        assert(!is_ws(s[first_ws(s)]));
    }
}

fn split_command_of(input: &str) -> (r: (String, String))
    ensures
        (r.0@, r.1@) == split_command(input@),
{
    let v = chars_of(input);
    let mut i: usize = 0;
    while i < v.len()
        invariant
            i <= v@.len(),
            v@ == input@,
            forall|k: int| 0 <= k < i ==> !is_ws(v@[k]),
        decreases v.len() - i,
    {
        if char_is_ws(v[i]) {
            proof {
                lemma_first_ws_at(v@, i as int);
            }
            let command = string_of(slice_range(v.as_slice(), 0, i).as_slice());
            let rest = string_of(slice_range(v.as_slice(), i + 1, v.len()).as_slice());
            assert(command@ =~= v@.take(i as int));
            assert(rest@ =~= v@.skip(i + 1));
            let trimmed = crate::text::trim_start_str(rest.as_str());
            return (command, trimmed);
        }
        i = i + 1;
    }
    proof {
        lemma_first_ws(v@);
        if first_ws(v@) >= 0 {
            assert(!is_ws(v@[first_ws(v@)]));
        }
    }
    proof {
        reveal_strlit("");
    }
    (owned(input), owned(""))
}


// ---------------------------------------------------------------------------
// Commands and options
// ---------------------------------------------------------------------------

/// The kind a command word names.
pub open spec fn kind_of_command(c: Seq<char>) -> Option<SlashCommandKind> {
    if c == "/plan-steps"@ {
        Some(SlashCommandKind::PlanSteps)
    } else if c == "/plan-run"@ {
        Some(SlashCommandKind::PlanRun)
    } else if c == "/run-plan"@ {
        Some(SlashCommandKind::RunPlan)
    } else if c == "/ultra-plan"@ {
        Some(SlashCommandKind::UltraPlan)
    } else if c == "/ultra-plan-run"@ {
        Some(SlashCommandKind::UltraPlanRun)
    } else if c == "/run-ultra-plan"@ {
        Some(SlashCommandKind::RunUltraPlan)
    } else {
        None
    }
}

fn parse_kind(c: &str) -> (r: Option<SlashCommandKind>)
    ensures
        r == kind_of_command(c@),
{
    if str_eq(c, "/plan-steps") {
        Some(SlashCommandKind::PlanSteps)
    } else if str_eq(c, "/plan-run") {
        Some(SlashCommandKind::PlanRun)
    } else if str_eq(c, "/run-plan") {
        Some(SlashCommandKind::RunPlan)
    } else if str_eq(c, "/ultra-plan") {
        Some(SlashCommandKind::UltraPlan)
    } else if str_eq(c, "/ultra-plan-run") {
        Some(SlashCommandKind::UltraPlanRun)
    } else if str_eq(c, "/run-ultra-plan") {
        Some(SlashCommandKind::RunUltraPlan)
    } else {
        None
    }
}

/// The options read so far: profile, style, intent and artifacts.
pub type OptionsView = (Option<Seq<char>>, Option<Seq<char>>, Option<Seq<char>>, Seq<Seq<char>>);

/// Reads the leading options from token `i` on: `--profile`, `--style` and
/// `--intent` take the next token or an `=` value, later ones replacing
/// earlier ones; `--artifact` adds one artifact. The first other token ends
/// the options. An option without its value is the error.
pub open spec fn read_options(ts: Seq<Seq<char>>, i: int, o: OptionsView) -> Result<(OptionsView, int), Seq<char>>
    decreases ts.len() - i,
{
    if i < 0 || i >= ts.len() {
        Ok((o, i))
    } else {
        let t = ts[i];
        if t == "--profile"@ {
            if i + 1 >= ts.len() {
                Err("--profile"@)
            } else {
                read_options(ts, i + 2, (Some(ts[i + 1]), o.1, o.2, o.3))
            }
        } else if starts_with(t, "--profile="@) {
            read_options(ts, i + 1, (Some(t.skip(10)), o.1, o.2, o.3))
        } else if t == "--style"@ {
            if i + 1 >= ts.len() {
                Err("--style"@)
            } else {
                read_options(ts, i + 2, (o.0, Some(ts[i + 1]), o.2, o.3))
            }
        } else if starts_with(t, "--style="@) {
            read_options(ts, i + 1, (o.0, Some(t.skip(8)), o.2, o.3))
        } else if t == "--intent"@ {
            if i + 1 >= ts.len() {
                Err("--intent"@)
            } else {
                read_options(ts, i + 2, (o.0, o.1, Some(ts[i + 1]), o.3))
            }
        } else if starts_with(t, "--intent="@) {
            read_options(ts, i + 1, (o.0, o.1, Some(t.skip(9)), o.3))
        } else if t == "--artifact"@ {
            if i + 1 >= ts.len() {
                Err("--artifact"@)
            } else {
                read_options(ts, i + 2, (o.0, o.1, o.2, o.3.push(ts[i + 1])))
            }
        } else if starts_with(t, "--artifact="@) {
            read_options(ts, i + 1, (o.0, o.1, o.2, o.3.push(t.skip(11))))
        } else {
            Ok((o, i))
        }
    }
}

/// A command as plain values.
pub struct CommandView {
    pub kind: SlashCommandKind,
    pub profile: Option<Seq<char>>,
    pub style: Option<Seq<char>>,
    pub intent: Option<Seq<char>>,
    pub artifacts: Seq<Seq<char>>,
    pub argument: Seq<char>,
}

pub open spec fn opt_seq(o: Option<String>) -> Option<Seq<char>> {
    match o {
        Some(s) => Some(s@),
        None => None,
    }
}

pub open spec fn command_view(c: SlashCommand) -> CommandView {
    CommandView {
        kind: c.kind,
        profile: opt_seq(c.profile),
        style: opt_seq(c.style),
        intent: opt_seq(c.intent),
        artifacts: views(c.artifacts@),
        argument: c.argument@,
    }
}

/// An error of command parsing as plain values.
pub enum SlashErrorView {
    UnknownCommand(Seq<char>),
    MissingOptionValue(Seq<char>),
    UnclosedQuote,
    UnclosedFileReference,
    Path(Seq<char>),
    Io { path: Seq<char>, message: Seq<char> },
    FileReferenceTooLarge { path: Seq<char>, bytes: u64, max: usize },
}

pub open spec fn slash_error_view(e: SlashCommandError) -> SlashErrorView {
    match e {
        SlashCommandError::UnknownCommand(c) => SlashErrorView::UnknownCommand(c@),
        SlashCommandError::MissingOptionValue(o) => SlashErrorView::MissingOptionValue(o@),
        SlashCommandError::UnclosedQuote => SlashErrorView::UnclosedQuote,
        SlashCommandError::UnclosedFileReference => SlashErrorView::UnclosedFileReference,
        SlashCommandError::Path(m) => SlashErrorView::Path(m@),
        SlashCommandError::Io { path, message } => SlashErrorView::Io { path: path@, message: message@ },
        SlashCommandError::FileReferenceTooLarge { path, bytes, max } => SlashErrorView::FileReferenceTooLarge {
            path: path@,
            bytes,
            max,
        },
    }
}

/// The command an expanded input reads as: its command word names the kind,
/// the rest is tokenized, the leading options are read, and the remaining
/// tokens joined by spaces are the argument.
pub open spec fn expanded_command(s: Seq<char>) -> Result<CommandView, SlashErrorView> {
    let (cmd, rest) = split_command(s);
    match kind_of_command(cmd) {
        None => Err(SlashErrorView::UnknownCommand(cmd)),
        Some(k) => match tokens_of(rest) {
            Err(_) => Err(SlashErrorView::UnclosedQuote),
            Ok(ts) => match read_options(ts, 0, (None, None, None, Seq::empty())) {
                Err(o) => Err(SlashErrorView::MissingOptionValue(o)),
                Ok((o, idx)) => Ok(
                    CommandView {
                        kind: k,
                        profile: o.0,
                        style: o.1,
                        intent: o.2,
                        artifacts: o.3,
                        argument: trim(join(ts.skip(idx), " "@)),
                    },
                ),
            },
        },
    }
}

pub open spec fn command_result(r: Result<SlashCommand, SlashCommandError>) -> Result<CommandView, SlashErrorView> {
    match r {
        Ok(c) => Ok(command_view(c)),
        Err(e) => Err(slash_error_view(e)),
    }
}

fn after_prefix(t: &str, prefix: &str) -> (r: Option<String>)
    ensures
        match r {
            Some(v) => starts_with(t@, prefix@) && v@ == t@.skip(prefix@.len() as int),
            None => !starts_with(t@, prefix@),
        },
{
    match crate::text::strip_prefix_str(t, prefix) {
        Some(v) => {
            assert(v@ =~= t@.skip(prefix@.len() as int));
            Some(v)
        },
        None => None,
    }
}

/// Parses a slash command whose file references are already expanded.
pub fn parse_expanded_slash_command(expanded: &str) -> (r: Result<SlashCommand, SlashCommandError>)
    ensures
        command_result(r) == expanded_command(expanded@),
{
    let (command, rest) = split_command_of(expanded);
    let kind = match parse_kind(command.as_str()) {
        Some(k) => k,
        None => {
            return Err(SlashCommandError::UnknownCommand(command));
        },
    };
    let tokens = match tokenize(rest.as_str()) {
        Ok(t) => t,
        Err(e) => {
            return Err(e);
        },
    };
    let ghost ts = views(tokens@);
    let mut profile: Option<String> = None;
    let mut style: Option<String> = None;
    let mut intent: Option<String> = None;
    let mut artifacts: Vec<String> = Vec::new();
    let mut idx: usize = 0;
    assert(views(artifacts@) =~= Seq::<Seq<char>>::empty());
    assert(split_command(expanded@) == (command@, rest@));
    while idx < tokens.len()
        invariant_except_break
            idx <= tokens@.len(),
            ts == views(tokens@),
            read_options(ts, 0, (None, None, None, Seq::empty())) == read_options(
                ts,
                idx as int,
                (opt_seq(profile), opt_seq(style), opt_seq(intent), views(artifacts@)),
            ),
        invariant
            forall|o: Seq<char>|
                read_options(ts, 0, (None, None, None, Seq::empty())) == Err::<(OptionsView, int), Seq<char>>(o)
                    ==> expanded_command(expanded@) == Err::<CommandView, SlashErrorView>(
                    SlashErrorView::MissingOptionValue(o),
                ),
        ensures
            idx <= tokens@.len(),
            read_options(ts, 0, (None, None, None, Seq::empty())) == Ok::<(OptionsView, int), Seq<char>>(
                ((opt_seq(profile), opt_seq(style), opt_seq(intent), views(artifacts@)), idx as int),
            ),
        decreases tokens.len() - idx,
    {
        let t = tokens[idx].as_str();
        proof {
            reveal_strlit("--profile=");
            reveal_strlit("--style=");
            reveal_strlit("--intent=");
            reveal_strlit("--artifact=");
        }
        if str_eq(t, "--profile") {
            if idx + 1 >= tokens.len() {
                return Err(SlashCommandError::MissingOptionValue(owned("--profile")));
            }
            profile = Some(copy_string(&tokens[idx + 1]));
            idx = idx + 2;
        } else if let Some(v) = after_prefix(t, "--profile=") {
            profile = Some(v);
            idx = idx + 1;
        } else if str_eq(t, "--style") {
            if idx + 1 >= tokens.len() {
                return Err(SlashCommandError::MissingOptionValue(owned("--style")));
            }
            style = Some(copy_string(&tokens[idx + 1]));
            idx = idx + 2;
        } else if let Some(v) = after_prefix(t, "--style=") {
            style = Some(v);
            idx = idx + 1;
        } else if str_eq(t, "--intent") {
            if idx + 1 >= tokens.len() {
                return Err(SlashCommandError::MissingOptionValue(owned("--intent")));
            }
            intent = Some(copy_string(&tokens[idx + 1]));
            idx = idx + 2;
        } else if let Some(v) = after_prefix(t, "--intent=") {
            intent = Some(v);
            idx = idx + 1;
        } else if str_eq(t, "--artifact") {
            if idx + 1 >= tokens.len() {
                return Err(SlashCommandError::MissingOptionValue(owned("--artifact")));
            }
            let ghost before = artifacts@;
            artifacts.push(copy_string(&tokens[idx + 1]));
            assert(views(artifacts@) =~= views(before).push(ts[idx + 1]));
            idx = idx + 2;
        } else if let Some(v) = after_prefix(t, "--artifact=") {
            let ghost before = artifacts@;
            let ghost vv = v@;
            artifacts.push(v);
            assert(views(artifacts@) =~= views(before).push(vv));
            idx = idx + 1;
        } else {
            break;
        }
    }
    let mut rest_tokens: Vec<String> = Vec::new();
    let mut k: usize = idx;
    assert(views(rest_tokens@) =~= ts.skip(idx as int).take(0));
    while k < tokens.len()
        invariant
            idx <= k <= tokens@.len(),
            ts == views(tokens@),
            views(rest_tokens@) == ts.skip(idx as int).take(k - idx),
        decreases tokens.len() - k,
    {
        let ghost before = rest_tokens@;
        rest_tokens.push(copy_string(&tokens[k]));
        proof {
            assert(ts.skip(idx as int).take(k + 1 - idx) == ts.skip(idx as int).take(k - idx).push(ts[k as int]));
            assert(views(rest_tokens@) =~= views(before).push(ts[k as int]));
        }
        k = k + 1;
    }
    assert(ts.skip(idx as int).take(tokens@.len() - idx) == ts.skip(idx as int));
    let joined = join_strings(&rest_tokens, " ");
    let argument = trim_str(joined.as_str());
    Ok(SlashCommand { kind, profile, style, intent, artifacts, argument })
}


// ---------------------------------------------------------------------------
// `$(cat <path>)` file references
// ---------------------------------------------------------------------------

/// The path written inside a reference: trimmed, and without one pair of
/// surrounding double or single quotes.
pub open spec fn reference_path(raw: Seq<char>) -> Seq<char> {
    let t = trim(raw);
    if t.len() >= 2 && t[0] == '"' && t[t.len() - 1] == '"' {
        t.subrange(1, t.len() - 1)
    } else if t.len() >= 2 && t[0] == '\'' && t[t.len() - 1] == '\'' {
        t.subrange(1, t.len() - 1)
    } else {
        t
    }
}

/// The `$(cat <path>)` references of an input, in order: for each, the text
/// before it and its path; then the text after the last one, and whether a
/// reference was opened there and never closed.
pub open spec fn cat_scan(s: Seq<char>) -> (Seq<(Seq<char>, Seq<char>)>, Seq<char>, bool)
    decreases s.len(),
{
    let start = find_from(s, "$(cat "@, 0);
    if start < 0 || start + 6 > s.len() {
        (Seq::empty(), s, false)
    } else {
        let after = s.skip(start + 6);
        let end = find_from(after, seq![')'], 0);
        if end < 0 || end >= after.len() {
            (Seq::empty(), s.take(start), true)
        } else {
            let next = cat_scan(after.skip(end + 1));
            (seq![(s.take(start), reference_path(after.take(end)))] + next.0, next.1, next.2)
        }
    }
}

/// The paths referenced by a slash command typed as `input`, in the order
/// in which they are read; none when the input is no slash command.
pub open spec fn referenced_paths(input: Seq<char>) -> Seq<Seq<char>> {
    let t = trim(input);
    if starts_with(t, "/"@) {
        cat_scan(t).0.map_values(|r: (Seq<char>, Seq<char>)| r.1)
    } else {
        Seq::empty()
    }
}


pub open spec fn pair_views(v: Seq<(String, String)>) -> Seq<(Seq<char>, Seq<char>)> {
    v.map_values(|p: (String, String)| (p.0@, p.1@))
}

fn reference_path_of(raw: &[char]) -> (r: String)
    ensures
        r@ == reference_path(raw@),
{
    let (lo, hi) = crate::text::trim_bounds(raw);
    let t = slice_range(raw, lo, hi);
    let n = t.len();
    if n >= 2 && ((t[0] == '"' && t[n - 1] == '"') || (t[0] == '\'' && t[n - 1] == '\'')) {
        let inner = slice_range(t.as_slice(), 1, n - 1);
        string_of(inner.as_slice())
    } else {
        string_of(t.as_slice())
    }
}

fn scan_references(v: &Vec<char>) -> (r: (Vec<(String, String)>, String, bool))
    ensures
        pair_views(r.0@) == cat_scan(v@).0,
        r.1@ == cat_scan(v@).1,
        r.2 == cat_scan(v@).2,
{
    let marker = chars_of("$(cat ");
    let close: Vec<char> = vec![')'];
    proof {
        reveal_strlit("$(cat ");
        assert(close@ =~= seq![')']);
    }
    let mut refs: Vec<(String, String)> = Vec::new();
    let mut rest: Vec<char> = slice_range(v.as_slice(), 0, v.len());
    assert(rest@ =~= v@);
    loop
        invariant
            marker@ == "$(cat "@,
            marker@.len() == 6,
            close@ == seq![')'],
            cat_scan(v@).0 == pair_views(refs@) + cat_scan(rest@).0,
            cat_scan(v@).1 == cat_scan(rest@).1,
            cat_scan(v@).2 == cat_scan(rest@).2,
        decreases rest@.len(),
    {
        let ghost r0 = rest@;
        match find_from_exec(rest.as_slice(), marker.as_slice(), 0) {
            None => {
                assert(pair_views(refs@) + Seq::empty() =~= pair_views(refs@));
                return (refs, string_of(rest.as_slice()), false);
            },
            Some(start) => {
                proof {
                    lemma_find_from_found(rest@, marker@, 0);
                }
                let rl: usize = rest.len();
                assert(start + 6 <= rl);
                let after = slice_range(rest.as_slice(), start + 6, rest.len());
                assert(after@ =~= r0.skip(start + 6));
                match find_from_exec(after.as_slice(), close.as_slice(), 0) {
                    None => {
                        let text = slice_range(rest.as_slice(), 0, start);
                        assert(text@ =~= r0.take(start as int));
                        assert(pair_views(refs@) + Seq::empty() =~= pair_views(refs@));
                        return (refs, string_of(text.as_slice()), true);
                    },
                    Some(end) => {
                        proof {
                            lemma_find_from_found(after@, close@, 0);
                        }
                        let al: usize = after.len();
                        assert(end + 1 <= al);
                        let text = slice_range(rest.as_slice(), 0, start);
                        assert(text@ =~= r0.take(start as int));
                        let raw = slice_range(after.as_slice(), 0, end);
                        assert(raw@ =~= after@.take(end as int));
                        let path = reference_path_of(raw.as_slice());
                        let ghost before = refs@;
                        refs.push((string_of(text.as_slice()), path));
                        let next = slice_range(after.as_slice(), end + 1, after.len());
                        assert(next@ =~= after@.skip(end + 1));
                        proof {
                            assert(pair_views(refs@) =~= pair_views(before) + seq![(r0.take(start as int), reference_path(after@.take(end as int)))]);
                            assert(cat_scan(r0).0 == seq![(r0.take(start as int), reference_path(after@.take(end as int)))] + cat_scan(next@).0);
                            assert(pair_views(before) + cat_scan(r0).0 =~= pair_views(refs@) + cat_scan(next@).0);
                        }
                        rest = next;
                    },
                }
            },
        }
    }
}


/// The paths that a slash command typed as `input` references, in the order
/// in which they are to be read; none when the input is no slash command.
pub fn cat_references(input: &str) -> (r: Vec<String>)
    ensures
        views(r@) == referenced_paths(input@),
{
    let t = trim_str(input);
    proof {
        reveal_strlit("/");
    }
    if !crate::text::str_starts_with(t.as_str(), "/") {
        let none: Vec<String> = Vec::new();
        assert(views(none@) =~= Seq::<Seq<char>>::empty());
        return none;
    }
    let v = chars_of(t.as_str());
    let (refs, _tail, _open) = scan_references(&v);
    let mut out: Vec<String> = Vec::new();
    let mut i: usize = 0;
    while i < refs.len()
        invariant
            i <= refs@.len(),
            views(out@) == pair_views(refs@).take(i as int).map_values(|p: (Seq<char>, Seq<char>)| p.1),
        decreases refs.len() - i,
    {
        let ghost before = out@;
        out.push(copy_string(&refs[i].1));
        proof {
            assert(pair_views(refs@).take(i + 1) == pair_views(refs@).take(i as int).push(pair_views(refs@)[i as int]));
            assert(views(out@) =~= views(before).push(refs@[i as int].1@));
            assert(views(out@) =~= pair_views(refs@).take(i + 1).map_values(|p: (Seq<char>, Seq<char>)| p.1));
        }
        i = i + 1;
    }
    assert(pair_views(refs@).take(refs@.len() as int) == pair_views(refs@));
    assert(views(out@) =~= referenced_paths(input@));
    out
}


/// The input with each reference replaced by the contents read for it.
pub open spec fn spliced(refs: Seq<(Seq<char>, Seq<char>)>, contents: Seq<Seq<char>>, tail: Seq<char>) -> Seq<char>
    decreases refs.len(),
{
    if refs.len() == 0 {
        tail
    } else {
        refs[0].0 + contents[0] + spliced(refs.skip(1), contents.skip(1), tail)
    }
}

/// The first failed read, if any.
pub open spec fn first_read_error(reads: Seq<Result<String, SlashCommandError>>) -> Option<SlashErrorView>
    decreases reads.len(),
{
    if reads.len() == 0 {
        None
    } else {
        match reads[0] {
            Err(e) => Some(slash_error_view(e)),
            Ok(_) => first_read_error(reads.skip(1)),
        }
    }
}

/// The texts of the reads, an empty text for a failed one.
pub open spec fn read_texts(reads: Seq<Result<String, SlashCommandError>>) -> Seq<Seq<char>> {
    reads.map_values(|r: Result<String, SlashCommandError>| match r {
        Ok(t) => t@,
        Err(_) => Seq::empty(),
    })
}

fn copy_error(e: &SlashCommandError) -> (r: SlashCommandError)
    ensures
        slash_error_view(r) == slash_error_view(*e),
{
    match e {
        SlashCommandError::UnknownCommand(c) => SlashCommandError::UnknownCommand(copy_string(c)),
        SlashCommandError::MissingOptionValue(o) => SlashCommandError::MissingOptionValue(copy_string(o)),
        SlashCommandError::UnclosedQuote => SlashCommandError::UnclosedQuote,
        SlashCommandError::UnclosedFileReference => SlashCommandError::UnclosedFileReference,
        SlashCommandError::Path(m) => SlashCommandError::Path(copy_string(m)),
        SlashCommandError::Io { path, message } => SlashCommandError::Io {
            path: copy_string(path),
            message: copy_string(message),
        },
        SlashCommandError::FileReferenceTooLarge { path, bytes, max } => SlashCommandError::FileReferenceTooLarge {
            path: copy_string(path),
            bytes: *bytes,
            max: *max,
        },
    }
}

/// Parses a slash command. Input that does not start with `/` once trimmed
/// is no command. `reads` holds, in order, the outcome of reading each
/// path that [`cat_references`] names for the input: the first failed read
/// is the error; then an unclosed reference is; otherwise each reference is
/// replaced by the contents read for it and the result is parsed as
/// [`parse_expanded_slash_command`] does.
pub fn parse_slash_command(input: &str, reads: &Vec<Result<String, SlashCommandError>>) -> (r: Result<
    Option<SlashCommand>,
    SlashCommandError,
>)
    requires
        reads@.len() == referenced_paths(input@).len(),
    ensures
        !starts_with(trim(input@), "/"@) ==> r == Ok::<Option<SlashCommand>, SlashCommandError>(None),
        starts_with(trim(input@), "/"@) ==> match first_read_error(reads@) {
            Some(e) => match r {
                Err(x) => slash_error_view(x) == e,
                Ok(_) => false,
            },
            None => if cat_scan(trim(input@)).2 {
                r == Err::<Option<SlashCommand>, SlashCommandError>(SlashCommandError::UnclosedFileReference)
            } else {
                let expanded = spliced(cat_scan(trim(input@)).0, read_texts(reads@), cat_scan(trim(input@)).1);
                match r {
                    Ok(Some(c)) => expanded_command(expanded) == Ok::<CommandView, SlashErrorView>(command_view(c)),
                    Ok(None) => false,
                    Err(e) => expanded_command(expanded) == Err::<CommandView, SlashErrorView>(slash_error_view(e)),
                }
            },
        },
{
    let t = trim_str(input);
    proof {
        reveal_strlit("/");
    }
    if !crate::text::str_starts_with(t.as_str(), "/") {
        return Ok(None);
    }
    let v = chars_of(t.as_str());
    let (refs, tail, open) = scan_references(&v);
    let ghost rv = pair_views(refs@);
    let ghost texts = read_texts(reads@);
    assert(rv.len() == reads@.len()) by {
        assert(referenced_paths(input@).len() == rv.len());
    }
    let mut out = String::new();
    let mut i: usize = 0;
    proof {
        reveal_strlit("");
        assert(reads@.skip(0) =~= reads@);
        assert(rv.skip(0) =~= rv);
        assert(texts.skip(0) =~= texts);
    }
    while i < refs.len()
        invariant
            i <= refs@.len(),
            rv == pair_views(refs@),
            texts == read_texts(reads@),
            starts_with(trim(input@), "/"@),
            rv.len() == reads@.len(),
            first_read_error(reads@) == first_read_error(reads@.skip(i as int)),
            spliced(rv, texts, tail@) == out@ + spliced(rv.skip(i as int), texts.skip(i as int), tail@),
        decreases refs.len() - i,
    {
        proof {
            assert(reads@.skip(i as int)[0] == reads@[i as int]);
            assert(reads@.skip(i as int).skip(1) =~= reads@.skip(i + 1));
            assert(rv.skip(i as int).skip(1) =~= rv.skip(i + 1));
            assert(texts.skip(i as int).skip(1) =~= texts.skip(i + 1));
        }
        match &reads[i] {
            Err(e) => {
                return Err(copy_error(e));
            },
            Ok(contents) => {
                let ghost out0 = out@;
                push_str(&mut out, refs[i].0.as_str());
                push_str(&mut out, contents.as_str());
                proof {
                    assert(rv.skip(i as int)[0] == rv[i as int]);
                    assert(texts.skip(i as int)[0] == contents@);
                    let later = spliced(rv.skip(i + 1), texts.skip(i + 1), tail@);
                    assert(out@ + later =~= out0 + (rv[i as int].0 + contents@ + later));
                }
                i = i + 1;
            },
        }
    }
    proof {
        assert(reads@.skip(i as int).len() == 0);
        assert(rv.skip(i as int).len() == 0);
    }
    if open {
        return Err(SlashCommandError::UnclosedFileReference);
    }
    push_str(&mut out, tail.as_str());
    match parse_expanded_slash_command(out.as_str()) {
        Ok(c) => Ok(Some(c)),
        Err(e) => Err(e),
    }
}


/// Whether a referenced file of `bytes` bytes may be read: one over
/// [`MAX_FILE_REF_BYTES`] is refused.
pub fn check_file_reference_size(path: &str, bytes: u64) -> (r: Result<(), SlashCommandError>)
    ensures
        match r {
            Ok(_) => bytes <= MAX_FILE_REF_BYTES,
            Err(e) => bytes > MAX_FILE_REF_BYTES && slash_error_view(e) == (SlashErrorView::FileReferenceTooLarge {
                path: path@,
                bytes,
                max: MAX_FILE_REF_BYTES,
            }),
        },
{
    if bytes > 32768u64 {
        Err(SlashCommandError::FileReferenceTooLarge { path: owned(path), bytes, max: MAX_FILE_REF_BYTES })
    } else {
        Ok(())
    }
}


/// Input without a `$(cat ` reference references no file, and, once
/// trimmed, is parsed as it stands: `parse_slash_command` with no reads
/// gives what `parse_expanded_slash_command` gives for the trimmed input.
pub proof fn lemma_no_references_parse_as_typed(input: Seq<char>)
    requires
        !contains(trim(input), "$(cat "@),
    ensures
        referenced_paths(input).len() == 0,
        !cat_scan(trim(input)).2,
        spliced(cat_scan(trim(input)).0, read_texts(Seq::empty()), cat_scan(trim(input)).1) == trim(input),
        first_read_error(Seq::empty()) is None,
{
    let t = trim(input);
    lemma_find_from_found(t, "$(cat "@, 0);
    if find_from(t, "$(cat "@, 0) >= 0 {
        assert(occurs_at(t, "$(cat "@, find_from(t, "$(cat "@, 0)));
        assert(contains(t, "$(cat "@));
    }
}


/// A referenced path leaves the workspace: it is absolute, or one of its
/// components is `..`.
pub open spec fn escapes_workspace(raw: Seq<char>) -> bool {
    starts_with(raw, "/"@) || crate::paths::path_segments(raw).contains(".."@)
}

/// Whether a referenced path may be read: one that leaves the workspace is
/// refused with `path escapes workspace: <path>`.
pub fn check_reference_path(raw: &str) -> (r: Result<(), SlashCommandError>)
    ensures
        match r {
            Ok(_) => !escapes_workspace(raw@),
            Err(e) => escapes_workspace(raw@) && slash_error_view(e) == SlashErrorView::Path(
                "path escapes workspace: "@ + raw@,
            ),
        },
{
    proof {
        reveal_strlit("/");
    }
    let segs = crate::paths::path_segments_of(raw);
    let escapes = crate::text::str_starts_with(raw, "/") || crate::plan_lint::contains_path(&segs, "..");
    if escapes {
        let mut m = owned("path escapes workspace: ");
        push_str(&mut m, raw);
        Err(SlashCommandError::Path(m))
    } else {
        Ok(())
    }
}

} // verus!
