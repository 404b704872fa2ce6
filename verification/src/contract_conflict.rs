//! Deterministic contract-conflict classification.
//!
//! Nothing here executes a repair. The authoritative side of a detected
//! contract conflict is separated from the side that may be repaired, and the
//! decision is rendered for the bounded repair machinery.
use crate::artifact_graph::{role_for_path, role_of, ArtifactLifecycle, ArtifactRole};
use crate::correction_evidence::ContractEvidence;
use crate::failure_observation::find_from;
use crate::paths::normalized_path;
use crate::text::{
    occurs_at, chars_of, contains, contains_any, copy_string, is_blank, is_blank_str, join, join_strings, lower,
    lower_str, owned, push_str, slice_range, str_contains, str_contains_any, str_eq, str_views,
    string_of, trim, trim_str, views, words, split_words,
};
use vstd::prelude::*;

verus! {

/// One side of a contract conflict.
#[derive(Debug, Clone, Copy, PartialEq, Eq, Structural)]
pub enum ConflictSideKind {
    Implementation,
    Test,
    DocsOrApi,
    VerifierContract,
}

pub open spec fn side_name(x: ConflictSideKind) -> Seq<char> {
    match x {
        ConflictSideKind::Implementation => "implementation"@,
        ConflictSideKind::Test => "test"@,
        ConflictSideKind::DocsOrApi => "docs_or_api"@,
        ConflictSideKind::VerifierContract => "verifier_contract"@,
    }
}

impl ConflictSideKind {
    /// The snake-case name.
    pub fn as_str(self) -> (r: &'static str)
        ensures
            r@ == side_name(self),
    {
        match self {
            ConflictSideKind::Implementation => "implementation",
            ConflictSideKind::Test => "test",
            ConflictSideKind::DocsOrApi => "docs_or_api",
            ConflictSideKind::VerifierContract => "verifier_contract",
        }
    }
}


/// Which side of a contract conflict is authoritative.
#[derive(Debug, Clone, Copy, PartialEq, Eq, Structural)]
pub enum ContractConflictAuthority {
    ImplementationAuthoritative,
    TestAuthoritative,
    DocsOrApiAuthoritative,
    VerifierContractLimited,
    AmbiguousAuthority,
    InsufficientEvidence,
}

pub open spec fn authority_name(x: ContractConflictAuthority) -> Seq<char> {
    match x {
        ContractConflictAuthority::ImplementationAuthoritative => "implementation_authoritative"@,
        ContractConflictAuthority::TestAuthoritative => "test_authoritative"@,
        ContractConflictAuthority::DocsOrApiAuthoritative => "docs_or_api_authoritative"@,
        ContractConflictAuthority::VerifierContractLimited => "verifier_contract_limited"@,
        ContractConflictAuthority::AmbiguousAuthority => "ambiguous_authority"@,
        ContractConflictAuthority::InsufficientEvidence => "insufficient_evidence"@,
    }
}

impl ContractConflictAuthority {
    /// The snake-case name.
    pub fn as_str(self) -> (r: &'static str)
        ensures
            r@ == authority_name(self),
    {
        match self {
            ContractConflictAuthority::ImplementationAuthoritative => "implementation_authoritative",
            ContractConflictAuthority::TestAuthoritative => "test_authoritative",
            ContractConflictAuthority::DocsOrApiAuthoritative => "docs_or_api_authoritative",
            ContractConflictAuthority::VerifierContractLimited => "verifier_contract_limited",
            ContractConflictAuthority::AmbiguousAuthority => "ambiguous_authority",
            ContractConflictAuthority::InsufficientEvidence => "insufficient_evidence",
        }
    }
}


/// What the repair machinery is told to do about a conflict.
#[derive(Debug, Clone, Copy, PartialEq, Eq, Structural)]
pub enum ContractConflictAction {
    EditSourceForDiagnostic,
    AlignTestAndVerifier,
    ReplaceInvalidVerifierCommand,
    StopWithStructuredEvidence,
}

pub open spec fn action_name(x: ContractConflictAction) -> Seq<char> {
    match x {
        ContractConflictAction::EditSourceForDiagnostic => "edit_source_for_diagnostic"@,
        ContractConflictAction::AlignTestAndVerifier => "align_test_and_verifier"@,
        ContractConflictAction::ReplaceInvalidVerifierCommand => "replace_invalid_verifier_command"@,
        ContractConflictAction::StopWithStructuredEvidence => "stop_with_structured_evidence"@,
    }
}

impl ContractConflictAction {
    /// The snake-case name.
    pub fn as_str(self) -> (r: &'static str)
        ensures
            r@ == action_name(self),
    {
        match self {
            ContractConflictAction::EditSourceForDiagnostic => "edit_source_for_diagnostic",
            ContractConflictAction::AlignTestAndVerifier => "align_test_and_verifier",
            ContractConflictAction::ReplaceInvalidVerifierCommand => "replace_invalid_verifier_command",
            ContractConflictAction::StopWithStructuredEvidence => "stop_with_structured_evidence",
        }
    }
}


// ---------------------------------------------------------------------------
// Text helpers
// ---------------------------------------------------------------------------

/// Spaces and hyphens turned into underscores.
pub open spec fn snake(s: Seq<char>) -> Seq<char> {
    s.map_values(|c: char| if c == ' ' || c == '-' { '_' } else { c })
}

fn snake_str(s: &str) -> (r: String)
    ensures
        r@ == snake(s@),
{
    let v = chars_of(s);
    let mut out: Vec<char> = Vec::new();
    let mut i: usize = 0;
    while i < v.len()
        invariant
            i <= v@.len(),
            out@ == snake(v@.take(i as int)),
        decreases v.len() - i,
    {
        let c = v[i];
        out.push(if c == ' ' || c == '-' { '_' } else { c });
        proof {
            assert(v@.take(i + 1) == v@.take(i as int).push(c));
            assert(snake(v@.take(i + 1)) =~= snake(v@.take(i as int)).push(
                if c == ' ' || c == '-' { '_' } else { c },
            ));
        }
        i = i + 1;
    }
    assert(v@.take(v@.len() as int) == v@);
    string_of(out.as_slice())
}

/// A token compared case-blind: trimmed, lower-cased, spaces and hyphens as
/// underscores.
pub open spec fn compact_token(s: Seq<char>) -> Seq<char> {
    snake(lower(trim(s)))
}

fn compact_token_str(s: &str) -> (r: String)
    ensures
        r@ == compact_token(s@),
{
    let t = trim_str(s);
    let l = lower_str(t.as_str());
    snake_str(l.as_str())
}

pub open spec fn is_punct(c: char) -> bool {
    c == ',' || c == ';'
}

/// Leading commas and semicolons removed.
pub open spec fn strip_punct_start(s: Seq<char>) -> Seq<char>
    decreases s.len(),
{
    if s.len() > 0 && is_punct(s[0]) {
        strip_punct_start(s.skip(1))
    } else {
        s
    }
}

/// Trailing commas and semicolons removed.
pub open spec fn strip_punct_end(s: Seq<char>) -> Seq<char>
    decreases s.len(),
{
    if s.len() > 0 && is_punct(s.last()) {
        strip_punct_end(s.drop_last())
    } else {
        s
    }
}

/// Commas and semicolons removed from both ends.
pub open spec fn trim_punct(s: Seq<char>) -> Seq<char> {
    strip_punct_end(strip_punct_start(s))
}

fn trim_punct_str(s: &str) -> (r: String)
    ensures
        r@ == trim_punct(s@),
{
    let v = chars_of(s);
    let mut lo: usize = 0;
    assert(v@.skip(0) == v@);
    while lo < v.len() && (v[lo] == ',' || v[lo] == ';')
        invariant
            lo <= v@.len(),
            strip_punct_start(v@) == strip_punct_start(v@.skip(lo as int)),
        decreases v.len() - lo,
    {
        assert(v@.skip(lo as int).skip(1) == v@.skip(lo + 1));
        lo = lo + 1;
    }
    let ghost start = v@.skip(lo as int);
    assert(strip_punct_start(v@) == start);
    let mut hi: usize = v.len();
    while hi > lo && (v[hi - 1] == ',' || v[hi - 1] == ';')
        invariant
            lo <= hi <= v@.len(),
            start == v@.skip(lo as int),
            strip_punct_end(start) == strip_punct_end(v@.subrange(lo as int, hi as int)),
        decreases hi - lo,
    {
        assert(v@.subrange(lo as int, hi as int).drop_last() == v@.subrange(lo as int, hi - 1));
        hi = hi - 1;
    }
    assert(start == v@.subrange(lo as int, v@.len() as int));
    string_of(slice_range(v.as_slice(), lo, hi).as_slice())
}

/// The pieces of `s` between occurrences of `c` (`str::split` on a char),
/// as the finished pieces and the piece being read.
pub open spec fn split_state(s: Seq<char>, c: char) -> (Seq<Seq<char>>, Seq<char>)
    decreases s.len(),
{
    if s.len() == 0 {
        (Seq::empty(), Seq::empty())
    } else {
        let (ps, cur) = split_state(s.drop_last(), c);
        if s.last() == c {
            (ps.push(cur), Seq::empty())
        } else {
            (ps, cur.push(s.last()))
        }
    }
}

/// The pieces of `s` split at every `c`, empty pieces included.
pub open spec fn split_char(s: Seq<char>, c: char) -> Seq<Seq<char>> {
    let (ps, cur) = split_state(s, c);
    ps.push(cur)
}

fn split_at_char(s: &str, c: char) -> (r: Vec<String>)
    ensures
        views(r@) == split_char(s@, c),
{
    let v = chars_of(s);
    let mut ps: Vec<String> = Vec::new();
    let mut cur: Vec<char> = Vec::new();
    let mut i: usize = 0;
    while i < v.len()
        invariant
            i <= v@.len(),
            (views(ps@), cur@) == split_state(v@.take(i as int), c),
        decreases v.len() - i,
    {
        let ch = v[i];
        proof {
            assert(v@.take(i + 1).drop_last() == v@.take(i as int));
        }
        if ch == c {
            let ghost before = ps@;
            ps.push(string_of(cur.as_slice()));
            assert(views(ps@) =~= views(before).push(cur@));
            cur = Vec::new();
        } else {
            cur.push(ch);
        }
        i = i + 1;
    }
    assert(v@.take(v@.len() as int) == v@);
    let ghost before = ps@;
    ps.push(string_of(cur.as_slice()));
    assert(views(ps@) =~= views(before).push(cur@));
    ps
}

// ---------------------------------------------------------------------------
// Reading the evidence
// ---------------------------------------------------------------------------

/// The text of an optional value, empty when absent.
pub open spec fn opt_text(o: Option<String>) -> Seq<char> {
    match o {
        Some(s) => s@,
        None => Seq::empty(),
    }
}

/// The non-empty values, in order.
pub open spec fn nonempty_parts(s: Seq<Seq<char>>) -> Seq<Seq<char>>
    decreases s.len(),
{
    if s.len() == 0 {
        Seq::empty()
    } else if s.last().len() == 0 {
        nonempty_parts(s.drop_last())
    } else {
        nonempty_parts(s.drop_last()).push(s.last())
    }
}

/// The single-valued facts that make up the evidence text.
pub open spec fn head_parts(e: ContractEvidence) -> Seq<Seq<char>> {
    seq![
        e.guard@,
        opt_text(e.diagnostic_code),
        opt_text(e.reason_code),
        opt_text(e.violated_contract),
        opt_text(e.failure_kind),
        opt_text(e.semantic_failure_kind),
        opt_text(e.source_of_truth),
        opt_text(e.explicit_stop_reason),
        opt_text(e.weak_verifier_reason),
        opt_text(e.diagnostic),
    ]
}

/// Every piece of the evidence text: the non-empty single facts, then the
/// verifier payload, the semantic report and the evaluation fields.
pub open spec fn text_parts(e: ContractEvidence) -> Seq<Seq<char>> {
    nonempty_parts(head_parts(e)) + views(e.verifier_diagnostic_payload@) + views(
        e.semantic_failure_report@,
    ) + views(e.eval_report_fields@)
}

/// The evidence as one searchable text: its parts joined by spaces,
/// lower-cased, with spaces and hyphens as underscores.
pub open spec fn evidence_text(e: ContractEvidence) -> Seq<char> {
    snake(lower(join(text_parts(e), " "@)))
}

fn text_of(o: &Option<String>) -> (r: String)
    ensures
        r@ == opt_text(*o),
{
    match o {
        Some(s) => {
            copy_string(s)
        },
        None => {
            let r = owned("");
            proof {
                reveal_strlit("");
            }
            r
        },
    }
}

fn append_all(parts: &mut Vec<String>, more: &Vec<String>)
    ensures
        views(final(parts)@) == views(old(parts)@) + views(more@),
{
    let ghost base = views(parts@);
    let mut i: usize = 0;
    while i < more.len()
        invariant
            i <= more@.len(),
            views(parts@) == base + views(more@).take(i as int),
        decreases more.len() - i,
    {
        let ghost before = parts@;
        parts.push(copy_string(&more[i]));
        proof {
            assert(views(more@).take(i + 1) == views(more@).take(i as int).push(more@[i as int]@));
            assert(views(parts@) =~= views(before).push(more@[i as int]@));
        }
        i = i + 1;
    }
    assert(views(more@).take(more@.len() as int) == views(more@));
}

/// The searchable evidence text.
pub fn conflict_text(e: &ContractEvidence) -> (r: String)
    ensures
        r@ == evidence_text(*e),
{
    let heads = vec![
        copy_string(&e.guard),
        text_of(&e.diagnostic_code),
        text_of(&e.reason_code),
        text_of(&e.violated_contract),
        text_of(&e.failure_kind),
        text_of(&e.semantic_failure_kind),
        text_of(&e.source_of_truth),
        text_of(&e.explicit_stop_reason),
        text_of(&e.weak_verifier_reason),
        text_of(&e.diagnostic),
    ];
    assert(views(heads@) =~= head_parts(*e));
    let mut parts: Vec<String> = Vec::new();
    let mut i: usize = 0;
    while i < heads.len()
        invariant
            i <= heads@.len(),
            views(parts@) == nonempty_parts(views(heads@).take(i as int)),
        decreases heads.len() - i,
    {
        proof {
            assert(views(heads@).take(i + 1).drop_last() == views(heads@).take(i as int));
        }
        if crate::text::char_count(heads[i].as_str()) > 0 {
            let ghost before = parts@;
            parts.push(copy_string(&heads[i]));
            assert(views(parts@) =~= views(before).push(heads@[i as int]@));
        }
        i = i + 1;
    }
    assert(views(heads@).take(heads@.len() as int) == views(heads@));
    append_all(&mut parts, &e.verifier_diagnostic_payload);
    append_all(&mut parts, &e.semantic_failure_report);
    append_all(&mut parts, &e.eval_report_fields);
    let joined = join_strings(&parts, " ");
    let lowered = lower_str(joined.as_str());
    snake_str(lowered.as_str())
}

/// The value mentions a contract conflict.
pub open spec fn names_conflict(o: Option<String>) -> bool {
    match o {
        Some(s) => contains(s@, "contract_conflict"@),
        None => false,
    }
}

/// Some line contains `n`.
pub open spec fn any_line_contains(lines: Seq<Seq<char>>, n: Seq<char>) -> bool {
    exists|k: int| 0 <= k < lines.len() && contains(#[trigger] lines[k], n)
}

/// The evidence reports a contract conflict: one of its codes, or a line of
/// its payload, semantic report or evaluation fields, mentions
/// `contract_conflict`.
pub open spec fn is_conflict(e: ContractEvidence) -> bool {
    ||| names_conflict(e.diagnostic_code)
    ||| names_conflict(e.reason_code)
    ||| names_conflict(e.violated_contract)
    ||| names_conflict(e.failure_kind)
    ||| names_conflict(e.semantic_failure_kind)
    ||| names_conflict(e.explicit_stop_reason)
    ||| names_conflict(e.no_progress_strategy)
    ||| any_line_contains(views(e.verifier_diagnostic_payload@), "contract_conflict"@)
    ||| any_line_contains(views(e.semantic_failure_report@), "contract_conflict"@)
    ||| any_line_contains(views(e.eval_report_fields@), "contract_conflict"@)
}

fn opt_names_conflict(o: &Option<String>) -> (r: bool)
    ensures
        r == names_conflict(*o),
{
    match o {
        Some(s) => str_contains(s.as_str(), "contract_conflict"),
        None => false,
    }
}

fn lines_contain(lines: &Vec<String>, n: &str) -> (r: bool)
    ensures
        r == any_line_contains(views(lines@), n@),
{
    let mut k: usize = 0;
    while k < lines.len()
        invariant
            k <= lines@.len(),
            forall|j: int| 0 <= j < k ==> !contains(#[trigger] views(lines@)[j], n@),
        decreases lines.len() - k,
    {
        if str_contains(lines[k].as_str(), n) {
            assert(contains(views(lines@)[k as int], n@));
            return true;
        }
        k = k + 1;
    }
    false
}

/// Whether the evidence reports a contract conflict.
pub fn is_contract_conflict(e: &ContractEvidence) -> (r: bool)
    ensures
        r == is_conflict(*e),
{
    opt_names_conflict(&e.diagnostic_code) || opt_names_conflict(&e.reason_code)
        || opt_names_conflict(&e.violated_contract) || opt_names_conflict(&e.failure_kind)
        || opt_names_conflict(&e.semantic_failure_kind) || opt_names_conflict(
        &e.explicit_stop_reason,
    ) || opt_names_conflict(&e.no_progress_strategy) || lines_contain(
        &e.verifier_diagnostic_payload,
        "contract_conflict",
    ) || lines_contain(&e.semantic_failure_report, "contract_conflict") || lines_contain(
        &e.eval_report_fields,
        "contract_conflict",
    )
}

/// The value a line gives after the first `marker`: the next word with
/// commas and semicolons trimmed from its ends, if that is not blank.
pub open spec fn field_value(line: Seq<char>, marker: Seq<char>) -> Option<Seq<char>> {
    let i = find_from(line, marker, 0);
    if i < 0 {
        None
    } else {
        let ws = words(line.skip(i + marker.len()));
        let v = trim_punct(if ws.len() > 0 { ws[0] } else { Seq::empty() });
        if is_blank(v) {
            None
        } else {
            Some(v)
        }
    }
}

/// The value given by the last line that gives one.
pub open spec fn last_field(lines: Seq<Seq<char>>, marker: Seq<char>) -> Option<Seq<char>>
    decreases lines.len(),
{
    if lines.len() == 0 {
        None
    } else {
        match field_value(lines.last(), marker) {
            Some(v) => Some(v),
            None => last_field(lines.drop_last(), marker),
        }
    }
}

/// A `key=value` field of the evidence: searched from the last evaluation
/// field back, then the verifier payload, then the semantic report.
pub open spec fn eval_field_of(e: ContractEvidence, key: Seq<char>) -> Option<Seq<char>> {
    let marker = key + "="@;
    match last_field(views(e.eval_report_fields@), marker) {
        Some(v) => Some(v),
        None => match last_field(views(e.verifier_diagnostic_payload@), marker) {
            Some(v) => Some(v),
            None => last_field(views(e.semantic_failure_report@), marker),
        },
    }
}

fn field_value_of(line: &str, marker: &str) -> (r: Option<String>)
    requires
        marker@.len() > 0,
    ensures
        opt_seq(r) == field_value(line@, marker@),
{
    let hv = chars_of(line);
    let nv = chars_of(marker);
    let h = hv.as_slice();
    let n = nv.as_slice();
    match crate::failure_observation::find_from_exec(h, n, 0) {
        None => None,
        Some(i) => {
            proof {
                crate::failure_observation::lemma_find_from_found(h@, n@, 0);
            }
            let hl: usize = h.len();
            assert(i + n@.len() <= hl);
            let tail = slice_range(h, i + n.len(), h.len());
            assert(tail@ =~= line@.skip(i + marker@.len()));
            let rest = string_of(tail.as_slice());
            let ws = split_words(rest.as_str());
            let first = if ws.len() > 0 {
                copy_string(&ws[0])
            } else {
                proof {
                    reveal_strlit("");
                }
                owned("")
            };
            assert(views(ws@).len() == ws@.len());
            let v = trim_punct_str(first.as_str());
            if is_blank_str(v.as_str()) {
                None
            } else {
                Some(v)
            }
        },
    }
}

/// The view of an optional string.
pub open spec fn opt_seq(o: Option<String>) -> Option<Seq<char>> {
    match o {
        Some(s) => Some(s@),
        None => None,
    }
}

fn last_field_of(lines: &Vec<String>, marker: &str) -> (r: Option<String>)
    requires
        marker@.len() > 0,
    ensures
        opt_seq(r) == last_field(views(lines@), marker@),
{
    let mut k: usize = lines.len();
    assert(views(lines@).take(lines@.len() as int) == views(lines@));
    while k > 0
        invariant
            k <= lines@.len(),
            marker@.len() > 0,
            last_field(views(lines@), marker@) == last_field(views(lines@).take(k as int), marker@),
        decreases k,
    {
        proof {
            assert(views(lines@).take(k as int).drop_last() == views(lines@).take(k - 1));
            assert(views(lines@).take(k as int).last() == lines@[k - 1]@);
        }
        match field_value_of(lines[k - 1].as_str(), marker) {
            Some(v) => {
                return Some(v);
            },
            None => {},
        }
        k = k - 1;
    }
    None
}

/// A `key=value` field of the evidence.
pub fn eval_field(e: &ContractEvidence, key: &str) -> (r: Option<String>)
    ensures
        opt_seq(r) == eval_field_of(*e, key@),
{
    let mut marker = owned(key);
    push_str(&mut marker, "=");
    proof {
        reveal_strlit("=");
    }
    match last_field_of(&e.eval_report_fields, marker.as_str()) {
        Some(v) => Some(v),
        None => match last_field_of(&e.verifier_diagnostic_payload, marker.as_str()) {
            Some(v) => Some(v),
            None => last_field_of(&e.semantic_failure_report, marker.as_str()),
        },
    }
}

// ---------------------------------------------------------------------------
// Conflict sides
// ---------------------------------------------------------------------------

/// The side a `contract_conflict_sides` token names.
pub open spec fn side_of_token(t: Seq<char>) -> Option<ConflictSideKind> {
    let c = compact_token(t);
    if c == "implementation"@ || c == "source"@ || c == "source_impl"@ {
        Some(ConflictSideKind::Implementation)
    } else if c == "test"@ || c == "tests"@ || c == "generated_test"@ || c == "preexisting_test"@ {
        Some(ConflictSideKind::Test)
    } else if c == "docs"@ || c == "doc"@ || c == "api"@ || c == "schema"@ || c == "docs_or_api"@ {
        Some(ConflictSideKind::DocsOrApi)
    } else if c == "verifier"@ || c == "verifier_contract"@ || c == "weak_verifier"@ {
        Some(ConflictSideKind::VerifierContract)
    } else {
        None
    }
}

fn token_side(t: &str) -> (r: Option<ConflictSideKind>)
    ensures
        r == side_of_token(t@),
{
    let c = compact_token_str(t);
    let s = c.as_str();
    if str_eq(s, "implementation") || str_eq(s, "source") || str_eq(s, "source_impl") {
        Some(ConflictSideKind::Implementation)
    } else if str_eq(s, "test") || str_eq(s, "tests") || str_eq(s, "generated_test") || str_eq(
        s,
        "preexisting_test",
    ) {
        Some(ConflictSideKind::Test)
    } else if str_eq(s, "docs") || str_eq(s, "doc") || str_eq(s, "api") || str_eq(s, "schema")
        || str_eq(s, "docs_or_api") {
        Some(ConflictSideKind::DocsOrApi)
    } else if str_eq(s, "verifier") || str_eq(s, "verifier_contract") || str_eq(s, "weak_verifier") {
        Some(ConflictSideKind::VerifierContract)
    } else {
        None
    }
}

/// The side an artifact role belongs to.
pub open spec fn side_of_role(r: ArtifactRole) -> Option<ConflictSideKind> {
    match r {
        ArtifactRole::Entrypoint | ArtifactRole::IntegrationTarget | ArtifactRole::Implementation => Some(
            ConflictSideKind::Implementation,
        ),
        ArtifactRole::Test => Some(ConflictSideKind::Test),
        ArtifactRole::Docs => Some(ConflictSideKind::DocsOrApi),
        _ => None,
    }
}

fn role_side(r: ArtifactRole) -> (s: Option<ConflictSideKind>)
    ensures
        s == side_of_role(r),
{
    match r {
        ArtifactRole::Entrypoint | ArtifactRole::IntegrationTarget | ArtifactRole::Implementation => Some(
            ConflictSideKind::Implementation,
        ),
        ArtifactRole::Test => Some(ConflictSideKind::Test),
        ArtifactRole::Docs => Some(ConflictSideKind::DocsOrApi),
        _ => None,
    }
}

/// The side of a path, taken as a required artifact.
pub open spec fn side_of_path(p: Seq<char>) -> Option<ConflictSideKind> {
    side_of_role(role_of(normalized_path(p), ArtifactLifecycle::Required))
}

/// An optional value as a list of zero or one value.
pub open spec fn opt_list(o: Option<String>) -> Seq<Seq<char>> {
    match o {
        Some(s) => seq![s@],
        None => Seq::empty(),
    }
}

/// The paths whose roles name sides: candidates, required and missing
/// paths, then the target and the repair target.
pub open spec fn conflict_paths(e: ContractEvidence) -> Seq<Seq<char>> {
    views(e.candidate_artifacts@) + views(e.required_paths@) + views(e.missing_paths@) + opt_list(
        e.target_path,
    ) + opt_list(e.repair_target)
}

/// The evidence points at the verifier contract.
pub open spec fn verifier_hint(e: ContractEvidence) -> bool {
    e.weak_verifier_reason is Some || contains_any(
        evidence_text(e),
        seq!["verifier_contract"@, "weak_verifier"@],
    )
}

/// The sides the evidence names, before duplicates are dropped: the tokens
/// of `contract_conflict_sides`, then the paths' roles, then the verifier
/// contract when hinted.
pub open spec fn side_candidates(e: ContractEvidence) -> Seq<Option<ConflictSideKind>> {
    let tokens = match eval_field_of(e, "contract_conflict_sides"@) {
        Some(v) => split_char(v, '|'),
        None => Seq::empty(),
    };
    tokens.map_values(|t: Seq<char>| side_of_token(t)) + conflict_paths(e).map_values(
        |p: Seq<char>| side_of_path(p),
    ) + if verifier_hint(e) {
        seq![Some(ConflictSideKind::VerifierContract)]
    } else {
        Seq::empty()
    }
}

/// The side added to the list unless it is already there.
pub open spec fn add_side(sides: Seq<ConflictSideKind>, o: Option<ConflictSideKind>) -> Seq<ConflictSideKind> {
    match o {
        Some(s) => if sides.contains(s) {
            sides
        } else {
            sides.push(s)
        },
        None => sides,
    }
}

/// The candidates added in order, each side once.
pub open spec fn add_sides(sides: Seq<ConflictSideKind>, os: Seq<Option<ConflictSideKind>>) -> Seq<ConflictSideKind>
    decreases os.len(),
{
    if os.len() == 0 {
        sides
    } else {
        add_side(add_sides(sides, os.drop_last()), os.last())
    }
}

/// The conflict's sides in the order first named, each once.
pub open spec fn inferred_sides(e: ContractEvidence) -> Seq<ConflictSideKind> {
    add_sides(Seq::empty(), side_candidates(e))
}

fn push_unique_side(sides: &mut Vec<ConflictSideKind>, o: Option<ConflictSideKind>)
    ensures
        final(sides)@ == add_side(old(sides)@, o),
{
    match o {
        Some(s) => {
            let mut k: usize = 0;
            while k < sides.len()
                invariant
                    k <= sides@.len(),
                    o == Some(s),
                    sides@ == old(sides)@,
                    forall|j: int| 0 <= j < k ==> sides@[j] != s,
                decreases sides.len() - k,
            {
                if sides[k] == s {
                    assert(sides@[k as int] == s);
                    assert(sides@.contains(s));

                    return;
                }
                k = k + 1;
            }
            sides.push(s);
        },
        None => {},
    }
}

fn push_path_sides(cands: &mut Vec<Option<ConflictSideKind>>, paths: &Vec<String>)
    ensures
        final(cands)@ == old(cands)@ + views(paths@).map_values(|p: Seq<char>| side_of_path(p)),
{
    let ghost base = cands@;
    let mut i: usize = 0;
    while i < paths.len()
        invariant
            i <= paths@.len(),
            cands@ == base + views(paths@).take(i as int).map_values(|p: Seq<char>| side_of_path(p)),
        decreases paths.len() - i,
    {
        let ghost before = cands@;
        cands.push(role_side(role_for_path(paths[i].as_str(), ArtifactLifecycle::Required)));
        proof {
            assert(views(paths@).take(i + 1) == views(paths@).take(i as int).push(paths@[i as int]@));
            assert(cands@ =~= before.push(side_of_path(paths@[i as int]@)));
        }
        i = i + 1;
    }
    assert(views(paths@).take(paths@.len() as int) == views(paths@));
}

fn opt_as_list(o: &Option<String>) -> (r: Vec<String>)
    ensures
        views(r@) == opt_list(*o),
{
    match o {
        Some(s) => {
            let r = vec![copy_string(s)];
            assert(views(r@) =~= opt_list(*o));
            r
        },
        None => {
            let r: Vec<String> = Vec::new();
            assert(views(r@) =~= opt_list(*o));
            r
        },
    }
}

/// The conflict's sides, each once, in the order first named.
#[verifier::spinoff_prover]
#[verifier::rlimit(40)]
pub fn conflict_sides(e: &ContractEvidence, text: &str) -> (r: Vec<ConflictSideKind>)
    requires
        text@ == evidence_text(*e),
    ensures
        r@ == inferred_sides(*e),
{
    let mut cands: Vec<Option<ConflictSideKind>> = Vec::new();
    match eval_field(e, "contract_conflict_sides") {
        Some(v) => {
            let tokens = split_at_char(v.as_str(), '|');
            let mut i: usize = 0;
            while i < tokens.len()
                invariant
                    i <= tokens@.len(),
                    cands@ == views(tokens@).take(i as int).map_values(|t: Seq<char>| side_of_token(t)),
                decreases tokens.len() - i,
            {
                let ghost before = cands@;
                cands.push(token_side(tokens[i].as_str()));
                proof {
                    assert(views(tokens@).take(i + 1) == views(tokens@).take(i as int).push(
                        tokens@[i as int]@,
                    ));
                    assert(cands@ =~= before.push(side_of_token(tokens@[i as int]@)));
                }
                i = i + 1;
            }
            assert(views(tokens@).take(tokens@.len() as int) == views(tokens@));
        },
        None => {},
    }
    let ghost token_part = cands@;
    push_path_sides(&mut cands, &e.candidate_artifacts);
    push_path_sides(&mut cands, &e.required_paths);
    push_path_sides(&mut cands, &e.missing_paths);
    let target = opt_as_list(&e.target_path);
    push_path_sides(&mut cands, &target);
    let repair = opt_as_list(&e.repair_target);
    push_path_sides(&mut cands, &repair);
    let needles = ["verifier_contract", "weak_verifier"];
    assert(str_views(needles@) == seq!["verifier_contract"@, "weak_verifier"@]);
    let hinted = e.weak_verifier_reason.is_some() || str_contains_any(text, &needles);
    if hinted {
        cands.push(Some(ConflictSideKind::VerifierContract));
    }
    proof {
        let ps = conflict_paths(*e);
        let f = |p: Seq<char>| side_of_path(p);
        assert(ps.map_values(f) =~= views(e.candidate_artifacts@).map_values(f) + views(
            e.required_paths@,
        ).map_values(f) + views(e.missing_paths@).map_values(f) + opt_list(e.target_path).map_values(
            f,
        ) + opt_list(e.repair_target).map_values(f));
        assert(cands@ =~= side_candidates(*e));
    }
    let mut sides: Vec<ConflictSideKind> = Vec::new();
    let mut i: usize = 0;
    while i < cands.len()
        invariant
            i <= cands@.len(),
            sides@ == add_sides(Seq::empty(), cands@.take(i as int)),
        decreases cands.len() - i,
    {
        proof {
            assert(cands@.take(i + 1).drop_last() == cands@.take(i as int));
        }
        push_unique_side(&mut sides, cands[i]);
        i = i + 1;
    }
    assert(cands@.take(cands@.len() as int) == cands@);
    sides
}

// ---------------------------------------------------------------------------
// Authority
// ---------------------------------------------------------------------------

/// The authority a `contract_conflict_authority` value names.
pub open spec fn named_authority(v: Seq<char>) -> Option<ContractConflictAuthority> {
    if v == "implementation_authoritative"@ {
        Some(ContractConflictAuthority::ImplementationAuthoritative)
    } else if v == "test_authoritative"@ {
        Some(ContractConflictAuthority::TestAuthoritative)
    } else if v == "docs_or_api_authoritative"@ {
        Some(ContractConflictAuthority::DocsOrApiAuthoritative)
    } else if v == "verifier_contract_limited"@ {
        Some(ContractConflictAuthority::VerifierContractLimited)
    } else if v == "ambiguous_authority"@ {
        Some(ContractConflictAuthority::AmbiguousAuthority)
    } else if v == "insufficient_evidence"@ {
        Some(ContractConflictAuthority::InsufficientEvidence)
    } else {
        None
    }
}

fn authority_named(v: &str) -> (r: Option<ContractConflictAuthority>)
    ensures
        r == named_authority(v@),
{
    if str_eq(v, "implementation_authoritative") {
        Some(ContractConflictAuthority::ImplementationAuthoritative)
    } else if str_eq(v, "test_authoritative") {
        Some(ContractConflictAuthority::TestAuthoritative)
    } else if str_eq(v, "docs_or_api_authoritative") {
        Some(ContractConflictAuthority::DocsOrApiAuthoritative)
    } else if str_eq(v, "verifier_contract_limited") {
        Some(ContractConflictAuthority::VerifierContractLimited)
    } else if str_eq(v, "ambiguous_authority") {
        Some(ContractConflictAuthority::AmbiguousAuthority)
    } else if str_eq(v, "insufficient_evidence") {
        Some(ContractConflictAuthority::InsufficientEvidence)
    } else {
        None
    }
}

pub open spec fn verifier_limited_words() -> Seq<Seq<char>> {
    seq!["weak_verifier"@, "self_referential_verifier"@, "verifier_contract_limited"@, "invalid_verifier"@]
}

pub open spec fn generated_test_words() -> Seq<Seq<char>> {
    seq!["generated_test_not_authoritative"@, "generated_test"@, "test_generated_from_source"@]
}

pub open spec fn test_contract_words() -> Seq<Seq<char>> {
    seq!["preexisting_test"@, "test_contract"@, "original_verifier"@, "golden_test"@]
}

pub open spec fn docs_contract_words() -> Seq<Seq<char>> {
    seq![
        "docs_api_contract"@,
        "docs_or_api_authoritative"@,
        "documentation_contract"@,
        "api_contract"@,
        "schema_contract"@,
        "profile_contract"@,
        "user_contract"@,
    ]
}

pub open spec fn ambiguity_words() -> Seq<Seq<char>> {
    seq!["ambiguous_authority"@, "conflicting_authority"@]
}

/// The authority a source of truth stands for.
pub open spec fn authority_of_truth(sot: Seq<char>) -> ContractConflictAuthority {
    if sot == "verifier_contract"@ {
        ContractConflictAuthority::VerifierContractLimited
    } else if sot == "generated_test_not_authoritative"@ {
        ContractConflictAuthority::ImplementationAuthoritative
    } else if sot == "test_contract_and_original_verifier"@ || sot == "original_verifier_diagnostic"@ {
        ContractConflictAuthority::TestAuthoritative
    } else if sot == "documentation_contract"@ || sot == "profile_contract"@ {
        ContractConflictAuthority::DocsOrApiAuthoritative
    } else {
        ContractConflictAuthority::AmbiguousAuthority
    }
}

/// Which side is authoritative: an explicit `contract_conflict_authority`
/// field first, then the words of the evidence text in priority order, then
/// the source of truth; with none of them the evidence is insufficient.
pub open spec fn authority_of(e: ContractEvidence, text: Seq<char>, sot: Seq<char>) -> ContractConflictAuthority {
    let named = match eval_field_of(e, "contract_conflict_authority"@) {
        Some(v) => named_authority(v),
        None => None,
    };
    if named is Some {
        named->0
    } else if e.weak_verifier_reason is Some || contains_any(text, verifier_limited_words()) {
        ContractConflictAuthority::VerifierContractLimited
    } else if contains_any(text, generated_test_words()) {
        ContractConflictAuthority::ImplementationAuthoritative
    } else if contains_any(text, test_contract_words()) {
        ContractConflictAuthority::TestAuthoritative
    } else if contains_any(text, docs_contract_words()) {
        ContractConflictAuthority::DocsOrApiAuthoritative
    } else if contains_any(text, ambiguity_words()) {
        ContractConflictAuthority::AmbiguousAuthority
    } else if sot != "unknown"@ {
        authority_of_truth(sot)
    } else {
        ContractConflictAuthority::InsufficientEvidence
    }
}

fn truth_authority(sot: &str) -> (r: ContractConflictAuthority)
    ensures
        r == authority_of_truth(sot@),
{
    if str_eq(sot, "verifier_contract") {
        ContractConflictAuthority::VerifierContractLimited
    } else if str_eq(sot, "generated_test_not_authoritative") {
        ContractConflictAuthority::ImplementationAuthoritative
    } else if str_eq(sot, "test_contract_and_original_verifier") || str_eq(
        sot,
        "original_verifier_diagnostic",
    ) {
        ContractConflictAuthority::TestAuthoritative
    } else if str_eq(sot, "documentation_contract") || str_eq(sot, "profile_contract") {
        ContractConflictAuthority::DocsOrApiAuthoritative
    } else {
        ContractConflictAuthority::AmbiguousAuthority
    }
}

/// Classifies which side of the conflict is authoritative.
pub fn classify_authority(e: &ContractEvidence, text: &str, source_of_truth: &str) -> (r: ContractConflictAuthority)
    ensures
        r == authority_of(*e, text@, source_of_truth@),
{
    let named = match eval_field(e, "contract_conflict_authority") {
        Some(v) => authority_named(v.as_str()),
        None => None,
    };
    if let Some(a) = named {
        return a;
    }
    let w1 = ["weak_verifier", "self_referential_verifier", "verifier_contract_limited", "invalid_verifier"];
    assert(str_views(w1@) == verifier_limited_words());
    if e.weak_verifier_reason.is_some() || str_contains_any(text, &w1) {
        return ContractConflictAuthority::VerifierContractLimited;
    }
    let w2 = ["generated_test_not_authoritative", "generated_test", "test_generated_from_source"];
    assert(str_views(w2@) == generated_test_words());
    if str_contains_any(text, &w2) {
        return ContractConflictAuthority::ImplementationAuthoritative;
    }
    let w3 = ["preexisting_test", "test_contract", "original_verifier", "golden_test"];
    assert(str_views(w3@) == test_contract_words());
    if str_contains_any(text, &w3) {
        return ContractConflictAuthority::TestAuthoritative;
    }
    let w4 = [
        "docs_api_contract",
        "docs_or_api_authoritative",
        "documentation_contract",
        "api_contract",
        "schema_contract",
        "profile_contract",
        "user_contract",
    ];
    assert(str_views(w4@) == docs_contract_words());
    if str_contains_any(text, &w4) {
        return ContractConflictAuthority::DocsOrApiAuthoritative;
    }
    let w5 = ["ambiguous_authority", "conflicting_authority"];
    assert(str_views(w5@) == ambiguity_words());
    if str_contains_any(text, &w5) {
        return ContractConflictAuthority::AmbiguousAuthority;
    }
    if !str_eq(source_of_truth, "unknown") {
        return truth_authority(source_of_truth);
    }
    ContractConflictAuthority::InsufficientEvidence
}

/// The source of truth for the conflict: an explicit
/// `contract_conflict_source_of_truth` field, else the evidence's own source
/// of truth, else one read from the evidence text, else `unknown`.
pub open spec fn truth_hint(e: ContractEvidence) -> Seq<char> {
    let t = evidence_text(e);
    match eval_field_of(e, "contract_conflict_source_of_truth"@) {
        Some(v) => v,
        None => match e.source_of_truth {
            Some(s) => s@,
            None => if contains_any(t, seq!["generated_test_not_authoritative"@, "generated_test"@]) {
                "generated_test_not_authoritative"@
            } else if contains_any(t, seq!["preexisting_test"@, "test_contract"@]) {
                "test_contract_and_original_verifier"@
            } else if contains_any(t, seq!["docs_api_contract"@, "api_contract"@, "schema_contract"@]) {
                "docs_api_contract"@
            } else if contains_any(t, seq!["weak_verifier"@, "invalid_verifier"@]) {
                "verifier_contract"@
            } else {
                "unknown"@
            },
        },
    }
}

/// The conflict's source of truth.
pub fn source_of_truth_hint(e: &ContractEvidence, text: &str) -> (r: String)
    requires
        text@ == evidence_text(*e),
    ensures
        r@ == truth_hint(*e),
{
    if let Some(v) = eval_field(e, "contract_conflict_source_of_truth") {
        return v;
    }
    if let Some(s) = &e.source_of_truth {
        return copy_string(s);
    }
    let a = ["generated_test_not_authoritative", "generated_test"];
    assert(str_views(a@) == seq!["generated_test_not_authoritative"@, "generated_test"@]);
    let b = ["preexisting_test", "test_contract"];
    assert(str_views(b@) == seq!["preexisting_test"@, "test_contract"@]);
    let c = ["docs_api_contract", "api_contract", "schema_contract"];
    assert(str_views(c@) == seq!["docs_api_contract"@, "api_contract"@, "schema_contract"@]);
    let d = ["weak_verifier", "invalid_verifier"];
    assert(str_views(d@) == seq!["weak_verifier"@, "invalid_verifier"@]);
    if str_contains_any(text, &a) {
        owned("generated_test_not_authoritative")
    } else if str_contains_any(text, &b) {
        owned("test_contract_and_original_verifier")
    } else if str_contains_any(text, &c) {
        owned("docs_api_contract")
    } else if str_contains_any(text, &d) {
        owned("verifier_contract")
    } else {
        owned("unknown")
    }
}

// ---------------------------------------------------------------------------
// Resolution
// ---------------------------------------------------------------------------

/// The side to repair under an authority.
pub open spec fn target_side_of(a: ContractConflictAuthority) -> Option<ConflictSideKind> {
    match a {
        ContractConflictAuthority::ImplementationAuthoritative => Some(ConflictSideKind::Test),
        ContractConflictAuthority::TestAuthoritative => Some(ConflictSideKind::Implementation),
        ContractConflictAuthority::DocsOrApiAuthoritative => Some(ConflictSideKind::Implementation),
        ContractConflictAuthority::VerifierContractLimited => Some(ConflictSideKind::VerifierContract),
        _ => None,
    }
}

/// The action selected under an authority.
pub open spec fn action_of(a: ContractConflictAuthority) -> ContractConflictAction {
    match a {
        ContractConflictAuthority::ImplementationAuthoritative => ContractConflictAction::AlignTestAndVerifier,
        ContractConflictAuthority::TestAuthoritative => ContractConflictAction::EditSourceForDiagnostic,
        ContractConflictAuthority::DocsOrApiAuthoritative => ContractConflictAction::EditSourceForDiagnostic,
        ContractConflictAuthority::VerifierContractLimited => ContractConflictAction::ReplaceInvalidVerifierCommand,
        _ => ContractConflictAction::StopWithStructuredEvidence,
    }
}

/// Why the repair stops, when it does.
pub open spec fn stop_reason_of(a: ContractConflictAuthority) -> Option<Seq<char>> {
    match a {
        ContractConflictAuthority::AmbiguousAuthority => Some("ambiguous_contract_authority"@),
        ContractConflictAuthority::InsufficientEvidence => Some(
            "contract_conflict_missing_authority_evidence"@,
        ),
        _ => None,
    }
}

/// The evidence that is missing to resolve the conflict.
pub open spec fn missing_of(a: ContractConflictAuthority) -> Seq<Seq<char>> {
    match a {
        ContractConflictAuthority::InsufficientEvidence => seq!["source_of_truth"@, "conflict_sides"@],
        _ => Seq::empty(),
    }
}

/// `resolved`, or `safe_stop` when no side may be repaired.
pub open spec fn status_of(a: ContractConflictAuthority) -> Seq<char> {
    match a {
        ContractConflictAuthority::AmbiguousAuthority | ContractConflictAuthority::InsufficientEvidence => "safe_stop"@,
        _ => "resolved"@,
    }
}

/// A resolution of a contract conflict.
#[derive(Debug, Clone, PartialEq, Eq)]
pub struct ContractConflictResolution {
    pub status: &'static str,
    pub sides: Vec<ConflictSideKind>,
    pub authority: ContractConflictAuthority,
    pub repair_target_side: Option<ConflictSideKind>,
    pub selected_action: ContractConflictAction,
    pub safe_stop_reason: Option<&'static str>,
    pub missing_evidence: Vec<&'static str>,
    pub source_of_truth: String,
}

/// The view of an optional string slice.
pub open spec fn opt_str(o: Option<&'static str>) -> Option<Seq<char>> {
    match o {
        Some(s) => Some(s@),
        None => None,
    }
}

/// The resolution the evidence determines.
pub open spec fn resolves(r: ContractConflictResolution, e: ContractEvidence) -> bool {
    let a = authority_of(e, evidence_text(e), truth_hint(e));
    &&& r.sides@ == inferred_sides(e)
    &&& r.authority == a
    &&& r.source_of_truth@ == truth_hint(e)
    &&& r.repair_target_side == target_side_of(a)
    &&& r.selected_action == action_of(a)
    &&& opt_str(r.safe_stop_reason) == stop_reason_of(a)
    &&& str_views(r.missing_evidence@) == missing_of(a)
    &&& r.status@ == status_of(a)
}

/// The sides as rendered: `unknown` when none, else their names joined by `|`.
pub open spec fn sides_text(sides: Seq<ConflictSideKind>) -> Seq<char> {
    if sides.len() == 0 {
        "unknown"@
    } else {
        join(sides.map_values(|s: ConflictSideKind| side_name(s)), "|"@)
    }
}

/// The missing evidence as rendered: `none`, or the names joined by `|`.
pub open spec fn missing_text(m: Seq<Seq<char>>) -> Seq<char> {
    if m.len() == 0 {
        "none"@
    } else {
        join(m, "|"@)
    }
}

pub open spec fn target_text(o: Option<ConflictSideKind>) -> Seq<char> {
    match o {
        Some(s) => side_name(s),
        None => "none"@,
    }
}

pub open spec fn stop_text(o: Option<&'static str>) -> Seq<char> {
    match o {
        Some(s) => s@,
        None => "none"@,
    }
}

/// The evaluation fields of a resolution.
pub open spec fn resolution_fields(r: ContractConflictResolution) -> Seq<Seq<char>> {
    seq![
        "contract_conflict_status="@ + r.status@,
        "contract_conflict_sides="@ + sides_text(r.sides@),
        "contract_conflict_authority="@ + authority_name(r.authority),
        "contract_conflict_repair_target_side="@ + target_text(r.repair_target_side),
        "contract_conflict_selected_action="@ + action_name(r.selected_action),
        "contract_conflict_safe_stop_reason="@ + stop_text(r.safe_stop_reason),
        "contract_conflict_missing_evidence="@ + missing_text(str_views(r.missing_evidence@)),
        "contract_conflict_source_of_truth="@ + r.source_of_truth@,
    ]
}

/// The single report line of a resolution.
pub open spec fn resolution_line(r: ContractConflictResolution) -> Seq<char> {
    "contract_conflict status="@ + r.status@ + " sides="@ + sides_text(r.sides@) + " authority="@
        + authority_name(r.authority) + " repair_target_side="@ + target_text(r.repair_target_side)
        + " selected_action="@ + action_name(r.selected_action) + " safe_stop_reason="@ + stop_text(
        r.safe_stop_reason,
    ) + " missing_evidence="@ + missing_text(str_views(r.missing_evidence@)) + " source_of_truth="@
        + r.source_of_truth@
}

fn target_str(o: Option<ConflictSideKind>) -> (r: &'static str)
    ensures
        r@ == target_text(o),
{
    match o {
        Some(s) => s.as_str(),
        None => "none",
    }
}

fn stop_str(o: Option<&'static str>) -> (r: &'static str)
    ensures
        r@ == stop_text(o),
{
    match o {
        Some(s) => s,
        None => "none",
    }
}

impl ContractConflictResolution {
    /// The resolution of a reported contract conflict; nothing when the
    /// evidence reports none.
    pub fn from_evidence(evidence: &ContractEvidence) -> (r: Option<Self>)
        ensures
            r is Some <==> is_conflict(*evidence),
            r matches Some(res) ==> resolves(res, *evidence),
    {
        if !is_contract_conflict(evidence) {
            return None;
        }
        let text = conflict_text(evidence);
        let sides = conflict_sides(evidence, text.as_str());
        let source_of_truth = source_of_truth_hint(evidence, text.as_str());
        let authority = classify_authority(evidence, text.as_str(), source_of_truth.as_str());
        let (repair_target_side, selected_action, safe_stop_reason, missing_evidence, status): (
            Option<ConflictSideKind>,
            ContractConflictAction,
            Option<&'static str>,
            Vec<&'static str>,
            &'static str,
        ) = match authority {
            ContractConflictAuthority::ImplementationAuthoritative => (
                Some(ConflictSideKind::Test),
                ContractConflictAction::AlignTestAndVerifier,
                None,
                Vec::new(),
                "resolved",
            ),
            ContractConflictAuthority::TestAuthoritative => (
                Some(ConflictSideKind::Implementation),
                ContractConflictAction::EditSourceForDiagnostic,
                None,
                Vec::new(),
                "resolved",
            ),
            ContractConflictAuthority::DocsOrApiAuthoritative => (
                Some(ConflictSideKind::Implementation),
                ContractConflictAction::EditSourceForDiagnostic,
                None,
                Vec::new(),
                "resolved",
            ),
            ContractConflictAuthority::VerifierContractLimited => (
                Some(ConflictSideKind::VerifierContract),
                ContractConflictAction::ReplaceInvalidVerifierCommand,
                None,
                Vec::new(),
                "resolved",
            ),
            ContractConflictAuthority::AmbiguousAuthority => (
                None,
                ContractConflictAction::StopWithStructuredEvidence,
                Some("ambiguous_contract_authority"),
                Vec::new(),
                "safe_stop",
            ),
            ContractConflictAuthority::InsufficientEvidence => (
                None,
                ContractConflictAction::StopWithStructuredEvidence,
                Some("contract_conflict_missing_authority_evidence"),
                vec!["source_of_truth", "conflict_sides"],
                "safe_stop",
            ),
        };
        let r = ContractConflictResolution {
            status,
            sides,
            authority,
            repair_target_side,
            selected_action,
            safe_stop_reason,
            missing_evidence,
            source_of_truth,
        };
        assert(str_views(r.missing_evidence@) =~= missing_of(authority));
        Some(r)
    }

    /// Whether the resolution stops instead of repairing.
    pub fn is_safe_stop(&self) -> (r: bool)
        ensures
            r == (self.safe_stop_reason is Some),
    {
        self.safe_stop_reason.is_some()
    }

    fn render_sides(&self) -> (r: String)
        ensures
            r@ == sides_text(self.sides@),
    {
        if self.sides.len() == 0 {
            return owned("unknown");
        }
        let mut names: Vec<String> = Vec::new();
        let mut i: usize = 0;
        while i < self.sides.len()
            invariant
                i <= self.sides@.len(),
                views(names@) == self.sides@.take(i as int).map_values(|s: ConflictSideKind| side_name(s)),
            decreases self.sides.len() - i,
        {
            let ghost before = names@;
            names.push(owned(self.sides[i].as_str()));
            proof {
                assert(self.sides@.take(i + 1) == self.sides@.take(i as int).push(self.sides@[i as int]));
                assert(views(names@) =~= views(before).push(side_name(self.sides@[i as int])));
            }
            i = i + 1;
        }
        assert(self.sides@.take(self.sides@.len() as int) == self.sides@);
        join_strings(&names, "|")
    }

    fn render_missing(&self) -> (r: String)
        ensures
            r@ == missing_text(str_views(self.missing_evidence@)),
    {
        if self.missing_evidence.len() == 0 {
            return owned("none");
        }
        let mut names: Vec<String> = Vec::new();
        let mut i: usize = 0;
        while i < self.missing_evidence.len()
            invariant
                i <= self.missing_evidence@.len(),
                views(names@) == str_views(self.missing_evidence@).take(i as int),
            decreases self.missing_evidence.len() - i,
        {
            let ghost before = names@;
            names.push(owned(self.missing_evidence[i]));
            proof {
                assert(str_views(self.missing_evidence@).take(i + 1) == str_views(
                    self.missing_evidence@,
                ).take(i as int).push(self.missing_evidence@[i as int]@));
                assert(views(names@) =~= views(before).push(self.missing_evidence@[i as int]@));
            }
            i = i + 1;
        }
        assert(str_views(self.missing_evidence@).take(self.missing_evidence@.len() as int) == str_views(
            self.missing_evidence@,
        ));
        join_strings(&names, "|")
    }

    /// The resolution as evaluation-report fields.
    pub fn eval_report_fields(&self) -> (r: Vec<String>)
        ensures
            views(r@) == resolution_fields(*self),
    {
        let mut a = owned("contract_conflict_status=");
        push_str(&mut a, self.status);
        let mut b = owned("contract_conflict_sides=");
        let sides = self.render_sides();
        push_str(&mut b, sides.as_str());
        let mut c = owned("contract_conflict_authority=");
        push_str(&mut c, self.authority.as_str());
        let mut d = owned("contract_conflict_repair_target_side=");
        push_str(&mut d, target_str(self.repair_target_side));
        let mut f = owned("contract_conflict_selected_action=");
        push_str(&mut f, self.selected_action.as_str());
        let mut g = owned("contract_conflict_safe_stop_reason=");
        push_str(&mut g, stop_str(self.safe_stop_reason));
        let mut h = owned("contract_conflict_missing_evidence=");
        let missing = self.render_missing();
        push_str(&mut h, missing.as_str());
        let mut k = owned("contract_conflict_source_of_truth=");
        push_str(&mut k, self.source_of_truth.as_str());
        let r = vec![a, b, c, d, f, g, h, k];
        assert(views(r@) =~= resolution_fields(*self));
        r
    }

    /// The resolution as one report line.
    pub fn render_lines(&self) -> (r: Vec<String>)
        ensures
            views(r@) == seq![resolution_line(*self)],
    {
        let mut s = owned("contract_conflict status=");
        push_str(&mut s, self.status);
        push_str(&mut s, " sides=");
        let sides = self.render_sides();
        push_str(&mut s, sides.as_str());
        push_str(&mut s, " authority=");
        push_str(&mut s, self.authority.as_str());
        push_str(&mut s, " repair_target_side=");
        push_str(&mut s, target_str(self.repair_target_side));
        push_str(&mut s, " selected_action=");
        push_str(&mut s, self.selected_action.as_str());
        push_str(&mut s, " safe_stop_reason=");
        push_str(&mut s, stop_str(self.safe_stop_reason));
        push_str(&mut s, " missing_evidence=");
        let missing = self.render_missing();
        push_str(&mut s, missing.as_str());
        push_str(&mut s, " source_of_truth=");
        push_str(&mut s, self.source_of_truth.as_str());
        let r = vec![s];
        assert(views(r@) =~= seq![resolution_line(*self)]);
        r
    }
}

} // verus!
