//! Where a saved plan goes: `.commandagent/plans/plan-<millis>-<slug>.yaml`
//! under the workspace, the slug made from the plan's goal.
use crate::text::{char_is_ws, char_lower, chars_of, is_ws, lower_char, owned, push_str, string_of, slice_range};
use vstd::prelude::*;

verus! {

/// The directory, relative to the workspace, where plans are saved.
pub open spec fn plans_dir_path() -> Seq<char> {
    ".commandagent/plans"@
}

/// The directory, relative to the workspace, where plans are saved.
pub fn plans_dir() -> (r: &'static str)
    ensures
        r@ == plans_dir_path(),
{
    ".commandagent/plans"
}

/// The longest slug, in characters, before trimming.
pub const SLUG_LIMIT: usize = 48;

pub open spec fn ascii_alnum(c: char) -> bool {
    ('a' <= c && c <= 'z') || ('A' <= c && c <= 'Z') || ('0' <= c && c <= '9')
}

/// One character of a goal added to a slug: letters and digits lower-cased,
/// whitespace, `-` and `_` as one `-` (never two in a row), anything else
/// dropped.
pub open spec fn slug_step(out: Seq<char>, c: char) -> Seq<char> {
    if ascii_alnum(c) {
        out.push(lower_char(c))
    } else if (is_ws(c) || c == '-' || c == '_') && !(out.len() > 0 && out.last() == '-') {
        out.push('-')
    } else {
        out
    }
}

/// The slug of a prefix of a goal; it stops growing once it has
/// [`SLUG_LIMIT`] characters.
pub open spec fn slug_prefix(s: Seq<char>) -> Seq<char>
    decreases s.len(),
{
    if s.len() == 0 {
        Seq::empty()
    } else {
        let before = slug_prefix(s.drop_last());
        if before.len() >= SLUG_LIMIT {
            before
        } else {
            slug_step(before, s.last())
        }
    }
}

pub open spec fn drop_leading_dashes(s: Seq<char>) -> Seq<char>
    decreases s.len(),
{
    if s.len() > 0 && s[0] == '-' {
        drop_leading_dashes(s.skip(1))
    } else {
        s
    }
}

pub open spec fn drop_trailing_dashes(s: Seq<char>) -> Seq<char>
    decreases s.len(),
{
    if s.len() > 0 && s.last() == '-' {
        drop_trailing_dashes(s.drop_last())
    } else {
        s
    }
}

/// The slug of a goal without leading or trailing `-`, or none when
/// nothing is left.
pub open spec fn slug_of(goal: Seq<char>) -> Option<Seq<char>> {
    let t = drop_trailing_dashes(drop_leading_dashes(slug_prefix(goal)));
    if t.len() == 0 {
        None
    } else {
        Some(t)
    }
}

/// The slug of a plan's goal, as used in its file name.
pub fn slug(value: &str) -> (r: Option<String>)
    ensures
        match r {
            Some(s) => slug_of(value@) == Some(s@),
            None => slug_of(value@) is None,
        },
{
    let v = chars_of(value);
    let mut out: Vec<char> = Vec::new();
    let mut i: usize = 0;
    loop
        invariant_except_break
            i <= v@.len(),
            out@ == slug_prefix(v@.take(i as int)),
            out@.len() < SLUG_LIMIT,
        ensures
            out@ == slug_prefix(v@),
        decreases v.len() - i,
    {
        if i >= v.len() {
            assert(v@.take(i as int) =~= v@);
            break;
        }
        proof {
            assert(v@.take(i + 1).drop_last() =~= v@.take(i as int));
        }
        let c = v[i];
        if ('a' <= c && c <= 'z') || ('A' <= c && c <= 'Z') || ('0' <= c && c <= '9') {
            out.push(char_lower(c));
        } else if (char_is_ws(c) || c == '-' || c == '_') && !(out.len() > 0 && out[out.len() - 1] == '-') {
            out.push('-');
        }
        i = i + 1;
        if out.len() >= SLUG_LIMIT {
            proof {
                lemma_slug_prefix_stops(v@, i as int);
            }
            break;
        }
    }
    let mut lo: usize = 0;
    assert(out@.skip(0) =~= out@);
    while lo < out.len() && out[lo] == '-'
        invariant
            lo <= out@.len(),
            drop_leading_dashes(out@) == drop_leading_dashes(out@.skip(lo as int)),
        decreases out.len() - lo,
    {
        assert(out@.skip(lo as int).skip(1) =~= out@.skip(lo + 1));
        lo = lo + 1;
    }
    let mid = slice_range(out.as_slice(), lo, out.len());
    assert(mid@ =~= out@.skip(lo as int));
    let mut hi: usize = mid.len();
    assert(mid@.take(hi as int) =~= mid@);
    while hi > 0 && mid[hi - 1] == '-'
        invariant
            hi <= mid@.len(),
            drop_trailing_dashes(mid@) == drop_trailing_dashes(mid@.take(hi as int)),
        decreases hi,
    {
        assert(mid@.take(hi as int).drop_last() =~= mid@.take(hi - 1));
        hi = hi - 1;
    }
    let t = slice_range(mid.as_slice(), 0, hi);
    assert(t@ =~= mid@.take(hi as int));
    if t.len() == 0 {
        None
    } else {
        Some(string_of(t.as_slice()))
    }
}

/// Once the slug of a prefix is long enough, longer prefixes leave it as it is.
proof fn lemma_slug_prefix_stops(s: Seq<char>, n: int)
    requires
        0 <= n <= s.len(),
        slug_prefix(s.take(n)).len() >= SLUG_LIMIT,
    ensures
        slug_prefix(s) == slug_prefix(s.take(n)),
    decreases s.len() - n,
{
    if n < s.len() {
        assert(s.take(n + 1).drop_last() =~= s.take(n));
        lemma_slug_prefix_stops(s, n + 1);
    } else {
        assert(s.take(n) =~= s);
    }
}

/// The path, relative to the workspace, of a plan saved at `millis` for
/// the goal: `.commandagent/plans/plan-<millis>-<slug>.yaml`, with
/// `step-plan` where the goal has no slug.
pub open spec fn plan_path(millis: u128, goal: Seq<char>) -> Seq<char> {
    plans_dir_path() + "/plan-"@ + crate::text::decimal(millis as nat) + "-"@ + match slug_of(goal) {
        Some(s) => s,
        None => "step-plan"@,
    } + ".yaml"@
}

/// Where a plan saved at `millis` for the goal is written.
pub fn plan_file_path(millis: u128, goal: &str) -> (r: String)
    ensures
        r@ == plan_path(millis, goal@),
{
    let mut r = owned(plans_dir());
    push_str(&mut r, "/plan-");
    let m = crate::event_protocol::u128_to_string(millis);
    push_str(&mut r, m.as_str());
    push_str(&mut r, "-");
    match slug(goal) {
        Some(s) => push_str(&mut r, s.as_str()),
        None => push_str(&mut r, "step-plan"),
    }
    push_str(&mut r, ".yaml");
    r
}


/// A character a slug may hold.
pub open spec fn slug_char(c: char) -> bool {
    ('a' <= c && c <= 'z') || ('0' <= c && c <= '9') || c == '-'
}

/// At most [`SLUG_LIMIT`] lower-case letters, digits and dashes, never two
/// dashes in a row.
pub open spec fn slug_shaped(s: Seq<char>) -> bool {
    &&& s.len() <= SLUG_LIMIT
    &&& forall|k: int| 0 <= k < s.len() ==> slug_char(#[trigger] s[k])
    &&& forall|i: int, j: int| 0 <= i && j == i + 1 && j < s.len() ==> !(#[trigger] s[i] == '-' && #[trigger] s[j] == '-')
}

proof fn lemma_slug_prefix_shaped(s: Seq<char>)
    ensures
        slug_shaped(slug_prefix(s)),
    decreases s.len(),
{
    if s.len() > 0 {
        lemma_slug_prefix_shaped(s.drop_last());
        let before = slug_prefix(s.drop_last());
        let c = s.last();
        if before.len() < SLUG_LIMIT {
            let after = slug_step(before, c);
            if ascii_alnum(c) {
                assert(after == before.push(lower_char(c)));
                assert(slug_char(lower_char(c))) by {
                    if 'A' <= c && c <= 'Z' {
                        assert(0x61 <= (c as u32) + 32 <= 0x7a);
                    }
                }
                assert forall|k: int| 0 <= k < after.len() implies slug_char(#[trigger] after[k]) by {
                    if k < before.len() {
                        assert(after[k] == before[k]);
                    }
                }
            } else if (is_ws(c) || c == '-' || c == '_') && !(before.len() > 0 && before.last() == '-') {
                assert(after == before.push('-'));
                assert forall|k: int| 0 <= k < after.len() implies slug_char(#[trigger] after[k]) by {
                    if k < before.len() {
                        assert(after[k] == before[k]);
                    }
                }
                assert forall|i: int, j: int| 0 <= i && j == i + 1 && j < after.len() implies !(#[trigger] after[i]
                    == '-' && #[trigger] after[j] == '-') by {
                    if j < before.len() {
                        assert(after[i] == before[i] && after[j] == before[j]);
                    } else {
                        assert(after[i] == before[i]);
                        assert(before.last() == before[i]);
                    }
                }
            }
        }
    }
}

proof fn lemma_drop_leading_dashes(s: Seq<char>) -> (k: int)
    ensures
        0 <= k <= s.len(),
        drop_leading_dashes(s) == s.skip(k),
        k < s.len() ==> s[k] != '-',
    decreases s.len(),
{
    if s.len() > 0 && s[0] == '-' {
        let k = lemma_drop_leading_dashes(s.skip(1));
        assert(s.skip(1).skip(k) =~= s.skip(k + 1));
        k + 1
    } else {
        assert(s.skip(0) =~= s);
        0
    }
}

proof fn lemma_drop_trailing_dashes(s: Seq<char>) -> (k: int)
    ensures
        0 <= k <= s.len(),
        drop_trailing_dashes(s) == s.take(k),
        k > 0 ==> s[k - 1] != '-',
    decreases s.len(),
{
    if s.len() > 0 && s.last() == '-' {
        let k = lemma_drop_trailing_dashes(s.drop_last());
        assert(s.drop_last().take(k) =~= s.take(k));
        k
    } else {
        assert(s.take(s.len() as int) =~= s);
        s.len() as int
    }
}

/// A slug is a non-empty run of at most [`SLUG_LIMIT`] lower-case letters,
/// digits and single dashes that neither starts nor ends with a dash.
pub proof fn lemma_slug_shape(goal: Seq<char>)
    ensures
        match slug_of(goal) {
            Some(s) => slug_shaped(s) && s.len() > 0 && s[0] != '-' && s.last() != '-',
            None => true,
        },
{
    let p = slug_prefix(goal);
    lemma_slug_prefix_shaped(goal);
    let a = lemma_drop_leading_dashes(p);
    let mid = p.skip(a);
    let b = lemma_drop_trailing_dashes(mid);
    let t = mid.take(b);
    assert(forall|k: int| 0 <= k < t.len() ==> t[k] == p[k + a]);
    if t.len() > 0 {
        assert(t[0] == mid[0]);
        assert(t.last() == mid[b - 1]);
        assert forall|k: int| 0 <= k < t.len() implies slug_char(#[trigger] t[k]) by {
            assert(t[k] == p[k + a]);
        }
        assert forall|i: int, j: int| 0 <= i && j == i + 1 && j < t.len() implies !(#[trigger] t[i] == '-'
            && #[trigger] t[j] == '-') by {
            assert(t[i] == p[i + a] && t[j] == p[j + a]);
        }
    }
}

} // verus!
