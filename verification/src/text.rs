//! Character-level text operations with specifications over `Seq<char>`.
//!
//! Every operation on strings in this crate is expressed through the spec
//! functions of this module, so that contracts can say exactly which
//! characters a rendered or normalized value holds.
use vstd::prelude::*;
use vstd::string::StringExecFns;

verus! {

// ---------------------------------------------------------------------------
// Spec vocabulary
// ---------------------------------------------------------------------------

/// Unicode `White_Space`, the set that `char::is_whitespace` tests.
pub open spec fn is_ws(c: char) -> bool {
    ||| c == ' '
    ||| ('\u{9}' <= c && c <= '\u{d}')
    ||| c == '\u{85}'
    ||| c == '\u{a0}'
    ||| c == '\u{1680}'
    ||| ('\u{2000}' <= c && c <= '\u{200a}')
    ||| c == '\u{2028}'
    ||| c == '\u{2029}'
    ||| c == '\u{202f}'
    ||| c == '\u{205f}'
    ||| c == '\u{3000}'
}

/// The sequence without its leading whitespace.
pub open spec fn trim_start(s: Seq<char>) -> Seq<char>
    decreases s.len(),
{
    if s.len() > 0 && is_ws(s[0]) {
        trim_start(s.drop_first())
    } else {
        s
    }
}

/// The sequence without its trailing whitespace.
pub open spec fn trim_end(s: Seq<char>) -> Seq<char>
    decreases s.len(),
{
    if s.len() > 0 && is_ws(s.last()) {
        trim_end(s.drop_last())
    } else {
        s
    }
}

/// The sequence without leading and trailing whitespace.
pub open spec fn trim(s: Seq<char>) -> Seq<char> {
    trim_end(trim_start(s))
}

/// True when the sequence holds only whitespace (or nothing).
pub open spec fn is_blank(s: Seq<char>) -> bool {
    forall|i: int| 0 <= i < s.len() ==> is_ws(#[trigger] s[i])
}

/// ASCII lower-casing of one character; other characters are unchanged.
pub open spec fn lower_char(c: char) -> char {
    if 'A' <= c && c <= 'Z' {
        ((c as u32) + 32) as char
    } else {
        c
    }
}

/// ASCII lower-casing of a sequence (`str::to_ascii_lowercase`).
pub open spec fn lower(s: Seq<char>) -> Seq<char> {
    s.map_values(|c: char| lower_char(c))
}

/// `p` is a prefix of `s`.
pub open spec fn starts_with(s: Seq<char>, p: Seq<char>) -> bool {
    p.len() <= s.len() && s.subrange(0, p.len() as int) == p
}

/// `p` is a suffix of `s`.
pub open spec fn ends_with(s: Seq<char>, p: Seq<char>) -> bool {
    p.len() <= s.len() && s.subrange(s.len() - p.len(), s.len() as int) == p
}

/// `n` occurs in `h` starting at index `i`.
pub open spec fn occurs_at(h: Seq<char>, n: Seq<char>, i: int) -> bool {
    0 <= i && i + n.len() <= h.len() && h.subrange(i, i + n.len()) == n
}

/// `n` occurs somewhere in `h` (`str::contains` with a string pattern).
pub open spec fn contains(h: Seq<char>, n: Seq<char>) -> bool {
    exists|i: int| occurs_at(h, n, i)
}

/// `c` occurs in `s`.
pub open spec fn has_char(s: Seq<char>, c: char) -> bool {
    exists|i: int| 0 <= i < s.len() && s[i] == c
}

/// Some needle of the list occurs in `h`.
pub open spec fn contains_any(h: Seq<char>, needles: Seq<Seq<char>>) -> bool {
    exists|k: int| 0 <= k < needles.len() && contains(h, #[trigger] needles[k])
}

/// Some prefix of the list starts `s`.
pub open spec fn starts_with_any(s: Seq<char>, prefixes: Seq<Seq<char>>) -> bool {
    exists|k: int| 0 <= k < prefixes.len() && starts_with(s, #[trigger] prefixes[k])
}

/// Some suffix of the list ends `s`.
pub open spec fn ends_with_any(s: Seq<char>, suffixes: Seq<Seq<char>>) -> bool {
    exists|k: int| 0 <= k < suffixes.len() && ends_with(s, #[trigger] suffixes[k])
}

/// The parts joined with the separator between consecutive parts.
pub open spec fn join(parts: Seq<Seq<char>>, sep: Seq<char>) -> Seq<char>
    decreases parts.len(),
{
    if parts.len() == 0 {
        Seq::empty()
    } else if parts.len() == 1 {
        parts[0]
    } else {
        join(parts.drop_last(), sep) + sep + parts.last()
    }
}

/// The views of a vector of strings.
pub open spec fn views(v: Seq<String>) -> Seq<Seq<char>> {
    v.map_values(|s: String| s@)
}

/// The views of a list of string slices.
pub open spec fn str_views(v: Seq<&str>) -> Seq<Seq<char>> {
    v.map_values(|s: &str| s@)
}

/// The view of an optional string.
pub open spec fn opt_view(o: Option<String>) -> Option<Seq<char>> {
    match o {
        Some(s) => Some(s@),
        None => None,
    }
}

// ---------------------------------------------------------------------------
// Trusted std calls
// ---------------------------------------------------------------------------

/// `String::push`: appends one character at the end of the string.
#[verifier::external_body]
pub fn push_char(s: &mut String, c: char)
    ensures
        final(s)@ == old(s)@.push(c),
{
    s.push(c);
}

// ---------------------------------------------------------------------------
// Executable operations
// ---------------------------------------------------------------------------

/// The characters of a string slice.
pub fn chars_of(s: &str) -> (v: Vec<char>)
    ensures
        v@ == s@,
{
    let mut v: Vec<char> = Vec::new();
    for c in it: s.chars()
        invariant
            v@ == it.seq().take(it.index() as int),
            it.seq() == s@,
    {
        v.push(c);
    }
    v
}

/// A string holding the given characters.
pub fn string_of(v: &[char]) -> (s: String)
    ensures
        s@ == v@,
{
    let mut s = String::new();
    let mut i: usize = 0;
    while i < v.len()
        invariant
            i <= v.len(),
            s@ == v@.subrange(0, i as int),
        decreases v.len() - i,
    {
        push_char(&mut s, v[i]);
        i = i + 1;
        assert(s@ == v@.subrange(0, i as int));
    }
    s
}

/// An owned copy of a string slice.
pub fn owned(s: &str) -> (r: String)
    ensures
        r@ == s@,
{
    String::from_str(s)
}

/// Appends a string slice to a string.
pub fn push_str(s: &mut String, t: &str)
    ensures
        final(s)@ == old(s)@ + t@,
{
    s.append(t);
}


/// Whether a character is Unicode whitespace (`char::is_whitespace`).
pub fn char_is_ws(c: char) -> (r: bool)
    ensures
        r == is_ws(c),
{
    c == ' ' || ('\u{9}' <= c && c <= '\u{d}') || c == '\u{85}' || c == '\u{a0}' || c == '\u{1680}'
        || ('\u{2000}' <= c && c <= '\u{200a}') || c == '\u{2028}' || c == '\u{2029}' || c
        == '\u{202f}' || c == '\u{205f}' || c == '\u{3000}'
}

/// ASCII lower-casing of one character.
pub fn char_lower(c: char) -> (r: char)
    ensures
        r == lower_char(c),
{
    if 'A' <= c && c <= 'Z' {
        let u: u32 = c as u32;
        let l: u32 = u + 32;
        proof {
            assert(0x61 <= l <= 0x7a);
        }
        char_from_ascii(l)
    } else {
        c
    }
}

/// The ASCII character with the given code.
fn char_from_ascii(u: u32) -> (r: char)
    requires
        u < 128,
    ensures
        r == u as char,
{
    (u as u8) as char
}

pub proof fn lemma_trim_start_skip(s: Seq<char>, i: int)
    requires
        0 <= i <= s.len(),
        forall|j: int| 0 <= j < i ==> is_ws(#[trigger] s[j]),
    ensures
        trim_start(s) == trim_start(s.subrange(i, s.len() as int)),
    decreases i,
{
    if i > 0 {
        assert(is_ws(s[0]));
        assert(s.drop_first() == s.subrange(1, s.len() as int));
        assert forall|j: int| 0 <= j < i - 1 implies is_ws(#[trigger] s.drop_first()[j]) by {
            assert(s.drop_first()[j] == s[j + 1]);
        }
        lemma_trim_start_skip(s.drop_first(), i - 1);
        assert(s.drop_first().subrange(i - 1, s.drop_first().len() as int) == s.subrange(
            i,
            s.len() as int,
        ));
    } else {
        assert(s.subrange(0, s.len() as int) == s);
    }
}

proof fn lemma_trim_end_cut(s: Seq<char>, j: int)
    requires
        0 <= j <= s.len(),
        forall|k: int| j <= k < s.len() ==> is_ws(#[trigger] s[k]),
    ensures
        trim_end(s) == trim_end(s.subrange(0, j)),
    decreases s.len() - j,
{
    if j < s.len() {
        assert(is_ws(s[s.len() - 1]));
        assert(s.drop_last() == s.subrange(0, s.len() - 1));
        assert forall|k: int| j <= k < s.drop_last().len() implies is_ws(#[trigger] s.drop_last()[k]) by {
            assert(s.drop_last()[k] == s[k]);
        }
        lemma_trim_end_cut(s.drop_last(), j);
        assert(s.drop_last().subrange(0, j) == s.subrange(0, j));
    } else {
        assert(s.subrange(0, j) == s);
    }
}

/// The index range `[lo, hi)` of `v` that remains after trimming whitespace.
pub fn trim_bounds(v: &[char]) -> (r: (usize, usize))
    ensures
        r.0 <= r.1 <= v@.len(),
        v@.subrange(r.0 as int, r.1 as int) == trim(v@),
        trim_start(v@) == v@.subrange(r.0 as int, v@.len() as int),
{
    let mut lo: usize = 0;
    while lo < v.len() && char_is_ws(v[lo])
        invariant
            lo <= v@.len(),
            forall|j: int| 0 <= j < lo ==> is_ws(#[trigger] v@[j]),
        decreases v.len() - lo,
    {
        lo = lo + 1;
    }
    proof {
        lemma_trim_start_skip(v@, lo as int);
        let rest = v@.subrange(lo as int, v@.len() as int);
        if rest.len() > 0 {
            assert(!is_ws(rest[0]));
        }
        assert(trim_start(rest) == rest);
    }
    let mut hi: usize = v.len();
    while hi > lo && char_is_ws(v[hi - 1])
        invariant
            lo <= hi <= v@.len(),
            forall|k: int| hi <= k < v@.len() ==> is_ws(#[trigger] v@[k]),
        decreases hi,
    {
        hi = hi - 1;
    }
    proof {
        let rest = v@.subrange(lo as int, v@.len() as int);
        assert forall|k: int| hi - lo <= k < rest.len() implies is_ws(#[trigger] rest[k]) by {
            assert(rest[k] == v@[k + lo]);
        }
        lemma_trim_end_cut(rest, hi - lo);
        let mid = rest.subrange(0, hi - lo);
        assert(mid == v@.subrange(lo as int, hi as int));
        if mid.len() > 0 {
            assert(!is_ws(mid.last()));
        }
        assert(trim_end(mid) == mid);
        if lo == 0 {
            assert(v@.subrange(0, v@.len() as int) == v@);
            assert(rest == v@);
        }
    }
    (lo, hi)
}

/// Trims leading and trailing whitespace (`str::trim`).
pub fn trim_str(s: &str) -> (r: String)
    ensures
        r@ == trim(s@),
{
    let v = chars_of(s);
    let (lo, hi) = trim_bounds(&v);
    string_of(slice_range(&v, lo, hi).as_slice())
}

/// Trims trailing whitespace (`str::trim_end`).
pub fn trim_end_str(s: &str) -> (r: String)
    ensures
        r@ == trim_end(s@),
{
    let v = chars_of(s);
    let mut hi: usize = v.len();
    while hi > 0 && char_is_ws(v[hi - 1])
        invariant
            hi <= v@.len(),
            forall|k: int| hi <= k < v@.len() ==> is_ws(#[trigger] v@[k]),
        decreases hi,
    {
        hi = hi - 1;
    }
    proof {
        lemma_trim_end_cut(v@, hi as int);
        let mid = v@.subrange(0, hi as int);
        if mid.len() > 0 {
            assert(!is_ws(mid.last()));
        }
        assert(trim_end(mid) == mid);
    }
    string_of(slice_range(&v, 0, hi).as_slice())
}

/// True when the string holds only whitespace (`s.trim().is_empty()`).
pub fn is_blank_str(s: &str) -> (r: bool)
    ensures
        r == is_blank(s@),
        r == (trim(s@).len() == 0),
{
    let v = chars_of(s);
    let (lo, hi) = trim_bounds(&v);
    proof {
        lemma_blank_iff_trim_empty(v@);
    }
    lo == hi
}

/// A sequence is blank exactly when trimming it leaves nothing.
pub proof fn lemma_blank_iff_trim_empty(s: Seq<char>)
    ensures
        is_blank(s) == (trim(s).len() == 0),
        is_blank(s) == (trim_start(s).len() == 0),
    decreases s.len(),
{
    if s.len() > 0 {
        lemma_blank_iff_trim_empty(s.drop_first());
        if is_ws(s[0]) {
            if is_blank(s.drop_first()) {
                assert forall|i: int| 0 <= i < s.len() implies is_ws(#[trigger] s[i]) by {
                    if i > 0 {
                        assert(s[i] == s.drop_first()[i - 1]);
                    }
                }
            } else {
                let i = choose|i: int| 0 <= i < s.drop_first().len() && !is_ws(s.drop_first()[i]);
                assert(!is_ws(s[i + 1]));
            }
        } else {
            assert(trim_start(s) == s);
            lemma_trim_end_keeps_non_ws(s);
        }
    }
}

/// Every character of a needle that occurs in `h` occurs in `h`.
pub proof fn lemma_contains_has_char(h: Seq<char>, n: Seq<char>, k: int)
    requires
        contains(h, n),
        0 <= k < n.len(),
    ensures
        has_char(h, n[k]),
{
    let i = choose|i: int| occurs_at(h, n, i);
    assert(h.subrange(i, i + n.len())[k] == h[i + k]);
}

/// A sequence that differs from `p` at a position of both neither starts
/// with `p` nor equals it.
pub proof fn lemma_differs_at(s: Seq<char>, p: Seq<char>, k: int)
    requires
        0 <= k < p.len(),
        k < s.len(),
        s[k] != p[k],
    ensures
        !starts_with(s, p),
        s != p,
{
    if starts_with(s, p) {
        assert(s.subrange(0, p.len() as int)[k] == s[k]);
    }
}

/// A sequence that starts with `p` does not start with a `q` that differs
/// from `p` at a position of both.
pub proof fn lemma_prefix_excludes(s: Seq<char>, p: Seq<char>, q: Seq<char>, k: int)
    requires
        starts_with(s, p),
        0 <= k < p.len(),
        k < q.len(),
        p[k] != q[k],
    ensures
        !starts_with(s, q),
{
    assert(s.subrange(0, p.len() as int)[k] == s[k]);
    lemma_differs_at(s, q, k);
}

/// Some needle of a two-item list occurs exactly when one of the two does.
pub proof fn lemma_contains_any2(h: Seq<char>, a: Seq<char>, b: Seq<char>)
    ensures
        contains_any(h, seq![a, b]) == (contains(h, a) || contains(h, b)),
{
    let l = seq![a, b];
    assert(l[0] == a && l[1] == b);
}

/// Some needle of a three-item list occurs exactly when one of the three does.
pub proof fn lemma_contains_any3(h: Seq<char>, a: Seq<char>, b: Seq<char>, c: Seq<char>)
    ensures
        contains_any(h, seq![a, b, c]) == (contains(h, a) || contains(h, b) || contains(h, c)),
{
    let l = seq![a, b, c];
    assert(l[0] == a && l[1] == b && l[2] == c);
}

/// Some needle of a four-item list occurs exactly when one of the four does.
pub proof fn lemma_contains_any4(h: Seq<char>, a: Seq<char>, b: Seq<char>, c: Seq<char>, d: Seq<char>)
    ensures
        contains_any(h, seq![a, b, c, d]) == (contains(h, a) || contains(h, b) || contains(h, c) || contains(h, d)),
{
    let l = seq![a, b, c, d];
    assert(l[0] == a && l[1] == b && l[2] == c && l[3] == d);
}

/// Some needle of a five-item list occurs exactly when one of the five does.
pub proof fn lemma_contains_any5(h: Seq<char>, a: Seq<char>, b: Seq<char>, c: Seq<char>, d: Seq<char>, e: Seq<char>)
    ensures
        contains_any(h, seq![a, b, c, d, e]) == (contains(h, a) || contains(h, b) || contains(h, c) || contains(h, d)
            || contains(h, e)),
{
    let l = seq![a, b, c, d, e];
    assert(l[0] == a && l[1] == b && l[2] == c && l[3] == d && l[4] == e);
}

/// `trim_start` drops a leading run of whitespace and stops at a
/// character that is not whitespace.
pub proof fn lemma_trim_start_shape(s: Seq<char>) -> (k: int)
    ensures
        0 <= k <= s.len(),
        trim_start(s) == s.skip(k),
        forall|j: int| 0 <= j < k ==> is_ws(#[trigger] s[j]),
        k < s.len() ==> !is_ws(s[k]),
    decreases s.len(),
{
    if s.len() > 0 && is_ws(s[0]) {
        let k = lemma_trim_start_shape(s.drop_first());
        assert(s.drop_first().skip(k) =~= s.skip(k + 1));
        assert forall|j: int| 0 <= j < k + 1 implies is_ws(#[trigger] s[j]) by {
            if j > 0 {
                assert(s[j] == s.drop_first()[j - 1]);
            }
        }
        assert(k < s.drop_first().len() ==> s.drop_first()[k] == s[k + 1]);
        k + 1
    } else {
        assert(s.skip(0) =~= s);
        0
    }
}

/// `trim_end` drops a trailing run of whitespace and stops at a character
/// that is not whitespace.
pub proof fn lemma_trim_end_shape(s: Seq<char>) -> (k: int)
    ensures
        0 <= k <= s.len(),
        trim_end(s) == s.take(k),
        forall|j: int| k <= j < s.len() ==> is_ws(#[trigger] s[j]),
        k > 0 ==> !is_ws(s[k - 1]),
    decreases s.len(),
{
    if s.len() > 0 && is_ws(s.last()) {
        let k = lemma_trim_end_shape(s.drop_last());
        assert(s.drop_last().take(k) =~= s.take(k));
        assert forall|j: int| k <= j < s.len() implies is_ws(#[trigger] s[j]) by {
            if j < s.len() - 1 {
                assert(s[j] == s.drop_last()[j]);
            }
        }
        assert(k > 0 ==> s.drop_last()[k - 1] == s[k - 1]);
        k
    } else {
        assert(s.take(s.len() as int) =~= s);
        s.len() as int
    }
}

/// Trimming twice trims no more than trimming once, and so does trimming
/// the start twice.
pub proof fn lemma_trim_idempotent(s: Seq<char>)
    ensures
        trim(trim(s)) == trim(s),
        trim_start(trim_start(s)) == trim_start(s),
{
    let a = lemma_trim_start_shape(s);
    let u = trim_start(s);
    let a2 = lemma_trim_start_shape(u);
    if a2 > 0 {
        assert(u[0] == s[a]);
    }
    assert(u.skip(0) =~= u);
    let b = lemma_trim_end_shape(u);
    let v = trim_end(u);
    let c = lemma_trim_start_shape(v);
    if c > 0 {
        assert(v[0] == u[0]);
        assert(u[0] == s[a]);
    }
    assert(v.skip(0) =~= v);
    let d = lemma_trim_end_shape(v);
    if d < v.len() {
        assert(v[v.len() - 1] == u[b - 1]);
    }
    assert(v.take(v.len() as int) =~= v);
}

/// The trimmed sequence is a contiguous part of the sequence.
pub proof fn lemma_trim_within(s: Seq<char>) -> (r: (int, int))
    ensures
        0 <= r.0 <= r.1 <= s.len(),
        trim(s) == s.subrange(r.0, r.1),
{
    let a = lemma_trim_start_shape(s);
    let b = lemma_trim_end_shape(trim_start(s));
    assert(s.skip(a).take(b) =~= s.subrange(a, a + b));
    (a, a + b)
}

/// Whitespace trimmed from the start of `a` is all that is trimmed from the
/// start of `a + b` when `b` opens with a character that is not whitespace.
pub proof fn lemma_trim_start_concat(a: Seq<char>, b: Seq<char>)
    requires
        b.len() > 0,
        !is_ws(b[0]),
    ensures
        trim_start(a + b) == trim_start(a) + b,
{
    let k = lemma_trim_start_shape(a);
    let ab = a + b;
    assert forall|j: int| 0 <= j < k implies is_ws(#[trigger] ab[j]) by {
        assert(ab[j] == a[j]);
    }
    lemma_trim_start_skip(ab, k);
    let rest = ab.subrange(k, ab.len() as int);
    assert(rest =~= a.skip(k) + b);
    if k < a.len() {
        assert(rest[0] == a[k]);
    } else {
        assert(rest[0] == b[0]);
    }
    assert(trim_start(rest) == rest);
}

/// Trimming the end of a sequence whose first character is not whitespace keeps that character.
proof fn lemma_trim_end_keeps_non_ws(s: Seq<char>)
    requires
        s.len() > 0,
        !is_ws(s[0]),
    ensures
        trim_end(s).len() > 0,
    decreases s.len(),
{
    if is_ws(s.last()) {
        assert(s.len() > 1);
        assert(s.drop_last()[0] == s[0]);
        lemma_trim_end_keeps_non_ws(s.drop_last());
    }
}

/// A copy of `v[lo..hi]`.
pub fn slice_range(v: &[char], lo: usize, hi: usize) -> (r: Vec<char>)
    requires
        lo <= hi <= v@.len(),
    ensures
        r@ == v@.subrange(lo as int, hi as int),
{
    let mut r: Vec<char> = Vec::new();
    let mut i: usize = lo;
    while i < hi
        invariant
            lo <= i <= hi <= v@.len(),
            r@ == v@.subrange(lo as int, i as int),
        decreases hi - i,
    {
        r.push(v[i]);
        i = i + 1;
    }
    r
}

/// ASCII lower-casing (`str::to_ascii_lowercase`).
pub fn lower_str(s: &str) -> (r: String)
    ensures
        r@ == lower(s@),
{
    let v = chars_of(s);
    let mut out: Vec<char> = Vec::new();
    let mut i: usize = 0;
    while i < v.len()
        invariant
            i <= v@.len(),
            out@ == lower(v@.subrange(0, i as int)),
        decreases v.len() - i,
    {
        out.push(char_lower(v[i]));
        i = i + 1;
        assert(lower(v@.subrange(0, i as int)) == lower(v@.subrange(0, i - 1)).push(
            lower_char(v@[i - 1]),
        ));
    }
    assert(v@.subrange(0, v@.len() as int) == v@);
    string_of(out.as_slice())
}

/// Whether two character slices hold the same characters.
pub fn chars_eq(a: &[char], b: &[char]) -> (r: bool)
    ensures
        r == (a@ == b@),
{
    if a.len() != b.len() {
        return false;
    }
    let mut i: usize = 0;
    while i < a.len()
        invariant
            i <= a@.len(),
            a@.len() == b@.len(),
            forall|k: int| 0 <= k < i ==> a@[k] == b@[k],
        decreases a.len() - i,
    {
        if a[i] != b[i] {
            return false;
        }
        i = i + 1;
    }
    assert(a@ == b@);
    true
}

/// Whether two string slices are equal.
pub fn str_eq(a: &str, b: &str) -> (r: bool)
    ensures
        r == (a@ == b@),
{
    let va = chars_of(a);
    let vb = chars_of(b);
    chars_eq(va.as_slice(), vb.as_slice())
}

/// Whether `n` occurs in `h` at index `i`.
pub fn occurs_at_exec(h: &[char], n: &[char], i: usize) -> (r: bool)
    requires
        i + n@.len() <= h@.len(),
    ensures
        r == occurs_at(h@, n@, i as int),
{
    let mut k: usize = 0;
    while k < n.len()
        invariant
            k <= n@.len(),
            i + n@.len() <= h@.len(),
            h@.len() == h.len(),
            forall|j: int| 0 <= j < k ==> h@[i + j] == n@[j],
        decreases n.len() - k,
    {
        assert(i + k < h@.len());
        let idx: usize = i + k;
        if h[idx] != n[k] {
            assert(h@.subrange(i as int, i + n@.len())[k as int] != n@[k as int]);
            return false;
        }
        k = k + 1;
    }
    assert(h@.subrange(i as int, i + n@.len()) == n@);
    true
}

/// Whether `n` occurs in `h` (`str::contains`).
pub fn chars_contains(h: &[char], n: &[char]) -> (r: bool)
    ensures
        r == contains(h@, n@),
{
    if n.len() > h.len() {
        assert forall|i: int| !occurs_at(h@, n@, i) by {}
        return false;
    }
    let mut i: usize = 0;
    let last: usize = h.len() - n.len();
    loop
        invariant
            last + n@.len() == h@.len(),
            i <= last,
            forall|j: int| 0 <= j < i ==> !occurs_at(h@, n@, j),
        decreases last - i,
    {
        if occurs_at_exec(h, n, i) {
            return true;
        }
        if i == last {
            assert forall|j: int| !occurs_at(h@, n@, j) by {
                if 0 <= j && j + n@.len() <= h@.len() {
                    assert(j <= i);
                }
            }
            return false;
        }
        i = i + 1;
    }
}

/// Whether `n` occurs in `h` (`str::contains`).
pub fn str_contains(h: &str, n: &str) -> (r: bool)
    ensures
        r == contains(h@, n@),
{
    let vh = chars_of(h);
    let vn = chars_of(n);
    chars_contains(vh.as_slice(), vn.as_slice())
}

/// Whether `p` is a prefix of `s` (`str::starts_with`).
pub fn chars_starts_with(s: &[char], p: &[char]) -> (r: bool)
    ensures
        r == starts_with(s@, p@),
{
    if p.len() > s.len() {
        return false;
    }
    let r = occurs_at_exec(s, p, 0);
    r
}

/// Whether `p` is a suffix of `s` (`str::ends_with`).
pub fn chars_ends_with(s: &[char], p: &[char]) -> (r: bool)
    ensures
        r == ends_with(s@, p@),
{
    if p.len() > s.len() {
        return false;
    }
    let r = occurs_at_exec(s, p, s.len() - p.len());
    r
}

/// Whether `p` is a prefix of `s` (`str::starts_with`).
pub fn str_starts_with(s: &str, p: &str) -> (r: bool)
    ensures
        r == starts_with(s@, p@),
{
    let vs = chars_of(s);
    let vp = chars_of(p);
    chars_starts_with(vs.as_slice(), vp.as_slice())
}

/// Whether `p` is a suffix of `s` (`str::ends_with`).
pub fn str_ends_with(s: &str, p: &str) -> (r: bool)
    ensures
        r == ends_with(s@, p@),
{
    let vs = chars_of(s);
    let vp = chars_of(p);
    chars_ends_with(vs.as_slice(), vp.as_slice())
}

/// Whether the character occurs in the string (`str::contains` with a `char`).
pub fn str_has_char(s: &str, c: char) -> (r: bool)
    ensures
        r == has_char(s@, c),
{
    let v = chars_of(s);
    let mut i: usize = 0;
    while i < v.len()
        invariant
            i <= v@.len(),
            v@ == s@,
            forall|k: int| 0 <= k < i ==> v@[k] != c,
        decreases v.len() - i,
    {
        if v[i] == c {
            assert(s@[i as int] == c);
            return true;
        }
        i = i + 1;
    }
    false
}

/// Whether some needle occurs in `h`.
pub fn str_contains_any(h: &str, needles: &[&str]) -> (r: bool)
    ensures
        r == contains_any(h@, str_views(needles@)),
{
    let mut k: usize = 0;
    while k < needles.len()
        invariant
            k <= needles@.len(),
            forall|j: int| 0 <= j < k ==> !contains(h@, #[trigger] str_views(needles@)[j]),
        decreases needles.len() - k,
    {
        if str_contains(h, needles[k]) {
            assert(contains(h@, str_views(needles@)[k as int]));
            return true;
        }
        k = k + 1;
    }
    false
}

/// Whether some prefix of the list starts `s`.
pub fn str_starts_with_any(s: &str, prefixes: &[&str]) -> (r: bool)
    ensures
        r == starts_with_any(s@, str_views(prefixes@)),
{
    let mut k: usize = 0;
    while k < prefixes.len()
        invariant
            k <= prefixes@.len(),
            forall|j: int| 0 <= j < k ==> !starts_with(s@, #[trigger] str_views(prefixes@)[j]),
        decreases prefixes.len() - k,
    {
        if str_starts_with(s, prefixes[k]) {
            assert(starts_with(s@, str_views(prefixes@)[k as int]));
            return true;
        }
        k = k + 1;
    }
    false
}

/// Whether some suffix of the list ends `s`.
pub fn str_ends_with_any(s: &str, suffixes: &[&str]) -> (r: bool)
    ensures
        r == ends_with_any(s@, str_views(suffixes@)),
{
    let mut k: usize = 0;
    while k < suffixes.len()
        invariant
            k <= suffixes@.len(),
            forall|j: int| 0 <= j < k ==> !ends_with(s@, #[trigger] str_views(suffixes@)[j]),
        decreases suffixes.len() - k,
    {
        if str_ends_with(s, suffixes[k]) {
            assert(ends_with(s@, str_views(suffixes@)[k as int]));
            return true;
        }
        k = k + 1;
    }
    false
}

/// A copy of the string.
pub fn copy_string(s: &String) -> (r: String)
    ensures
        r@ == s@,
{
    s.clone()
}

/// A copy of an optional string.
pub fn copy_opt(o: &Option<String>) -> (r: Option<String>)
    ensures
        opt_view(r) == opt_view(*o),
{
    match o {
        Some(s) => Some(s.clone()),
        None => None,
    }
}

/// A copy of a list of strings.
pub fn copy_strings(v: &Vec<String>) -> (r: Vec<String>)
    ensures
        views(r@) == views(v@),
{
    let mut r: Vec<String> = Vec::new();
    let mut i: usize = 0;
    while i < v.len()
        invariant
            i <= v@.len(),
            views(r@) == views(v@.subrange(0, i as int)),
        decreases v.len() - i,
    {
        r.push(v[i].clone());
        i = i + 1;
        assert(views(v@.subrange(0, i as int)) == views(v@.subrange(0, i - 1)).push(v@[i - 1]@));
    }
    assert(v@.subrange(0, v@.len() as int) == v@);
    r
}

/// Owned strings of a list of string slices.
pub fn owned_strings(v: &[&str]) -> (r: Vec<String>)
    ensures
        views(r@) == str_views(v@),
{
    let mut r: Vec<String> = Vec::new();
    let mut i: usize = 0;
    while i < v.len()
        invariant
            i <= v@.len(),
            views(r@) == str_views(v@.subrange(0, i as int)),
        decreases v.len() - i,
    {
        r.push(owned(v[i]));
        i = i + 1;
        assert(str_views(v@.subrange(0, i as int)) == str_views(v@.subrange(0, i - 1)).push(
            v@[i - 1]@,
        ));
    }
    assert(v@.subrange(0, v@.len() as int) == v@);
    r
}

/// The strings joined with a separator (`[String]::join`).
pub fn join_strings(parts: &Vec<String>, sep: &str) -> (r: String)
    ensures
        r@ == join(views(parts@), sep@),
{
    let mut out = String::new();
    let mut i: usize = 0;
    while i < parts.len()
        invariant
            i <= parts@.len(),
            out@ == join(views(parts@.subrange(0, i as int)), sep@),
        decreases parts.len() - i,
    {
        proof {
            let pre = views(parts@.subrange(0, i as int));
            let next = views(parts@.subrange(0, i + 1));
            assert(next.drop_last() == pre);
            assert(next.last() == parts@[i as int]@);
        }
        if i > 0 {
            push_str(&mut out, sep);
        }
        push_str(&mut out, parts[i].as_str());
        i = i + 1;
    }
    assert(parts@.subrange(0, parts@.len() as int) == parts@);
    out
}


/// The decimal digits of a natural number.
pub open spec fn decimal(n: nat) -> Seq<char>
    decreases n,
{
    if n < 10 {
        seq![digit_char(n)]
    } else {
        decimal(n / 10).push(digit_char(n % 10))
    }
}

/// The character of a decimal digit.
pub open spec fn digit_char(d: nat) -> char {
    if d == 0 { '0' }
    else if d == 1 { '1' }
    else if d == 2 { '2' }
    else if d == 3 { '3' }
    else if d == 4 { '4' }
    else if d == 5 { '5' }
    else if d == 6 { '6' }
    else if d == 7 { '7' }
    else if d == 8 { '8' }
    else { '9' }
}

fn digit_exec(d: u64) -> (c: char)
    requires
        d < 10,
    ensures
        c == digit_char(d as nat),
{
    if d == 0 { '0' }
    else if d == 1 { '1' }
    else if d == 2 { '2' }
    else if d == 3 { '3' }
    else if d == 4 { '4' }
    else if d == 5 { '5' }
    else if d == 6 { '6' }
    else if d == 7 { '7' }
    else if d == 8 { '8' }
    else { '9' }
}

/// The decimal rendering of an unsigned integer (`u64::to_string`).
pub fn u64_to_string(n: u64) -> (s: String)
    ensures
        s@ == decimal(n as nat),
    decreases n,
{
    if n < 10 {
        let mut s = String::new();
        push_char(&mut s, digit_exec(n));
        s
    } else {
        let mut s = u64_to_string(n / 10);
        push_char(&mut s, digit_exec(n % 10));
        s
    }
}

/// The decimal rendering of a `usize` (`usize::to_string`).
pub fn usize_to_string(n: usize) -> (s: String)
    ensures
        s@ == decimal(n as nat),
{
    u64_to_string(n as u64)
}

/// Whitespace normalization state after reading a prefix: the text produced
/// so far and whether a separator is owed before the next word.
pub open spec fn collapse_state(s: Seq<char>) -> (Seq<char>, bool)
    decreases s.len(),
{
    if s.len() == 0 {
        (Seq::empty(), false)
    } else {
        let (out, pending) = collapse_state(s.drop_last());
        let c = s.last();
        if is_ws(c) {
            (out, out.len() > 0)
        } else if pending {
            (out.push(' ').push(c), false)
        } else {
            (out.push(c), false)
        }
    }
}

/// The words of `s` joined by single spaces
/// (`s.split_whitespace().collect::<Vec<_>>().join(" ")`): every run of
/// whitespace between words becomes one space and leading and trailing
/// whitespace is dropped.
pub open spec fn collapse_ws(s: Seq<char>) -> Seq<char> {
    collapse_state(s).0
}

/// Collapses whitespace runs to single spaces and drops outer whitespace.
pub fn collapse_ws_str(s: &str) -> (r: String)
    ensures
        r@ == collapse_ws(s@),
{
    let v = chars_of(s);
    let mut out: Vec<char> = Vec::new();
    let mut pending = false;
    let mut i: usize = 0;
    while i < v.len()
        invariant
            i <= v@.len(),
            (out@, pending) == collapse_state(v@.subrange(0, i as int)),
        decreases v.len() - i,
    {
        let c = v[i];
        proof {
            assert(v@.subrange(0, i + 1).drop_last() == v@.subrange(0, i as int));
        }
        if char_is_ws(c) {
            pending = out.len() > 0;
        } else {
            if pending {
                out.push(' ');
            }
            out.push(c);
            pending = false;
        }
        i = i + 1;
    }
    assert(v@.subrange(0, v@.len() as int) == v@);
    string_of(out.as_slice())
}

/// The first `n` characters of the string.
pub fn take_chars(s: &str, n: usize) -> (r: String)
    ensures
        r@ == s@.take(if n <= s@.len() { n as int } else { s@.len() as int }),
{
    let v = chars_of(s);
    let hi = if n <= v.len() { n } else { v.len() };
    string_of(slice_range(v.as_slice(), 0, hi).as_slice())
}

/// The number of characters in the string.
pub fn char_count(s: &str) -> (n: usize)
    ensures
        n == s@.len(),
{
    chars_of(s).len()
}


/// Word-splitting state after reading a prefix: the completed words and the
/// word being read.
pub open spec fn words_state(s: Seq<char>) -> (Seq<Seq<char>>, Seq<char>)
    decreases s.len(),
{
    if s.len() == 0 {
        (Seq::empty(), Seq::empty())
    } else {
        let (ws, cur) = words_state(s.drop_last());
        let c = s.last();
        if is_ws(c) {
            if cur.len() > 0 { (ws.push(cur), Seq::empty()) } else { (ws, Seq::empty()) }
        } else {
            (ws, cur.push(c))
        }
    }
}

/// The whitespace-separated words of `s` (`str::split_whitespace`).
pub open spec fn words(s: Seq<char>) -> Seq<Seq<char>> {
    let (ws, cur) = words_state(s);
    if cur.len() > 0 { ws.push(cur) } else { ws }
}

/// Splits the string into its whitespace-separated words.
pub fn split_words(s: &str) -> (r: Vec<String>)
    ensures
        views(r@) == words(s@),
{
    let v = chars_of(s);
    let mut ws: Vec<String> = Vec::new();
    let mut cur: Vec<char> = Vec::new();
    let mut i: usize = 0;
    while i < v.len()
        invariant
            i <= v@.len(),
            (views(ws@), cur@) == words_state(v@.subrange(0, i as int)),
        decreases v.len() - i,
    {
        let c = v[i];
        proof {
            assert(v@.subrange(0, i + 1).drop_last() == v@.subrange(0, i as int));
        }
        if char_is_ws(c) {
            if cur.len() > 0 {
                let ghost before = ws@;
                ws.push(string_of(cur.as_slice()));
                assert(views(ws@) =~= views(before).push(cur@));
                cur = Vec::new();
            }
        } else {
            cur.push(c);
        }
        i = i + 1;
    }
    assert(v@.subrange(0, v@.len() as int) == v@);
    if cur.len() > 0 {
        let ghost before = ws@;
        ws.push(string_of(cur.as_slice()));
        assert(views(ws@) =~= views(before).push(cur@));
    }
    ws
}

/// The token list starts with the pattern.
pub open spec fn tokens_start(tokens: Seq<Seq<char>>, pattern: Seq<Seq<char>>) -> bool {
    pattern.len() <= tokens.len() && tokens.take(pattern.len() as int) == pattern
}

/// Whether the token list starts with the pattern.
pub fn tokens_start_with(tokens: &Vec<String>, pattern: &[&str]) -> (r: bool)
    ensures
        r == tokens_start(views(tokens@), str_views(pattern@)),
{
    if pattern.len() > tokens.len() {
        return false;
    }
    let mut i: usize = 0;
    while i < pattern.len()
        invariant
            i <= pattern@.len() <= tokens@.len(),
            forall|k: int| 0 <= k < i ==> views(tokens@)[k] == str_views(pattern@)[k],
        decreases pattern.len() - i,
    {
        if !str_eq(tokens[i].as_str(), pattern[i]) {
            assert(views(tokens@).take(pattern@.len() as int)[i as int] != str_views(pattern@)[i as int]);
            return false;
        }
        i = i + 1;
    }
    assert(views(tokens@).take(pattern@.len() as int) =~= str_views(pattern@));
    true
}


/// Whether the optional string is present and equal to `lit`.
pub fn opt_is(o: &Option<String>, lit: &str) -> (r: bool)
    ensures
        r == (opt_view(*o) == Some(lit@)),
{
    match o {
        Some(s) => str_eq(s.as_str(), lit),
        None => false,
    }
}

/// Concatenation of two string slices.
pub fn concat(a: &str, b: &str) -> (r: String)
    ensures
        r@ == a@ + b@,
{
    let mut r = owned(a);
    push_str(&mut r, b);
    r
}


/// Removes leading whitespace (`str::trim_start`).
pub fn trim_start_str(s: &str) -> (r: String)
    ensures
        r@ == trim_start(s@),
{
    let v = chars_of(s);
    let (lo, _hi) = trim_bounds(&v);
    string_of(slice_range(&v, lo, v.len()).as_slice())
}

/// What follows the prefix, when the string starts with it
/// (`str::strip_prefix`).
pub open spec fn after_prefix(s: Seq<char>, p: Seq<char>) -> Option<Seq<char>> {
    if starts_with(s, p) {
        Some(s.skip(p.len() as int))
    } else {
        None
    }
}

/// What follows the prefix, when the string starts with it.
pub fn strip_prefix_str(s: &str, p: &str) -> (r: Option<String>)
    ensures
        opt_view(r) == after_prefix(s@, p@),
{
    if str_starts_with(s, p) {
        let v = chars_of(s);
        let n = char_count(p);
        Some(string_of(slice_range(v.as_slice(), n, v.len()).as_slice()))
    } else {
        None
    }
}

} // verus!
