//! Workspace path normalization and file-name queries.
use crate::text::{
    chars_eq, copy_string, opt_view, views, chars_of, collapse_ws, collapse_ws_str, has_char, slice_range, starts_with, str_eq, str_views,
    string_of, trim, trim_bounds,
};
use vstd::prelude::*;

verus! {

/// Leading `./` segments removed, repeatedly.
pub open spec fn strip_dot_slash(s: Seq<char>) -> Seq<char>
    decreases s.len(),
{
    if s.len() >= 2 && s[0] == '.' && s[1] == '/' {
        strip_dot_slash(s.skip(2))
    } else {
        s
    }
}

/// Backslashes replaced by slashes.
pub open spec fn forward_slashes(s: Seq<char>) -> Seq<char> {
    s.map_values(|c: char| if c == '\\' { '/' } else { c })
}

/// A workspace path as compared: trimmed, without leading `./`, and with
/// forward slashes (`path.trim().trim_start_matches("./").replace('\\', "/")`).
pub open spec fn normalized_path(s: Seq<char>) -> Seq<char> {
    forward_slashes(strip_dot_slash(trim(s)))
}

/// The part after the last occurrence of `c`, or all of `s` without one.
pub open spec fn after_last(s: Seq<char>, c: char) -> Seq<char>
    decreases s.len(),
{
    if s.len() == 0 {
        s
    } else if s.last() == c {
        Seq::empty()
    } else {
        after_last(s.drop_last(), c).push(s.last())
    }
}

/// The last `/`-separated segment of a path.
pub open spec fn file_name(s: Seq<char>) -> Seq<char> {
    after_last(s, '/')
}

/// The extension of a file name: what follows its last `.`, if it has one.
pub open spec fn extension(path: Seq<char>) -> Option<Seq<char>> {
    let name = file_name(path);
    if has_char(name, '.') {
        Some(after_last(name, '.'))
    } else {
        None
    }
}

/// The path's file name has one of the extensions.
pub open spec fn has_extension(path: Seq<char>, exts: Seq<Seq<char>>) -> bool {
    match extension(path) {
        Some(e) => exts.contains(e),
        None => false,
    }
}

/// The value equals one of the listed values.
pub open spec fn one_of(s: Seq<char>, list: Seq<Seq<char>>) -> bool {
    list.contains(s)
}

/// Normalizes a workspace path for comparison.
pub fn normalize_path(path: &str) -> (r: String)
    ensures
        r@ == normalized_path(path@),
{
    let v = chars_of(path);
    let (lo0, hi) = trim_bounds(v.as_slice());
    let mut lo = lo0;
    proof {
        assert(v@.subrange(lo as int, hi as int) == trim(path@));
    }
    while hi - lo >= 2 && v[lo] == '.' && v[lo + 1] == '/'
        invariant
            lo0 <= lo <= hi <= v@.len(),
            v@ == path@,
            strip_dot_slash(trim(path@)) == strip_dot_slash(v@.subrange(lo as int, hi as int)),
        decreases hi - lo,
    {
        proof {
            let s = v@.subrange(lo as int, hi as int);
            assert(s.skip(2) == v@.subrange(lo + 2, hi as int));
        }
        lo = lo + 2;
    }
    let mut out: Vec<char> = Vec::new();
    let mut i: usize = lo;
    let ghost rest = v@.subrange(lo as int, hi as int);
    proof {
        if rest.len() >= 2 {
            assert(rest[0] == v@[lo as int]);
            assert(rest[1] == v@[lo + 1]);
        }
        assert(strip_dot_slash(rest) == rest);
    }
    while i < hi
        invariant
            lo <= i <= hi <= v@.len(),
            rest == v@.subrange(lo as int, hi as int),
            out@ == forward_slashes(rest.take(i - lo)),
        decreases hi - i,
    {
        let c = v[i];
        out.push(if c == '\\' { '/' } else { c });
        i = i + 1;
        assert(rest.take(i - lo) == rest.take(i - lo - 1).push(c));
        assert(forward_slashes(rest.take(i - lo)) == forward_slashes(rest.take(i - lo - 1)).push(
            if c == '\\' { '/' } else { c },
        ));
    }
    assert(rest.take(hi - lo) == rest);
    string_of(out.as_slice())
}

/// The index just after the last occurrence of `c` in `v`, or 0.
fn after_last_index(v: &[char], c: char) -> (r: usize)
    ensures
        r <= v@.len(),
        v@.subrange(r as int, v@.len() as int) == after_last(v@, c),
        (r > 0) == has_char(v@, c),
{
    let mut i: usize = v.len();
    while i > 0 && v[i - 1] != c
        invariant
            i <= v@.len(),
            forall|k: int| i <= k < v@.len() ==> v@[k] != c,
        decreases i,
    {
        i = i - 1;
    }
    proof {
        lemma_after_last(v@, c, i as int);
        if i > 0 {
            assert(v@[i - 1] == c);
        } else {
            assert forall|k: int| 0 <= k < v@.len() implies v@[k] != c by {}
        }
    }
    i
}

/// The part after the last `c` is the suffix that starts just after it.
proof fn lemma_after_last(s: Seq<char>, c: char, i: int)
    requires
        0 <= i <= s.len(),
        forall|k: int| i <= k < s.len() ==> s[k] != c,
        i == 0 || s[i - 1] == c,
    ensures
        s.subrange(i, s.len() as int) == after_last(s, c),
    decreases s.len(),
{
    if s.len() == 0 {
    } else if i == s.len() {
        assert(s.last() == c);
    } else {
        assert(s.last() != c);
        lemma_after_last(s.drop_last(), c, i);
        assert(s.subrange(i, s.len() as int) == s.drop_last().subrange(i, s.len() - 1).push(
            s.last(),
        ));
    }
}

/// The last `/`-separated segment of a path.
pub fn file_name_of(path: &str) -> (r: String)
    ensures
        r@ == file_name(path@),
{
    let v = chars_of(path);
    let i = after_last_index(v.as_slice(), '/');
    string_of(slice_range(v.as_slice(), i, v.len()).as_slice())
}

/// The extension of the path's file name, if it has one.
pub fn extension_of(path: &str) -> (r: Option<String>)
    ensures
        match r {
            Some(e) => extension(path@) == Some(e@),
            None => extension(path@) is None,
        },
{
    let name = file_name_of(path);
    let v = chars_of(name.as_str());
    let i = after_last_index(v.as_slice(), '.');
    if i == 0 {
        None
    } else {
        Some(string_of(slice_range(v.as_slice(), i, v.len()).as_slice()))
    }
}

/// Whether the value equals one of the listed values.
pub fn is_one_of(s: &str, list: &[&str]) -> (r: bool)
    ensures
        r == one_of(s@, str_views(list@)),
{
    let mut k: usize = 0;
    while k < list.len()
        invariant
            k <= list@.len(),
            forall|j: int| 0 <= j < k ==> str_views(list@)[j] != s@,
        decreases list.len() - k,
    {
        if str_eq(s, list[k]) {
            assert(str_views(list@)[k as int] == s@);
            return true;
        }
        k = k + 1;
    }
    false
}

/// Whether the path's file name has one of the extensions.
pub fn extension_is(path: &str, extensions: &[&str]) -> (r: bool)
    ensures
        r == has_extension(path@, str_views(extensions@)),
{
    match extension_of(path) {
        Some(e) => is_one_of(e.as_str(), extensions),
        None => false,
    }
}

/// Whitespace-separated words joined by `_`.
pub open spec fn underscored(s: Seq<char>) -> Seq<char> {
    collapse_ws(s).map_values(|c: char| if c == ' ' { '_' } else { c })
}

/// Joins the whitespace-separated words with `_`.
pub fn underscore_words(value: &str) -> (r: String)
    ensures
        r@ == underscored(value@),
{
    let c = collapse_ws_str(value);
    let v = chars_of(c.as_str());
    let mut out: Vec<char> = Vec::new();
    let mut i: usize = 0;
    while i < v.len()
        invariant
            i <= v@.len(),
            out@ == v@.take(i as int).map_values(|c: char| if c == ' ' { '_' } else { c }),
        decreases v.len() - i,
    {
        let ch = v[i];
        out.push(if ch == ' ' { '_' } else { ch });
        i = i + 1;
        assert(v@.take(i as int) == v@.take(i - 1).push(ch));
        assert(v@.take(i as int).map_values(|c: char| if c == ' ' { '_' } else { c }) == v@.take(
            i - 1,
        ).map_values(|c: char| if c == ' ' { '_' } else { c }).push(if ch == ' ' { '_' } else { ch }));
    }
    assert(v@.take(v@.len() as int) == v@);
    string_of(out.as_slice())
}


/// What follows the last `.` of the whole path, if it has one
/// (`path.rsplit_once('.')`).
pub open spec fn raw_extension(path: Seq<char>) -> Option<Seq<char>> {
    if has_char(path, '.') {
        Some(after_last(path, '.'))
    } else {
        None
    }
}

/// Whether what follows the last `.` of the path is one of the extensions.
pub fn raw_extension_is(path: &str, extensions: &[&str]) -> (r: bool)
    ensures
        r == match raw_extension(path@) {
            Some(e) => one_of(e, str_views(extensions@)),
            None => false,
        },
{
    let v = chars_of(path);
    let i = after_last_index(v.as_slice(), '.');
    if i == 0 {
        false
    } else {
        let e = string_of(slice_range(v.as_slice(), i, v.len()).as_slice());
        is_one_of(e.as_str(), extensions)
    }
}


/// The `/`-separated segments of a path read so far, and the segment being
/// read.
pub open spec fn segment_state(s: Seq<char>) -> (Seq<Seq<char>>, Seq<char>)
    decreases s.len(),
{
    if s.len() == 0 {
        (Seq::empty(), Seq::empty())
    } else {
        let (segs, cur) = segment_state(s.drop_last());
        if s.last() == '/' {
            (keep_segment(segs, cur), Seq::empty())
        } else {
            (segs, cur.push(s.last()))
        }
    }
}

/// Empty segments and `.` segments are not path components.
pub open spec fn keep_segment(segs: Seq<Seq<char>>, cur: Seq<char>) -> Seq<Seq<char>> {
    if cur.len() > 0 && cur != "."@ {
        segs.push(cur)
    } else {
        segs
    }
}

/// The components of a Unix path other than the root and `.`.
pub open spec fn path_segments(s: Seq<char>) -> Seq<Seq<char>> {
    keep_segment(segment_state(s).0, segment_state(s).1)
}

/// `Path::file_name` on Unix: the last component, unless there is none or
/// it is `..`.
pub open spec fn std_file_name(s: Seq<char>) -> Option<Seq<char>> {
    let segs = path_segments(s);
    if segs.len() == 0 || segs.last() == ".."@ {
        None
    } else {
        Some(segs.last())
    }
}

/// `Path::extension` on Unix: what follows the last `.` of the file name,
/// unless the file name has no `.` or only a leading one.
pub open spec fn std_extension(s: Seq<char>) -> Option<Seq<char>> {
    match std_file_name(s) {
        None => None,
        Some(n) => if !has_char(n, '.') || after_last(n, '.').len() + 1 == n.len() {
            None
        } else {
            Some(after_last(n, '.'))
        },
    }
}

/// The path's `Path::extension` is one of the listed extensions.
pub open spec fn std_extension_in(s: Seq<char>, exts: Seq<Seq<char>>) -> bool {
    match std_extension(s) {
        Some(e) => one_of(e, exts),
        None => false,
    }
}

/// Whether a segment is a path component: neither empty nor `.`.
fn is_component(cur: &Vec<char>) -> (r: bool)
    ensures
        r == (cur@.len() > 0 && cur@ != "."@),
{
    proof {
        reveal_strlit(".");
        assert("."@.len() == 1 && "."@[0] == '.');
        if cur@.len() == 1 && cur@[0] == '.' {
            assert(cur@ =~= "."@);
        }
    }
    cur.len() > 0 && !(cur.len() == 1 && cur[0] == '.')
}

/// The components of a Unix path other than the root and `.`.
pub fn path_segments_of(path: &str) -> (r: Vec<String>)
    ensures
        views(r@) == path_segments(path@),
{
    let v = chars_of(path);
    let mut segs: Vec<String> = Vec::new();
    let mut cur: Vec<char> = Vec::new();
    let mut i: usize = 0;
    while i < v.len()
        invariant
            i <= v@.len(),
            (views(segs@), cur@) == segment_state(v@.subrange(0, i as int)),
        decreases v.len() - i,
    {
        let c = v[i];
        proof {
            assert(v@.subrange(0, i + 1).drop_last() == v@.subrange(0, i as int));
        }
        if c == '/' {
            if is_component(&cur) {
                let ghost before = segs@;
                segs.push(string_of(cur.as_slice()));
                assert(views(segs@) =~= views(before).push(cur@));
            }
            cur = Vec::new();
        } else {
            cur.push(c);
        }
        i = i + 1;
    }
    assert(v@.subrange(0, v@.len() as int) == v@);
    if is_component(&cur) {
        let ghost before = segs@;
        segs.push(string_of(cur.as_slice()));
        assert(views(segs@) =~= views(before).push(cur@));
    }
    segs
}

/// The file name of a Unix path (`Path::file_name`).
pub fn std_file_name_of(path: &str) -> (r: Option<String>)
    ensures
        opt_view(r) == std_file_name(path@),
{
    let segs = path_segments_of(path);
    let n = segs.len();
    if n == 0 {
        return None;
    }
    assert(views(segs@).last() == segs@[n - 1]@);
    if str_eq(segs[n - 1].as_str(), "..") {
        return None;
    }
    Some(copy_string(&segs[n - 1]))
}

/// The extension of a Unix path (`Path::extension`).
pub fn std_extension_of(path: &str) -> (r: Option<String>)
    ensures
        opt_view(r) == std_extension(path@),
{
    match std_file_name_of(path) {
        None => None,
        Some(name) => {
            let v = chars_of(name.as_str());
            let i = after_last_index(v.as_slice(), '.');
            if i <= 1 {
                None
            } else {
                Some(string_of(slice_range(v.as_slice(), i, v.len()).as_slice()))
            }
        },
    }
}

/// Whether the path's `Path::extension` is one of the listed extensions.
pub fn std_extension_is(path: &str, extensions: &[&str]) -> (r: bool)
    ensures
        r == std_extension_in(path@, str_views(extensions@)),
{
    match std_extension_of(path) {
        Some(e) => is_one_of(e.as_str(), extensions),
        None => false,
    }
}

} // verus!
