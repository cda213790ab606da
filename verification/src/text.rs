//! Character-level helpers for request paths and file-system paths.
//!
//! Paths are treated as plain text with `/` as the only separator. Every
//! executable function is specified against a spec function over `Seq<char>`.

use vstd::prelude::*;
use vstd::string::StrSliceExecFns;
use vstd::string::StringExecFns;

verus! {

/// Length of the shortest prefix of `s` that holds every occurrence of `c`:
/// one past the index of the last `c`, or 0 when `c` does not occur.
pub open spec fn through_last(s: Seq<char>, c: char) -> int
    decreases s.len(),
{
    if s.len() == 0 {
        0
    } else if s.last() == c {
        s.len() as int
    } else {
        through_last(s.drop_last(), c)
    }
}

/// Number of consecutive occurrences of `c` at the start of `s`.
pub open spec fn leading(s: Seq<char>, c: char) -> int
    decreases s.len(),
{
    if s.len() > 0 && s[0] == c {
        1 + leading(s.drop_first(), c)
    } else {
        0
    }
}

/// The text after the last `/` of `path` (all of `path` when it has none).
pub open spec fn last_segment(path: Seq<char>) -> Seq<char> {
    path.skip(through_last(path, '/'))
}

/// The directory a path lies in: the text before its last `/`. A path
/// without `/` lies in the empty directory, which stands for the current
/// one, and a path directly under the root lies in `/`.
pub open spec fn parent_of(path: Seq<char>) -> Seq<char> {
    let cut = through_last(path, '/');
    if cut <= 1 {
        path.take(cut)
    } else {
        path.take(cut - 1)
    }
}

/// The file name a path ends in: its last segment, unless that segment is
/// empty, `.` or `..`.
pub open spec fn file_name_of(path: Seq<char>) -> Option<Seq<char>> {
    let name = last_segment(path);
    if name.len() == 0 || name == seq!['.'] || name == seq!['.', '.'] {
        None
    } else {
        Some(name)
    }
}

/// The extension of the last segment of `path`: the text after its last `.`,
/// provided that `.` is not the segment's first character.
pub open spec fn extension_of(path: Seq<char>) -> Option<Seq<char>> {
    let name = last_segment(path);
    let cut = through_last(name, '.');
    if cut <= 1 {
        None
    } else {
        Some(name.skip(cut))
    }
}

/// `s` without its leading `/` characters.
pub open spec fn without_leading_slashes(s: Seq<char>) -> Seq<char> {
    s.skip(leading(s, '/'))
}

/// Whether a `..` segment of `s` starts at index `i`.
pub open spec fn parent_segment_at(s: Seq<char>, i: int) -> bool {
    &&& 0 <= i
    &&& i + 2 <= s.len()
    &&& s[i] == '.'
    &&& s[i + 1] == '.'
    &&& (i == 0 || s[i - 1] == '/')
    &&& (i + 2 == s.len() || s[i + 2] == '/')
}

/// Whether some `/`-separated segment of `s` is `..`.
pub open spec fn has_parent_segment(s: Seq<char>) -> bool {
    exists|i: int| parent_segment_at(s, i)
}

/// `rel` placed under `dir`: an empty `dir` leaves `rel` as it is, and a
/// separator is added only where `dir` does not already end in one.
pub open spec fn join_path(dir: Seq<char>, rel: Seq<char>) -> Seq<char> {
    if dir.len() == 0 {
        rel
    } else if dir.last() == '/' {
        dir + rel
    } else {
        dir + seq!['/'] + rel
    }
}

/// The characters of `s`, in order.
pub fn chars_of(s: &str) -> (v: Vec<char>)
    ensures
        v@ == s@,
{
    let mut v: Vec<char> = Vec::new();
    for c in it: s.chars()
        invariant
            v@ == it.seq().take(it.index()),
    {
        v.push(c);
    }
    v
}

/// Whether `whole[offset..offset + part.len()]` equals `part`.
fn matches_at(whole: &Vec<char>, offset: usize, part: &Vec<char>) -> (r: bool)
    requires
        offset + part.len() <= whole.len(),
    ensures
        r == (whole@.subrange(offset as int, offset + part.len()) == part@),
{
    let n = part.len();
    let mut i: usize = 0;
    while i < n
        invariant
            i <= n,
            n == part.len(),
            offset + n <= whole.len(),
            forall|j: int| 0 <= j < i ==> whole[offset + j] == part[j],
        decreases n - i,
    {
        if whole[offset + i] != part[i] {
            assert(whole@.subrange(offset as int, offset + n)[i as int] != part@[i as int]);
            return false;
        }
        i += 1;
    }
    assert(whole@.subrange(offset as int, offset + n) =~= part@);
    true
}

/// Whether `a` and `b` hold the same text.
pub fn text_eq(a: &str, b: &str) -> (r: bool)
    ensures
        r == (a@ == b@),
{
    let x = chars_of(a);
    let y = chars_of(b);
    if x.len() != y.len() {
        return false;
    }
    assert(x@.subrange(0, x.len() as int) =~= x@);
    matches_at(&x, 0, &y)
}

/// Whether `s` begins with `prefix`.
pub fn starts_with(s: &str, prefix: &str) -> (r: bool)
    ensures
        r == prefix@.is_prefix_of(s@),
{
    let x = chars_of(s);
    let p = chars_of(prefix);
    if p.len() > x.len() {
        return false;
    }
    matches_at(&x, 0, &p)
}

/// Whether `s` ends with `suffix`.
pub fn ends_with(s: &str, suffix: &str) -> (r: bool)
    ensures
        r == suffix@.is_suffix_of(s@),
{
    let x = chars_of(s);
    let p = chars_of(suffix);
    if p.len() > x.len() {
        return false;
    }
    matches_at(&x, x.len() - p.len(), &p)
}

/// One past the index of the last `c` in `v`, or 0 when there is none.
fn scan_through_last(v: &Vec<char>, c: char) -> (cut: usize)
    ensures
        cut == through_last(v@, c),
        cut <= v.len(),
{
    let mut i: usize = v.len();
    assert(v@.take(i as int) =~= v@);
    while i > 0
        invariant
            i <= v.len(),
            through_last(v@, c) == through_last(v@.take(i as int), c),
        decreases i,
    {
        if v[i - 1] == c {
            return i;
        }
        assert(v@.take(i as int).drop_last() =~= v@.take(i - 1));
        i -= 1;
    }
    0
}

/// Number of leading `c` characters of `v`.
fn scan_leading(v: &Vec<char>, c: char) -> (n: usize)
    ensures
        n == leading(v@, c),
        n <= v.len(),
{
    let mut i: usize = 0;
    assert(v@.skip(0) =~= v@);
    while i < v.len() && v[i] == c
        invariant
            i <= v.len(),
            leading(v@, c) == i + leading(v@.skip(i as int), c),
        decreases v.len() - i,
    {
        assert(v@.skip(i as int).drop_first() =~= v@.skip(i + 1));
        i += 1;
    }
    i
}

/// The file name that `path` ends in, if it ends in one.
pub fn file_name(path: &str) -> (name: Option<String>)
    ensures
        name is Some == file_name_of(path@) is Some,
        name matches Some(n) ==> file_name_of(path@) == Some(n@),
{
    let v = chars_of(path);
    let cut = scan_through_last(&v, '/');
    let n = v.len();
    let len = n - cut;
    if len == 0 || (len == 1 && v[cut] == '.') || (len == 2 && v[cut] == '.' && v[cut + 1] == '.') {
        proof {
            let name = last_segment(path@);
            if len == 1 {
                assert(name =~= seq!['.']);
            }
            if len == 2 {
                assert(name =~= seq!['.', '.']);
            }
        }
        None
    } else {
        proof {
            let name = last_segment(path@);
            assert(name.len() == len);
            if name == seq!['.'] {
                assert(name[0] == '.');
            }
            if name == seq!['.', '.'] {
                assert(name[0] == '.' && name[1] == '.');
            }
        }
        Some(String::from_str(path.substring_char(cut, n)))
    }
}

/// The directory that `path` lies in.
pub fn parent_directory(path: &str) -> (dir: String)
    ensures
        dir@ == parent_of(path@),
{
    let v = chars_of(path);
    let cut = scan_through_last(&v, '/');
    if cut <= 1 {
        String::from_str(path.substring_char(0, cut))
    } else {
        String::from_str(path.substring_char(0, cut - 1))
    }
}

/// The extension of the last segment of `path`, if it has one.
pub fn extension(path: &str) -> (ext: Option<String>)
    ensures
        ext is Some == extension_of(path@) is Some,
        ext matches Some(e) ==> extension_of(path@) == Some(e@),
{
    let v = chars_of(path);
    let start = scan_through_last(&v, '/');
    let n = v.len();
    let name = path.substring_char(start, n);
    let w = chars_of(name);
    let cut = scan_through_last(&w, '.');
    if cut <= 1 {
        None
    } else {
        Some(String::from_str(name.substring_char(cut, w.len())))
    }
}

/// `url` without its leading `/` characters.
pub fn strip_leading_slashes(url: &str) -> (rel: String)
    ensures
        rel@ == without_leading_slashes(url@),
{
    let v = chars_of(url);
    let k = scan_leading(&v, '/');
    String::from_str(url.substring_char(k, v.len()))
}

/// Whether some segment of `path` is `..`.
pub fn is_traversal(path: &str) -> (r: bool)
    ensures
        r == has_parent_segment(path@),
{
    let v = chars_of(path);
    let n = v.len();
    if n < 2 {
        return false;
    }
    let mut i: usize = 0;
    while i <= n - 2
        invariant
            2 <= n == v.len(),
            v@ == path@,
            forall|j: int| 0 <= j < i ==> !parent_segment_at(path@, j),
        decreases n - i,
    {
        if v[i] == '.' && v[i + 1] == '.' && (i == 0 || v[i - 1] == '/') && (i + 2 == n || v[i + 2]
            == '/') {
            assert(parent_segment_at(path@, i as int));
            return true;
        }
        i += 1;
    }
    false
}

/// `rel` placed under `dir`.
pub fn join(dir: &str, rel: &str) -> (path: String)
    ensures
        path@ == join_path(dir@, rel@),
{
    let d = chars_of(dir);
    if d.len() == 0 {
        return String::from_str(rel);
    }
    let mut path = String::from_str(dir);
    if d[d.len() - 1] != '/' {
        proof {
            reveal_strlit("/");
        }
        path.append("/");
        assert("/"@ =~= seq!['/']);
    }
    path.append(rel);
    path
}

/// What `through_last` marks: the cut lies within `s`, the character just
/// before it is `c`, and no `c` follows it.
pub proof fn lemma_through_last_marks_the_last(s: Seq<char>, c: char)
    ensures
        0 <= through_last(s, c) <= s.len(),
        through_last(s, c) > 0 ==> s[through_last(s, c) - 1] == c,
        forall|j: int| through_last(s, c) <= j < s.len() ==> s[j] != c,
    decreases s.len(),
{
    if s.len() > 0 && s.last() != c {
        lemma_through_last_marks_the_last(s.drop_last(), c);
        assert forall|j: int| through_last(s, c) <= j < s.len() implies s[j] != c by {
            if j < s.len() - 1 {
                assert(s[j] == s.drop_last()[j]);
            }
        }
    }
}

/// What `leading` counts: that many characters at the start of `s` are
/// `c`, and the next one, if there is one, is not.
pub proof fn lemma_leading_counts_the_run(s: Seq<char>, c: char)
    ensures
        0 <= leading(s, c) <= s.len(),
        forall|j: int| 0 <= j < leading(s, c) ==> s[j] == c,
        leading(s, c) < s.len() ==> s[leading(s, c)] != c,
    decreases s.len(),
{
    if s.len() > 0 && s[0] == c {
        let rest = s.drop_first();
        lemma_leading_counts_the_run(rest, c);
        assert forall|j: int| 0 <= j < leading(s, c) implies s[j] == c by {
            if j > 0 {
                assert(s[j] == rest[j - 1]);
            }
        }
        if leading(s, c) < s.len() {
            assert(s[leading(s, c)] == rest[leading(rest, c)]);
        }
    }
}

/// A file name holds no separator, and the path ends in it. What is
/// stripped of leading separators does not begin with one.
pub proof fn lemma_names_hold_no_separator(path: Seq<char>)
    ensures
        file_name_of(path) matches Some(name) ==> name.len() > 0 && !name.contains('/')
            && name.is_suffix_of(path),
        without_leading_slashes(path).len() > 0 ==> without_leading_slashes(path)[0] != '/',
{
    lemma_through_last_marks_the_last(path, '/');
    lemma_leading_counts_the_run(path, '/');
    let name = last_segment(path);
    assert forall|i: int| 0 <= i < name.len() implies name[i] != '/' by {
        assert(name[i] == path[through_last(path, '/') + i]);
    }
}

} // verus!
