//! Character-sequence helpers shared by the URL logic.

use vstd::prelude::*;

verus! {

/// `p` is a prefix of `s`.
pub open spec fn starts_with(s: Seq<char>, p: Seq<char>) -> bool {
    p.len() <= s.len() && s.subrange(0, p.len() as int) == p
}

/// `p` is a suffix of `s`.
pub open spec fn ends_with(s: Seq<char>, p: Seq<char>) -> bool {
    p.len() <= s.len() && s.subrange(s.len() - p.len(), s.len() as int) == p
}

/// The characters of a string, in order.
pub fn chars_of(s: &str) -> (v: Vec<char>)
    ensures
        v@ == s@,
{
    let mut v: Vec<char> = Vec::new();
    for c in it: s.chars()
        invariant
            it.seq() == s@,
            v@ == it.seq().take(it.index() as int),
    {
        v.push(c);
    }
    v
}

/// `p` occurs somewhere in `s`.
pub open spec fn contains(s: Seq<char>, p: Seq<char>) -> bool {
    exists|i: int| 0 <= i && i + p.len() <= s.len() && #[trigger] s.subrange(i, i + p.len()) == p
}

/// Index of the first `c` in `s`, or `s.len()` when there is none.
pub open spec fn first_index(s: Seq<char>, c: char) -> int
    decreases s.len(),
{
    if s.len() == 0 {
        0
    } else if s[0] == c {
        0
    } else {
        1 + first_index(s.drop_first(), c)
    }
}

/// Index of the last `c` in `s`, or -1 when there is none.
pub open spec fn last_index(s: Seq<char>, c: char) -> int
    decreases s.len(),
{
    if s.len() == 0 {
        -1
    } else if s.last() == c {
        s.len() - 1
    } else {
        last_index(s.drop_last(), c)
    }
}

/// A `c` at `j` puts the last `c` at `j` or later.
pub proof fn lemma_last_index_at_least(s: Seq<char>, c: char, j: int)
    requires
        0 <= j < s.len(),
        s[j] == c,
    ensures
        j <= last_index(s, c) < s.len(),
    decreases s.len(),
{
    if s.last() != c {
        lemma_last_index_at_least(s.drop_last(), c, j);
    }
}

/// `s` up to (not including) its first `c`.
pub open spec fn take_until(s: Seq<char>, c: char) -> Seq<char> {
    s.subrange(0, first_index(s, c))
}

/// `s` with every trailing `c` removed.
pub open spec fn trim_end_char(s: Seq<char>, c: char) -> Seq<char>
    decreases s.len(),
{
    if s.len() > 0 && s.last() == c {
        trim_end_char(s.drop_last(), c)
    } else {
        s
    }
}

/// `s` with `p` removed from its front as many times as it occurs there.
pub open spec fn strip_prefix_all(s: Seq<char>, p: Seq<char>) -> Seq<char>
    decreases s.len(),
{
    if p.len() > 0 && starts_with(s, p) {
        strip_prefix_all(s.subrange(p.len() as int, s.len() as int), p)
    } else {
        s
    }
}

/// The Unicode `White_Space` characters.
pub open spec fn is_space(c: char) -> bool {
    ('\u{9}' <= c && c <= '\u{d}') || c == ' ' || c == '\u{85}' || c == '\u{a0}' || c
        == '\u{1680}' || ('\u{2000}' <= c && c <= '\u{200a}') || c == '\u{2028}' || c
        == '\u{2029}' || c == '\u{202f}' || c == '\u{205f}' || c == '\u{3000}'
}

/// `s` without leading white space.
pub open spec fn trim_start_space(s: Seq<char>) -> Seq<char>
    decreases s.len(),
{
    if s.len() > 0 && is_space(s[0]) {
        trim_start_space(s.drop_first())
    } else {
        s
    }
}

/// `s` without trailing white space.
pub open spec fn trim_end_space(s: Seq<char>) -> Seq<char>
    decreases s.len(),
{
    if s.len() > 0 && is_space(s.last()) {
        trim_end_space(s.drop_last())
    } else {
        s
    }
}

/// `s` without white space at either end.
pub open spec fn trim_space(s: Seq<char>) -> Seq<char> {
    trim_end_space(trim_start_space(s))
}

/// Whether `c` is white space.
pub fn is_space_char(c: char) -> (r: bool)
    ensures
        r == is_space(c),
{
    ('\u{9}' <= c && c <= '\u{d}') || c == ' ' || c == '\u{85}' || c == '\u{a0}' || c
        == '\u{1680}' || ('\u{2000}' <= c && c <= '\u{200a}') || c == '\u{2028}' || c
        == '\u{2029}' || c == '\u{202f}' || c == '\u{205f}' || c == '\u{3000}'
}

/// A new string holding `s[from..to]`, counted in characters.
pub fn slice_of(s: &str, from: usize, to: usize) -> (r: String)
    requires
        from <= to <= s@.len(),
    ensures
        r@ == s@.subrange(from as int, to as int),
{
    String::from_str(s.substring_char(from, to))
}

/// Whether `v[at..]` begins with `p`.
pub fn prefix_at(v: &Vec<char>, at: usize, p: &Vec<char>) -> (r: bool)
    requires
        at <= v@.len(),
    ensures
        r == starts_with(v@.subrange(at as int, v@.len() as int), p@),
{
    if p.len() > v.len() - at {
        return false;
    }
    let mut i: usize = 0;
    while i < p.len()
        invariant
            at <= v.len(),
            p.len() <= v.len() - at,
            i <= p@.len(),
            forall|j: int| 0 <= j < i ==> v@[at + j] == p@[j],
        decreases p@.len() - i,
    {
        if v[at + i] != p[i] {
            assert(v@.subrange(at as int, v@.len() as int).subrange(0, p@.len() as int)[i as int]
                != p@[i as int]);
            return false;
        }
        i = i + 1;
    }
    assert(v@.subrange(at as int, v@.len() as int).subrange(0, p@.len() as int) =~= p@);
    true
}

/// Whether `s` begins with `p`.
pub fn has_prefix(s: &str, p: &str) -> (r: bool)
    ensures
        r == starts_with(s@, p@),
{
    let v = chars_of(s);
    let w = chars_of(p);
    assert(v@.subrange(0, v@.len() as int) =~= v@);
    prefix_at(&v, 0, &w)
}

/// Whether `a` and `b` hold the same characters.
pub fn same_text(a: &str, b: &str) -> (r: bool)
    ensures
        r == (a@ == b@),
{
    let r = has_prefix(a, b) && a.unicode_len() == b.unicode_len();
    proof {
        if starts_with(a@, b@) && a@.len() == b@.len() {
            assert(a@.subrange(0, a@.len() as int) =~= a@);
        }
        if a@ == b@ {
            assert(a@.subrange(0, a@.len() as int) =~= a@);
        }
    }
    r
}

/// Whether `s` ends with `p`.
pub fn has_suffix(s: &str, p: &str) -> (r: bool)
    ensures
        r == ends_with(s@, p@),
{
    let v = chars_of(s);
    let w = chars_of(p);
    if w.len() > v.len() {
        return false;
    }
    let at = v.len() - w.len();
    let r = prefix_at(&v, at, &w);
    assert(v@.subrange(at as int, v@.len() as int).subrange(0, w@.len() as int)
        =~= v@.subrange(at as int, v@.len() as int));
    r
}

/// Whether `p` occurs in `s`.
pub fn has_infix(s: &str, p: &str) -> (r: bool)
    ensures
        r == contains(s@, p@),
{
    let v = chars_of(s);
    let w = chars_of(p);
    if w.len() > v.len() {
        return false;
    }
    let last = v.len() - w.len();
    let mut i: usize = 0;
    loop
        invariant
            v@ == s@,
            w@ == p@,
            last == v@.len() - w@.len(),
            i <= last,
            forall|j: int|
                0 <= j < i ==> #[trigger] v@.subrange(j, j + w@.len()) != w@,
        ensures
            forall|j: int|
                0 <= j <= last ==> #[trigger] v@.subrange(j, j + w@.len()) != w@,
        decreases last - i,
    {
        assert(v@.subrange(i as int, v@.len() as int).subrange(0, w@.len() as int)
            =~= v@.subrange(i as int, i + w@.len()));
        if prefix_at(&v, i, &w) {
            assert(s@.subrange(i as int, i + p@.len()) == p@);
            return true;
        }
        if i == last {
            break;
        }
        i = i + 1;
    }
    assert forall|j: int| 0 <= j && j + p@.len() <= s@.len() implies #[trigger] s@.subrange(
        j,
        j + p@.len(),
    ) != p@ by {
        assert(j <= last);
    }
    false
}

/// Index of the first `c` in `v`, or its length.
pub fn index_of(v: &Vec<char>, c: char) -> (r: usize)
    ensures
        r as int == first_index(v@, c),
        r <= v@.len(),
{
    let mut i: usize = 0;
    assert(v@.subrange(0, v@.len() as int) =~= v@);
    while i < v.len()
        invariant
            i <= v@.len(),
            first_index(v@, c) == i + first_index(v@.subrange(i as int, v@.len() as int), c),
        decreases v@.len() - i,
    {
        if v[i] == c {
            return i;
        }
        assert(v@.subrange(i as int, v@.len() as int).drop_first() =~= v@.subrange(
            i + 1,
            v@.len() as int,
        ));
        i = i + 1;
    }
    i
}

/// Index of the last `c` in `v`, or `None`.
pub fn last_index_of(v: &Vec<char>, c: char) -> (r: Option<usize>)
    ensures
        match r {
            Some(i) => i as int == last_index(v@, c) && i < v@.len() && v@[i as int] == c,
            None => last_index(v@, c) == -1,
        },
{
    let mut k: usize = v.len();
    assert(v@.subrange(0, k as int) =~= v@);
    while k > 0
        invariant
            k <= v@.len(),
            last_index(v@, c) == last_index(v@.subrange(0, k as int), c),
        decreases k,
    {
        if v[k - 1] == c {
            return Some(k - 1);
        }
        assert(v@.subrange(0, k as int).drop_last() =~= v@.subrange(0, k - 1));
        k = k - 1;
    }
    None
}

/// `s` without its first `|p|` characters.
pub open spec fn after(s: Seq<char>, p: Seq<char>) -> Seq<char> {
    s.subrange(p.len() as int, s.len() as int)
}

/// What follows `p` in `s`, when `s` begins with `p`.
pub fn strip_prefix(s: &str, p: &str) -> (r: Option<String>)
    ensures
        match r {
            Some(t) => starts_with(s@, p@) && t@ == after(s@, p@),
            None => !starts_with(s@, p@),
        },
{
    if has_prefix(s, p) {
        let n = s.unicode_len();
        let m = p.unicode_len();
        Some(slice_of(s, m, n))
    } else {
        None
    }
}

/// `s` up to (not including) its first `c`.
pub fn cut_at(s: &str, c: char) -> (r: String)
    ensures
        r@ == take_until(s@, c),
{
    let v = chars_of(s);
    let i = index_of(&v, c);
    slice_of(s, 0, i)
}

/// A trailing run of `c` is gone after one trim.
pub proof fn lemma_trim_end_char_idempotent(s: Seq<char>, c: char)
    ensures
        trim_end_char(trim_end_char(s, c), c) == trim_end_char(s, c),
    decreases s.len(),
{
    if s.len() > 0 && s.last() == c {
        lemma_trim_end_char_idempotent(s.drop_last(), c);
    }
}

/// How many times `p` occurs back to back at the front of `s`.
pub open spec fn prefix_count(s: Seq<char>, p: Seq<char>) -> nat
    decreases s.len(),
{
    if p.len() > 0 && starts_with(s, p) {
        1 + prefix_count(after(s, p), p)
    } else {
        0
    }
}

/// The views of an optional string.
pub open spec fn opt_view(o: Option<String>) -> Option<Seq<char>> {
    match o {
        Some(s) => Some(s@),
        None => None,
    }
}

/// `s` with every trailing `c` removed.
pub fn trim_end_matches(s: &str, c: char) -> (r: String)
    ensures
        r@ == trim_end_char(s@, c),
{
    let v = chars_of(s);
    let mut k: usize = v.len();
    assert(v@.subrange(0, k as int) =~= v@);
    while k > 0 && v[k - 1] == c
        invariant
            k <= v@.len(),
            trim_end_char(v@, c) == trim_end_char(v@.subrange(0, k as int), c),
        decreases k,
    {
        assert(v@.subrange(0, k as int).drop_last() =~= v@.subrange(0, k - 1));
        k = k - 1;
    }
    slice_of(s, 0, k)
}

/// `s` with `p` removed from its front as many times as it occurs there.
pub fn trim_start_matches(s: &str, p: &str) -> (r: String)
    ensures
        r@ == strip_prefix_all(s@, p@),
{
    let v = chars_of(s);
    let w = chars_of(p);
    let mut i: usize = 0;
    assert(v@.subrange(0, v@.len() as int) =~= v@);
    if w.len() == 0 {
        return slice_of(s, 0, v.len());
    }
    loop
        invariant
            v@ == s@,
            w@ == p@,
            i <= v@.len(),
            w@.len() > 0,
            strip_prefix_all(v@, w@) == strip_prefix_all(v@.subrange(i as int, v@.len() as int), w@),
        ensures
            i <= v@.len(),
            strip_prefix_all(v@, w@) == v@.subrange(i as int, v@.len() as int),
        decreases v@.len() - i,
    {
        if !prefix_at(&v, i, &w) {
            break;
        }
        assert(i + w.len() <= v.len());
        assert(v@.subrange(i as int, v@.len() as int).subrange(
            w@.len() as int,
            v@.len() - i,
        ) =~= v@.subrange(i + w@.len(), v@.len() as int));
        i = i + w.len();
    }
    slice_of(s, i, v.len())
}

/// `s` without white space at either end.
pub fn trim(s: &str) -> (r: String)
    ensures
        r@ == trim_space(s@),
{
    let v = chars_of(s);
    let mut i: usize = 0;
    assert(v@.subrange(0, v@.len() as int) =~= v@);
    while i < v.len() && is_space_char(v[i])
        invariant
            i <= v@.len(),
            trim_start_space(v@) == trim_start_space(v@.subrange(i as int, v@.len() as int)),
        decreases v@.len() - i,
    {
        assert(v@.subrange(i as int, v@.len() as int).drop_first() =~= v@.subrange(
            i + 1,
            v@.len() as int,
        ));
        i = i + 1;
    }
    let ghost front = v@.subrange(i as int, v@.len() as int);
    let mut k: usize = v.len();
    assert(v@.subrange(i as int, k as int) =~= front);
    while k > i && is_space_char(v[k - 1])
        invariant
            i <= k <= v@.len(),
            front == v@.subrange(i as int, v@.len() as int),
            trim_end_space(front) == trim_end_space(v@.subrange(i as int, k as int)),
        decreases k,
    {
        assert(v@.subrange(i as int, k as int).drop_last() =~= v@.subrange(i as int, k - 1));
        k = k - 1;
    }
    slice_of(s, i, k)
}

} // verus!
