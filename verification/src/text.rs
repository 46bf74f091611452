//! Character-level text helpers: trimming, searching and splitting.
use vstd::prelude::*;
use vstd::string::*;

verus! {

broadcast use vstd::string::group_string_axioms;

/// `c` has the Unicode `White_Space` property (what `char::is_whitespace` tests).
pub open spec fn is_ws(c: char) -> bool {
    ||| ('\u{9}' <= c && c <= '\u{d}')
    ||| c == ' '
    ||| c == '\u{85}'
    ||| c == '\u{a0}'
    ||| c == '\u{1680}'
    ||| ('\u{2000}' <= c && c <= '\u{200a}')
    ||| c == '\u{2028}'
    ||| c == '\u{2029}'
    ||| c == '\u{202f}'
    ||| c == '\u{205f}'
    ||| c == '\u{3000}'
}

/// `s` without its leading white space.
pub open spec fn trim_start(s: Seq<char>) -> Seq<char>
    decreases s.len(),
{
    if s.len() > 0 && is_ws(s[0]) {
        trim_start(s.drop_first())
    } else {
        s
    }
}

/// `s` without its trailing white space.
pub open spec fn trim_end(s: Seq<char>) -> Seq<char>
    decreases s.len(),
{
    if s.len() > 0 && is_ws(s.last()) {
        trim_end(s.drop_last())
    } else {
        s
    }
}

/// `s` without white space at either end (what `str::trim` returns).
pub open spec fn trim(s: Seq<char>) -> Seq<char> {
    trim_end(trim_start(s))
}

/// Index of the first `c` in `s`, or `s.len()` when there is none.
pub open spec fn find(s: Seq<char>, c: char) -> int
    decreases s.len(),
{
    if s.len() == 0 {
        0
    } else if s[0] == c {
        0
    } else {
        1 + find(s.drop_first(), c)
    }
}

/// The part of `s` before its first `c` (all of `s` when there is none).
pub open spec fn before(s: Seq<char>, c: char) -> Seq<char> {
    s.take(find(s, c))
}

/// The part of `s` after its first `c` (empty when there is none).
pub open spec fn after(s: Seq<char>, c: char) -> Seq<char> {
    if find(s, c) < s.len() {
        s.skip(find(s, c) + 1)
    } else {
        Seq::empty()
    }
}

/// `s` holds `c` exactly once, so that splitting at `c` gives two parts.
pub open spec fn splits_in_two(s: Seq<char>, c: char) -> bool {
    &&& find(s, c) < s.len()
    &&& find(after(s, c), c) == after(s, c).len()
}

pub proof fn lemma_find_bounds(s: Seq<char>, c: char)
    ensures
        0 <= find(s, c) <= s.len(),
        find(s, c) < s.len() ==> s[find(s, c)] == c,
        forall|j: int| 0 <= j < find(s, c) ==> s[j] != c,
    decreases s.len(),
{
    if s.len() > 0 && s[0] != c {
        lemma_find_bounds(s.drop_first(), c);
        assert forall|j: int| 0 <= j < find(s, c) implies s[j] != c by {
            if j > 0 {
                assert(s[j] == s.drop_first()[j - 1]);
            }
        }
    }
}

/// Exec twin of `is_ws`.
pub fn is_whitespace(c: char) -> (r: bool)
    ensures
        r == is_ws(c),
{
    ('\u{9}' <= c && c <= '\u{d}') || c == ' ' || c == '\u{85}' || c == '\u{a0}' || c
        == '\u{1680}' || ('\u{2000}' <= c && c <= '\u{200a}') || c == '\u{2028}' || c
        == '\u{2029}' || c == '\u{202f}' || c == '\u{205f}' || c == '\u{3000}'
}

/// The characters of `s` in order.
pub fn chars_of(s: &str) -> (v: Vec<char>)
    ensures
        v@ == s@,
{
    let mut v: Vec<char> = Vec::new();
    for c in it: s.chars()
        invariant
            v@ == it.seq().take(it.index()),
    {
        v.push(c);
    }
    v
}

/// Index of the first `c` in `v`, or `v.len()` when there is none.
pub fn find_char(v: &Vec<char>, c: char) -> (r: usize)
    ensures
        r == find(v@, c),
{
    let mut i: usize = 0;
    assert(v@.skip(0) =~= v@);
    while i < v.len()
        invariant
            i <= v.len(),
            find(v@, c) == i + find(v@.skip(i as int), c),
        decreases v.len() - i,
    {
        if v[i] == c {
            assert(v@.skip(i as int)[0] == c);
            return i;
        }
        assert(v@.skip(i as int).drop_first() =~= v@.skip(i + 1));
        i = i + 1;
    }
    assert(v@.skip(i as int).len() == 0);
    i
}

/// Bounds `[a, b)` of the trimmed part of `v`.
fn trim_bounds(v: &Vec<char>) -> (r: (usize, usize))
    ensures
        r.0 <= r.1 <= v.len(),
        trim(v@) == v@.subrange(r.0 as int, r.1 as int),
{
    let n = v.len();
    let mut a: usize = 0;
    assert(v@.skip(0) =~= v@);
    while a < n && is_whitespace(v[a])
        invariant
            n == v.len(),
            a <= n,
            trim_start(v@) == trim_start(v@.skip(a as int)),
        decreases n - a,
    {
        assert(v@.skip(a as int).drop_first() =~= v@.skip(a + 1));
        a = a + 1;
    }
    let ghost t = v@.skip(a as int);
    assert(trim_start(t) == t);
    let mut b: usize = n;
    while b > a && is_whitespace(v[b - 1])
        invariant
            n == v.len(),
            a <= b <= n,
            t == v@.skip(a as int),
            trim_end(t) == trim_end(v@.subrange(a as int, b as int)),
        decreases b - a,
    {
        assert(v@.subrange(a as int, b as int).drop_last() =~= v@.subrange(a as int, b - 1));
        b = b - 1;
    }
    assert(t =~= v@.subrange(a as int, n as int));
    (a, b)
}

/// `s` without white space at either end.
pub fn trim_str(s: &str) -> (r: String)
    ensures
        r@ == trim(s@),
{
    let v = chars_of(s);
    let (a, b) = trim_bounds(&v);
    let sub = s.substring_char(a, b);
    String::from_str(sub)
}


/// The part of `s` before its first `c`.
pub fn before_char(s: &str, c: char) -> (r: String)
    ensures
        r@ == before(s@, c),
{
    let v = chars_of(s);
    let k = find_char(&v, c);
    proof {
        lemma_find_bounds(s@, c);
    }
    String::from_str(s.substring_char(0, k))
}

/// The part of `s` after its first `c`.
pub fn after_char(s: &str, c: char) -> (r: String)
    ensures
        r@ == after(s@, c),
{
    let v = chars_of(s);
    let k = find_char(&v, c);
    proof {
        lemma_find_bounds(s@, c);
    }
    if k < v.len() {
        let sub = s.substring_char(k + 1, v.len());
        assert(sub@ =~= s@.skip(k + 1));
        String::from_str(sub)
    } else {
        String::new()
    }
}

/// Whether `c` occurs in `s`.
pub fn has_char(s: &str, c: char) -> (r: bool)
    ensures
        r == (find(s@, c) < s@.len()),
{
    let v = chars_of(s);
    find_char(&v, c) < v.len()
}

/// Whether `s` holds `c` exactly once.
pub fn splits_once(s: &str, c: char) -> (r: bool)
    ensures
        r == splits_in_two(s@, c),
{
    if has_char(s, c) {
        let rest = after_char(s, c);
        proof {
            lemma_find_bounds(rest@, c);
        }
        !has_char(rest.as_str(), c)
    } else {
        false
    }
}

/// Whether `s` is exactly the one character `c`.
pub fn is_only(s: &str, c: char) -> (r: bool)
    ensures
        r == (s@ == seq![c]),
{
    let v = chars_of(s);
    let r = v.len() == 1 && v[0] == c;
    if r {
        assert(v@ =~= seq![c]);
    }
    r
}


/// `s` with every `{}` (taken left to right, without overlap) replaced by `name`.
pub open spec fn fill_braces(s: Seq<char>, name: Seq<char>) -> Seq<char>
    decreases s.len(),
{
    if s.len() >= 2 && s[0] == '{' && s[1] == '}' {
        name + fill_braces(s.skip(2), name)
    } else if s.len() == 0 {
        Seq::empty()
    } else {
        seq![s[0]] + fill_braces(s.drop_first(), name)
    }
}

/// Text without an opening brace is left as it is.
pub proof fn lemma_fill_without_braces(s: Seq<char>, name: Seq<char>)
    requires
        forall|i: int| 0 <= i < s.len() ==> s[i] != '{',
    ensures
        fill_braces(s, name) == s,
    decreases s.len(),
{
    if s.len() > 0 {
        assert forall|i: int| 0 <= i < s.drop_first().len() implies s.drop_first()[i] != '{' by {
            assert(s.drop_first()[i] == s[i + 1]);
        }
        lemma_fill_without_braces(s.drop_first(), name);
        assert(seq![s[0]] + s.drop_first() =~= s);
    }
}

/// `s` with every `{}` replaced by `name` (what `s.replace("{}", name)` returns).
pub fn replace_braces(s: &str, name: &str) -> (r: String)
    ensures
        r@ == fill_braces(s@, name@),
{
    let v = chars_of(s);
    let n = v.len();
    let mut res = String::new();
    let mut seg: usize = 0;
    let mut i: usize = 0;
    assert(v@.skip(0) =~= v@);
    while i < n
        invariant
            n == v.len(),
            v@ == s@,
            seg <= i <= n,
            fill_braces(v@, name@) == res@ + v@.subrange(seg as int, i as int) + fill_braces(
                v@.skip(i as int),
                name@,
            ),
        decreases n - i,
    {
        let ghost t = v@.skip(i as int);
        if i + 1 < n && v[i] == '{' && v[i + 1] == '}' {
            assert(t.skip(2) =~= v@.skip(i + 2));
            let piece = s.substring_char(seg, i);
            res.append(piece);
            res.append(name);
            i = i + 2;
            seg = i;
            assert(v@.subrange(seg as int, i as int) =~= Seq::<char>::empty());
        } else {
            assert(t.drop_first() =~= v@.skip(i + 1));
            assert(v@.subrange(seg as int, i as int) + seq![v@[i as int]] =~= v@.subrange(
                seg as int,
                i + 1,
            ));
            i = i + 1;
        }
    }
    assert(v@.skip(n as int) =~= Seq::<char>::empty());
    let piece = s.substring_char(seg, n);
    res.append(piece);
    assert(res@ =~= fill_braces(v@, name@));
    res
}

} // verus!
