//! Character-level text utilities: conversion between `&str` and `Vec<char>`,
//! whitespace trimming, substring search, and splitting on a delimiter.

use vstd::prelude::*;

verus! {

/// Collects the characters of a string slice into a vector.
pub fn chars_of(s: &str) -> (r: Vec<char>)
    ensures
        r@ == s@,
{
    let len = s.unicode_len();
    let mut r: Vec<char> = Vec::new();
    let mut i: usize = 0;
    while i < len
        invariant
            len == s@.len(),
            i <= len,
            r@ == s@.subrange(0, i as int),
        decreases len - i,
    {
        r.push(s.get_char(i));
        i = i + 1;
        proof {
            assert(r@ =~= s@.subrange(0, i as int));
        }
    }
    proof {
        assert(r@ =~= s@);
    }
    r
}

/// Relies on `String::push`: appends one character at the end of the string.
#[verifier::external_body]
pub(crate) fn push_char(s: &mut String, c: char)
    ensures
        final(s)@ == old(s)@.push(c),
{
    s.push(c);
}

/// Builds a string from a sequence of characters.
pub fn string_of(v: &Vec<char>) -> (r: String)
    ensures
        r@ == v@,
{
    let mut r = String::new();
    let mut i: usize = 0;
    while i < v.len()
        invariant
            i <= v@.len(),
            r@ == v@.subrange(0, i as int),
        decreases v@.len() - i,
    {
        push_char(&mut r, v[i]);
        i = i + 1;
        proof {
            assert(r@ =~= v@.subrange(0, i as int));
        }
    }
    proof {
        assert(r@ =~= v@);
    }
    r
}

/// The Unicode `White_Space` code points, the ones `str::trim` removes.
pub open spec fn is_space_char(c: char) -> bool {
    let n = c as int;
    n == 0x20 || n == 0x09 || n == 0x0A || n == 0x0B || n == 0x0C || n == 0x0D || n == 0x85
        || n == 0xA0 || n == 0x1680 || (0x2000 <= n && n <= 0x200A) || n == 0x2028 || n == 0x2029
        || n == 0x202F || n == 0x205F || n == 0x3000
}

/// Decides whether a character is whitespace.
pub fn is_space(c: char) -> (r: bool)
    ensures
        r == is_space_char(c),
{
    let n = c as u32;
    n == 0x20 || n == 0x09 || n == 0x0A || n == 0x0B || n == 0x0C || n == 0x0D || n == 0x85
        || n == 0xA0 || n == 0x1680 || (0x2000 <= n && n <= 0x200A) || n == 0x2028 || n == 0x2029
        || n == 0x202F || n == 0x205F || n == 0x3000
}

/// The text with surrounding whitespace removed.
pub open spec fn trim_spec(s: Seq<char>) -> Seq<char>
    decreases s.len(),
{
    if s.len() == 0 {
        s
    } else if is_space_char(s[0]) {
        trim_spec(s.subrange(1, s.len() as int))
    } else if is_space_char(s[s.len() - 1]) {
        trim_spec(s.subrange(0, s.len() - 1))
    } else {
        s
    }
}

proof fn lemma_trim_range(s: Seq<char>, lo: int, hi: int)
    requires
        0 <= lo <= hi <= s.len(),
        forall|k: int| 0 <= k < lo ==> is_space_char(s[k]),
        forall|k: int| hi <= k < s.len() ==> is_space_char(s[k]),
        lo < hi ==> !is_space_char(s[lo]),
        lo < hi ==> !is_space_char(s[hi - 1]),
    ensures
        trim_spec(s) == s.subrange(lo, hi),
    decreases s.len(),
{
    if s.len() == 0 {
        assert(s.subrange(lo, hi) =~= s);
    } else if lo == hi {
        assert(is_space_char(s[0]));
        let t = s.subrange(1, s.len() as int);
        lemma_trim_range(t, 0, 0);
        assert(s.subrange(lo, hi) =~= t.subrange(0, 0));
    } else if lo > 0 {
        let t = s.subrange(1, s.len() as int);
        lemma_trim_range(t, lo - 1, hi - 1);
        assert(s.subrange(lo, hi) =~= t.subrange(lo - 1, hi - 1));
    } else if hi < s.len() {
        assert(!is_space_char(s[0]));
        assert(is_space_char(s[s.len() - 1]));
        let t = s.subrange(0, s.len() - 1);
        lemma_trim_range(t, 0, hi);
        assert(s.subrange(lo, hi) =~= t.subrange(0, hi));
    } else {
        assert(s.subrange(0, s.len() as int) =~= s);
    }
}

/// Removes surrounding whitespace.
pub fn trim_chars(v: &Vec<char>) -> (r: Vec<char>)
    ensures
        r@ == trim_spec(v@),
{
    let n = v.len();
    let mut lo: usize = 0;
    while lo < n && is_space(v[lo])
        invariant
            lo <= n,
            n == v@.len(),
            forall|k: int| 0 <= k < lo ==> is_space_char(v@[k]),
        decreases n - lo,
    {
        lo = lo + 1;
    }
    if lo == n {
        proof {
            lemma_trim_range(v@, 0, 0);
        }
        let r: Vec<char> = Vec::new();
        proof {
            assert(r@ =~= v@.subrange(0, 0));
        }
        return r;
    }
    let mut hi: usize = n;
    while hi > lo + 1 && is_space(v[hi - 1])
        invariant
            lo < hi <= n,
            n == v@.len(),
            !is_space_char(v@[lo as int]),
            forall|k: int| hi <= k < n ==> is_space_char(v@[k]),
        decreases hi,
    {
        hi = hi - 1;
    }
    proof {
        // at exit either the scan saw a non-space, or only v[lo] is left
        assert(!is_space_char(v@[hi - 1]));
        lemma_trim_range(v@, lo as int, hi as int);
    }
    let mut r: Vec<char> = Vec::new();
    let mut i: usize = lo;
    while i < hi
        invariant
            lo <= i <= hi <= v@.len(),
            r@ == v@.subrange(lo as int, i as int),
        decreases hi - i,
    {
        r.push(v[i]);
        i = i + 1;
        proof {
            assert(r@ =~= v@.subrange(lo as int, i as int));
        }
    }
    r
}

/// Law: trimming is idempotent — trimming an already trimmed text changes
/// nothing.
pub proof fn lemma_trim_idempotent(s: Seq<char>)
    ensures
        trim_spec(trim_spec(s)) == trim_spec(s),
    decreases s.len(),
{
    if s.len() == 0 {
    } else if is_space_char(s[0]) {
        lemma_trim_idempotent(s.subrange(1, s.len() as int));
    } else if is_space_char(s[s.len() - 1]) {
        lemma_trim_idempotent(s.subrange(0, s.len() - 1));
    }
}

/// The needle occurs at position `i` of the haystack.
pub open spec fn matches_at(hay: Seq<char>, needle: Seq<char>, i: int) -> bool {
    0 <= i && i + needle.len() <= hay.len() && hay.subrange(i, i + needle.len() as int) == needle
}

/// The needle occurs somewhere in the haystack.
pub open spec fn occurs_in(hay: Seq<char>, needle: Seq<char>) -> bool {
    exists|i: int| matches_at(hay, needle, i)
}

fn match_at(hay: &Vec<char>, needle: &Vec<char>, at: usize) -> (r: bool)
    requires
        at + needle@.len() <= hay@.len(),
    ensures
        r == matches_at(hay@, needle@, at as int),
{
    let hl = hay.len();
    let mut j: usize = 0;
    while j < needle.len()
        invariant
            hl == hay@.len(),
            at + needle@.len() <= hay@.len(),
            j <= needle@.len(),
            forall|k: int| 0 <= k < j ==> hay@[at + k] == needle@[k],
        decreases needle@.len() - j,
    {
        if hay[at + j] != needle[j] {
            proof {
                if matches_at(hay@, needle@, at as int) {
                    assert(hay@.subrange(at as int, at + needle@.len() as int)[j as int]
                        == needle@[j as int]);
                }
            }
            return false;
        }
        j = j + 1;
    }
    proof {
        assert(hay@.subrange(at as int, at + needle@.len() as int) =~= needle@);
    }
    true
}

/// Substring search: whether the needle occurs anywhere in the haystack.
pub fn contains_chars(hay: &Vec<char>, needle: &Vec<char>) -> (r: bool)
    ensures
        r == occurs_in(hay@, needle@),
{
    if needle.len() > hay.len() {
        return false;
    }
    if needle.len() == 0 {
        proof {
            assert(matches_at(hay@, needle@, 0)) by {
                assert(hay@.subrange(0, 0) =~= needle@);
            }
        }
        return true;
    }
    let hl = hay.len();
    let last = hl - needle.len();
    let mut i: usize = 0;
    while i <= last
        invariant
            i <= last + 1,
            hl == hay@.len(),
            last < hl,
            last == hay@.len() - needle@.len(),
            1 <= needle@.len() <= hay@.len(),
            forall|k: int| 0 <= k < i ==> !matches_at(hay@, needle@, k),
        decreases last + 1 - i,
    {
        if match_at(hay, needle, i) {
            return true;
        }
        i = i + 1;
    }
    false
}

/// The text begins with the prefix.
pub open spec fn has_prefix(s: Seq<char>, p: Seq<char>) -> bool {
    p.len() <= s.len() && s.subrange(0, p.len() as int) == p
}

/// Whether one string slice begins with another.
pub fn starts_with_str(s: &str, p: &str) -> (r: bool)
    ensures
        r == has_prefix(s@, p@),
{
    let sc = chars_of(s);
    let pc = chars_of(p);
    if pc.len() > sc.len() {
        return false;
    }
    let r = match_at(&sc, &pc, 0);
    proof {
        assert(sc@.subrange(0, pc@.len() as int) == sc@.subrange(0int, 0 + pc@.len() as int));
    }
    r
}

/// How many times a character occurs in the text.
pub open spec fn count_char(s: Seq<char>, d: char) -> nat
    decreases s.len(),
{
    if s.len() == 0 {
        0
    } else {
        (if s[0] == d {
            1nat
        } else {
            0nat
        }) + count_char(s.subrange(1, s.len() as int), d)
    }
}

/// The segments of the text between occurrences of the delimiter, in order.
/// There is always one segment more than there are delimiters.
pub open spec fn split_spec(s: Seq<char>, d: char) -> Seq<Seq<char>>
    decreases s.len(),
{
    if s.len() == 0 {
        seq![Seq::<char>::empty()]
    } else if s[0] == d {
        seq![Seq::<char>::empty()] + split_spec(s.subrange(1, s.len() as int), d)
    } else {
        let rest = split_spec(s.subrange(1, s.len() as int), d);
        seq![seq![s[0]] + rest[0]] + rest.subrange(1, rest.len() as int)
    }
}

pub proof fn lemma_split_len_pos(s: Seq<char>, d: char)
    ensures
        split_spec(s, d).len() >= 1,
    decreases s.len(),
{
    if s.len() > 0 {
        lemma_split_len_pos(s.subrange(1, s.len() as int), d);
    }
}

/// Law: splitting is delimiter-exact — there is exactly one segment more
/// than there are delimiter occurrences.
pub proof fn lemma_split_count(s: Seq<char>, d: char)
    ensures
        split_spec(s, d).len() == count_char(s, d) + 1,
    decreases s.len(),
{
    if s.len() > 0 {
        lemma_split_count(s.subrange(1, s.len() as int), d);
        lemma_split_len_pos(s.subrange(1, s.len() as int), d);
    }
}

proof fn lemma_split_push(p: Seq<char>, c: char, d: char)
    ensures
        c == d ==> split_spec(p.push(c), d) == split_spec(p, d).push(Seq::<char>::empty()),
        c != d ==> split_spec(p.push(c), d) == split_spec(p, d).update(
            split_spec(p, d).len() - 1,
            split_spec(p, d).last().push(c),
        ),
    decreases p.len(),
{
    lemma_split_len_pos(p, d);
    if p.len() == 0 {
        let q = p.push(c);
        assert(q.len() == 1);
        assert(q[0] == c);
        assert(p =~= Seq::<char>::empty());
        assert(q.subrange(1, q.len() as int) =~= Seq::<char>::empty());
        if c == d {
            assert(split_spec(q, d) =~~= split_spec(p, d).push(Seq::<char>::empty()));
        } else {
            assert(seq![q[0]] + split_spec(Seq::<char>::empty(), d)[0] =~= seq![c]);
            assert(split_spec(q, d) =~~= split_spec(p, d).update(0, split_spec(p, d).last().push(c)));
        }
    } else {
        let q = p.push(c);
        let pt = p.subrange(1, p.len() as int);
        assert(q.subrange(1, q.len() as int) =~= pt.push(c));
        lemma_split_push(pt, c, d);
        lemma_split_len_pos(pt, d);
        let rt = split_spec(pt, d);
        if p[0] == d {
            assert(split_spec(p, d) == seq![Seq::<char>::empty()] + rt);
            if c == d {
                assert(split_spec(q, d) == seq![Seq::<char>::empty()] + rt.push(
                    Seq::<char>::empty(),
                ));
                assert(split_spec(q, d) =~~= (seq![Seq::<char>::empty()] + rt).push(
                    Seq::<char>::empty(),
                ));
            } else {
                let rt2 = rt.update(rt.len() - 1, rt.last().push(c));
                assert(split_spec(q, d) == seq![Seq::<char>::empty()] + rt2);
                let full = seq![Seq::<char>::empty()] + rt;
                assert(full.last() == rt.last());
                assert(split_spec(q, d) =~~= full.update(full.len() - 1, full.last().push(c)));
            }
        } else {
            assert(split_spec(p, d) == seq![seq![p[0]] + rt[0]] + rt.subrange(1, rt.len() as int));
            if c == d {
                let rt2 = rt.push(Seq::<char>::empty());
                assert(rt2[0] == rt[0]);
                assert(split_spec(q, d) == seq![seq![q[0]] + rt2[0]] + rt2.subrange(
                    1,
                    rt2.len() as int,
                ));
                let full = seq![seq![p[0]] + rt[0]] + rt.subrange(1, rt.len() as int);
                assert(rt2.subrange(1, rt2.len() as int) =~= rt.subrange(1, rt.len() as int).push(
                    Seq::<char>::empty(),
                ));
                assert(split_spec(q, d) =~~= full.push(Seq::<char>::empty()));
            } else {
                let rt2 = rt.update(rt.len() - 1, rt.last().push(c));
                assert(split_spec(q, d) == seq![seq![q[0]] + rt2[0]] + rt2.subrange(
                    1,
                    rt2.len() as int,
                ));
                let full = seq![seq![p[0]] + rt[0]] + rt.subrange(1, rt.len() as int);
                if rt.len() == 1 {
                    assert(rt2[0] == rt[0].push(c));
                    assert(rt2.subrange(1, rt2.len() as int) =~= rt.subrange(1, rt.len() as int));
                    assert(full.last() == seq![p[0]] + rt[0]);
                    assert(seq![q[0]] + rt2[0] =~= (seq![p[0]] + rt[0]).push(c));
                    assert(split_spec(q, d) =~~= full.update(
                        full.len() - 1,
                        full.last().push(c),
                    ));
                } else {
                    assert(rt2[0] == rt[0]);
                    assert(full.last() == rt.last());
                    assert(rt2.subrange(1, rt2.len() as int) =~= rt.subrange(
                        1,
                        rt.len() as int,
                    ).update(rt.len() - 2, rt.last().push(c)));
                    assert(split_spec(q, d) =~~= full.update(full.len() - 1, full.last().push(c)));
                }
            }
        }
    }
}

/// Splits on the delimiter. Empty segments are kept, so the result always
/// holds one segment more than there are delimiters in the input.
pub fn split_chars(v: &Vec<char>, d: char) -> (r: Vec<Vec<char>>)
    ensures
        r@.map_values(|x: Vec<char>| x@) == split_spec(v@, d),
{
    let mut out: Vec<Vec<char>> = Vec::new();
    let mut cur: Vec<char> = Vec::new();
    let mut i: usize = 0;
    while i < v.len()
        invariant
            i <= v@.len(),
            out@.map_values(|x: Vec<char>| x@).push(cur@) == split_spec(v@.subrange(0, i as int), d),
        decreases v@.len() - i,
    {
        proof {
            lemma_split_push(v@.subrange(0, i as int), v@[i as int], d);
            assert(v@.subrange(0, i + 1) =~= v@.subrange(0, i as int).push(v@[i as int]));
        }
        let ghost prev = out@.map_values(|x: Vec<char>| x@).push(cur@);
        if v[i] == d {
            out.push(cur);
            cur = Vec::new();
            proof {
                assert(out@.map_values(|x: Vec<char>| x@).push(cur@) =~~= prev.push(
                    Seq::<char>::empty(),
                ));
            }
        } else {
            cur.push(v[i]);
            proof {
                assert(out@.map_values(|x: Vec<char>| x@).push(cur@) =~~= prev.update(
                    prev.len() - 1,
                    prev.last().push(v@[i as int]),
                ));
            }
        }
        i = i + 1;
    }
    proof {
        assert(v@.subrange(0, i as int) =~= v@);
    }
    out.push(cur);
    proof {
        assert(out@.map_values(|x: Vec<char>| x@) =~~= split_spec(v@, d));
    }
    out
}

} // verus!
