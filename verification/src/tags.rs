//! Tag metadata: capitalization of tag names and the union-style merge that
//! adds new tags to a page's tag set without removing existing ones.

use vstd::prelude::*;
use crate::text::chars_of;

verus! {

/// What `char::to_uppercase` returns for the given character.
pub uninterp spec fn upper_of(c: char) -> Seq<char>;

/// Relies on `char::to_uppercase`: the result depends on the character alone.
#[verifier::external_body]
fn upper_char(c: char) -> (r: Vec<char>)
    ensures
        r@ == upper_of(c),
{
    c.to_uppercase().collect()
}

/// The tag name with its first character uppercased.
pub open spec fn capitalize_spec(s: Seq<char>) -> Seq<char> {
    if s.len() == 0 {
        s
    } else {
        upper_of(s[0]) + s.subrange(1, s.len() as int)
    }
}

/// Uppercases the first character of a tag name, leaving the rest as it is.
pub fn capitalize_first(s: &str) -> (r: String)
    ensures
        r@ == capitalize_spec(s@),
{
    let cs = chars_of(s);
    if cs.len() == 0 {
        let r = String::new();
        proof {
            assert(r@ =~= capitalize_spec(s@));
        }
        return r;
    }
    let mut out = upper_char(cs[0]);
    let mut i: usize = 1;
    while i < cs.len()
        invariant
            1 <= i <= cs@.len(),
            cs@ == s@,
            out@ == upper_of(s@[0]) + s@.subrange(1, i as int),
        decreases cs@.len() - i,
    {
        out.push(cs[i]);
        i = i + 1;
        proof {
            assert(out@ =~= upper_of(s@[0]) + s@.subrange(1, i as int));
        }
    }
    proof {
        assert(out@ =~= capitalize_spec(s@));
    }
    crate::text::string_of(&out)
}

/// The names of a list of tags, as character sequences.
pub open spec fn tag_views(v: Seq<String>) -> Seq<Seq<char>> {
    v.map_values(|s: String| s@)
}

/// Every tag of a batch, capitalized.
pub open spec fn cap_all(ts: Seq<Seq<char>>) -> Seq<Seq<char>> {
    ts.map_values(|t: Seq<char>| capitalize_spec(t))
}

/// The tag set after a merge: every name, existing and new alike,
/// capitalized, and the two unioned; nothing is ever removed.
pub open spec fn merged_tag_set(existing: Seq<Seq<char>>, fresh: Seq<Seq<char>>) -> Set<Seq<char>> {
    cap_all(existing + fresh).to_set()
}

proof fn lemma_to_set_push(s: Seq<Seq<char>>, x: Seq<char>)
    ensures
        s.push(x).to_set() == s.to_set().insert(x),
{
    assert forall|a: Seq<char>| s.push(x).contains(a) implies s.to_set().insert(x).contains(
        a,
    ) by {
        let k = choose|k: int| 0 <= k < s.push(x).len() && s.push(x)[k] == a;
        if k < s.len() {
            assert(s[k] == a);
        }
    }
    assert forall|a: Seq<char>| s.to_set().insert(x).contains(a) implies s.push(x).contains(
        a,
    ) by {
        if s.contains(a) {
            let k = choose|k: int| 0 <= k < s.len() && s[k] == a;
            assert(s.push(x)[k] == a);
        } else {
            assert(s.push(x)[s.len() as int] == x);
        }
    }
    assert(s.push(x).to_set() =~= s.to_set().insert(x));
}

fn contains_tag(v: &Vec<String>, s: &String) -> (r: bool)
    ensures
        r == tag_views(v@).contains(s@),
{
    let mut i: usize = 0;
    while i < v.len()
        invariant
            i <= v@.len(),
            forall|k: int| 0 <= k < i ==> (#[trigger] v@[k])@ != s@,
        decreases v@.len() - i,
    {
        if v[i] == *s {
            proof {
                assert(tag_views(v@)[i as int] == s@);
            }
            return true;
        }
        i = i + 1;
    }
    proof {
        assert forall|k: int| 0 <= k < tag_views(v@).len() implies tag_views(v@)[k] != s@ by {
            assert(v@[k]@ != s@);
        }
    }
    false
}

fn merge_into(r: &mut Vec<String>, batch: &Vec<String>)
    requires
        forall|a: int, b: int|
            0 <= a < b < old(r)@.len() ==> (#[trigger] old(r)@[a])@ != (#[trigger] old(r)@[b])@,
    ensures
        tag_views(final(r)@).to_set() == tag_views(old(r)@).to_set().union(
            cap_all(tag_views(batch@)).to_set(),
        ),
        forall|a: int, b: int|
            0 <= a < b < final(r)@.len() ==> (#[trigger] final(r)@[a])@ != (
            #[trigger] final(r)@[b])@,
{
    proof {
        assert(cap_all(tag_views(batch@.subrange(0, 0))) =~= Seq::<Seq<char>>::empty());
        assert(Seq::<Seq<char>>::empty().to_set() =~= Set::<Seq<char>>::empty());
        assert(tag_views(r@).to_set() =~= tag_views(r@).to_set().union(
            Set::<Seq<char>>::empty(),
        ));
    }
    let mut j: usize = 0;
    while j < batch.len()
        invariant
            j <= batch@.len(),
            tag_views(r@).to_set() == tag_views(old(r)@).to_set().union(
                cap_all(tag_views(batch@.subrange(0, j as int))).to_set(),
            ),
            forall|a: int, b: int|
                0 <= a < b < r@.len() ==> (#[trigger] r@[a])@ != (#[trigger] r@[b])@,
        decreases batch@.len() - j,
    {
        let c = capitalize_first(batch[j].as_str());
        let ghost pre = tag_views(r@);
        let had = contains_tag(r, &c);
        if !had {
            r.push(c);
            proof {
                assert(tag_views(r@) =~= pre.push(capitalize_spec(batch@[j as int]@)));
                lemma_to_set_push(pre, capitalize_spec(batch@[j as int]@));
                assert forall|a: int, b: int|
                    0 <= a < b < r@.len() implies (#[trigger] r@[a])@ != (#[trigger] r@[b])@ by {
                    if b == r@.len() - 1 {
                        assert(pre[a] == r@[a]@);
                        assert(!pre.contains(capitalize_spec(batch@[j as int]@)));
                    }
                }
            }
        }
        proof {
            assert(cap_all(tag_views(batch@.subrange(0, j + 1))) =~= cap_all(
                tag_views(batch@.subrange(0, j as int)),
            ).push(capitalize_spec(batch@[j as int]@)));
            lemma_to_set_push(
                cap_all(tag_views(batch@.subrange(0, j as int))),
                capitalize_spec(batch@[j as int]@),
            );
            if had {
                assert(tag_views(r@).to_set() =~= tag_views(old(r)@).to_set().union(
                    cap_all(tag_views(batch@.subrange(0, j + 1))).to_set(),
                ));
            } else {
                assert(tag_views(r@).to_set() =~= tag_views(old(r)@).to_set().union(
                    cap_all(tag_views(batch@.subrange(0, j + 1))).to_set(),
                ));
            }
        }
        j = j + 1;
    }
    proof {
        assert(batch@.subrange(0, batch@.len() as int) =~= batch@);
    }
}

/// Merges a batch of new tags onto the existing tag names: every written
/// name, pre-existing and new alike, is capitalized on its first letter, and
/// the result is their set union, each name listed once.
pub fn merge_tags(existing: Vec<String>, fresh: Vec<String>) -> (r: Vec<String>)
    ensures
        tag_views(r@).to_set() == merged_tag_set(tag_views(existing@), tag_views(fresh@)),
        forall|i: int, j: int| 0 <= i < j < r@.len() ==> (#[trigger] r@[i])@ != (#[trigger] r@[j])@,
{
    let mut r: Vec<String> = Vec::new();
    proof {
        assert(tag_views(r@) =~= Seq::<Seq<char>>::empty());
        assert(Seq::<Seq<char>>::empty().to_set() =~= Set::<Seq<char>>::empty());
    }
    merge_into(&mut r, &existing);
    merge_into(&mut r, &fresh);
    proof {
        let ev = tag_views(existing@);
        let fv = tag_views(fresh@);
        assert(cap_all(ev + fv) =~= cap_all(ev) + cap_all(fv));
        lemma_to_set_concat(cap_all(ev), cap_all(fv));
        assert(tag_views(r@).to_set() =~= merged_tag_set(ev, fv));
    }
    r
}

/// Law: the batches of one tag merge commute — merging the concatenation of
/// two batches writes the same tag set in either order.
pub proof fn lemma_merge_tags_union(e: Seq<Seq<char>>, a: Seq<Seq<char>>, b: Seq<Seq<char>>)
    ensures
        merged_tag_set(e, a + b) == merged_tag_set(e, b + a),
{
    assert(cap_all(e + (a + b)) =~= cap_all(e) + cap_all(a) + cap_all(b));
    assert(cap_all(e + (b + a)) =~= cap_all(e) + cap_all(b) + cap_all(a));
    lemma_to_set_concat(cap_all(e) + cap_all(a), cap_all(b));
    lemma_to_set_concat(cap_all(e), cap_all(a));
    lemma_to_set_concat(cap_all(e) + cap_all(b), cap_all(a));
    lemma_to_set_concat(cap_all(e), cap_all(b));
    assert(merged_tag_set(e, a + b) =~= merged_tag_set(e, b + a));
}

/// Law: merging one batch and then another writes the same tag set as
/// merging both batches in one call, for names whose capitalization is
/// stable — capitalizing an already capitalized name changes nothing. (The
/// uppercase mapping is uninterpreted, so stability of the names involved
/// is a hypothesis rather than a theorem.)
pub proof fn lemma_merge_batches_in_turn(
    e: Seq<Seq<char>>,
    a: Seq<Seq<char>>,
    b: Seq<Seq<char>>,
    w: Seq<Seq<char>>,
)
    requires
        w.to_set() == merged_tag_set(e, a),
        forall|t: Seq<char>|
            #[trigger] (e + a).contains(t) ==> capitalize_spec(capitalize_spec(t))
                == capitalize_spec(t),
    ensures
        merged_tag_set(w, b) == merged_tag_set(e, a + b),
{
    let ea = e + a;
    assert forall|y: Seq<char>| cap_all(w).contains(y) implies cap_all(ea).contains(y) by {
        let i = choose|i: int| 0 <= i < cap_all(w).len() && cap_all(w)[i] == y;
        assert(w.contains(w[i]));
        assert(cap_all(ea).to_set().contains(w[i]));
        let j = choose|j: int| 0 <= j < cap_all(ea).len() && cap_all(ea)[j] == w[i];
        assert(ea.contains(ea[j]));
        assert(cap_all(ea)[j] == capitalize_spec(ea[j]));
        assert(cap_all(w)[i] == capitalize_spec(w[i]));
        assert(y == capitalize_spec(capitalize_spec(ea[j])));
        assert(y == cap_all(ea)[j]);
    }
    assert forall|y: Seq<char>| cap_all(ea).contains(y) implies cap_all(w).contains(y) by {
        let j = choose|j: int| 0 <= j < cap_all(ea).len() && cap_all(ea)[j] == y;
        assert(cap_all(ea).contains(cap_all(ea)[j]));
        assert(w.to_set().contains(y));
        let i = choose|i: int| 0 <= i < w.len() && w[i] == y;
        assert(ea.contains(ea[j]));
        assert(cap_all(ea)[j] == capitalize_spec(ea[j]));
        assert(capitalize_spec(y) == y);
        assert(cap_all(w)[i] == capitalize_spec(w[i]));
        assert(cap_all(w)[i] == y);
    }
    assert(cap_all(w).to_set() =~= cap_all(ea).to_set());
    assert(cap_all(w + b) =~= cap_all(w) + cap_all(b));
    assert(cap_all(ea + b) =~= cap_all(ea) + cap_all(b));
    lemma_to_set_concat(cap_all(w), cap_all(b));
    lemma_to_set_concat(cap_all(ea), cap_all(b));
    assert(e + (a + b) =~= ea + b);
    assert(merged_tag_set(w, b) =~= merged_tag_set(e, a + b));
}

proof fn lemma_to_set_concat(s: Seq<Seq<char>>, t: Seq<Seq<char>>)
    ensures
        (s + t).to_set() == s.to_set().union(t.to_set()),
{
    assert forall|a: Seq<char>| (s + t).contains(a) implies s.to_set().union(t.to_set()).contains(
        a,
    ) by {
        let k = choose|k: int| 0 <= k < (s + t).len() && (s + t)[k] == a;
        if k < s.len() {
            assert(s[k] == a);
        } else {
            assert(t[k - s.len()] == a);
        }
    }
    assert forall|a: Seq<char>| s.to_set().union(t.to_set()).contains(a) implies (s + t).contains(
        a,
    ) by {
        if s.contains(a) {
            let k = choose|k: int| 0 <= k < s.len() && s[k] == a;
            assert((s + t)[k] == a);
        } else {
            let k = choose|k: int| 0 <= k < t.len() && t[k] == a;
            assert((s + t)[k + s.len()] == a);
        }
    }
    assert((s + t).to_set() =~= s.to_set().union(t.to_set()));
}

} // verus!
