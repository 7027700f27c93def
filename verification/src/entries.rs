//! The content formatter: a raw entry is split on semicolons into segments,
//! each trimmed and classified, in order; one content item per segment.

use vstd::prelude::*;
use crate::emoji::{apply_emoji_prefix, classify_spec};
use crate::text::{chars_of, count_char, lemma_split_count, split_chars, split_spec, string_of};

verus! {

/// The formatted items of a raw entry: one classified item per
/// semicolon-separated segment, in order, duplicates and empty segments kept.
pub open spec fn entries_spec(e: Seq<char>) -> Seq<Seq<char>> {
    split_spec(e, ';').map_values(|seg: Seq<char>| classify_spec(seg))
}

/// Law: the formatter returns exactly one item per delimiter-separated
/// segment of the raw entry — `count(e, ';') + 1` items.
pub proof fn lemma_entries_count(e: Seq<char>)
    ensures
        entries_spec(e).len() == count_char(e, ';') + 1,
{
    lemma_split_count(e, ';');
}

/// Splits the raw entry on semicolons and classifies each segment.
pub fn build_entries(entry: String) -> (r: Vec<String>)
    ensures
        r@.map_values(|s: String| s@) == entries_spec(entry@),
        r@.len() == count_char(entry@, ';') + 1,
{
    let cs = chars_of(entry.as_str());
    let segs = split_chars(&cs, ';');
    let ghost segviews = segs@.map_values(|x: Vec<char>| x@);
    let mut r: Vec<String> = Vec::new();
    let mut i: usize = 0;
    while i < segs.len()
        invariant
            i <= segs@.len(),
            segviews == segs@.map_values(|x: Vec<char>| x@),
            segviews == split_spec(entry@, ';'),
            r@.len() == i,
            forall|k: int|
                0 <= k < i ==> (#[trigger] r@[k])@ == classify_spec(segviews[k]),
        decreases segs@.len() - i,
    {
        let seg = string_of(&segs[i]);
        r.push(apply_emoji_prefix(seg.as_str()));
        i = i + 1;
    }
    proof {
        assert(r@.map_values(|s: String| s@) =~= entries_spec(entry@));
        lemma_entries_count(entry@);
    }
    r
}

} // verus!
