//! Decisions over what the remote store answered: error taxonomy, page
//! lookup results, the marker-database search, the last header of a page,
//! and tag-name extraction. The driver hands these functions the plain
//! values it read out of a response; every decision on them is verified.

use vstd::prelude::*;
use crate::wire::marker_title_spec;

verus! {

/// Why a remote operation failed: the network failed, the response did not
/// have the expected shape, or the service rejected the request.
#[derive(Debug)]
pub enum StoreError {
    Transport(String),
    Protocol(String),
    RemoteRejected(String),
}

impl StoreError {
    /// The message carried by the error.
    pub fn message(&self) -> (r: &String)
        ensures
            r@ == match self {
                StoreError::Transport(m) => m@,
                StoreError::Protocol(m) => m@,
                StoreError::RemoteRejected(m) => m@,
            },
    {
        match self {
            StoreError::Transport(m) => m,
            StoreError::Protocol(m) => m,
            StoreError::RemoteRejected(m) => m,
        }
    }
}

/// Interprets a page query answer. `results` is the list of result
/// identifiers, or `None` when the response had no result list; an entry is
/// `None` when that result lacked an identifier.
pub fn page_id_from_results(results: Option<Vec<Option<String>>>) -> (r: Result<
    Option<String>,
    StoreError,
>)
    ensures
        match results {
            None => r is Err && r->Err_0 is Protocol,
            Some(v) => {
                if v@.len() == 0 {
                    r matches Ok(None)
                } else {
                    match v@[0] {
                        Some(id) => r matches Ok(Some(out)) && out@ == id@,
                        None => r is Err && r->Err_0 is Protocol,
                    }
                }
            },
        },
{
    match results {
        None => Err(StoreError::Protocol(String::from_str("response has no result list"))),
        Some(mut v) => {
            if v.len() == 0 {
                Ok(None)
            } else {
                let first = v.remove(0);
                match first {
                    Some(id) => Ok(Some(id)),
                    None => Err(
                        StoreError::Protocol(String::from_str("response missing page ID")),
                    ),
                }
            }
        },
    }
}

/// Interprets a create-page answer: a success response must carry the new
/// page's identifier.
pub fn created_page_id(id: Option<String>) -> (r: Result<String, StoreError>)
    ensures
        match id {
            Some(s) => r matches Ok(out) && out@ == s@,
            None => r is Err && r->Err_0 is Protocol,
        },
{
    match id {
        Some(s) => Ok(s),
        None => Err(StoreError::Protocol(String::from_str("response missing page ID"))),
    }
}

/// One database returned by the workspace search: its title text and its
/// identifier, if the response carried one.
pub struct SearchHit {
    pub title: String,
    pub id: Option<String>,
}

/// Whether a search hit is the journal's own collection.
pub open spec fn hit_matches(h: SearchHit) -> bool {
    h.title@ == marker_title_spec() && h.id is Some
}

/// The identifier of the first matching hit at or after position `i`.
pub open spec fn find_marker_from(hs: Seq<SearchHit>, i: int) -> Option<Seq<char>>
    decreases hs.len() - i when 0 <= i <= hs.len()
{
    if i >= hs.len() {
        None
    } else if hit_matches(hs[i]) {
        Some(hs[i].id->0@)
    } else {
        find_marker_from(hs, i + 1)
    }
}

/// The identifier of the first search hit titled with the journal marker
/// that carries an identifier, if any.
pub open spec fn find_marker_spec(hs: Seq<SearchHit>) -> Option<Seq<char>> {
    find_marker_from(hs, 0)
}

proof fn lemma_find_marker_skip(hs: Seq<SearchHit>, i: int)
    requires
        0 <= i <= hs.len(),
        forall|k: int| 0 <= k < i ==> !hit_matches(#[trigger] hs[k]),
    ensures
        find_marker_spec(hs) == find_marker_from(hs, i),
    decreases i,
{
    if i > 0 {
        lemma_find_marker_skip(hs, i - 1);
    }
}

/// Scans the search results in order for the journal's collection.
pub fn find_marker_database(hits: &Vec<SearchHit>) -> (r: Option<String>)
    ensures
        match r {
            Some(id) => find_marker_spec(hits@) matches Some(s) && id@ == s,
            None => find_marker_spec(hits@) is None,
        },
{
    let marker = String::from_str(crate::wire::marker_title());
    let mut i: usize = 0;
    while i < hits.len()
        invariant
            marker@ == marker_title_spec(),
            i <= hits@.len(),
            forall|k: int| 0 <= k < i ==> !hit_matches(#[trigger] hits@[k]),
        decreases hits@.len() - i,
    {
        let h = &hits[i];
        let title_eq = h.title == marker;
        if title_eq {
            match &h.id {
                Some(id) => {
                    proof {
                        lemma_find_marker_skip(hits@, i as int);
                        assert(hit_matches(hits@[i as int]));
                    }
                    return Some(id.clone());
                },
                None => {
                    proof {
                        assert(!hit_matches(hits@[i as int]));
                    }
                },
            }
        } else {
            proof {
                assert(!hit_matches(hits@[i as int]));
            }
        }
        i = i + 1;
    }
    proof {
        lemma_find_marker_skip(hits@, hits@.len() as int);
    }
    None
}

/// Whether a block's type field names a header block: the heading kinds all
/// begin with "heading".
pub fn is_header_kind(kind: &str) -> (r: bool)
    ensures
        r == crate::text::has_prefix(kind@, "heading"@),
{
    crate::text::starts_with_str(kind, "heading")
}

/// One top-level block of a page, as the read path sees it: whether it is a
/// header block, and its text content.
pub struct BlockInfo {
    pub header: bool,
    pub text: String,
}

/// The text of the last header block, if any header block exists.
pub open spec fn last_header_spec(bs: Seq<BlockInfo>) -> Option<Seq<char>>
    decreases bs.len(),
{
    if bs.len() == 0 {
        None
    } else if bs.last().header {
        Some(bs.last().text@)
    } else {
        last_header_spec(bs.drop_last())
    }
}

/// Returns the text of the most recently appended header block of a page,
/// or `None` when the page has no header block.
pub fn last_header_content(blocks: &Vec<BlockInfo>) -> (r: Option<String>)
    ensures
        match r {
            Some(t) => last_header_spec(blocks@) matches Some(s) && t@ == s,
            None => last_header_spec(blocks@) is None,
        },
{
    let mut i: usize = blocks.len();
    proof {
        assert(blocks@.subrange(0, blocks@.len() as int) =~= blocks@);
    }
    while i > 0
        invariant
            i <= blocks@.len(),
            last_header_spec(blocks@) == last_header_spec(blocks@.subrange(0, i as int)),
        decreases i,
    {
        i = i - 1;
        let b = &blocks[i];
        proof {
            assert(blocks@.subrange(0, i + 1).last() == blocks@[i as int]);
            assert(blocks@.subrange(0, i + 1).drop_last() =~= blocks@.subrange(0, i as int));
        }
        if b.header {
            return Some(b.text.clone());
        }
    }
    proof {
        assert(blocks@.subrange(0, 0).len() == 0);
    }
    None
}

/// The tag names present in a tag property: entries that carried a name, in
/// order, up to position `i`.
pub open spec fn names_upto(s: Seq<Option<String>>, i: int) -> Seq<Seq<char>>
    decreases i,
{
    if i <= 0 {
        Seq::<Seq<char>>::empty()
    } else {
        names_upto(s, i - 1) + match s[i - 1] {
            Some(t) => seq![t@],
            None => Seq::<Seq<char>>::empty(),
        }
    }
}

/// The tag names present in a tag property, in order.
pub open spec fn names_spec(s: Seq<Option<String>>) -> Seq<Seq<char>> {
    names_upto(s, s.len() as int)
}

/// Keeps the tag entries that carried a name, in order.
pub fn collect_names(v: Vec<Option<String>>) -> (r: Vec<String>)
    ensures
        r@.map_values(|t: String| t@) == names_spec(v@),
{
    let mut r: Vec<String> = Vec::new();
    let mut i: usize = 0;
    while i < v.len()
        invariant
            i <= v@.len(),
            r@.map_values(|t: String| t@) == names_upto(v@, i as int),
        decreases v@.len() - i,
    {
        match &v[i] {
            Some(t) => {
                r.push(t.clone());
            },
            None => {},
        }
        i = i + 1;
        proof {
            assert(r@.map_values(|t: String| t@) =~= names_upto(v@, i as int));
        }
    }
    r
}

} // verus!
