//! Semantic emoji classification: an ordered keyword table maps stems to
//! emoji; an entry is prefixed with the emoji of the first stem that occurs
//! anywhere in its lowercased text.

use vstd::prelude::*;
use crate::text::{chars_of, contains_chars, occurs_in, string_of, trim_chars, trim_spec};

verus! {

/// What `str::to_lowercase` returns for the given characters.
pub uninterp spec fn lower_of(s: Seq<char>) -> Seq<char>;

/// Relies on `str::to_lowercase`: the result depends on the characters
/// alone, and an empty string stays empty.
#[verifier::external_body]
fn lowercase(s: &str) -> (r: String)
    ensures
        r@ == lower_of(s@),
        s@.len() == 0 ==> r@.len() == 0,
{
    s.to_lowercase()
}

/// The keyword table: stems paired with their emoji, in the fixed order the
/// classifier scans them.
pub open spec fn stem_pairs() -> Seq<(Seq<char>, Seq<char>)> {
    seq![
        ("help"@, "🤝"@),
        ("mentor"@, "🧑‍🏫"@),
        ("review"@, "🔍"@),
        ("implement"@, "💻"@),
        ("write"@, "✍️"@),
        ("document"@, "📄"@),
        ("test"@, "🧪"@),
        ("debug"@, "🐞"@),
        ("learn"@, "📚"@),
        ("present"@, "🗣️"@),
        ("join"@, "👋"@),
        ("meeting"@, "📅"@),
        ("refactor"@, "🧼"@),
        ("deploy"@, "🚀"@),
        ("design"@, "🎨"@),
        ("discuss"@, "💬"@),
        ("plan"@, "🧠"@),
        ("optimize"@, "⚡"@),
        ("research"@, "🔬"@),
        ("sync"@, "🔄"@),
        ("fix"@, "🛠️"@),
        ("pair"@, "👯"@),
        ("merge"@, "🔗"@),
        ("ship"@, "📦"@),
        ("brainstorm"@, "🤯"@),
        ("setup"@, "⚙️"@),
        ("cleanup"@, "🧹"@),
        ("refine"@, "🔧"@),
        ("configure"@, "🔩"@),
        ("blocker"@, "⛔"@),
        ("bug"@, "🐛"@),
        ("success"@, "✅"@),
        ("fail"@, "❌"@),
        ("waiting"@, "⏳"@),
        ("think"@, "💭"@),
        ("coffee"@, "☕"@),
        ("note"@, "🗒️"@),
        ("idea"@, "💡"@),
        ("pause"@, "⏸️"@),
        ("continue"@, "▶️"@),
        ("focus"@, "🎯"@),
        ("explore"@, "🗺️"@),
        ("read"@, "📖"@),
    ]
}

fn stem_table() -> (t: Vec<(&'static str, &'static str)>)
    ensures
        t@.len() == stem_pairs().len(),
        forall|i: int|
            0 <= i < t@.len() ==> (#[trigger] t@[i]).0@ == stem_pairs()[i].0 && t@[i].1@
                == stem_pairs()[i].1,
{
    let mut t: Vec<(&'static str, &'static str)> = Vec::new();
    t.push(("help", "🤝"));
    t.push(("mentor", "🧑‍🏫"));
    t.push(("review", "🔍"));
    t.push(("implement", "💻"));
    t.push(("write", "✍️"));
    t.push(("document", "📄"));
    t.push(("test", "🧪"));
    t.push(("debug", "🐞"));
    t.push(("learn", "📚"));
    t.push(("present", "🗣️"));
    t.push(("join", "👋"));
    t.push(("meeting", "📅"));
    t.push(("refactor", "🧼"));
    t.push(("deploy", "🚀"));
    t.push(("design", "🎨"));
    t.push(("discuss", "💬"));
    t.push(("plan", "🧠"));
    t.push(("optimize", "⚡"));
    t.push(("research", "🔬"));
    t.push(("sync", "🔄"));
    t.push(("fix", "🛠️"));
    t.push(("pair", "👯"));
    t.push(("merge", "🔗"));
    t.push(("ship", "📦"));
    t.push(("brainstorm", "🤯"));
    t.push(("setup", "⚙️"));
    t.push(("cleanup", "🧹"));
    t.push(("refine", "🔧"));
    t.push(("configure", "🔩"));
    t.push(("blocker", "⛔"));
    t.push(("bug", "🐛"));
    t.push(("success", "✅"));
    t.push(("fail", "❌"));
    t.push(("waiting", "⏳"));
    t.push(("think", "💭"));
    t.push(("coffee", "☕"));
    t.push(("note", "🗒️"));
    t.push(("idea", "💡"));
    t.push(("pause", "⏸️"));
    t.push(("continue", "▶️"));
    t.push(("focus", "🎯"));
    t.push(("explore", "🗺️"));
    t.push(("read", "📖"));
    t
}

/// The emoji of the first stem at or after position `i` of the table whose
/// text occurs in `low`, if any.
pub open spec fn first_match_from(low: Seq<char>, i: int) -> Option<Seq<char>>
    decreases stem_pairs().len() - i when 0 <= i <= stem_pairs().len()
{
    if i >= stem_pairs().len() {
        None
    } else if occurs_in(low, stem_pairs()[i].0) {
        Some(stem_pairs()[i].1)
    } else {
        first_match_from(low, i + 1)
    }
}

/// The emoji of the first stem in table order that occurs in `low`, if any.
pub open spec fn first_match(low: Seq<char>) -> Option<Seq<char>> {
    first_match_from(low, 0)
}

proof fn lemma_first_match_skip(low: Seq<char>, i: int)
    requires
        0 <= i <= stem_pairs().len(),
        forall|k: int| 0 <= k < i ==> !occurs_in(low, (#[trigger] stem_pairs()[k]).0),
    ensures
        first_match(low) == first_match_from(low, i),
    decreases i,
{
    if i > 0 {
        lemma_first_match_skip(low, i - 1);
    }
}

/// The classified text: the trimmed entry, prefixed with the emoji of the
/// first stem of the table that occurs in its lowercased form, if any stem
/// does.
pub open spec fn classify_spec(s: Seq<char>) -> Seq<char> {
    let t = trim_spec(s);
    match first_match(lower_of(t)) {
        Some(e) => e + " "@ + t,
        None => t,
    }
}

/// Law: an entry in whose lowercased, trimmed text no keyword stem occurs is
/// returned trimmed, and running the classifier on that result changes
/// nothing. (No such stability holds when a stem does occur: the prefix does
/// not remove the stem, so a second run prefixes again.)
pub proof fn lemma_classify_stable_without_match(s: Seq<char>)
    requires
        first_match(lower_of(trim_spec(s))) is None,
    ensures
        classify_spec(s) == trim_spec(s),
        classify_spec(classify_spec(s)) == classify_spec(s),
{
    crate::text::lemma_trim_idempotent(s);
}

/// Trims the entry and prefixes it with the emoji of the first keyword stem
/// that occurs anywhere in its lowercased text; an entry with no keyword is
/// returned trimmed and otherwise unmodified.
pub fn apply_emoji_prefix(sentence: &str) -> (r: String)
    ensures
        r@ == classify_spec(sentence@),
{
    let cs = chars_of(sentence);
    let tc = trim_chars(&cs);
    let t = string_of(&tc);
    let low = lowercase(t.as_str());
    let lowc = chars_of(low.as_str());
    let table = stem_table();
    let n = table.len();
    let mut i: usize = 0;
    while i < n
        invariant
            n == table@.len(),
            n == stem_pairs().len(),
            forall|k: int|
                0 <= k < n ==> (#[trigger] table@[k]).0@ == stem_pairs()[k].0 && table@[k].1@
                    == stem_pairs()[k].1,
            i <= n,
            lowc@ == lower_of(trim_spec(sentence@)),
            t@ == trim_spec(sentence@),
            forall|k: int| 0 <= k < i ==> !occurs_in(lowc@, (#[trigger] stem_pairs()[k]).0),
        decreases n - i,
    {
        let stem = chars_of(table[i].0);
        if contains_chars(&lowc, &stem) {
            proof {
                lemma_first_match_skip(lowc@, i as int);
            }
            let mut r = String::from_str(table[i].1);
            r.append(" ");
            r.append(t.as_str());
            proof {
                assert(r@ =~= stem_pairs()[i as int].1 + " "@ + trim_spec(sentence@));
            }
            return r;
        }
        i = i + 1;
    }
    proof {
        lemma_first_match_skip(lowc@, n as int);
    }
    t
}

} // verus!
