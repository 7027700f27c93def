use gj::emoji::apply_emoji_prefix;
use gj::entries::build_entries;

#[test]
fn classify_fix_entry() {
    assert_eq!(apply_emoji_prefix("fix the login bug"), "🛠️ fix the login bug");
}

#[test]
fn classify_write_entry() {
    assert_eq!(apply_emoji_prefix("write docs"), "✍️ write docs");
}

#[test]
fn classify_matches_case_insensitively() {
    // the stem is found in the lowercased text; the entry keeps its casing
    assert_eq!(apply_emoji_prefix("FIX the login bug"), "🛠️ FIX the login bug");
}

#[test]
fn classify_no_keyword_trims() {
    assert_eq!(apply_emoji_prefix("  hello  "), "hello");
}

#[test]
fn classify_empty_input() {
    assert_eq!(apply_emoji_prefix(""), "");
}

#[test]
fn classify_stable_without_keyword() {
    let once = apply_emoji_prefix(" hello ");
    assert_eq!(apply_emoji_prefix(&once), once);
}

#[test]
fn classify_reapplied_prefixes_again_when_keyword_remains() {
    // the emoji prefix does not remove the stem, so a second run prefixes again
    let once = apply_emoji_prefix("fix it");
    assert_eq!(once, "🛠️ fix it");
    assert_eq!(apply_emoji_prefix(&once), "🛠️ 🛠️ fix it");
}

#[test]
fn classify_first_stem_in_table_order_wins() {
    // "review" stands before "test" in the table
    assert_eq!(apply_emoji_prefix("review the test"), "🔍 review the test");
    // "debug" stands before "plan"
    assert_eq!(apply_emoji_prefix("debug the plan"), "🐞 debug the plan");
}

#[test]
fn build_entries_splits_and_classifies() {
    let items = build_entries("fix the login bug;write docs".to_string());
    assert_eq!(items, vec!["🛠️ fix the login bug".to_string(), "✍️ write docs".to_string()]);
}

#[test]
fn build_entries_single_segment() {
    let items = build_entries("a".to_string());
    assert_eq!(items, vec!["a".to_string()]);
}

#[test]
fn build_entries_three_segments() {
    let items = build_entries("a;b;c".to_string());
    assert_eq!(items.len(), 3);
    assert_eq!(items, vec!["a".to_string(), "b".to_string(), "c".to_string()]);
}

#[test]
fn build_entries_empty_input_is_one_empty_item() {
    let items = build_entries("".to_string());
    assert_eq!(items, vec!["".to_string()]);
}

#[test]
fn build_entries_keeps_empty_segments() {
    let items = build_entries("a;".to_string());
    assert_eq!(items, vec!["a".to_string(), "".to_string()]);
    let items = build_entries(" ; ".to_string());
    assert_eq!(items, vec!["".to_string(), "".to_string()]);
}

#[test]
fn build_entries_trims_each_segment() {
    let items = build_entries("  sync with team  ; write docs ".to_string());
    assert_eq!(items, vec!["🔄 sync with team".to_string(), "✍️ write docs".to_string()]);
}
