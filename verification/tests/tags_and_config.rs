use gj::config::{config_abs_path, config_exists, config_rel_path, config_to_json, Config};
use gj::tags::{capitalize_first, merge_tags};

fn as_sorted(mut v: Vec<String>) -> Vec<String> {
    v.sort();
    v
}

#[test]
fn capitalize_first_letter() {
    assert_eq!(capitalize_first("focus"), "Focus");
    assert_eq!(capitalize_first("bug fix"), "Bug fix");
}

#[test]
fn capitalize_empty_and_already_capital() {
    assert_eq!(capitalize_first(""), "");
    assert_eq!(capitalize_first("Focus"), "Focus");
}

#[test]
fn merge_adds_capitalized_new_tags() {
    let merged = merge_tags(vec!["Alpha".to_string()], vec!["beta".to_string()]);
    assert_eq!(merged, vec!["Alpha".to_string(), "Beta".to_string()]);
}

#[test]
fn merge_never_removes_and_deduplicates() {
    let merged = merge_tags(
        vec!["Focus".to_string(), "Focus".to_string()],
        vec!["focus".to_string()],
    );
    assert_eq!(merged, vec!["Focus".to_string()]);
}

#[test]
fn merge_capitalizes_existing_names_too() {
    // a lowercase name already on the page is written back capitalized
    let merged = merge_tags(vec!["focus".to_string()], vec!["bug".to_string()]);
    assert_eq!(merged, vec!["Focus".to_string(), "Bug".to_string()]);
}

#[test]
fn merge_in_two_batches_equals_merge_at_once() {
    // set-union behaviour: {Focus} then {Bug} == {Bug, Focus} in one call
    let step1 = merge_tags(Vec::new(), vec!["Focus".to_string()]);
    let two_batches = merge_tags(step1, vec!["Bug".to_string()]);
    let at_once = merge_tags(Vec::new(), vec!["Bug".to_string(), "Focus".to_string()]);
    assert_eq!(as_sorted(two_batches), as_sorted(at_once));
}

#[test]
fn config_rel_path_is_fixed() {
    assert_eq!(config_rel_path(), ".gj/config.json");
}

#[test]
fn config_json_is_exact() {
    let c = Config { notion_token: "t\"x".to_string(), database_id: "db1".to_string() };
    assert_eq!(
        config_to_json(&c),
        "{\n  \"database_id\": \"db1\",\n  \"notion_token\": \"t\\\"x\"\n}"
    );
}

#[test]
fn config_file_path_is_under_the_home_directory() {
    assert_eq!(config_abs_path("/home/someone"), "/home/someone/.gj/config.json");
}

#[test]
fn config_exists_answers() {
    // whichever way the machine answers, the call must not panic
    let _ = config_exists();
}
