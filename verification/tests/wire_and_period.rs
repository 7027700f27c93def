use gj::period::{date_from_parts, day_label, period_label, today_date, Date, Granularity};
use gj::wire::{
    append_blocks_payload, bearer_header, children_path, create_database_payload,
    create_page_payload, marker_title, notion_version, page_path, query_by_title_payload,
    query_path, search_databases_payload, update_tags_payload, ContentBlock,
};

#[test]
fn query_payload_is_exact() {
    assert_eq!(
        query_by_title_payload("October 12, 2026"),
        "{\"filter\":{\"property\":\"Name\",\"title\":{\"equals\":\"October 12, 2026\"}}}"
    );
}

#[test]
fn json_strings_are_escaped() {
    assert_eq!(
        query_by_title_payload("a\"b\\c\nd\te\u{1}"),
        "{\"filter\":{\"property\":\"Name\",\"title\":{\"equals\":\"a\\\"b\\\\c\\nd\\te\\u0001\"}}}"
    );
}

#[test]
fn create_page_payload_is_exact() {
    assert_eq!(
        create_page_payload("May  1, 2025", "db42", "2025-05-01T00:00:00+00:00"),
        "{\"parent\":{\"database_id\":\"db42\"},\"properties\":{\"Name\":{\"title\":[{\"type\":\"text\",\"text\":{\"content\":\"May  1, 2025\"}}]},\"Date\":{\"date\":{\"start\":\"2025-05-01T00:00:00+00:00\"}}}}"
    );
}

#[test]
fn append_payload_renders_header_then_entries() {
    let blocks = vec![
        ContentBlock::Header("October 12, 2026".to_string()),
        ContentBlock::Entry("🛠️ fix the login bug".to_string()),
    ];
    assert_eq!(
        append_blocks_payload(&blocks),
        "{\"children\":[{\"type\":\"heading_3\",\"heading_3\":{\"rich_text\":[{\"type\":\"text\",\"text\":{\"content\":\"October 12, 2026\"}}]}},{\"type\":\"bulleted_list_item\",\"bulleted_list_item\":{\"rich_text\":[{\"type\":\"text\",\"text\":{\"content\":\"🛠️ fix the login bug\"}}]}}]}"
    );
}

#[test]
fn append_payload_of_no_blocks_is_empty_list() {
    let blocks: Vec<ContentBlock> = Vec::new();
    assert_eq!(append_blocks_payload(&blocks), "{\"children\":[]}");
}

#[test]
fn tags_payload_is_exact() {
    let tags = vec!["Focus".to_string(), "Bug".to_string()];
    assert_eq!(
        update_tags_payload(&tags),
        "{\"properties\":{\"Tag\":{\"multi_select\":[{\"name\":\"Focus\"},{\"name\":\"Bug\"}]}}}"
    );
}

#[test]
fn database_payload_carries_root_and_marker() {
    let p = create_database_payload("root9");
    assert!(p.starts_with(
        "{\"is_inline\":true,\"parent\":{\"type\":\"page_id\",\"page_id\":\"root9\"},\"title\":[{\"type\":\"text\",\"text\":{\"content\":\"GJ Dead Simple Journal\"}}],\"properties\":"
    ));
    assert!(p.contains("{\"name\":\"Momentum\",\"color\":\"green\"}"));
    assert!(p.ends_with("{\"name\":\"Building\",\"color\":\"red\"}]}}}}"));
}

#[test]
fn marker_title_is_fixed() {
    assert_eq!(marker_title(), "GJ Dead Simple Journal");
}

#[test]
fn search_payload_is_exact() {
    assert_eq!(
        search_databases_payload(),
        "{\"filter\":{\"value\":\"database\",\"property\":\"object\"}}"
    );
}

#[test]
fn request_paths_are_exact() {
    assert_eq!(query_path("db42"), "/v1/databases/db42/query");
    assert_eq!(children_path("p7"), "/v1/blocks/p7/children");
    assert_eq!(page_path("p7"), "/v1/pages/p7");
}

#[test]
fn day_label_formats_like_the_period_title() {
    let d = Date { year: 2026, month: 10, day: 12 };
    assert_eq!(day_label(&d), "October 12, 2026");
}

#[test]
fn day_label_pads_single_digit_days_with_a_space() {
    let d = Date { year: 2026, month: 10, day: 5 };
    assert_eq!(day_label(&d), "October  5, 2026");
}

#[test]
fn period_label_by_granularity() {
    let d = Date { year: 2026, month: 10, day: 12 };
    assert_eq!(period_label(&Granularity::Day, &d), "October 12, 2026");
    assert_eq!(period_label(&Granularity::Month, &d), "October 2026");
}

#[test]
fn year_is_zero_padded_to_four_digits() {
    let d = Date { year: 26, month: 1, day: 1 };
    assert_eq!(day_label(&d), "January  1, 0026");
}

#[test]
fn request_headers_are_exact() {
    assert_eq!(bearer_header("tok3n"), "Bearer tok3n");
    assert_eq!(notion_version(), "2022-06-28");
}

#[test]
fn date_from_parts_accepts_exactly_four_digit_years() {
    let d = date_from_parts(2026, 10, 12).expect("a four-digit year");
    assert_eq!((d.year, d.month, d.day), (2026, 10, 12));
    assert!(date_from_parts(0, 1, 1).is_some());
    assert!(date_from_parts(9999, 12, 31).is_some());
    assert!(date_from_parts(-1, 6, 15).is_none());
    assert!(date_from_parts(10000, 6, 15).is_none());
}

#[test]
fn today_is_a_well_formed_date() {
    let d = today_date().expect("the clock year fits four digits");
    assert!(1 <= d.month && d.month <= 12);
    assert!(1 <= d.day && d.day <= 31);
}
