use gj::period::{create_page_payload_now, Date, Granularity};
use gj::store::{
    collect_names, created_page_id, find_marker_database, is_header_kind, last_header_content,
    page_id_from_results, BlockInfo, SearchHit, StoreError,
};
use gj::sync::{prepare_request, sync_start, sync_step, SyncAction, SyncEvent, SyncState};
use gj::wire::ContentBlock;

fn block_texts(blocks: &[ContentBlock]) -> Vec<(bool, String)> {
    blocks
        .iter()
        .map(|b| match b {
            ContentBlock::Header(t) => (true, t.clone()),
            ContentBlock::Entry(t) => (false, t.clone()),
        })
        .collect()
}

#[test]
fn page_lookup_interprets_results() {
    assert!(matches!(page_id_from_results(None), Err(StoreError::Protocol(_))));
    assert!(matches!(page_id_from_results(Some(Vec::new())), Ok(None)));
    let r = page_id_from_results(Some(vec![Some("id1".to_string()), Some("id2".to_string())]));
    assert_eq!(r.unwrap(), Some("id1".to_string()));
    assert!(matches!(page_id_from_results(Some(vec![None])), Err(StoreError::Protocol(_))));
}

#[test]
fn created_page_needs_an_id() {
    assert_eq!(created_page_id(Some("p1".to_string())).unwrap(), "p1");
    assert!(matches!(created_page_id(None), Err(StoreError::Protocol(_))));
}

#[test]
fn marker_database_search_takes_first_match() {
    let hits = vec![
        SearchHit { title: "Other".to_string(), id: Some("a".to_string()) },
        SearchHit { title: "GJ Dead Simple Journal".to_string(), id: None },
        SearchHit { title: "GJ Dead Simple Journal".to_string(), id: Some("db1".to_string()) },
        SearchHit { title: "GJ Dead Simple Journal".to_string(), id: Some("db2".to_string()) },
    ];
    assert_eq!(find_marker_database(&hits), Some("db1".to_string()));
    assert_eq!(find_marker_database(&Vec::new()), None);
    let none = vec![SearchHit { title: "Notes".to_string(), id: Some("x".to_string()) }];
    assert_eq!(find_marker_database(&none), None);
}

#[test]
fn last_header_is_the_most_recent_header_block() {
    assert_eq!(last_header_content(&Vec::new()), None);
    let no_header = vec![BlockInfo { header: false, text: "e".to_string() }];
    assert_eq!(last_header_content(&no_header), None);
    let blocks = vec![
        BlockInfo { header: true, text: "May  1, 2025".to_string() },
        BlockInfo { header: false, text: "entry".to_string() },
        BlockInfo { header: true, text: "May  2, 2025".to_string() },
        BlockInfo { header: false, text: "entry".to_string() },
    ];
    assert_eq!(last_header_content(&blocks), Some("May  2, 2025".to_string()));
}

#[test]
fn header_kinds_are_the_heading_block_types() {
    assert!(is_header_kind("heading_1"));
    assert!(is_header_kind("heading_2"));
    assert!(is_header_kind("heading_3"));
    assert!(is_header_kind("heading"));
    assert!(!is_header_kind("bulleted_list_item"));
    assert!(!is_header_kind("paragraph"));
    assert!(!is_header_kind(""));
    assert!(!is_header_kind("headin"));
}

#[test]
fn tag_names_are_collected_in_order() {
    let names = collect_names(vec![Some("a".to_string()), None, Some("b".to_string())]);
    assert_eq!(names, vec!["a".to_string(), "b".to_string()]);
}

#[test]
fn fresh_page_run_creates_once_and_appends_header_then_entries() {
    // no page exists for the period: one create call, one append call with
    // exactly one header block followed by the formatted entries
    let d = Date { year: 2026, month: 10, day: 12 };
    let req = prepare_request(
        "fix the login bug;write docs".to_string(),
        Vec::new(),
        &Granularity::Day,
        &d,
    );
    let (st, act) = sync_start(&req);
    match &act {
        SyncAction::FindPage { title } => assert_eq!(title, "October 12, 2026"),
        _ => panic!("expected a page lookup"),
    }

    let (st, act) = sync_step(&req, st, SyncEvent::FoundPage(Ok(None)));
    match &act {
        SyncAction::CreatePage { title } => assert_eq!(title, "October 12, 2026"),
        _ => panic!("expected a page creation"),
    }

    let (st, act) = sync_step(&req, st, SyncEvent::CreatedPage(Ok("p1".to_string())));
    match &act {
        SyncAction::GetLastHeader { page_id } => assert_eq!(page_id, "p1"),
        _ => panic!("expected a header read"),
    }

    let (st, act) = sync_step(&req, st, SyncEvent::LastHeader(Ok(None)));
    match &act {
        SyncAction::Append { page_id, blocks } => {
            assert_eq!(page_id, "p1");
            assert_eq!(
                block_texts(blocks),
                vec![
                    (true, "October 12, 2026".to_string()),
                    (false, "🛠️ fix the login bug".to_string()),
                    (false, "✍️ write docs".to_string()),
                ]
            );
        },
        _ => panic!("expected an append"),
    }

    let (st, act) = sync_step(&req, st, SyncEvent::Appended(Ok(())));
    assert!(matches!(act, SyncAction::Finish));
    assert!(matches!(st, SyncState::Done));
}

#[test]
fn existing_page_with_current_header_appends_only_entries() {
    // the page exists and its last header already equals today's label:
    // exactly one entry block, no header block, tags untouched
    let d = Date { year: 2026, month: 10, day: 12 };
    let req = prepare_request("sync with team".to_string(), Vec::new(), &Granularity::Day, &d);
    let (st, _) = sync_start(&req);

    let (st, act) = sync_step(&req, st, SyncEvent::FoundPage(Ok(Some("p2".to_string()))));
    assert!(matches!(act, SyncAction::GetLastHeader { .. }));

    let (st, act) = sync_step(
        &req,
        st,
        SyncEvent::LastHeader(Ok(Some("October 12, 2026".to_string()))),
    );
    match &act {
        SyncAction::Append { page_id, blocks } => {
            assert_eq!(page_id, "p2");
            assert_eq!(block_texts(blocks), vec![(false, "🔄 sync with team".to_string())]);
        },
        _ => panic!("expected an append"),
    }

    let (st, act) = sync_step(&req, st, SyncEvent::Appended(Ok(())));
    assert!(matches!(act, SyncAction::Finish));
    assert!(matches!(st, SyncState::Done));
}

#[test]
fn stale_header_is_replaced_by_a_new_one() {
    let d = Date { year: 2026, month: 10, day: 12 };
    let req = prepare_request("write docs".to_string(), Vec::new(), &Granularity::Day, &d);
    let (st, _) = sync_start(&req);
    let (st, _) = sync_step(&req, st, SyncEvent::FoundPage(Ok(Some("p3".to_string()))));
    let (_, act) = sync_step(
        &req,
        st,
        SyncEvent::LastHeader(Ok(Some("October 11, 2026".to_string()))),
    );
    match &act {
        SyncAction::Append { blocks, .. } => {
            assert_eq!(
                block_texts(blocks),
                vec![
                    (true, "October 12, 2026".to_string()),
                    (false, "✍️ write docs".to_string()),
                ]
            );
        },
        _ => panic!("expected an append"),
    }
}

#[test]
fn failed_header_read_degrades_to_inserting_a_header() {
    let d = Date { year: 2026, month: 10, day: 12 };
    let req = prepare_request("write docs".to_string(), Vec::new(), &Granularity::Day, &d);
    let (st, _) = sync_start(&req);
    let (st, _) = sync_step(&req, st, SyncEvent::FoundPage(Ok(Some("p4".to_string()))));
    let (_, act) = sync_step(
        &req,
        st,
        SyncEvent::LastHeader(Err(StoreError::Transport("timed out".to_string()))),
    );
    match &act {
        SyncAction::Append { blocks, .. } => {
            assert!(matches!(blocks[0], ContentBlock::Header(_)));
        },
        _ => panic!("expected an append"),
    }
}

#[test]
fn tags_are_merged_after_a_successful_append() {
    let d = Date { year: 2026, month: 10, day: 12 };
    let req = prepare_request(
        "write docs".to_string(),
        vec!["focus".to_string()],
        &Granularity::Day,
        &d,
    );
    let (st, _) = sync_start(&req);
    let (st, _) = sync_step(&req, st, SyncEvent::FoundPage(Ok(Some("p5".to_string()))));
    let (st, _) = sync_step(&req, st, SyncEvent::LastHeader(Ok(None)));
    let (st, act) = sync_step(&req, st, SyncEvent::Appended(Ok(())));
    match &act {
        SyncAction::MergeTags { page_id, tags } => {
            assert_eq!(page_id, "p5");
            assert_eq!(tags, &vec!["focus".to_string()]);
        },
        _ => panic!("expected a tag merge"),
    }
    let (st, act) = sync_step(&req, st, SyncEvent::TagsMerged(Ok(())));
    assert!(matches!(act, SyncAction::Finish));
    assert!(matches!(st, SyncState::Done));
}

#[test]
fn write_path_errors_fail_the_run() {
    let d = Date { year: 2026, month: 10, day: 12 };
    let req = prepare_request("write docs".to_string(), Vec::new(), &Granularity::Day, &d);
    let (st, _) = sync_start(&req);
    let (st, act) = sync_step(
        &req,
        st,
        SyncEvent::FoundPage(Err(StoreError::Transport("down".to_string()))),
    );
    assert!(matches!(act, SyncAction::Fail(StoreError::Transport(_))));
    assert!(matches!(st, SyncState::Failed(StoreError::Transport(_))));

    let req2 = prepare_request("write docs".to_string(), Vec::new(), &Granularity::Day, &d);
    let (st, _) = sync_start(&req2);
    let (st, _) = sync_step(&req2, st, SyncEvent::FoundPage(Ok(Some("p6".to_string()))));
    let (st, _) = sync_step(&req2, st, SyncEvent::LastHeader(Ok(None)));
    let (st, act) = sync_step(
        &req2,
        st,
        SyncEvent::Appended(Err(StoreError::RemoteRejected("bad request".to_string()))),
    );
    assert!(matches!(act, SyncAction::Fail(StoreError::RemoteRejected(_))));
    assert!(matches!(st, SyncState::Failed(StoreError::RemoteRejected(_))));
}

#[test]
fn error_messages_are_kept() {
    let e = StoreError::RemoteRejected("quota exceeded".to_string());
    assert_eq!(e.message(), "quota exceeded");
}

#[test]
fn create_page_payload_now_stamps_a_timestamp() {
    let p = create_page_payload_now("October 12, 2026", "db42");
    assert!(p.starts_with(
        "{\"parent\":{\"database_id\":\"db42\"},\"properties\":{\"Name\":{\"title\":[{\"type\":\"text\",\"text\":{\"content\":\"October 12, 2026\"}}]},\"Date\":{\"date\":{\"start\":\""
    ));
    assert!(p.ends_with("\"}}}}"));
}
