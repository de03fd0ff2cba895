use notion_ai_webhook::date::current_date;
use notion_ai_webhook::date::date_from_parts;
use notion_ai_webhook::date::format_date;
use notion_ai_webhook::date::week_ago;
use notion_ai_webhook::date::Date;
use notion_ai_webhook::notion::NotionBlock;
use notion_ai_webhook::pipeline::aggregate_diary_texts;
use notion_ai_webhook::pipeline::blocks_to_delete;
use notion_ai_webhook::pipeline::build_append_body;
use notion_ai_webhook::pipeline::build_create_page_body;
use notion_ai_webhook::pipeline::build_weekly_query_body;
use notion_ai_webhook::pipeline::build_weekly_title;
use notion_ai_webhook::pipeline::extract_page_text;
use notion_ai_webhook::pipeline::parse_block_ids;
use notion_ai_webhook::pipeline::parse_created_page;
use notion_ai_webhook::pipeline::parse_page_detail;
use notion_ai_webhook::pipeline::parse_query_results;
use notion_ai_webhook::pipeline::parse_webhook_payload;
use notion_ai_webhook::pipeline::plan_weekly_update;
use notion_ai_webhook::pipeline::AppendPositionType;
use notion_ai_webhook::pipeline::NotionAppendBlockRequest;
use notion_ai_webhook::pipeline::NotionBlockId;
use notion_ai_webhook::pipeline::NotionBlockResponse;
use notion_ai_webhook::pipeline::NotionPageDetail;
use notion_ai_webhook::pipeline::WeeklyAction;

#[test]
fn page_text_joins_blocks_with_newlines() {
    let page = NotionPageDetail {
        body: NotionBlockResponse {
            results: vec![
                NotionBlock::paragraph("Today was a good day."),
                NotionBlock::heading_2("Goals"),
            ],
        },
    };
    assert_eq!(extract_page_text(&page), "Today was a good day.\nGoals");
}

#[test]
fn week_ago_crosses_month_and_year() {
    let d = week_ago(Date { year: 2026, month: 1, day: 3 });
    assert_eq!(d, Date { year: 2025, month: 12, day: 27 });
    let e = week_ago(Date { year: 2024, month: 3, day: 1 });
    assert_eq!(e, Date { year: 2024, month: 2, day: 23 });
    let f = week_ago(Date { year: 2023, month: 3, day: 1 });
    assert_eq!(f, Date { year: 2023, month: 2, day: 22 });
    let g = week_ago(Date { year: 2026, month: 6, day: 20 });
    assert_eq!(g, Date { year: 2026, month: 6, day: 13 });
}

#[test]
fn dates_format_zero_padded() {
    assert_eq!(format_date(Date { year: 2026, month: 1, day: 3 }), "2026-01-03");
    assert_eq!(format_date(Date { year: 987, month: 12, day: 31 }), "0987-12-31");
}

#[test]
fn current_date_is_in_wire_range() {
    let d = current_date().expect("clock within four-digit years");
    assert!(1 <= d.year && d.year <= 9999);
    assert!(1 <= d.month && d.month <= 12);
    assert!(1 <= d.day && d.day <= 31);
}

#[test]
fn clear_plan_keeps_databases_and_buttons() {
    let blocks = vec![
        NotionBlockId { id: String::from("a"), block_type: String::from("paragraph") },
        NotionBlockId { id: String::from("b"), block_type: String::from("child_database") },
        NotionBlockId { id: String::from("c"), block_type: String::from("button") },
    ];
    assert_eq!(blocks_to_delete(&blocks), vec![String::from("a")]);
}

#[test]
fn aggregate_of_no_entries_is_empty() {
    let entries: Vec<(String, Option<NotionPageDetail>)> = Vec::new();
    assert_eq!(aggregate_diary_texts(&entries), "");
}

#[test]
fn aggregate_frames_each_kept_entry() {
    let page = NotionPageDetail {
        body: NotionBlockResponse { results: vec![NotionBlock::paragraph("Went hiking.")] },
    };
    let blank = NotionPageDetail {
        body: NotionBlockResponse { results: vec![NotionBlock::paragraph("   ")] },
    };
    let entries = vec![
        (String::from("p1"), Some(page)),
        (String::from("p2"), None),
        (String::from("p3"), Some(blank)),
    ];
    assert_eq!(
        aggregate_diary_texts(&entries),
        "\n--- Diary Entry (p1) ---\nWent hiking.\n"
    );
}

#[test]
fn empty_aggregate_plans_no_generation() {
    let action = plan_weekly_update(String::new(), String::from("unused instruction"));
    match action {
        WeeklyAction::NoContent { append_body } => {
            let expected = build_append_body(&NotionAppendBlockRequest {
                children: vec![NotionBlock::paragraph(
                    "No diary entries were found for this period.",
                )],
                position: AppendPositionType::End,
            });
            assert_eq!(append_body, expected);
        }
        WeeklyAction::Generate { .. } => panic!("empty week must not reach the generator"),
    }
}

#[test]
fn nonempty_aggregate_plans_one_generation_request() {
    let action = plan_weekly_update(String::from("some diary text"), String::from("instr"));
    match action {
        WeeklyAction::Generate { request_body } => {
            assert!(request_body.contains("some diary text"));
            assert!(request_body.contains("\"temperature\":0.8"));
        }
        WeeklyAction::NoContent { .. } => panic!("content must reach the generator"),
    }
}

#[test]
fn append_body_exact_wire_text() {
    let req = NotionAppendBlockRequest {
        children: vec![NotionBlock::heading_3("x")],
        position: AppendPositionType::End,
    };
    let expected = r#"{"children":[{"type":"heading_3","heading_3":{"rich_text":[{"type":"text","text":{"content":"x"},"annotations":{"bold":false,"italic":false,"strikethrough":false,"underline":false,"code":false}}]}}],"position":{"type":"end"}}"#;
    assert_eq!(build_append_body(&req), expected);
}

#[test]
fn weekly_query_body_exact_wire_text() {
    let body = build_weekly_query_body(
        "Entry date",
        Date { year: 2026, month: 1, day: 3 },
        Date { year: 2026, month: 1, day: 10 },
    );
    let expected = r#"{"filter":{"and":[{"property":"Entry date","date":{"on_or_after":"2026-01-03"}},{"property":"Entry date","date":{"on_or_before":"2026-01-10"}}]},"sorts":[{"property":"Entry date","direction":"ascending"}]}"#;
    assert_eq!(body, expected);
}

#[test]
fn create_page_body_exact_wire_text() {
    let body = build_create_page_body(
        "db1",
        "Name",
        "Entry date",
        "Weekly Report (2026-01-03 ~ 2026-01-10)",
        Date { year: 2026, month: 1, day: 10 },
        &vec![NotionBlock::paragraph("p")],
    );
    let expected = r#"{"parent":{"database_id":"db1"},"properties":{"Name":{"title":[{"text":{"content":"Weekly Report (2026-01-03 ~ 2026-01-10)"}}]},"Entry date":{"date":{"start":"2026-01-10"}}},"children":[{"type":"paragraph","paragraph":{"rich_text":[{"type":"text","text":{"content":"p"},"annotations":{"bold":false,"italic":false,"strikethrough":false,"underline":false,"code":false}}]}}]}"#;
    assert_eq!(body, expected);
}

#[test]
fn weekly_title_names_the_window() {
    let t = build_weekly_title(
        Date { year: 2026, month: 1, day: 3 },
        Date { year: 2026, month: 1, day: 10 },
    );
    assert_eq!(t, "Weekly Report (2026-01-03 ~ 2026-01-10)");
}

#[test]
fn webhook_payload_parses_page_id() {
    let p = parse_webhook_payload(r#"{"data":{"id":"page-123","url":"u"}}"#)
        .expect("valid trigger body");
    assert_eq!(p.data.id, "page-123");
    assert!(parse_webhook_payload(r#"{"data":{}}"#).is_none());
    assert!(parse_webhook_payload("nope").is_none());
}

#[test]
fn block_id_listing_parses_ids_and_types() {
    let body = r#"{"results":[{"id":"a","type":"paragraph","has_children":false},{"id":"b","type":"child_database"}]}"#;
    let ids = parse_block_ids(body).expect("listing shape");
    assert_eq!(ids.len(), 2);
    assert_eq!(ids[0].id, "a");
    assert_eq!(ids[0].block_type, "paragraph");
    assert_eq!(ids[1].block_type, "child_database");
    assert_eq!(blocks_to_delete(&ids), vec![String::from("a")]);
}

#[test]
fn query_results_parse_page_summaries() {
    let body = r#"{"results":[{"id":"p1","url":"https://x/1","object":"page"},{"id":"p2","url":"https://x/2"}]}"#;
    let pages = parse_query_results(body).expect("query shape");
    assert_eq!(pages.len(), 2);
    assert_eq!(pages[0].id, "p1");
    assert_eq!(pages[1].url, "https://x/2");
}

#[test]
fn fetched_page_parses_into_blocks() {
    let body = r#"{"object":"list","results":[{"type":"paragraph","paragraph":{"rich_text":[{"type":"text","text":{"content":"x"},"plain_text":"hello"}]}}]}"#;
    let page = parse_page_detail(body).expect("listing shape");
    assert_eq!(extract_page_text(&page), "hello");
    assert!(parse_page_detail(r#"{"results":"no"}"#).is_none());
}

#[test]
fn ideographic_space_counts_as_blank() {
    let page = NotionPageDetail {
        body: NotionBlockResponse {
            results: vec![NotionBlock::paragraph("\u{3000}\u{00A0} \n")],
        },
    };
    let entries = vec![(String::from("p1"), Some(page))];
    assert_eq!(aggregate_diary_texts(&entries), "");
}

#[test]
fn date_from_parts_accepts_exactly_four_digit_years() {
    assert_eq!(
        date_from_parts(2026, 10, 12),
        Some(Date { year: 2026, month: 10, day: 12 })
    );
    assert_eq!(date_from_parts(0, 1, 1), None);
    assert_eq!(date_from_parts(10000, 1, 1), None);
}

#[test]
fn created_page_response_parses_id_and_url() {
    let body = r#"{"object":"page","id":"np1","url":"https://x/np1"}"#;
    let page = parse_created_page(body).expect("create-page response shape");
    assert_eq!(page.id, "np1");
    assert_eq!(page.url, "https://x/np1");
    assert!(parse_created_page(r#"{"id":"np1"}"#).is_none());
    assert!(parse_created_page("nope").is_none());
}
