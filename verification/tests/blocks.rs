use notion_ai_webhook::codec::decode_block_array;
use notion_ai_webhook::codec::encode_block;
use notion_ai_webhook::codec::encode_blocks;
use notion_ai_webhook::json::parse_json_text;
use notion_ai_webhook::json::to_json_text;
use notion_ai_webhook::json::JsonValue;
use notion_ai_webhook::notion::BlockContent;
use notion_ai_webhook::notion::NotionRichText;
use notion_ai_webhook::notion::NotionTextContent;
use notion_ai_webhook::notion::RichTextAnnotations;
use notion_ai_webhook::notion::ToggleBlockContent;
use notion_ai_webhook::notion::ExtractText;
use notion_ai_webhook::notion::NotionBlock;

#[test]
fn extract_of_paragraph_helper_returns_original() {
    let b = NotionBlock::paragraph("Today was a good day.");
    assert_eq!(b.extract_text(), Some(String::from("Today was a good day.")));
}

#[test]
fn extract_of_heading_helpers_returns_original() {
    assert_eq!(
        NotionBlock::heading_1("One").extract_text(),
        Some(String::from("One"))
    );
    assert_eq!(
        NotionBlock::heading_2("Two").extract_text(),
        Some(String::from("Two"))
    );
    assert_eq!(
        NotionBlock::heading_3("Three").extract_text(),
        Some(String::from("Three"))
    );
}

#[test]
fn extract_of_code_helper_returns_original() {
    let b = NotionBlock::code("fn main() {}", String::from("rust"));
    assert_eq!(b.extract_text(), Some(String::from("fn main() {}")));
}

#[test]
fn extract_of_empty_rich_text_is_none() {
    let b = NotionBlock::Paragraph {
        paragraph: BlockContent { rich_text: Vec::new() },
    };
    assert_eq!(b.extract_text(), None);
}

#[test]
fn extract_of_empty_string_is_some_empty() {
    let b = NotionBlock::paragraph("");
    assert_eq!(b.extract_text(), Some(String::new()));
}

#[test]
fn extract_concatenates_inbound_spans_without_separator() {
    let body = r#"{"type":"paragraph","paragraph":{"rich_text":[
        {"type":"text","text":{"content":"x"},"plain_text":"Hello, "},
        {"type":"text","text":{"content":"y"},"plain_text":"world"}
    ]}}"#;
    let v = parse_json_text(body).expect("well-formed JSON");
    let blocks = decode_block_array(&JsonValue::Arr(vec![v])).expect("decodes");
    assert_eq!(blocks[0].extract_text(), Some(String::from("Hello, world")));
}

#[test]
fn unknown_tag_decodes_to_unsupported_and_extracts_nothing() {
    let body = r#"[
        {"type":"synced_block","synced_block":{}},
        {"type":"paragraph","paragraph":{"rich_text":[
            {"type":"text","text":{"content":"kept"}}
        ]}}
    ]"#;
    let v = parse_json_text(body).expect("well-formed JSON");
    let blocks = decode_block_array(&v).expect("unknown tag must not fail the array");
    assert_eq!(blocks.len(), 2);
    assert!(matches!(blocks[0], NotionBlock::Unsupported));
    assert_eq!(blocks[0].extract_text(), None);
    assert_eq!(blocks[1].extract_text(), Some(String::from("kept")));
}

#[test]
fn malformed_known_payload_fails_decode() {
    let body = r#"[{"type":"paragraph","paragraph":{}}]"#;
    let v = parse_json_text(body).expect("well-formed JSON");
    assert!(decode_block_array(&v).is_none());
}

#[test]
fn encode_paragraph_exact_wire_text() {
    let b = NotionBlock::paragraph("a\"b");
    let v = encode_block(&b);
    let text = to_json_text(&v);
    let expected = r#"{"type":"paragraph","paragraph":{"rich_text":[{"type":"text","text":{"content":"a\"b"},"annotations":{"bold":false,"italic":false,"strikethrough":false,"underline":false,"code":false}}]}}"#;
    assert_eq!(text, expected);
}

#[test]
fn encoded_blocks_round_trip_through_real_json_parser() {
    let blocks = vec![
        NotionBlock::heading_1("Title"),
        NotionBlock::paragraph("Some body text with \\ and \" and \n inside."),
        NotionBlock::code("let x = 1;", String::from("rust")),
    ];
    let encoded = encode_blocks(&blocks);
    let text = to_json_text(&encoded);
    let reparsed = parse_json_text(&text).expect("own encoding must be well-formed JSON");
    let decoded = decode_block_array(&reparsed).expect("own encoding must decode");
    assert_eq!(decoded.len(), blocks.len());
    let reencoded = to_json_text(&encode_blocks(&decoded));
    assert_eq!(reencoded, text);
    assert_eq!(decoded[0].extract_text(), Some(String::from("Title")));
    assert_eq!(
        decoded[1].extract_text(),
        Some(String::from("Some body text with \\ and \" and \n inside."))
    );
}

#[test]
fn parser_yields_structure_not_raw_text() {
    let v = parse_json_text(" [ 1 , 2 ] ").expect("well-formed JSON");
    assert_eq!(to_json_text(&v), "[1,2]");
    let w = parse_json_text("{\"a\": \"b c\"}").expect("well-formed JSON");
    assert_eq!(to_json_text(&w), "{\"a\":\"b c\"}");
}

#[test]
fn malformed_json_is_rejected() {
    assert!(parse_json_text("{").is_none());
    assert!(parse_json_text("not json").is_none());
    assert!(parse_json_text("").is_none());
}

#[test]
fn divider_and_todo_round_trip() {
    let body = r#"[
        {"type":"divider","divider":{}},
        {"type":"to_do","to_do":{"rich_text":[
            {"type":"text","text":{"content":"task"}}
        ],"checked":true}}
    ]"#;
    let v = parse_json_text(body).expect("well-formed JSON");
    let blocks = decode_block_array(&v).expect("decodes");
    assert!(matches!(blocks[0], NotionBlock::Divider { .. }));
    assert_eq!(blocks[0].extract_text(), None);
    assert_eq!(blocks[1].extract_text(), Some(String::from("task")));
    match &blocks[1] {
        NotionBlock::ToDo { to_do } => assert!(to_do.checked),
        _ => panic!("expected a to-do block"),
    }
}

#[test]
fn toggle_children_decode_one_level() {
    let body = r#"[{"type":"toggle","toggle":{
        "rich_text":[{"type":"text","text":{"content":"head"}}],
        "children":[{"type":"paragraph","paragraph":{"rich_text":[
            {"type":"text","text":{"content":"inner"}}
        ]}}]
    }}]"#;
    let v = parse_json_text(body).expect("well-formed JSON");
    let blocks = decode_block_array(&v).expect("decodes");
    assert_eq!(blocks[0].extract_text(), Some(String::from("head")));
    match &blocks[0] {
        NotionBlock::Toggle { toggle } => {
            let children = toggle.children.as_ref().expect("children kept");
            assert_eq!(children.len(), 1);
            assert_eq!(children[0].extract_text(), Some(String::from("inner")));
        }
        _ => panic!("expected a toggle block"),
    }
}

#[test]
fn annotations_and_colour_survive_a_round_trip() {
    let body = r#"[{"type":"quote","quote":{"rich_text":[{"type":"text","text":{"content":"styled","link":{"url":"https://x"}},"annotations":{"bold":true,"color":"purple"}}]}}]"#;
    let v = parse_json_text(body).expect("well-formed JSON");
    let blocks = decode_block_array(&v).expect("decodes");
    let reencoded = to_json_text(&encode_blocks(&blocks));
    assert!(reencoded.contains(r#""bold":true"#));
    assert!(reencoded.contains(r#""color":"purple""#));
    assert!(reencoded.contains(r#""link":{"url":"https://x"}"#));
    let reparsed = parse_json_text(&reencoded).expect("well-formed");
    let again = decode_block_array(&reparsed).expect("decodes again");
    assert_eq!(to_json_text(&encode_blocks(&again)), reencoded);
}

#[test]
fn mention_spans_carry_their_payload_and_text() {
    let body = r#"[{"type":"paragraph","paragraph":{"rich_text":[{"type":"mention","mention":{"page":{"id":"p9"}},"plain_text":"A page"}]}}]"#;
    let v = parse_json_text(body).expect("well-formed JSON");
    let blocks = decode_block_array(&v).expect("decodes");
    assert_eq!(blocks[0].extract_text(), Some(String::from("A page")));
    let reencoded = to_json_text(&encode_blocks(&blocks));
    assert!(reencoded.contains(r#""mention":{"page":{"id":"p9"}}"#));
}

#[test]
fn unknown_rich_text_tag_fails_decode() {
    let body = r#"[{"type":"paragraph","paragraph":{"rich_text":[{"type":"sticker","sticker":{}}]}}]"#;
    let v = parse_json_text(body).expect("well-formed JSON");
    assert!(decode_block_array(&v).is_none());
}

#[test]
fn toggle_children_written_only_when_nonempty() {
    let span = |t: &str| NotionBlock::paragraph(t);
    let with_children = NotionBlock::Toggle {
        toggle: ToggleBlockContent {
            rich_text: vec![NotionRichText::Text {
                text: NotionTextContent::new("head"),
                plain_text: None,
                annotations: RichTextAnnotations::default(),
            }],
            children: Some(vec![span("inner")]),
        },
    };
    let text = to_json_text(&encode_block(&with_children));
    assert!(text.contains(r#""children":[{"type":"paragraph""#));

    let with_empty = NotionBlock::Toggle {
        toggle: ToggleBlockContent {
            rich_text: vec![NotionRichText::Text {
                text: NotionTextContent::new("head"),
                plain_text: None,
                annotations: RichTextAnnotations::default(),
            }],
            children: Some(Vec::new()),
        },
    };
    let text2 = to_json_text(&encode_block(&with_empty));
    assert!(!text2.contains("children"));

    let without = NotionBlock::Toggle {
        toggle: ToggleBlockContent {
            rich_text: vec![NotionRichText::Text {
                text: NotionTextContent::new("head"),
                plain_text: None,
                annotations: RichTextAnnotations::default(),
            }],
            children: None,
        },
    };
    let text3 = to_json_text(&encode_block(&without));
    assert!(!text3.contains("children"));
}
