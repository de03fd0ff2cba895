use notion_ai_webhook::codec::decode_block_array;
use notion_ai_webhook::codec::encode_blocks;
use notion_ai_webhook::gemini::blocks_from_generated_text;
use notion_ai_webhook::gemini::build_generate_body;
use notion_ai_webhook::gemini::decode_generation_response;
use notion_ai_webhook::gemini::generated_blocks_from_response;
use notion_ai_webhook::gemini::GeminiAPIModel;
use notion_ai_webhook::gemini::GenDecodeError;
use notion_ai_webhook::gemini::ResponseMimeType;
use notion_ai_webhook::gemini::Role;
use notion_ai_webhook::json::parse_json_text;
use notion_ai_webhook::json::to_json_text;
use notion_ai_webhook::notion::ExtractText;
use notion_ai_webhook::notion::NotionBlock;
use notion_ai_webhook::pipeline::build_request;
use notion_ai_webhook::pipeline::gen_diary_prompt;
use notion_ai_webhook::pipeline::gen_review_prompt;
use notion_ai_webhook::pipeline::NotionBlockResponse;
use notion_ai_webhook::pipeline::NotionPageDetail;

#[test]
fn test_gen_diary_prompt() {
    let page_detail = NotionPageDetail {
        body: NotionBlockResponse {
            results: vec![
                NotionBlock::paragraph("Today was a good day."),
                NotionBlock::heading_2("Goals"),
            ],
        },
    };

    let prompt = gen_diary_prompt(String::from("Review this diary."), page_detail);

    assert_eq!(prompt.contents.len(), 1);
    assert_eq!(prompt.contents[0].parts.len(), 2);
    assert_eq!(prompt.contents[0].parts[0].text, "Today was a good day.");
    assert_eq!(prompt.contents[0].parts[1].text, "Goals");
    assert!(prompt.system_instruction.is_some());
}

#[test]
fn test_gen_review_prompt() {
    let page_detail = NotionPageDetail {
        body: NotionBlockResponse {
            results: vec![
                NotionBlock::paragraph("I learned about Rust tests."),
                NotionBlock::code("fn test() {}", "rust".to_string()),
            ],
        },
    };

    let prompt = gen_review_prompt(String::from("Review this study log."), page_detail);

    assert_eq!(prompt.contents.len(), 1);
    assert_eq!(prompt.contents[0].parts.len(), 2);
    assert_eq!(prompt.contents[0].parts[0].text, "I learned about Rust tests.");
    assert_eq!(prompt.contents[0].parts[1].text, "fn test() {}");
    assert!(prompt.system_instruction.is_some());
}

#[test]
fn build_request_shapes_turns_exactly() {
    let prompt = build_request(
        String::from("instruction text"),
        vec![String::from("t1"), String::from("t2")],
    );
    assert_eq!(prompt.contents.len(), 1);
    assert!(matches!(prompt.contents[0].role, Some(Role::User)));
    assert_eq!(prompt.contents[0].parts.len(), 2);
    assert_eq!(prompt.contents[0].parts[0].text, "t1");
    assert_eq!(prompt.contents[0].parts[1].text, "t2");
    let system = prompt.system_instruction.as_ref().expect("one instruction turn");
    assert_eq!(system.parts.len(), 1);
    assert_eq!(system.parts[0].text, "instruction text");
    let config = prompt.generation_config.as_ref().expect("fixed configuration");
    assert_eq!(config.temperature_tenths, 8);
    assert!(matches!(config.response_mime_type, ResponseMimeType::Json));
}

#[test]
fn generate_body_carries_temperature_and_mime() {
    let prompt = build_request(String::from("i"), vec![String::from("t")]);
    let body = build_generate_body(&prompt);
    let expected = r#"{"contents":[{"role":"user","parts":[{"text":"t"}]}],"systemInstruction":{"role":"user","parts":[{"text":"i"}]},"generationConfig":{"temperature":0.8,"responseMimeType":"application/json"}}"#;
    assert_eq!(body, expected);
}

#[test]
fn model_names_are_fixed() {
    assert_eq!(GeminiAPIModel::Gemini3Flash.model_name(), "gemini-3-flash-preview");
    assert_eq!(GeminiAPIModel::Gemini3Pro.model_name(), "gemini-3-pro-preview");
}

#[test]
fn valid_generated_json_matches_direct_decode() {
    let text = r#"[{"type":"heading_2","heading_2":{"rich_text":[{"type":"text","text":{"content":"Hi"}}]}}]"#;
    let via_fallback_path = blocks_from_generated_text(text);
    let parsed = parse_json_text(text).expect("well-formed JSON");
    let direct = decode_block_array(&parsed).expect("valid block array");
    assert_eq!(
        to_json_text(&encode_blocks(&via_fallback_path)),
        to_json_text(&encode_blocks(&direct))
    );
    assert_eq!(via_fallback_path[0].extract_text(), Some(String::from("Hi")));
}

#[test]
fn invalid_generated_text_yields_single_fallback_heading() {
    let blocks = blocks_from_generated_text("not json");
    assert_eq!(blocks.len(), 1);
    assert!(matches!(blocks[0], NotionBlock::Heading3 { .. }));
    assert_eq!(
        blocks[0].extract_text(),
        Some(String::from("AI response generation failed"))
    );
}

#[test]
fn generated_json_of_wrong_shape_also_falls_back() {
    let blocks = blocks_from_generated_text(r#"{"not":"an array"}"#);
    assert_eq!(blocks.len(), 1);
    assert_eq!(
        blocks[0].extract_text(),
        Some(String::from("AI response generation failed"))
    );
}

#[test]
fn response_body_decodes_and_yields_blocks() {
    let body = r#"{"candidates":[{"content":{"role":"model","parts":[{"text":"[{\"type\":\"paragraph\",\"paragraph\":{\"rich_text\":[{\"type\":\"text\",\"text\":{\"content\":\"ok\"}}]}}]"}]}}]}"#;
    let resp = decode_generation_response(body).expect("response shape");
    assert_eq!(resp.candidates.len(), 1);
    let blocks = generated_blocks_from_response(&resp).expect("has a text part");
    assert_eq!(blocks.len(), 1);
    assert_eq!(blocks[0].extract_text(), Some(String::from("ok")));
}

#[test]
fn empty_candidates_is_an_error_not_a_fallback() {
    let resp = decode_generation_response(r#"{"candidates":[]}"#).expect("response shape");
    assert!(matches!(
        generated_blocks_from_response(&resp),
        Err(GenDecodeError::NoCandidates)
    ));
}

#[test]
fn empty_parts_is_an_error_not_a_fallback() {
    let body = r#"{"candidates":[{"content":{"role":"model","parts":[]}}]}"#;
    let resp = decode_generation_response(body).expect("response shape");
    assert!(matches!(
        generated_blocks_from_response(&resp),
        Err(GenDecodeError::NoParts)
    ));
}

#[test]
fn malformed_response_body_is_an_error() {
    match decode_generation_response("nope") {
        Err(GenDecodeError::MalformedResponse) => {}
        _ => panic!("malformed body must be reported"),
    }
    match decode_generation_response(r#"{"other":1}"#) {
        Err(GenDecodeError::MalformedResponse) => {}
        _ => panic!("wrong shape must be reported"),
    }
}

#[test]
fn unknown_role_name_is_a_malformed_response() {
    let body = r#"{"candidates":[{"content":{"role":"assistant","parts":[{"text":"x"}]}}]}"#;
    assert!(matches!(
        decode_generation_response(body),
        Err(GenDecodeError::MalformedResponse)
    ));
}
