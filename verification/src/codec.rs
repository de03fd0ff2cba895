//! The wire shape of blocks: how a block is laid out as a JSON tree
//! for the page store, and how a fetched or generated JSON tree is
//! read back into blocks.
//!
//! Decoding mirrors the store's conventions: an object carries its
//! kind under `"type"`, the payload sits under a key equal to the tag,
//! unknown keys are ignored, and an unknown block tag degrades to
//! `Unsupported` instead of failing the parse. Unknown rich-text tags,
//! missing required fields and ill-typed fields fail the parse.

use vstd::prelude::*;

verus! {

use vstd::string::StringExecFns;

broadcast use {vstd::std_specs::vec::group_vec_axioms, vstd::string::group_string_axioms};

use crate::json::JsonModel;
use crate::json::JsonValue;
use crate::json::jv_member_models;
use crate::json::jv_model;
use crate::json::jv_models;
use crate::json::lemma_jv_models_index;
use crate::json::spec_lookup;
use crate::json::lookup;
use crate::json::clone_json;
use crate::notion::BlockContent;
use crate::notion::BlockModel;
use crate::notion::CodeBlockContent;
use crate::notion::CodeModel;
use crate::notion::ContentModel;
use crate::notion::EmptyStruct;
use crate::notion::NotionBlock;
use crate::notion::NotionLinkText;
use crate::notion::NotionRichText;
use crate::notion::NotionTextContent;
use crate::notion::RichTextAnnotations;
use crate::notion::RichTextColor;
use crate::notion::RichTextModel;
use crate::notion::TextContentModel;
use crate::notion::ToDoBlockContent;
use crate::notion::ToDoModel;
use crate::notion::ToggleBlockContent;
use crate::notion::ToggleModel;
use crate::notion::block_model;
use crate::notion::block_models;
use crate::notion::lemma_block_models_index;
use crate::notion::opt_str_view;
use crate::notion::rt_models;
use crate::notion::spec_default_annotations;
use crate::text::str_eq;

pub open spec fn color_name(c: RichTextColor) -> Seq<char> {
    match c {
        RichTextColor::Default => "default"@,
        RichTextColor::Red => "red"@,
        RichTextColor::Blue => "blue"@,
        RichTextColor::Pink => "pink"@,
        RichTextColor::Green => "green"@,
        RichTextColor::Yellow => "yellow"@,
        RichTextColor::Purple => "purple"@,
        RichTextColor::Glay => "glay"@,
        RichTextColor::Blown => "blown"@,
        RichTextColor::Orange => "orange"@,
    }
}

fn color_name_exec(c: RichTextColor) -> (r: String)
    ensures
        r@ == color_name(c),
{
    match c {
        RichTextColor::Default => String::from_str("default"),
        RichTextColor::Red => String::from_str("red"),
        RichTextColor::Blue => String::from_str("blue"),
        RichTextColor::Pink => String::from_str("pink"),
        RichTextColor::Green => String::from_str("green"),
        RichTextColor::Yellow => String::from_str("yellow"),
        RichTextColor::Purple => String::from_str("purple"),
        RichTextColor::Glay => String::from_str("glay"),
        RichTextColor::Blown => String::from_str("blown"),
        RichTextColor::Orange => String::from_str("orange"),
    }
}

/// The annotations object: the five flags always, the colour only
/// when set.
pub open spec fn ann_to_json(a: RichTextAnnotations) -> JsonModel {
    JsonModel::Obj(
        match a.color {
            Some(c) => seq![
                ("bold"@, JsonModel::Bool(a.bold)),
                ("italic"@, JsonModel::Bool(a.italic)),
                ("strikethrough"@, JsonModel::Bool(a.strikethrough)),
                ("underline"@, JsonModel::Bool(a.underline)),
                ("code"@, JsonModel::Bool(a.code)),
                ("color"@, JsonModel::Str(color_name(c))),
            ],
            None => seq![
                ("bold"@, JsonModel::Bool(a.bold)),
                ("italic"@, JsonModel::Bool(a.italic)),
                ("strikethrough"@, JsonModel::Bool(a.strikethrough)),
                ("underline"@, JsonModel::Bool(a.underline)),
                ("code"@, JsonModel::Bool(a.code)),
            ],
        },
    )
}

fn encode_annotations(a: &RichTextAnnotations) -> (r: JsonValue)
    ensures
        r@ == ann_to_json(*a),
{
    let mut ms: Vec<(String, JsonValue)> = Vec::new();
    ms.push((String::from_str("bold"), JsonValue::Bool(a.bold)));
    ms.push((String::from_str("italic"), JsonValue::Bool(a.italic)));
    ms.push((String::from_str("strikethrough"), JsonValue::Bool(a.strikethrough)));
    ms.push((String::from_str("underline"), JsonValue::Bool(a.underline)));
    ms.push((String::from_str("code"), JsonValue::Bool(a.code)));
    match a.color {
        Some(c) => {
            ms.push((String::from_str("color"), JsonValue::Str(color_name_exec(c))));
        },
        None => {},
    }
    proof {
        crate::json::lemma_member_models_are(ms@, ann_to_json(*a)->Obj_0);
    }
    JsonValue::Obj(ms)
}

/// The text payload: its content always, its link only when set. The
/// derived `plain_text` is never written to the wire.
pub open spec fn text_content_to_json(t: TextContentModel) -> JsonModel {
    JsonModel::Obj(
        match t.link {
            Some(u) => seq![
                ("content"@, JsonModel::Str(t.content)),
                ("link"@, JsonModel::Obj(seq![("url"@, JsonModel::Str(u))])),
            ],
            None => seq![("content"@, JsonModel::Str(t.content))],
        },
    )
}

fn encode_text_content(t: &NotionTextContent) -> (r: JsonValue)
    ensures
        r@ == text_content_to_json(t@),
{
    let mut ms: Vec<(String, JsonValue)> = Vec::new();
    ms.push((String::from_str("content"), JsonValue::Str(t.content.clone())));
    match &t.link {
        Some(l) => {
            let mut lms: Vec<(String, JsonValue)> = Vec::new();
            lms.push((String::from_str("url"), JsonValue::Str(l.url.clone())));
            proof {
                crate::json::lemma_member_models_are(
                    lms@,
                    seq![("url"@, JsonModel::Str(l.url@))],
                );
            }
            ms.push((String::from_str("link"), JsonValue::Obj(lms)));
        },
        None => {},
    }
    proof {
        crate::json::lemma_member_models_are(ms@, text_content_to_json(t@)->Obj_0);
    }
    JsonValue::Obj(ms)
}

/// One span on the wire: its tag, its payload under the tag's name,
/// and its annotations.
pub open spec fn rich_text_to_json(t: RichTextModel) -> JsonModel {
    match t {
        RichTextModel::Text { text, annotations, .. } => JsonModel::Obj(
            seq![
                ("type"@, JsonModel::Str("text"@)),
                ("text"@, text_content_to_json(text)),
                ("annotations"@, ann_to_json(annotations)),
            ],
        ),
        RichTextModel::Mention { mention, annotations, .. } => JsonModel::Obj(
            seq![
                ("type"@, JsonModel::Str("mention"@)),
                ("mention"@, mention),
                ("annotations"@, ann_to_json(annotations)),
            ],
        ),
        RichTextModel::Equation { equation, annotations, .. } => JsonModel::Obj(
            seq![
                ("type"@, JsonModel::Str("equation"@)),
                ("equation"@, equation),
                ("annotations"@, ann_to_json(annotations)),
            ],
        ),
    }
}

fn encode_rich_text(t: &NotionRichText) -> (r: JsonValue)
    ensures
        r@ == rich_text_to_json(t@),
{
    let mut ms: Vec<(String, JsonValue)> = Vec::new();
    match t {
        NotionRichText::Text { text, annotations, .. } => {
            ms.push((String::from_str("type"), JsonValue::Str(String::from_str("text"))));
            ms.push((String::from_str("text"), encode_text_content(text)));
            ms.push((String::from_str("annotations"), encode_annotations(annotations)));
        },
        NotionRichText::Mention { mention, annotations, .. } => {
            ms.push((String::from_str("type"), JsonValue::Str(String::from_str("mention"))));
            ms.push((String::from_str("mention"), clone_json(mention)));
            ms.push((String::from_str("annotations"), encode_annotations(annotations)));
        },
        NotionRichText::Equation { equation, annotations, .. } => {
            ms.push((String::from_str("type"), JsonValue::Str(String::from_str("equation"))));
            ms.push((String::from_str("equation"), clone_json(equation)));
            ms.push((String::from_str("annotations"), encode_annotations(annotations)));
        },
    }
    proof {
        crate::json::lemma_member_models_are(ms@, rich_text_to_json(t@)->Obj_0);
    }
    JsonValue::Obj(ms)
}

/// The span array of a textual payload.
pub open spec fn rich_texts_to_json(spans: Seq<RichTextModel>) -> JsonModel {
    JsonModel::Arr(Seq::new(spans.len(), |i: int| rich_text_to_json(spans[i])))
}

fn encode_rich_texts(spans: &Vec<NotionRichText>) -> (r: JsonValue)
    ensures
        r@ == rich_texts_to_json(rt_models(spans@)),
{
    let mut acc: Vec<JsonValue> = Vec::new();
    let mut i: usize = 0;
    while i < spans.len()
        invariant
            i <= spans.len(),
            acc@.len() == i,
            forall|k: int|
                0 <= k < i ==> jv_model(#[trigger] acc@[k]) == rich_text_to_json(spans@[k]@),
        decreases spans@.len() - i,
    {
        let e = encode_rich_text(&spans[i]);
        acc.push(e);
        i += 1;
    }
    proof {
        crate::json::lemma_models_are(acc@, rich_texts_to_json(rt_models(spans@))->Arr_0);
    }
    JsonValue::Arr(acc)
}

/// A plain textual payload: just its span array.
pub open spec fn content_to_json(c: ContentModel) -> JsonModel {
    JsonModel::Obj(seq![("rich_text"@, rich_texts_to_json(c.rich_text))])
}

fn encode_content(c: &BlockContent) -> (r: JsonValue)
    ensures
        r@ == content_to_json(c@),
{
    let mut ms: Vec<(String, JsonValue)> = Vec::new();
    ms.push((String::from_str("rich_text"), encode_rich_texts(&c.rich_text)));
    proof {
        crate::json::lemma_member_models_are(ms@, content_to_json(c@)->Obj_0);
    }
    JsonValue::Obj(ms)
}

/// The to-do payload: spans and the checked flag.
pub open spec fn todo_to_json(c: ToDoModel) -> JsonModel {
    JsonModel::Obj(
        seq![
            ("rich_text"@, rich_texts_to_json(c.rich_text)),
            ("checked"@, JsonModel::Bool(c.checked)),
        ],
    )
}

/// The code payload: spans and the language tag.
pub open spec fn code_to_json(c: CodeModel) -> JsonModel {
    JsonModel::Obj(
        seq![
            ("rich_text"@, rich_texts_to_json(c.rich_text)),
            ("language"@, JsonModel::Str(c.language)),
        ],
    )
}

/// The toggle payload: spans, and its children only when there are
/// some to write.
pub open spec fn toggle_to_json(c: ToggleModel) -> JsonModel
    decreases c via toggle_to_json_dec
{
    JsonModel::Obj(
        match c.children {
            Some(cs) => if cs.len() > 0 {
                seq![
                    ("rich_text"@, rich_texts_to_json(c.rich_text)),
                    ("children"@, JsonModel::Arr(blocks_to_json(cs))),
                ]
            } else {
                seq![("rich_text"@, rich_texts_to_json(c.rich_text))]
            },
            None => seq![("rich_text"@, rich_texts_to_json(c.rich_text))],
        },
    )
}

#[via_fn]
proof fn toggle_to_json_dec(c: ToggleModel) {
    match c.children {
        Some(cs) => {
            assert(decreases_to!(c => c.children));
            assert(decreases_to!(c.children => c.children->0));
        },
        None => {},
    }
}

/// One block on the wire: its tag under `"type"`, its payload under a
/// key spelled like the tag. `Unsupported` carries no payload.
pub open spec fn block_to_json(b: BlockModel) -> JsonModel
    decreases b,
{
    match b {
        BlockModel::Heading1 { heading_1 } => tagged_obj("heading_1"@, content_to_json(heading_1)),
        BlockModel::Heading2 { heading_2 } => tagged_obj("heading_2"@, content_to_json(heading_2)),
        BlockModel::Heading3 { heading_3 } => tagged_obj("heading_3"@, content_to_json(heading_3)),
        BlockModel::Paragraph { paragraph } => tagged_obj("paragraph"@, content_to_json(paragraph)),
        BlockModel::BulletedListItem { bulleted_list_item } => tagged_obj(
            "bulleted_list_item"@,
            content_to_json(bulleted_list_item),
        ),
        BlockModel::NumberedListItem { numbered_list_item } => tagged_obj(
            "numbered_list_item"@,
            content_to_json(numbered_list_item),
        ),
        BlockModel::ToDo { to_do } => tagged_obj("to_do"@, todo_to_json(to_do)),
        BlockModel::Toggle { toggle } => tagged_obj("toggle"@, toggle_to_json(toggle)),
        BlockModel::Quote { quote } => tagged_obj("quote"@, content_to_json(quote)),
        BlockModel::Callout { callout } => tagged_obj("callout"@, content_to_json(callout)),
        BlockModel::Divider => tagged_obj("divider"@, JsonModel::Obj(Seq::empty())),
        BlockModel::Code { code } => tagged_obj("code"@, code_to_json(code)),
        BlockModel::Unsupported => JsonModel::Obj(
            seq![("type"@, JsonModel::Str("unsupported"@))],
        ),
    }
}

/// An object carrying its tag and, under the tag's own spelling, its
/// payload.
pub open spec fn tagged_obj(tag: Seq<char>, payload: JsonModel) -> JsonModel {
    JsonModel::Obj(seq![("type"@, JsonModel::Str(tag)), (tag, payload)])
}

pub open spec fn blocks_to_json(bs: Seq<BlockModel>) -> Seq<JsonModel>
    decreases bs,
{
    if bs.len() == 0 {
        Seq::empty()
    } else {
        seq![block_to_json(bs[0])] + blocks_to_json(bs.drop_first())
    }
}

pub proof fn lemma_blocks_to_json_index(bs: Seq<BlockModel>)
    ensures
        blocks_to_json(bs).len() == bs.len(),
        forall|i: int|
            0 <= i < bs.len() ==> blocks_to_json(bs)[i] == block_to_json(#[trigger] bs[i]),
    decreases bs.len(),
{
    if bs.len() > 0 {
        lemma_blocks_to_json_index(bs.drop_first());
        assert forall|i: int| 0 <= i < bs.len() implies blocks_to_json(bs)[i] == block_to_json(
            #[trigger] bs[i],
        ) by {
            if i > 0 {
                assert(bs.drop_first()[i - 1] == bs[i]);
                assert(blocks_to_json(bs)[i] == blocks_to_json(bs.drop_first())[i - 1]);
            }
        }
    }
}

/// A two-member tagged object.
fn make_tagged(tag: &str, payload: JsonValue) -> (r: JsonValue)
    ensures
        r@ == tagged_obj(tag@, payload@),
{
    let mut ms: Vec<(String, JsonValue)> = Vec::new();
    ms.push((String::from_str("type"), JsonValue::Str(tag.to_owned())));
    ms.push((tag.to_owned(), payload));
    proof {
        crate::json::lemma_member_models_are(ms@, tagged_obj(tag@, ms@[1].1@)->Obj_0);
    }
    JsonValue::Obj(ms)
}

/// Lays one block out as the JSON tree the page store expects.
#[verifier::loop_isolation(false)]
pub fn encode_block(b: &NotionBlock) -> (r: JsonValue)
    ensures
        r@ == block_to_json(b@),
    decreases *b,
{
    match b {
        NotionBlock::Heading1 { heading_1 } => make_tagged("heading_1", encode_content(heading_1)),
        NotionBlock::Heading2 { heading_2 } => make_tagged("heading_2", encode_content(heading_2)),
        NotionBlock::Heading3 { heading_3 } => make_tagged("heading_3", encode_content(heading_3)),
        NotionBlock::Paragraph { paragraph } => make_tagged("paragraph", encode_content(paragraph)),
        NotionBlock::BulletedListItem { bulleted_list_item } => make_tagged(
            "bulleted_list_item",
            encode_content(bulleted_list_item),
        ),
        NotionBlock::NumberedListItem { numbered_list_item } => make_tagged(
            "numbered_list_item",
            encode_content(numbered_list_item),
        ),
        NotionBlock::ToDo { to_do } => {
            let mut pms: Vec<(String, JsonValue)> = Vec::new();
            pms.push((String::from_str("rich_text"), encode_rich_texts(&to_do.rich_text)));
            pms.push((String::from_str("checked"), JsonValue::Bool(to_do.checked)));
            proof {
                crate::json::lemma_member_models_are(pms@, todo_to_json(to_do@)->Obj_0);
            }
            make_tagged("to_do", JsonValue::Obj(pms))
        },
        NotionBlock::Toggle { toggle } => {
            let mut pms: Vec<(String, JsonValue)> = Vec::new();
            pms.push((String::from_str("rich_text"), encode_rich_texts(&toggle.rich_text)));
            match &toggle.children {
                Some(cs) => {
                    if cs.len() > 0 {
                        let mut acc: Vec<JsonValue> = Vec::new();
                        let mut i: usize = 0;
                        while i < cs.len()
                            invariant
                                i <= cs.len(),
                                acc@.len() == i,
                                forall|k: int|
                                    0 <= k < i ==> jv_model(#[trigger] acc@[k]) == block_to_json(
                                        block_model(cs@[k]),
                                    ),
                            decreases cs@.len() - i,
                        {
                            proof {
                                assert(decreases_to!(*b => *toggle));
                                assert(decreases_to!(*toggle => toggle.children));
                                assert(decreases_to!(toggle.children => *cs));
                                assert(decreases_to!(*cs => cs[i as int]));
                            }
                            let e = encode_block(&cs[i]);
                            acc.push(e);
                            i += 1;
                        }
                        proof {
                            lemma_block_models_index(cs@);
                            lemma_blocks_to_json_index(block_models(cs@));
                            crate::json::lemma_models_are(
                                acc@,
                                blocks_to_json(block_models(cs@)),
                            );
                        }
                        pms.push((String::from_str("children"), JsonValue::Arr(acc)));
                    }
                },
                None => {},
            }
            proof {
                crate::json::lemma_member_models_are(pms@, toggle_to_json(toggle@)->Obj_0);
            }
            make_tagged("toggle", JsonValue::Obj(pms))
        },
        NotionBlock::Quote { quote } => make_tagged("quote", encode_content(quote)),
        NotionBlock::Callout { callout } => make_tagged("callout", encode_content(callout)),
        NotionBlock::Divider { .. } => {
            let pms: Vec<(String, JsonValue)> = Vec::new();
            proof {
                crate::json::lemma_member_models_are(pms@, Seq::empty());
            }
            make_tagged("divider", JsonValue::Obj(pms))
        },
        NotionBlock::Code { code } => {
            let mut pms: Vec<(String, JsonValue)> = Vec::new();
            pms.push((String::from_str("rich_text"), encode_rich_texts(&code.rich_text)));
            pms.push((String::from_str("language"), JsonValue::Str(code.language.clone())));
            proof {
                crate::json::lemma_member_models_are(pms@, code_to_json(code@)->Obj_0);
            }
            make_tagged("code", JsonValue::Obj(pms))
        },
        NotionBlock::Unsupported => {
            let mut ms: Vec<(String, JsonValue)> = Vec::new();
            ms.push((String::from_str("type"), JsonValue::Str(String::from_str("unsupported"))));
            proof {
                crate::json::lemma_member_models_are(
                    ms@,
                    seq![("type"@, JsonModel::Str("unsupported"@))],
                );
            }
            JsonValue::Obj(ms)
        },
    }
}

/// Lays a block sequence out as the JSON array the store and the
/// generator exchange.
#[verifier::loop_isolation(false)]
pub fn encode_blocks(blocks: &Vec<NotionBlock>) -> (r: JsonValue)
    ensures
        r@ == JsonModel::Arr(blocks_to_json(block_models(blocks@))),
{
    let mut acc: Vec<JsonValue> = Vec::new();
    let mut i: usize = 0;
    while i < blocks.len()
        invariant
            i <= blocks.len(),
            acc@.len() == i,
            forall|k: int|
                0 <= k < i ==> jv_model(#[trigger] acc@[k]) == block_to_json(
                    block_model(blocks@[k]),
                ),
        decreases blocks@.len() - i,
    {
        let e = encode_block(&blocks[i]);
        acc.push(e);
        i += 1;
    }
    proof {
        lemma_block_models_index(blocks@);
        lemma_blocks_to_json_index(block_models(blocks@));
        crate::json::lemma_models_are(acc@, blocks_to_json(block_models(blocks@)));
    }
    JsonValue::Arr(acc)
}

/// The colour a wire name denotes, if the name is known.
pub open spec fn color_of_name(s: Seq<char>) -> Option<RichTextColor> {
    if s == "default"@ {
        Some(RichTextColor::Default)
    } else if s == "red"@ {
        Some(RichTextColor::Red)
    } else if s == "blue"@ {
        Some(RichTextColor::Blue)
    } else if s == "pink"@ {
        Some(RichTextColor::Pink)
    } else if s == "green"@ {
        Some(RichTextColor::Green)
    } else if s == "yellow"@ {
        Some(RichTextColor::Yellow)
    } else if s == "purple"@ {
        Some(RichTextColor::Purple)
    } else if s == "glay"@ {
        Some(RichTextColor::Glay)
    } else if s == "blown"@ {
        Some(RichTextColor::Blown)
    } else if s == "orange"@ {
        Some(RichTextColor::Orange)
    } else {
        None
    }
}

/// A boolean flag field: absent means false, anything but a boolean
/// fails.
pub open spec fn json_to_bool_field(v: Option<JsonModel>) -> Option<bool> {
    match v {
        None => Some(false),
        Some(JsonModel::Bool(b)) => Some(b),
        Some(_) => None,
    }
}

/// The colour field: absent or null means no colour, an unknown name
/// or another shape fails.
pub open spec fn json_to_color_field(v: Option<JsonModel>) -> Option<Option<RichTextColor>> {
    match v {
        None => Some(None),
        Some(JsonModel::Null) => Some(None),
        Some(JsonModel::Str(s)) => match color_of_name(s) {
            Some(c) => Some(Some(c)),
            None => None,
        },
        Some(_) => None,
    }
}

/// The annotations field: absent means all defaults; present, it must
/// be an object whose known fields are well-typed.
pub open spec fn json_to_annotations(v: Option<JsonModel>) -> Option<RichTextAnnotations> {
    match v {
        None => Some(spec_default_annotations()),
        Some(JsonModel::Obj(ams)) => match (
            json_to_bool_field(spec_lookup(ams, "bold"@)),
            json_to_bool_field(spec_lookup(ams, "italic"@)),
            json_to_bool_field(spec_lookup(ams, "strikethrough"@)),
            json_to_bool_field(spec_lookup(ams, "underline"@)),
            json_to_bool_field(spec_lookup(ams, "code"@)),
            json_to_color_field(spec_lookup(ams, "color"@)),
        ) {
            (Some(bold), Some(italic), Some(strikethrough), Some(underline), Some(code), Some(
                color,
            )) => Some(
                RichTextAnnotations { bold, italic, strikethrough, underline, code, color },
            ),
            _ => None,
        },
        Some(_) => None,
    }
}

/// An optional string field: absent or null means none.
pub open spec fn json_to_opt_text(v: Option<JsonModel>) -> Option<Option<Seq<char>>> {
    match v {
        None => Some(None),
        Some(JsonModel::Null) => Some(None),
        Some(JsonModel::Str(s)) => Some(Some(s)),
        Some(_) => None,
    }
}

/// The link field: absent or null means no link; present, it must be
/// an object carrying a string `url`.
pub open spec fn json_to_link(v: Option<JsonModel>) -> Option<Option<Seq<char>>> {
    match v {
        None => Some(None),
        Some(JsonModel::Null) => Some(None),
        Some(JsonModel::Obj(lms)) => match spec_lookup(lms, "url"@) {
            Some(JsonModel::Str(u)) => Some(Some(u)),
            _ => None,
        },
        Some(_) => None,
    }
}

/// The text payload: a required string `content` and an optional link.
pub open spec fn json_to_text_content(j: JsonModel) -> Option<TextContentModel> {
    match j {
        JsonModel::Obj(ms) => match spec_lookup(ms, "content"@) {
            Some(JsonModel::Str(c)) => match json_to_link(spec_lookup(ms, "link"@)) {
                Some(link) => Some(TextContentModel { content: c, link }),
                None => None,
            },
            _ => None,
        },
        _ => None,
    }
}

/// One span: dispatched on its tag; an unknown span tag fails.
pub open spec fn json_to_rich_text(j: JsonModel) -> Option<RichTextModel> {
    match j {
        JsonModel::Obj(ms) => match spec_lookup(ms, "type"@) {
            Some(JsonModel::Str(tag)) => {
                let pt = json_to_opt_text(spec_lookup(ms, "plain_text"@));
                let ann = json_to_annotations(spec_lookup(ms, "annotations"@));
                if tag == "text"@ {
                    match (spec_lookup(ms, "text"@), pt, ann) {
                        (Some(tj), Some(plain_text), Some(annotations)) => match json_to_text_content(
                            tj,
                        ) {
                            Some(text) => Some(
                                RichTextModel::Text { text, plain_text, annotations },
                            ),
                            None => None,
                        },
                        _ => None,
                    }
                } else if tag == "mention"@ {
                    match (spec_lookup(ms, "mention"@), pt, ann) {
                        (Some(mention), Some(plain_text), Some(annotations)) => Some(
                            RichTextModel::Mention { mention, annotations, plain_text },
                        ),
                        _ => None,
                    }
                } else if tag == "equation"@ {
                    match (spec_lookup(ms, "equation"@), pt, ann) {
                        (Some(equation), Some(plain_text), Some(annotations)) => Some(
                            RichTextModel::Equation { equation, annotations, plain_text },
                        ),
                        _ => None,
                    }
                } else {
                    None
                }
            },
            _ => None,
        },
        _ => None,
    }
}

pub open spec fn json_to_spans(elts: Seq<JsonModel>) -> Option<Seq<RichTextModel>>
    decreases elts.len(),
{
    if elts.len() == 0 {
        Some(Seq::empty())
    } else {
        match json_to_rich_text(elts[0]) {
            Some(t) => match json_to_spans(elts.drop_first()) {
                Some(rest) => Some(seq![t] + rest),
                None => None,
            },
            None => None,
        }
    }
}

/// A span array; anything but an array fails.
pub open spec fn json_to_rich_texts(j: JsonModel) -> Option<Seq<RichTextModel>> {
    match j {
        JsonModel::Arr(elts) => json_to_spans(elts),
        _ => None,
    }
}

/// A plain textual payload: its required span array.
pub open spec fn json_to_content(j: JsonModel) -> Option<ContentModel> {
    match j {
        JsonModel::Obj(ms) => match spec_lookup(ms, "rich_text"@) {
            Some(rj) => match json_to_rich_texts(rj) {
                Some(rich_text) => Some(ContentModel { rich_text }),
                None => None,
            },
            None => None,
        },
        _ => None,
    }
}

/// The to-do payload: spans and a required boolean `checked`.
pub open spec fn json_to_todo(j: JsonModel) -> Option<ToDoModel> {
    match j {
        JsonModel::Obj(ms) => match (spec_lookup(ms, "rich_text"@), spec_lookup(ms, "checked"@)) {
            (Some(rj), Some(JsonModel::Bool(checked))) => match json_to_rich_texts(rj) {
                Some(rich_text) => Some(ToDoModel { rich_text, checked }),
                None => None,
            },
            _ => None,
        },
        _ => None,
    }
}

/// The code payload: spans and a required string `language`.
pub open spec fn json_to_code(j: JsonModel) -> Option<CodeModel> {
    match j {
        JsonModel::Obj(ms) => match (spec_lookup(ms, "rich_text"@), spec_lookup(ms, "language"@)) {
            (Some(rj), Some(JsonModel::Str(language))) => match json_to_rich_texts(rj) {
                Some(rich_text) => Some(CodeModel { rich_text, language }),
                None => None,
            },
            _ => None,
        },
        _ => None,
    }
}

/// The toggle payload: spans, and children that may be absent or
/// null; present children must form an array of valid blocks.
pub open spec fn json_to_toggle(j: JsonModel) -> Option<ToggleModel>
    decreases j,
    via json_to_toggle_dec
{
    match j {
        JsonModel::Obj(ms) => match spec_lookup(ms, "rich_text"@) {
            Some(rj) => match json_to_rich_texts(rj) {
                Some(rich_text) => match spec_lookup(ms, "children"@) {
                    None => Some(ToggleModel { rich_text, children: None }),
                    Some(JsonModel::Null) => Some(ToggleModel { rich_text, children: None }),
                    Some(JsonModel::Arr(elts)) => match json_to_block_seq(elts) {
                        Some(cs) => Some(ToggleModel { rich_text, children: Some(cs) }),
                        None => None,
                    },
                    Some(_) => None,
                },
                None => None,
            },
            None => None,
        },
        _ => None,
    }
}

#[via_fn]
proof fn json_to_toggle_dec(j: JsonModel) {
    match j {
        JsonModel::Obj(ms) => {
            if spec_lookup(ms, "children"@) is Some {
                crate::json::lemma_lookup_height(ms, "children"@);
                let cj = spec_lookup(ms, "children"@)->0;
                assert(decreases_to!(j => j->Obj_0));
                match cj {
                    JsonModel::Arr(elts) => {
                        assert(decreases_to!(cj => cj->Arr_0));
                    },
                    _ => {},
                }
            }
        },
        _ => {},
    }
}

/// One block: dispatched on its tag; an unknown tag yields
/// `Unsupported` rather than failing.
pub open spec fn json_to_block(j: JsonModel) -> Option<BlockModel>
    decreases j,
    via json_to_block_dec
{
    match j {
        JsonModel::Obj(ms) => match spec_lookup(ms, "type"@) {
            Some(JsonModel::Str(tag)) => {
                if tag == "heading_1"@ {
                    match payload_content(ms, "heading_1"@) {
                        Some(c) => Some(BlockModel::Heading1 { heading_1: c }),
                        None => None,
                    }
                } else if tag == "heading_2"@ {
                    match payload_content(ms, "heading_2"@) {
                        Some(c) => Some(BlockModel::Heading2 { heading_2: c }),
                        None => None,
                    }
                } else if tag == "heading_3"@ {
                    match payload_content(ms, "heading_3"@) {
                        Some(c) => Some(BlockModel::Heading3 { heading_3: c }),
                        None => None,
                    }
                } else if tag == "paragraph"@ {
                    match payload_content(ms, "paragraph"@) {
                        Some(c) => Some(BlockModel::Paragraph { paragraph: c }),
                        None => None,
                    }
                } else if tag == "bulleted_list_item"@ {
                    match payload_content(ms, "bulleted_list_item"@) {
                        Some(c) => Some(BlockModel::BulletedListItem { bulleted_list_item: c }),
                        None => None,
                    }
                } else if tag == "numbered_list_item"@ {
                    match payload_content(ms, "numbered_list_item"@) {
                        Some(c) => Some(BlockModel::NumberedListItem { numbered_list_item: c }),
                        None => None,
                    }
                } else if tag == "to_do"@ {
                    match spec_lookup(ms, "to_do"@) {
                        Some(pj) => match json_to_todo(pj) {
                            Some(c) => Some(BlockModel::ToDo { to_do: c }),
                            None => None,
                        },
                        None => None,
                    }
                } else if tag == "toggle"@ {
                    match spec_lookup(ms, "toggle"@) {
                        Some(pj) => match json_to_toggle(pj) {
                            Some(c) => Some(BlockModel::Toggle { toggle: c }),
                            None => None,
                        },
                        None => None,
                    }
                } else if tag == "quote"@ {
                    match payload_content(ms, "quote"@) {
                        Some(c) => Some(BlockModel::Quote { quote: c }),
                        None => None,
                    }
                } else if tag == "callout"@ {
                    match payload_content(ms, "callout"@) {
                        Some(c) => Some(BlockModel::Callout { callout: c }),
                        None => None,
                    }
                } else if tag == "divider"@ {
                    match spec_lookup(ms, "divider"@) {
                        Some(JsonModel::Obj(_)) => Some(BlockModel::Divider),
                        _ => None,
                    }
                } else if tag == "code"@ {
                    match spec_lookup(ms, "code"@) {
                        Some(pj) => match json_to_code(pj) {
                            Some(c) => Some(BlockModel::Code { code: c }),
                            None => None,
                        },
                        None => None,
                    }
                } else {
                    Some(BlockModel::Unsupported)
                }
            },
            Some(_) => None,
            None => None,
        },
        _ => None,
    }
}

#[via_fn]
proof fn json_to_block_dec(j: JsonModel) {
    match j {
        JsonModel::Obj(ms) => {
            assert(decreases_to!(j => j->Obj_0));
            if spec_lookup(ms, "toggle"@) is Some {
                crate::json::lemma_lookup_height(ms, "toggle"@);
            }
        },
        _ => {},
    }
}

/// The payload under `key`, read as a plain textual payload.
pub open spec fn payload_content(ms: Seq<(Seq<char>, JsonModel)>, key: Seq<char>) -> Option<
    ContentModel,
> {
    match spec_lookup(ms, key) {
        Some(pj) => json_to_content(pj),
        None => None,
    }
}

pub open spec fn json_to_block_seq(elts: Seq<JsonModel>) -> Option<Seq<BlockModel>>
    decreases elts,
{
    if elts.len() == 0 {
        Some(Seq::empty())
    } else {
        match json_to_block(elts[0]) {
            Some(b) => match json_to_block_seq(elts.drop_first()) {
                Some(rest) => Some(seq![b] + rest),
                None => None,
            },
            None => None,
        }
    }
}

/// A block array; anything but an array fails.
pub open spec fn json_to_blocks(j: JsonModel) -> Option<Seq<BlockModel>> {
    match j {
        JsonModel::Arr(elts) => json_to_block_seq(elts),
        _ => None,
    }
}

pub open spec fn opt_ref_model(v: Option<&JsonValue>) -> Option<JsonModel> {
    match v {
        Some(x) => Some(x@),
        None => None,
    }
}

pub open spec fn opt_link_view(o: Option<NotionLinkText>) -> Option<Seq<char>> {
    match o {
        Some(l) => Some(l.url@),
        None => None,
    }
}

fn decode_color(s: &str) -> (r: Option<RichTextColor>)
    ensures
        r == color_of_name(s@),
{
    if str_eq(s, "default") {
        Some(RichTextColor::Default)
    } else if str_eq(s, "red") {
        Some(RichTextColor::Red)
    } else if str_eq(s, "blue") {
        Some(RichTextColor::Blue)
    } else if str_eq(s, "pink") {
        Some(RichTextColor::Pink)
    } else if str_eq(s, "green") {
        Some(RichTextColor::Green)
    } else if str_eq(s, "yellow") {
        Some(RichTextColor::Yellow)
    } else if str_eq(s, "purple") {
        Some(RichTextColor::Purple)
    } else if str_eq(s, "glay") {
        Some(RichTextColor::Glay)
    } else if str_eq(s, "blown") {
        Some(RichTextColor::Blown)
    } else if str_eq(s, "orange") {
        Some(RichTextColor::Orange)
    } else {
        None
    }
}

fn decode_bool_field(v: Option<&JsonValue>) -> (r: Option<bool>)
    ensures
        r == json_to_bool_field(opt_ref_model(v)),
{
    match v {
        None => Some(false),
        Some(JsonValue::Bool(b)) => Some(*b),
        Some(_) => None,
    }
}

fn decode_color_field(v: Option<&JsonValue>) -> (r: Option<Option<RichTextColor>>)
    ensures
        r == json_to_color_field(opt_ref_model(v)),
{
    match v {
        None => Some(None),
        Some(JsonValue::Null) => Some(None),
        Some(JsonValue::Str(s)) => match decode_color(s.as_str()) {
            Some(c) => Some(Some(c)),
            None => None,
        },
        Some(_) => None,
    }
}

fn decode_annotations(v: Option<&JsonValue>) -> (r: Option<RichTextAnnotations>)
    ensures
        r == json_to_annotations(opt_ref_model(v)),
{
    match v {
        None => Some(RichTextAnnotations::default()),
        Some(JsonValue::Obj(ams)) => {
            let bold = decode_bool_field(lookup(ams, "bold"));
            let italic = decode_bool_field(lookup(ams, "italic"));
            let strikethrough = decode_bool_field(lookup(ams, "strikethrough"));
            let underline = decode_bool_field(lookup(ams, "underline"));
            let code = decode_bool_field(lookup(ams, "code"));
            let color = decode_color_field(lookup(ams, "color"));
            match (bold, italic, strikethrough, underline, code, color) {
                (
                    Some(bold),
                    Some(italic),
                    Some(strikethrough),
                    Some(underline),
                    Some(code),
                    Some(color),
                ) => Some(
                    RichTextAnnotations { bold, italic, strikethrough, underline, code, color },
                ),
                _ => None,
            }
        },
        Some(_) => None,
    }
}

fn decode_opt_text(v: Option<&JsonValue>) -> (r: Option<Option<String>>)
    ensures
        r matches Some(o) ==> json_to_opt_text(opt_ref_model(v)) == Some(opt_str_view(o)),
        r is None ==> json_to_opt_text(opt_ref_model(v)) is None,
{
    match v {
        None => Some(None),
        Some(JsonValue::Null) => Some(None),
        Some(JsonValue::Str(s)) => Some(Some(s.clone())),
        Some(_) => None,
    }
}

fn decode_link(v: Option<&JsonValue>) -> (r: Option<Option<NotionLinkText>>)
    ensures
        r matches Some(o) ==> json_to_link(opt_ref_model(v)) == Some(opt_link_view(o)),
        r is None ==> json_to_link(opt_ref_model(v)) is None,
{
    match v {
        None => Some(None),
        Some(JsonValue::Null) => Some(None),
        Some(JsonValue::Obj(lms)) => match lookup(lms, "url") {
            Some(JsonValue::Str(u)) => Some(Some(NotionLinkText { url: u.clone() })),
            _ => None,
        },
        Some(_) => None,
    }
}

fn decode_text_content(j: &JsonValue) -> (r: Option<NotionTextContent>)
    ensures
        r matches Some(t) ==> json_to_text_content(j@) == Some(t@),
        r is None ==> json_to_text_content(j@) is None,
{
    match j {
        JsonValue::Obj(ms) => match lookup(ms, "content") {
            Some(JsonValue::Str(c)) => match decode_link(lookup(ms, "link")) {
                Some(link) => Some(NotionTextContent { content: c.clone(), link }),
                None => None,
            },
            _ => None,
        },
        _ => None,
    }
}

fn decode_rich_text(j: &JsonValue) -> (r: Option<NotionRichText>)
    ensures
        r matches Some(t) ==> json_to_rich_text(j@) == Some(t@),
        r is None ==> json_to_rich_text(j@) is None,
{
    match j {
        JsonValue::Obj(ms) => match lookup(ms, "type") {
            Some(JsonValue::Str(tag)) => {
                let pt = decode_opt_text(lookup(ms, "plain_text"));
                let ann = decode_annotations(lookup(ms, "annotations"));
                if str_eq(tag.as_str(), "text") {
                    match (lookup(ms, "text"), pt, ann) {
                        (Some(tj), Some(plain_text), Some(annotations)) => match decode_text_content(
                            tj,
                        ) {
                            Some(text) => Some(
                                NotionRichText::Text { text, plain_text, annotations },
                            ),
                            None => None,
                        },
                        _ => None,
                    }
                } else if str_eq(tag.as_str(), "mention") {
                    match (lookup(ms, "mention"), pt, ann) {
                        (Some(mj), Some(plain_text), Some(annotations)) => Some(
                            NotionRichText::Mention {
                                mention: clone_json(mj),
                                annotations,
                                plain_text,
                            },
                        ),
                        _ => None,
                    }
                } else if str_eq(tag.as_str(), "equation") {
                    match (lookup(ms, "equation"), pt, ann) {
                        (Some(ej), Some(plain_text), Some(annotations)) => Some(
                            NotionRichText::Equation {
                                equation: clone_json(ej),
                                annotations,
                                plain_text,
                            },
                        ),
                        _ => None,
                    }
                } else {
                    None
                }
            },
            _ => None,
        },
        _ => None,
    }
}

#[verifier::loop_isolation(false)]
fn decode_rich_texts(j: &JsonValue) -> (r: Option<Vec<NotionRichText>>)
    ensures
        r matches Some(v) ==> json_to_rich_texts(j@) == Some(rt_models(v@)),
        r is None ==> json_to_rich_texts(j@) is None,
{
    match j {
        JsonValue::Arr(elts) => {
            let ghost m = jv_models(elts@);
            proof {
                lemma_jv_models_index(elts@);
            }
            let mut acc: Vec<NotionRichText> = Vec::new();
            let mut i: usize = 0;
            proof {
                assert(m.skip(0) =~= m);
            }
            while i < elts.len()
                invariant
                    i <= elts.len(),
                    acc@.len() == i,
                    json_to_spans(m.skip(i as int)) matches Some(rest) ==> json_to_spans(m)
                        == Some(rt_models(acc@) + rest),
                    json_to_spans(m.skip(i as int)) is None ==> json_to_spans(m) is None,
                decreases elts@.len() - i,
            {
                let d = decode_rich_text(&elts[i]);
                match d {
                    Some(t) => {
                        proof {
                            assert(m.skip(i as int)[0] == m[i as int]);
                            assert(m.skip(i as int).drop_first() =~= m.skip(i as int + 1));
                            assert(rt_models(acc@.push(t)) =~= rt_models(acc@).push(t@));
                            match json_to_spans(m.skip(i as int + 1)) {
                                Some(rest2) => {
                                    assert(rt_models(acc@).push(t@) + rest2 =~= rt_models(acc@)
                                        + (seq![t@] + rest2));
                                },
                                None => {},
                            }
                        }
                        acc.push(t);
                        i += 1;
                    },
                    None => {
                        proof {
                            assert(m.skip(i as int)[0] == m[i as int]);
                        }
                        return None;
                    },
                }
            }
            proof {
                assert(m.skip(i as int) =~= Seq::<JsonModel>::empty());
                assert(rt_models(acc@) + Seq::<RichTextModel>::empty() =~= rt_models(acc@));
            }
            Some(acc)
        },
        _ => None,
    }
}

fn decode_content(j: &JsonValue) -> (r: Option<BlockContent>)
    ensures
        r matches Some(c) ==> json_to_content(j@) == Some(c@),
        r is None ==> json_to_content(j@) is None,
{
    match j {
        JsonValue::Obj(ms) => match lookup(ms, "rich_text") {
            Some(rj) => match decode_rich_texts(rj) {
                Some(rich_text) => Some(BlockContent { rich_text }),
                None => None,
            },
            None => None,
        },
        _ => None,
    }
}

fn decode_todo(j: &JsonValue) -> (r: Option<ToDoBlockContent>)
    ensures
        r matches Some(c) ==> json_to_todo(j@) == Some(c@),
        r is None ==> json_to_todo(j@) is None,
{
    match j {
        JsonValue::Obj(ms) => match (lookup(ms, "rich_text"), lookup(ms, "checked")) {
            (Some(rj), Some(JsonValue::Bool(checked))) => match decode_rich_texts(rj) {
                Some(rich_text) => Some(ToDoBlockContent { rich_text, checked: *checked }),
                None => None,
            },
            _ => None,
        },
        _ => None,
    }
}

fn decode_code(j: &JsonValue) -> (r: Option<CodeBlockContent>)
    ensures
        r matches Some(c) ==> json_to_code(j@) == Some(c@),
        r is None ==> json_to_code(j@) is None,
{
    match j {
        JsonValue::Obj(ms) => match (lookup(ms, "rich_text"), lookup(ms, "language")) {
            (Some(rj), Some(JsonValue::Str(language))) => match decode_rich_texts(rj) {
                Some(rich_text) => Some(
                    CodeBlockContent { rich_text, language: language.clone() },
                ),
                None => None,
            },
            _ => None,
        },
        _ => None,
    }
}

#[verifier::loop_isolation(false)]
fn decode_toggle(j: &JsonValue) -> (r: Option<ToggleBlockContent>)
    ensures
        r matches Some(c) ==> json_to_toggle(j@) == Some(c@),
        r is None ==> json_to_toggle(j@) is None,
    decreases j@,
{
    match j {
        JsonValue::Obj(ms) => match lookup(ms, "rich_text") {
            Some(rj) => match decode_rich_texts(rj) {
                Some(rich_text) => match lookup(ms, "children") {
                    None => Some(ToggleBlockContent { rich_text, children: None }),
                    Some(JsonValue::Null) => Some(ToggleBlockContent { rich_text, children: None }),
                    Some(cv) => match cv {
                        JsonValue::Arr(elts) => {
                            let ghost m = jv_models(elts@);
                            proof {
                                lemma_jv_models_index(elts@);
                                crate::json::lemma_lookup_height(
                                    jv_member_models(ms@),
                                    "children"@,
                                );
                                assert(decreases_to!(j@ => j@->Obj_0));
                                assert(decreases_to!(cv@ => cv@->Arr_0));
                            }
                            let mut acc: Vec<NotionBlock> = Vec::new();
                            let mut i: usize = 0;
                            proof {
                                assert(m.skip(0) =~= m);
                            }
                            while i < elts.len()
                                invariant
                                    i <= elts.len(),
                                    acc@.len() == i,
                                    json_to_block_seq(m.skip(i as int)) matches Some(rest)
                                        ==> json_to_block_seq(m) == Some(
                                        block_models(acc@) + rest,
                                    ),
                                    json_to_block_seq(m.skip(i as int)) is None
                                        ==> json_to_block_seq(m) is None,
                                decreases elts@.len() - i,
                            {
                                proof {
                                    assert(decreases_to!(m => m[i as int]));
                                }
                                let d = decode_block(&elts[i]);
                                match d {
                                    Some(b) => {
                                        proof {
                                            crate::notion::lemma_block_models_snoc(acc@, b);
                                            assert(m.skip(i as int)[0] == m[i as int]);
                                            assert(m.skip(i as int).drop_first() =~= m.skip(
                                                i as int + 1,
                                            ));
                                            assert(block_models(acc@.push(b)) =~= block_models(
                                                acc@,
                                            ).push(b@));
                                            match json_to_block_seq(m.skip(i as int + 1)) {
                                                Some(rest2) => {
                                                    assert(block_models(acc@).push(b@) + rest2
                                                        =~= block_models(acc@) + (seq![b@]
                                                        + rest2));
                                                },
                                                None => {},
                                            }
                                        }
                                        acc.push(b);
                                        i += 1;
                                    },
                                    None => {
                                        proof {
                                            assert(m.skip(i as int)[0] == m[i as int]);
                                        }
                                        return None;
                                    },
                                }
                            }
                            proof {
                                assert(m.skip(i as int) =~= Seq::<JsonModel>::empty());
                                assert(block_models(acc@) + Seq::<BlockModel>::empty()
                                    =~= block_models(acc@));
                            }
                            Some(ToggleBlockContent { rich_text, children: Some(acc) })
                        },
                        _ => None,
                    },
                },
                None => None,
            },
            None => None,
        },
        _ => None,
    }
}

/// Reads one block out of a JSON tree: `None` only on structural
/// mismatch, never on an unknown tag.
#[verifier::loop_isolation(false)]
pub fn decode_block(j: &JsonValue) -> (r: Option<NotionBlock>)
    ensures
        r matches Some(b) ==> json_to_block(j@) == Some(b@),
        r is None ==> json_to_block(j@) is None,
    decreases j@,
{
    match j {
        JsonValue::Obj(ms) => match lookup(ms, "type") {
            Some(JsonValue::Str(tag)) => {
                if str_eq(tag.as_str(), "heading_1") {
                    match lookup(ms, "heading_1") {
                        Some(pj) => match decode_content(pj) {
                            Some(c) => Some(NotionBlock::Heading1 { heading_1: c }),
                            None => None,
                        },
                        None => None,
                    }
                } else if str_eq(tag.as_str(), "heading_2") {
                    match lookup(ms, "heading_2") {
                        Some(pj) => match decode_content(pj) {
                            Some(c) => Some(NotionBlock::Heading2 { heading_2: c }),
                            None => None,
                        },
                        None => None,
                    }
                } else if str_eq(tag.as_str(), "heading_3") {
                    match lookup(ms, "heading_3") {
                        Some(pj) => match decode_content(pj) {
                            Some(c) => Some(NotionBlock::Heading3 { heading_3: c }),
                            None => None,
                        },
                        None => None,
                    }
                } else if str_eq(tag.as_str(), "paragraph") {
                    match lookup(ms, "paragraph") {
                        Some(pj) => match decode_content(pj) {
                            Some(c) => Some(NotionBlock::Paragraph { paragraph: c }),
                            None => None,
                        },
                        None => None,
                    }
                } else if str_eq(tag.as_str(), "bulleted_list_item") {
                    match lookup(ms, "bulleted_list_item") {
                        Some(pj) => match decode_content(pj) {
                            Some(c) => Some(
                                NotionBlock::BulletedListItem { bulleted_list_item: c },
                            ),
                            None => None,
                        },
                        None => None,
                    }
                } else if str_eq(tag.as_str(), "numbered_list_item") {
                    match lookup(ms, "numbered_list_item") {
                        Some(pj) => match decode_content(pj) {
                            Some(c) => Some(
                                NotionBlock::NumberedListItem { numbered_list_item: c },
                            ),
                            None => None,
                        },
                        None => None,
                    }
                } else if str_eq(tag.as_str(), "to_do") {
                    match lookup(ms, "to_do") {
                        Some(pj) => match decode_todo(pj) {
                            Some(c) => Some(NotionBlock::ToDo { to_do: c }),
                            None => None,
                        },
                        None => None,
                    }
                } else if str_eq(tag.as_str(), "toggle") {
                    match lookup(ms, "toggle") {
                        Some(pj) => {
                            proof {
                                crate::json::lemma_lookup_height(
                                    jv_member_models(ms@),
                                    "toggle"@,
                                );
                                assert(decreases_to!(j@ => j@->Obj_0));
                            }
                            match decode_toggle(pj) {
                                Some(c) => Some(NotionBlock::Toggle { toggle: c }),
                                None => None,
                            }
                        },
                        None => None,
                    }
                } else if str_eq(tag.as_str(), "quote") {
                    match lookup(ms, "quote") {
                        Some(pj) => match decode_content(pj) {
                            Some(c) => Some(NotionBlock::Quote { quote: c }),
                            None => None,
                        },
                        None => None,
                    }
                } else if str_eq(tag.as_str(), "callout") {
                    match lookup(ms, "callout") {
                        Some(pj) => match decode_content(pj) {
                            Some(c) => Some(NotionBlock::Callout { callout: c }),
                            None => None,
                        },
                        None => None,
                    }
                } else if str_eq(tag.as_str(), "divider") {
                    match lookup(ms, "divider") {
                        Some(JsonValue::Obj(_)) => Some(
                            NotionBlock::Divider { divider: EmptyStruct {  } },
                        ),
                        _ => None,
                    }
                } else if str_eq(tag.as_str(), "code") {
                    match lookup(ms, "code") {
                        Some(pj) => match decode_code(pj) {
                            Some(c) => Some(NotionBlock::Code { code: c }),
                            None => None,
                        },
                        None => None,
                    }
                } else {
                    Some(NotionBlock::Unsupported)
                }
            },
            _ => None,
        },
        _ => None,
    }
}

/// Reads a whole block array out of a JSON tree.
#[verifier::loop_isolation(false)]
pub fn decode_block_array(j: &JsonValue) -> (r: Option<Vec<NotionBlock>>)
    ensures
        r matches Some(v) ==> json_to_blocks(j@) == Some(block_models(v@)),
        r is None ==> json_to_blocks(j@) is None,
{
    match j {
        JsonValue::Arr(elts) => {
            let ghost m = jv_models(elts@);
            proof {
                lemma_jv_models_index(elts@);
            }
            let mut acc: Vec<NotionBlock> = Vec::new();
            let mut i: usize = 0;
            proof {
                assert(m.skip(0) =~= m);
            }
            while i < elts.len()
                invariant
                    i <= elts.len(),
                    acc@.len() == i,
                    json_to_block_seq(m.skip(i as int)) matches Some(rest) ==> json_to_block_seq(m)
                        == Some(block_models(acc@) + rest),
                    json_to_block_seq(m.skip(i as int)) is None ==> json_to_block_seq(m) is None,
                decreases elts@.len() - i,
            {
                let d = decode_block(&elts[i]);
                match d {
                    Some(b) => {
                        proof {
                            crate::notion::lemma_block_models_snoc(acc@, b);
                            assert(m.skip(i as int)[0] == m[i as int]);
                            assert(m.skip(i as int).drop_first() =~= m.skip(i as int + 1));
                            assert(block_models(acc@.push(b)) =~= block_models(acc@).push(b@));
                            match json_to_block_seq(m.skip(i as int + 1)) {
                                Some(rest2) => {
                                    assert(block_models(acc@).push(b@) + rest2 =~= block_models(
                                        acc@,
                                    ) + (seq![b@] + rest2));
                                },
                                None => {},
                            }
                        }
                        acc.push(b);
                        i += 1;
                    },
                    None => {
                        proof {
                            assert(m.skip(i as int)[0] == m[i as int]);
                        }
                        return None;
                    },
                }
            }
            proof {
                assert(m.skip(i as int) =~= Seq::<JsonModel>::empty());
                assert(block_models(acc@) + Seq::<BlockModel>::empty() =~= block_models(acc@));
            }
            Some(acc)
        },
        _ => None,
    }
}

/// A span as freshly constructed for outbound content: no wire-derived
/// plain text.
pub open spec fn clean_span(t: RichTextModel) -> bool {
    match t {
        RichTextModel::Text { plain_text, .. } => plain_text is None,
        RichTextModel::Mention { plain_text, .. } => plain_text is None,
        RichTextModel::Equation { plain_text, .. } => plain_text is None,
    }
}

pub open spec fn clean_spans(s: Seq<RichTextModel>) -> bool {
    forall|i: int| 0 <= i < s.len() ==> clean_span(#[trigger] s[i])
}

/// A block as this library itself constructs it for outbound writes:
/// clean spans throughout, and toggle children either absent or
/// non-empty.
pub open spec fn outbound_clean(b: BlockModel) -> bool
    decreases b,
    via outbound_clean_dec
{
    match b {
        BlockModel::Heading1 { heading_1 } => clean_spans(heading_1.rich_text),
        BlockModel::Heading2 { heading_2 } => clean_spans(heading_2.rich_text),
        BlockModel::Heading3 { heading_3 } => clean_spans(heading_3.rich_text),
        BlockModel::Paragraph { paragraph } => clean_spans(paragraph.rich_text),
        BlockModel::BulletedListItem { bulleted_list_item } => clean_spans(
            bulleted_list_item.rich_text,
        ),
        BlockModel::NumberedListItem { numbered_list_item } => clean_spans(
            numbered_list_item.rich_text,
        ),
        BlockModel::ToDo { to_do } => clean_spans(to_do.rich_text),
        BlockModel::Toggle { toggle } => clean_spans(toggle.rich_text) && match toggle.children {
            None => true,
            Some(cs) => cs.len() > 0 && outbound_clean_seq(cs),
        },
        BlockModel::Quote { quote } => clean_spans(quote.rich_text),
        BlockModel::Callout { callout } => clean_spans(callout.rich_text),
        BlockModel::Divider => true,
        BlockModel::Code { code } => clean_spans(code.rich_text),
        BlockModel::Unsupported => true,
    }
}

#[via_fn]
proof fn outbound_clean_dec(b: BlockModel) {
    match b {
        BlockModel::Toggle { toggle } => {
            assert(decreases_to!(b => b->Toggle_toggle));
            assert(decreases_to!(toggle => toggle.children));
            match toggle.children {
                Some(cs) => {
                    assert(decreases_to!(toggle.children => toggle.children->0));
                },
                None => {},
            }
        },
        _ => {},
    }
}

pub open spec fn outbound_clean_seq(cs: Seq<BlockModel>) -> bool
    decreases cs,
{
    if cs.len() == 0 {
        true
    } else {
        outbound_clean(cs[0]) && outbound_clean_seq(cs.drop_first())
    }
}

proof fn lemma_color_round_trip(c: RichTextColor)
    ensures
        color_of_name(color_name(c)) == Some(c),
{
    reveal_strlit("default");
    reveal_strlit("red");
    reveal_strlit("blue");
    reveal_strlit("pink");
    reveal_strlit("green");
    reveal_strlit("yellow");
    reveal_strlit("purple");
    reveal_strlit("glay");
    reveal_strlit("blown");
    reveal_strlit("orange");
    assert("default"@.len() == 7);
    assert("red"@.len() == 3);
    assert("blue"@.len() == 4);
    assert("pink"@.len() == 4);
    assert("green"@.len() == 5);
    assert("yellow"@.len() == 6);
    assert("purple"@.len() == 6);
    assert("glay"@.len() == 4);
    assert("blown"@.len() == 5);
    assert("orange"@.len() == 6);
    assert("blue"@[0] == 'b');
    assert("pink"@[0] == 'p');
    assert("glay"@[0] == 'g');
    assert("green"@[0] == 'g');
    assert("blown"@[0] == 'b');
    assert("yellow"@[0] == 'y');
    assert("purple"@[0] == 'p');
    assert("orange"@[0] == 'o');
}

proof fn lemma_ann_round_trip(a: RichTextAnnotations)
    ensures
        json_to_annotations(Some(ann_to_json(a))) == Some(a),
{
    reveal_strlit("bold");
    reveal_strlit("italic");
    reveal_strlit("strikethrough");
    reveal_strlit("underline");
    reveal_strlit("code");
    reveal_strlit("color");
    reveal_with_fuel(spec_lookup, 8);
    assert("bold"@.len() == 4);
    assert("italic"@.len() == 6);
    assert("strikethrough"@.len() == 13);
    assert("underline"@.len() == 9);
    assert("code"@.len() == 4);
    assert("color"@.len() == 5);
    assert("code"@[0] == 'c');
    assert("bold"@[0] == 'b');
    let ams = ann_to_json(a)->Obj_0;
    assert(spec_lookup(ams, "bold"@) == Some(JsonModel::Bool(a.bold)));
    assert(spec_lookup(ams, "italic"@) == Some(JsonModel::Bool(a.italic)));
    assert(spec_lookup(ams, "strikethrough"@) == Some(JsonModel::Bool(a.strikethrough)));
    assert(spec_lookup(ams, "underline"@) == Some(JsonModel::Bool(a.underline)));
    assert(spec_lookup(ams, "code"@) == Some(JsonModel::Bool(a.code)));
    match a.color {
        Some(c) => {
            assert(spec_lookup(ams, "color"@) == Some(JsonModel::Str(color_name(c))));
            lemma_color_round_trip(c);
        },
        None => {
            assert(spec_lookup(ams, "color"@) is None);
        },
    }
}

proof fn lemma_text_content_round_trip(t: TextContentModel)
    ensures
        json_to_text_content(text_content_to_json(t)) == Some(t),
{
    reveal_strlit("content");
    reveal_strlit("link");
    reveal_strlit("url");
    reveal_with_fuel(spec_lookup, 4);
    assert("content"@.len() == 7);
    assert("link"@.len() == 4);
    assert("url"@.len() == 3);
    let ms = text_content_to_json(t)->Obj_0;
    assert(spec_lookup(ms, "content"@) == Some(JsonModel::Str(t.content)));
    match t.link {
        Some(u) => {
            assert(spec_lookup(ms, "link"@) == Some(
                JsonModel::Obj(seq![("url"@, JsonModel::Str(u))]),
            ));
        },
        None => {
            assert(spec_lookup(ms, "link"@) is None);
        },
    }
}

proof fn lemma_rich_text_round_trip(t: RichTextModel)
    requires
        clean_span(t),
    ensures
        json_to_rich_text(rich_text_to_json(t)) == Some(t),
{
    reveal_strlit("type");
    reveal_strlit("text");
    reveal_strlit("mention");
    reveal_strlit("equation");
    reveal_strlit("annotations");
    reveal_strlit("plain_text");
    reveal_with_fuel(spec_lookup, 5);
    assert("type"@.len() == 4);
    assert("text"@.len() == 4);
    assert("mention"@.len() == 7);
    assert("equation"@.len() == 8);
    assert("annotations"@.len() == 11);
    assert("plain_text"@.len() == 10);
    assert("text"@[1] == 'e');
    assert("type"@[1] == 'y');
    let ms = rich_text_to_json(t)->Obj_0;
    match t {
        RichTextModel::Text { text, annotations, .. } => {
            assert(spec_lookup(ms, "type"@) == Some(JsonModel::Str("text"@)));
            assert(spec_lookup(ms, "plain_text"@) is None);
            assert(spec_lookup(ms, "annotations"@) == Some(ann_to_json(annotations)));
            assert(spec_lookup(ms, "text"@) == Some(text_content_to_json(text)));
            lemma_ann_round_trip(annotations);
            lemma_text_content_round_trip(text);
        },
        RichTextModel::Mention { mention, annotations, .. } => {
            assert(spec_lookup(ms, "type"@) == Some(JsonModel::Str("mention"@)));
            assert(spec_lookup(ms, "plain_text"@) is None);
            assert(spec_lookup(ms, "annotations"@) == Some(ann_to_json(annotations)));
            assert(spec_lookup(ms, "mention"@) == Some(mention));
            lemma_ann_round_trip(annotations);
        },
        RichTextModel::Equation { equation, annotations, .. } => {
            assert(spec_lookup(ms, "type"@) == Some(JsonModel::Str("equation"@)));
            assert(spec_lookup(ms, "plain_text"@) is None);
            assert(spec_lookup(ms, "annotations"@) == Some(ann_to_json(annotations)));
            assert(spec_lookup(ms, "equation"@) == Some(equation));
            lemma_ann_round_trip(annotations);
        },
    }
}

proof fn lemma_spans_round_trip(s: Seq<RichTextModel>)
    requires
        clean_spans(s),
    ensures
        json_to_rich_texts(rich_texts_to_json(s)) == Some(s),
    decreases s.len(),
{
    let m = rich_texts_to_json(s)->Arr_0;
    if s.len() == 0 {
        assert(m =~= Seq::<JsonModel>::empty());
        assert(json_to_spans(m) == Some(Seq::<RichTextModel>::empty()));
        assert(Seq::<RichTextModel>::empty() =~= s);
    } else {
        assert(m[0] == rich_text_to_json(s[0]));
        lemma_rich_text_round_trip(s[0]);
        assert forall|i: int| 0 <= i < s.drop_first().len() implies clean_span(
            #[trigger] s.drop_first()[i],
        ) by {
            assert(s.drop_first()[i] == s[i + 1]);
        }
        lemma_spans_round_trip(s.drop_first());
        assert(m.drop_first() =~= rich_texts_to_json(s.drop_first())->Arr_0);
        assert(json_to_spans(m.drop_first()) == Some(s.drop_first()));
        assert(seq![s[0]] + s.drop_first() =~= s);
    }
}

proof fn lemma_content_round_trip(c: ContentModel)
    requires
        clean_spans(c.rich_text),
    ensures
        json_to_content(content_to_json(c)) == Some(c),
{
    reveal_strlit("rich_text");
    reveal_with_fuel(spec_lookup, 2);
    assert("rich_text"@.len() == 9);
    let ms = content_to_json(c)->Obj_0;
    assert(spec_lookup(ms, "rich_text"@) == Some(rich_texts_to_json(c.rich_text)));
    lemma_spans_round_trip(c.rich_text);
}

/// The reveals every block-level round-trip case needs: each wire
/// word's length, and a distinguishing character where lengths tie.
proof fn lemma_block_wire_words()
    ensures
        "type"@.len() == 4,
        "heading_1"@.len() == 9,
        "heading_2"@.len() == 9,
        "heading_3"@.len() == 9,
        "paragraph"@.len() == 9,
        "bulleted_list_item"@.len() == 18,
        "numbered_list_item"@.len() == 18,
        "to_do"@.len() == 5,
        "toggle"@.len() == 6,
        "quote"@.len() == 5,
        "callout"@.len() == 7,
        "divider"@.len() == 7,
        "code"@.len() == 4,
        "unsupported"@.len() == 11,
        "rich_text"@.len() == 9,
        "checked"@.len() == 7,
        "language"@.len() == 8,
        "children"@.len() == 8,
        "heading_1"@[8] == '1',
        "heading_2"@[8] == '2',
        "heading_3"@[8] == '3',
        "heading_1"@[0] == 'h',
        "heading_2"@[0] == 'h',
        "heading_3"@[0] == 'h',
        "paragraph"@[0] == 'p',
        "bulleted_list_item"@[0] == 'b',
        "numbered_list_item"@[0] == 'n',
        "to_do"@[0] == 't',
        "quote"@[0] == 'q',
        "callout"@[0] == 'c',
        "divider"@[0] == 'd',
        "code"@[0] == 'c',
        "type"@[0] == 't',
{
    reveal_strlit("type");
    reveal_strlit("heading_1");
    reveal_strlit("heading_2");
    reveal_strlit("heading_3");
    reveal_strlit("paragraph");
    reveal_strlit("bulleted_list_item");
    reveal_strlit("numbered_list_item");
    reveal_strlit("to_do");
    reveal_strlit("toggle");
    reveal_strlit("quote");
    reveal_strlit("callout");
    reveal_strlit("divider");
    reveal_strlit("code");
    reveal_strlit("rich_text");
    reveal_strlit("checked");
    reveal_strlit("language");
    reveal_strlit("children");
    reveal_strlit("unsupported");
}

/// The round trip for every kind whose payload holds no nested
/// blocks.
proof fn lemma_simple_block_round_trip(b: BlockModel)
    requires
        outbound_clean(b),
        !(b is Toggle),
    ensures
        json_to_block(block_to_json(b)) == Some(b),
{
    lemma_block_wire_words();
    reveal_with_fuel(spec_lookup, 4);
    let ms = block_to_json(b)->Obj_0;
    match b {
        BlockModel::Heading1 { heading_1 } => {
            lemma_content_round_trip(heading_1);
        },
        BlockModel::Heading2 { heading_2 } => {
            lemma_content_round_trip(heading_2);
        },
        BlockModel::Heading3 { heading_3 } => {
            lemma_content_round_trip(heading_3);
        },
        BlockModel::Paragraph { paragraph } => {
            lemma_content_round_trip(paragraph);
        },
        BlockModel::BulletedListItem { bulleted_list_item } => {
            lemma_content_round_trip(bulleted_list_item);
        },
        BlockModel::NumberedListItem { numbered_list_item } => {
            lemma_content_round_trip(numbered_list_item);
        },
        BlockModel::ToDo { to_do } => {
            let pms = todo_to_json(to_do)->Obj_0;
            assert(spec_lookup(pms, "rich_text"@) == Some(rich_texts_to_json(to_do.rich_text)));
            assert(spec_lookup(pms, "checked"@) == Some(JsonModel::Bool(to_do.checked)));
            lemma_spans_round_trip(to_do.rich_text);
        },
        BlockModel::Toggle { .. } => {
        },
        BlockModel::Quote { quote } => {
            lemma_content_round_trip(quote);
        },
        BlockModel::Callout { callout } => {
            lemma_content_round_trip(callout);
        },
        BlockModel::Divider => {
            assert(spec_lookup(ms, "divider"@) == Some(JsonModel::Obj(Seq::empty())));
        },
        BlockModel::Code { code } => {
            let pms = code_to_json(code)->Obj_0;
            assert(spec_lookup(pms, "rich_text"@) == Some(rich_texts_to_json(code.rich_text)));
            assert(spec_lookup(pms, "language"@) == Some(JsonModel::Str(code.language)));
            lemma_spans_round_trip(code.rich_text);
        },
        BlockModel::Unsupported => {
            assert(spec_lookup(ms, "type"@) == Some(JsonModel::Str("unsupported"@)));
        },
    }
}

/// Encoding is lossless: a block as this library constructs it reads
/// back from its own wire layout unchanged.
pub proof fn lemma_block_round_trip(b: BlockModel)
    requires
        outbound_clean(b),
    ensures
        json_to_block(block_to_json(b)) == Some(b),
    decreases b,
{
    match b {
        BlockModel::Toggle { toggle } => {
            lemma_block_wire_words();
            reveal_with_fuel(spec_lookup, 4);
            let pms = toggle_to_json(toggle)->Obj_0;
            assert(spec_lookup(pms, "rich_text"@) == Some(rich_texts_to_json(toggle.rich_text)));
            lemma_spans_round_trip(toggle.rich_text);
            match toggle.children {
                None => {
                    assert(spec_lookup(pms, "children"@) is None);
                },
                Some(cs) => {
                    assert(spec_lookup(pms, "children"@) == Some(
                        JsonModel::Arr(blocks_to_json(cs)),
                    ));
                    assert(decreases_to!(b => b->Toggle_toggle));
                    assert(decreases_to!(toggle => toggle.children));
                    assert(decreases_to!(toggle.children => toggle.children->0));
                    lemma_blocks_round_trip(cs);
                },
            }
        },
        _ => {
            lemma_simple_block_round_trip(b);
        },
    }
}

/// Losslessness over a whole outbound block sequence.
pub proof fn lemma_blocks_round_trip(cs: Seq<BlockModel>)
    requires
        outbound_clean_seq(cs),
    ensures
        json_to_block_seq(blocks_to_json(cs)) == Some(cs),
    decreases cs,
{
    if cs.len() > 0 {
        let m = blocks_to_json(cs);
        assert(m[0] == block_to_json(cs[0]));
        assert(decreases_to!(cs => cs[0]));
        lemma_block_round_trip(cs[0]);
        lemma_blocks_round_trip(cs.drop_first());
        assert(m.drop_first() =~= blocks_to_json(cs.drop_first()));
        assert(seq![cs[0]] + cs.drop_first() =~= cs);
    }
}

/// Every block the construction helpers make is outbound-clean, so
/// the losslessness law covers everything this library itself writes.
pub proof fn lemma_helpers_clean(s: Seq<char>, lang: Seq<char>)
    ensures
        outbound_clean(crate::notion::spec_paragraph(s)),
        outbound_clean(crate::notion::spec_heading_1(s)),
        outbound_clean(crate::notion::spec_heading_2(s)),
        outbound_clean(crate::notion::spec_heading_3(s)),
        outbound_clean(crate::notion::spec_code_block(s, lang)),
{
    let spans = seq![crate::notion::spec_plain_rich_text(s)];
    assert(clean_spans(spans));
}

/// The wire tags this library knows.
pub open spec fn known_block_tag(tag: Seq<char>) -> bool {
    ||| tag == "heading_1"@
    ||| tag == "heading_2"@
    ||| tag == "heading_3"@
    ||| tag == "paragraph"@
    ||| tag == "bulleted_list_item"@
    ||| tag == "numbered_list_item"@
    ||| tag == "to_do"@
    ||| tag == "toggle"@
    ||| tag == "quote"@
    ||| tag == "callout"@
    ||| tag == "divider"@
    ||| tag == "code"@
}

/// A block object carrying an unrecognised tag decodes, and decodes to
/// `Unsupported`; extraction then yields nothing. So an unknown kind
/// can never fail a surrounding array decode.
pub proof fn lemma_unknown_tag_unsupported(ms: Seq<(Seq<char>, JsonModel)>, tag: Seq<char>)
    requires
        spec_lookup(ms, "type"@) == Some(JsonModel::Str(tag)),
        !known_block_tag(tag),
    ensures
        json_to_block(JsonModel::Obj(ms)) == Some(BlockModel::Unsupported),
        crate::notion::spec_extract_block(BlockModel::Unsupported) is None,
{
}

/// An array every element of which decodes, decodes as a whole.
pub proof fn lemma_array_decode_total(elts: Seq<JsonModel>)
    requires
        forall|i: int| 0 <= i < elts.len() ==> json_to_block(#[trigger] elts[i]) is Some,
    ensures
        json_to_block_seq(elts) is Some,
    decreases elts,
{
    if elts.len() > 0 {
        assert forall|i: int| 0 <= i < elts.drop_first().len() implies json_to_block(
            #[trigger] elts.drop_first()[i],
        ) is Some by {
            assert(elts.drop_first()[i] == elts[i + 1]);
        }
        lemma_array_decode_total(elts.drop_first());
    }
}

} // verus!


