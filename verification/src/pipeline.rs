//! The orchestration decisions of the three automations: page text
//! extraction, request building, the weekly fan-in and its destructive
//! clear step, and the page-store request and response shapes around
//! them. Everything here computes from plain values; the surrounding
//! process performs the transport.

use vstd::prelude::*;

verus! {

use vstd::string::StringExecFns;

broadcast use {vstd::std_specs::vec::group_vec_axioms, vstd::string::group_string_axioms};

use crate::codec::blocks_to_json;
use crate::codec::decode_block_array;
use crate::codec::encode_blocks;
use crate::codec::json_to_blocks;
use crate::date::Date;
use crate::date::format_date;
use crate::date::spec_format_date;
use crate::date::valid_date;
use crate::gemini::GeminiAPIPrompt;
use crate::gemini::GeminiAPIChatContent;
use crate::gemini::Part;
use crate::gemini::ContentTurnModel;
use crate::gemini::PromptModel;
use crate::gemini::Role;
use crate::gemini::GenerationConfig;
use crate::gemini::spec_default_generation_config;
use crate::json::JsonModel;
use crate::json::JsonValue;
use crate::json::json_parse_spec;
use crate::json::lookup;
use crate::json::parse_json_text;
use crate::json::spec_lookup;
use crate::json::spec_ser;
use crate::json::to_json_text;
use crate::notion::BlockModel;
use crate::notion::ExtractText;
use crate::notion::NotionBlock;
use crate::notion::block_models;
use crate::notion::lemma_block_models_index;
use crate::notion::spec_extract_block;
use crate::notion::spec_paragraph;

/// A reference to one page of the host store.
pub struct NotionPageRef {
    pub id: String,
}

/// The body of an inbound automation trigger: the page it concerns.
pub struct NotionWebhookPayload {
    pub data: NotionPageRef,
}

/// How an inbound trigger classifies itself.
#[derive(Debug, Clone, Copy, PartialEq, Eq)]
pub enum AutomationContentType {
    Unknown,
    Diary,
}

/// A classified trigger body.
pub struct NotionWebhookContent {
    pub content_type: AutomationContentType,
    pub payload: NotionWebhookPayload,
}

/// A fetched block listing.
pub struct NotionBlockResponse {
    pub results: Vec<NotionBlock>,
}

/// A page bound to its fetched top-level blocks.
pub struct NotionPageDetail {
    pub body: NotionBlockResponse,
}

/// Where appended blocks are placed.
#[derive(Debug, Clone, Copy, PartialEq, Eq)]
pub enum AppendPositionType {
    Start,
    End,
}

/// An append request: the blocks to write and where.
pub struct NotionAppendBlockRequest {
    pub children: Vec<NotionBlock>,
    pub position: AppendPositionType,
}

/// One existing block's identity, as the clear step sees it.
pub struct NotionBlockId {
    pub id: String,
    pub block_type: String,
}

/// One page summary out of a database query.
pub struct NotionPageData {
    pub id: String,
    pub url: String,
}

// ---------------------------------------------------------------
// Extraction over a page
// ---------------------------------------------------------------

pub open spec fn str_views(v: Seq<String>) -> Seq<Seq<char>> {
    Seq::new(v.len(), |i: int| v[i]@)
}

/// The texts the blocks contribute, in order, blocks without text
/// skipped.
pub open spec fn spec_kept_texts(bs: Seq<BlockModel>) -> Seq<Seq<char>>
    decreases bs.len(),
{
    if bs.len() == 0 {
        Seq::empty()
    } else {
        (match spec_extract_block(bs[0]) {
            Some(t) => seq![t],
            None => Seq::empty(),
        }) + spec_kept_texts(bs.drop_first())
    }
}

/// Texts joined by single newlines.
pub open spec fn spec_join_nl(ts: Seq<Seq<char>>) -> Seq<char>
    decreases ts.len(),
{
    if ts.len() == 0 {
        Seq::empty()
    } else if ts.len() == 1 {
        ts[0]
    } else {
        ts[0] + seq!['\n'] + spec_join_nl(ts.drop_first())
    }
}

proof fn lemma_join_nl_snoc(ts: Seq<Seq<char>>, x: Seq<char>)
    ensures
        spec_join_nl(ts.push(x)) == if ts.len() == 0 {
            x
        } else {
            spec_join_nl(ts) + seq!['\n'] + x
        },
    decreases ts.len(),
{
    let p = ts.push(x);
    if ts.len() == 0 {
        assert(p[0] == x);
    } else {
        assert(p[0] == ts[0]);
        assert(p.drop_first() =~= ts.drop_first().push(x));
        lemma_join_nl_snoc(ts.drop_first(), x);
        if ts.len() == 1 {
            assert(spec_join_nl(p) =~= spec_join_nl(ts) + seq!['\n'] + x);
        } else {
            assert(spec_join_nl(p) =~= spec_join_nl(ts) + seq!['\n'] + x);
        }
    }
}

/// The texts of a block list, in order, textless blocks skipped.
#[verifier::loop_isolation(false)]
pub fn kept_texts(blocks: &Vec<NotionBlock>) -> (r: Vec<String>)
    ensures
        str_views(r@) == spec_kept_texts(block_models(blocks@)),
{
    let ghost m = block_models(blocks@);
    proof {
        lemma_block_models_index(blocks@);
        assert(m.skip(0) =~= m);
    }
    let mut acc: Vec<String> = Vec::new();
    let mut i: usize = 0;
    while i < blocks.len()
        invariant
            i <= blocks.len(),
            spec_kept_texts(m) == str_views(acc@) + spec_kept_texts(m.skip(i as int)),
        decreases blocks@.len() - i,
    {
        let t = blocks[i].extract_text();
        proof {
            assert(m.skip(i as int)[0] == m[i as int]);
            assert(m.skip(i as int).drop_first() =~= m.skip(i as int + 1));
        }
        match t {
            Some(s) => {
                proof {
                    assert(str_views(acc@.push(s)) =~= str_views(acc@).push(s@));
                    assert(str_views(acc@).push(s@) + spec_kept_texts(m.skip(i as int + 1))
                        =~= str_views(acc@) + (seq![s@] + spec_kept_texts(m.skip(i as int + 1))));
                }
                acc.push(s);
            },
            None => {
                proof {
                    assert(Seq::<Seq<char>>::empty() + spec_kept_texts(m.skip(i as int + 1))
                        =~= spec_kept_texts(m.skip(i as int + 1)));
                }
            },
        }
        i += 1;
    }
    proof {
        assert(m.skip(i as int) =~= Seq::<BlockModel>::empty());
        assert(str_views(acc@) + Seq::<Seq<char>>::empty() =~= str_views(acc@));
    }
    acc
}

/// The whole plain text of a page: each block's text, in order, joined
/// with newlines.
pub open spec fn spec_page_text(bs: Seq<BlockModel>) -> Seq<char> {
    spec_join_nl(spec_kept_texts(bs))
}

/// The flattened text of a fetched page.
#[verifier::loop_isolation(false)]
pub fn extract_page_text(page_detail: &NotionPageDetail) -> (r: String)
    ensures
        r@ == spec_page_text(block_models(page_detail.body.results@)),
{
    let texts = kept_texts(&page_detail.body.results);
    let ghost ts = str_views(texts@);
    let mut out = String::new();
    let mut i: usize = 0;
    proof {
        assert(ts.take(0) =~= Seq::<Seq<char>>::empty());
    }
    while i < texts.len()
        invariant
            i <= texts.len(),
            out@ == spec_join_nl(ts.take(i as int)),
        decreases texts@.len() - i,
    {
        if i > 0 {
            out.push('\n');
        }
        out.append(texts[i].as_str());
        proof {
            lemma_join_nl_snoc(ts.take(i as int), ts[i as int]);
            assert(ts.take(i as int + 1) =~= ts.take(i as int).push(ts[i as int]));
            if i > 0 {
                assert(out@ =~= spec_join_nl(ts.take(i as int)) + seq!['\n'] + ts[i as int]);
            }
        }
        i += 1;
    }
    proof {
        assert(ts.take(texts@.len() as int) =~= ts);
    }
    out
}

// ---------------------------------------------------------------
// Request building
// ---------------------------------------------------------------

/// The request this system sends: one instruction turn of one part,
/// one content turn carrying the source texts in order, and the fixed
/// configuration.
pub open spec fn spec_build_request(instr: Seq<char>, texts: Seq<Seq<char>>) -> PromptModel {
    PromptModel {
        contents: seq![ContentTurnModel { role: Some(Role::User), parts: texts }],
        system_instruction: Some(ContentTurnModel { role: Some(Role::User), parts: seq![instr] }),
        generation_config: Some(spec_default_generation_config()),
    }
}

/// Assembles the generation request; pure assembly, it never fails.
pub fn build_request(instruction: String, source_texts: Vec<String>) -> (r: GeminiAPIPrompt)
    ensures
        r@ == spec_build_request(instruction@, str_views(source_texts@)),
{
    let ghost texts = str_views(source_texts@);
    let mut parts: Vec<Part> = Vec::new();
    let mut i: usize = 0;
    while i < source_texts.len()
        invariant
            i <= source_texts.len(),
            parts@.len() == i,
            forall|k: int| 0 <= k < i ==> (#[trigger] parts@[k]).text@ == source_texts@[k]@,
        decreases source_texts@.len() - i,
    {
        let t = source_texts[i].clone();
        parts.push(Part { text: t });
        i += 1;
    }
    let content = GeminiAPIChatContent { role: Some(Role::User), parts };
    let mut contents: Vec<GeminiAPIChatContent> = Vec::new();
    contents.push(content);
    let mut instruction_parts: Vec<Part> = Vec::new();
    instruction_parts.push(Part { text: instruction });
    let system_instruction = Some(
        GeminiAPIChatContent { role: Some(Role::User), parts: instruction_parts },
    );
    let generation_config = Some(GenerationConfig::default());
    let r = GeminiAPIPrompt { contents, system_instruction, generation_config };
    proof {
        assert(r@.contents[0].parts =~= texts);
        assert(r@.contents =~= spec_build_request(instruction@, texts).contents);
        assert(r@.system_instruction->0.parts =~= seq![instruction@]);
        assert(r@.system_instruction->0 =~= spec_build_request(instruction@, texts)
            .system_instruction->0);
        assert(r@ =~= spec_build_request(instruction@, texts));
    }
    r
}

/// The diary request: the supplied instruction and the page's texts,
/// one part each, in page order.
pub fn gen_diary_prompt(instruction: String, page_detail: NotionPageDetail) -> (r: GeminiAPIPrompt)
    ensures
        r@ == spec_build_request(
            instruction@,
            spec_kept_texts(block_models(page_detail.body.results@)),
        ),
{
    let texts = kept_texts(&page_detail.body.results);
    build_request(instruction, texts)
}

/// The review request: built exactly as the diary request is.
pub fn gen_review_prompt(instruction: String, page_detail: NotionPageDetail) -> (r: GeminiAPIPrompt)
    ensures
        r@ == spec_build_request(
            instruction@,
            spec_kept_texts(block_models(page_detail.body.results@)),
        ),
{
    let texts = kept_texts(&page_detail.body.results);
    build_request(instruction, texts)
}

/// The weekly request: the aggregate diary text as a single part.
pub fn gen_weekly_report_prompt(instruction: String, diary_content: String) -> (r: GeminiAPIPrompt)
    ensures
        r@ == spec_build_request(instruction@, seq![diary_content@]),
{
    let ghost d = diary_content@;
    let mut source_texts: Vec<String> = Vec::new();
    source_texts.push(diary_content);
    proof {
        assert(str_views(source_texts@) =~= seq![d]);
    }
    build_request(instruction, source_texts)
}

// ---------------------------------------------------------------
// Page-store request bodies
// ---------------------------------------------------------------

pub open spec fn position_to_json(p: AppendPositionType) -> JsonModel {
    match p {
        AppendPositionType::Start => JsonModel::Obj(seq![("type"@, JsonModel::Str("start"@))]),
        AppendPositionType::End => JsonModel::Obj(seq![("type"@, JsonModel::Str("end"@))]),
    }
}

/// The append request body: the blocks to write and the position.
pub open spec fn append_request_to_json(children: Seq<BlockModel>, p: AppendPositionType) -> JsonModel {
    JsonModel::Obj(
        seq![
            ("children"@, JsonModel::Arr(blocks_to_json(children))),
            ("position"@, position_to_json(p)),
        ],
    )
}

fn encode_position(p: AppendPositionType) -> (r: JsonValue)
    ensures
        r@ == position_to_json(p),
{
    let mut ms: Vec<(String, JsonValue)> = Vec::new();
    let name = match p {
        AppendPositionType::Start => String::from_str("start"),
        AppendPositionType::End => String::from_str("end"),
    };
    ms.push((String::from_str("type"), JsonValue::Str(name)));
    proof {
        crate::json::lemma_member_models_are(ms@, position_to_json(p)->Obj_0);
    }
    JsonValue::Obj(ms)
}

/// The append request body text for a set of blocks.
pub fn build_append_body(req: &NotionAppendBlockRequest) -> (r: String)
    ensures
        r@ == spec_ser(append_request_to_json(block_models(req.children@), req.position)),
{
    let mut ms: Vec<(String, JsonValue)> = Vec::new();
    ms.push((String::from_str("children"), encode_blocks(&req.children)));
    ms.push((String::from_str("position"), encode_position(req.position)));
    proof {
        crate::json::lemma_member_models_are(
            ms@,
            append_request_to_json(block_models(req.children@), req.position)->Obj_0,
        );
    }
    let v = JsonValue::Obj(ms);
    to_json_text(&v)
}

pub open spec fn date_cond_to_json(prop: Seq<char>, op: Seq<char>, d: Date) -> JsonModel {
    JsonModel::Obj(
        seq![
            ("property"@, JsonModel::Str(prop)),
            ("date"@, JsonModel::Obj(seq![(op, JsonModel::Str(spec_format_date(d)))])),
        ],
    )
}

/// The weekly query body: entries whose date property lies in the
/// window, ascending by that property.
pub open spec fn weekly_query_to_json(prop: Seq<char>, from: Date, to: Date) -> JsonModel {
    JsonModel::Obj(
        seq![
            (
                "filter"@,
                JsonModel::Obj(
                    seq![
                        (
                            "and"@,
                            JsonModel::Arr(
                                seq![
                                    date_cond_to_json(prop, "on_or_after"@, from),
                                    date_cond_to_json(prop, "on_or_before"@, to),
                                ],
                            ),
                        ),
                    ],
                ),
            ),
            (
                "sorts"@,
                JsonModel::Arr(
                    seq![
                        JsonModel::Obj(
                            seq![
                                ("property"@, JsonModel::Str(prop)),
                                ("direction"@, JsonModel::Str("ascending"@)),
                            ],
                        ),
                    ],
                ),
            ),
        ],
    )
}

fn encode_date_cond(prop: &str, op: &str, d: Date) -> (r: JsonValue)
    requires
        valid_date(d),
        d.year <= 9999,
    ensures
        r@ == date_cond_to_json(prop@, op@, d),
{
    let mut dms: Vec<(String, JsonValue)> = Vec::new();
    dms.push((op.to_owned(), JsonValue::Str(format_date(d))));
    proof {
        crate::json::lemma_member_models_are(
            dms@,
            seq![(op@, JsonModel::Str(spec_format_date(d)))],
        );
    }
    let mut ms: Vec<(String, JsonValue)> = Vec::new();
    ms.push((String::from_str("property"), JsonValue::Str(prop.to_owned())));
    ms.push((String::from_str("date"), JsonValue::Obj(dms)));
    proof {
        crate::json::lemma_member_models_are(ms@, date_cond_to_json(prop@, op@, d)->Obj_0);
    }
    JsonValue::Obj(ms)
}

/// The query body text for the weekly window, over the given date
/// property name.
pub fn build_weekly_query_body(date_prop: &str, from: Date, to: Date) -> (r: String)
    requires
        valid_date(from),
        valid_date(to),
        from.year <= 9999,
        to.year <= 9999,
    ensures
        r@ == spec_ser(weekly_query_to_json(date_prop@, from, to)),
{
    let mut conds: Vec<JsonValue> = Vec::new();
    conds.push(encode_date_cond(date_prop, "on_or_after", from));
    conds.push(encode_date_cond(date_prop, "on_or_before", to));
    proof {
        crate::json::lemma_models_are(
            conds@,
            seq![
                date_cond_to_json(date_prop@, "on_or_after"@, from),
                date_cond_to_json(date_prop@, "on_or_before"@, to),
            ],
        );
    }
    let mut fms: Vec<(String, JsonValue)> = Vec::new();
    fms.push((String::from_str("and"), JsonValue::Arr(conds)));
    proof {
        crate::json::lemma_member_models_are(
            fms@,
            weekly_query_to_json(date_prop@, from, to)->Obj_0[0].1->Obj_0,
        );
    }
    let mut sms: Vec<(String, JsonValue)> = Vec::new();
    sms.push((String::from_str("property"), JsonValue::Str(date_prop.to_owned())));
    sms.push((String::from_str("direction"), JsonValue::Str(String::from_str("ascending"))));
    proof {
        crate::json::lemma_member_models_are(
            sms@,
            weekly_query_to_json(date_prop@, from, to)->Obj_0[1].1->Arr_0[0]->Obj_0,
        );
    }
    let mut sorts: Vec<JsonValue> = Vec::new();
    sorts.push(JsonValue::Obj(sms));
    proof {
        crate::json::lemma_models_are(
            sorts@,
            weekly_query_to_json(date_prop@, from, to)->Obj_0[1].1->Arr_0,
        );
    }
    let mut ms: Vec<(String, JsonValue)> = Vec::new();
    ms.push((String::from_str("filter"), JsonValue::Obj(fms)));
    ms.push((String::from_str("sorts"), JsonValue::Arr(sorts)));
    proof {
        crate::json::lemma_member_models_are(
            ms@,
            weekly_query_to_json(date_prop@, from, to)->Obj_0,
        );
    }
    let v = JsonValue::Obj(ms);
    to_json_text(&v)
}

/// The create-page request body: the parent database, a title
/// property, a date property, and the initial blocks.
pub open spec fn create_page_to_json(
    parent_db: Seq<char>,
    title_prop: Seq<char>,
    date_prop: Seq<char>,
    title: Seq<char>,
    d: Date,
    children: Seq<BlockModel>,
) -> JsonModel {
    JsonModel::Obj(
        seq![
            ("parent"@, JsonModel::Obj(seq![("database_id"@, JsonModel::Str(parent_db))])),
            (
                "properties"@,
                JsonModel::Obj(
                    seq![
                        (
                            title_prop,
                            JsonModel::Obj(
                                seq![
                                    (
                                        "title"@,
                                        JsonModel::Arr(
                                            seq![
                                                JsonModel::Obj(
                                                    seq![
                                                        (
                                                            "text"@,
                                                            JsonModel::Obj(
                                                                seq![
                                                                    (
                                                                        "content"@,
                                                                        JsonModel::Str(title),
                                                                    ),
                                                                ],
                                                            ),
                                                        ),
                                                    ],
                                                ),
                                            ],
                                        ),
                                    ),
                                ],
                            ),
                        ),
                        (
                            date_prop,
                            JsonModel::Obj(
                                seq![
                                    (
                                        "date"@,
                                        JsonModel::Obj(
                                            seq![
                                                ("start"@, JsonModel::Str(spec_format_date(d))),
                                            ],
                                        ),
                                    ),
                                ],
                            ),
                        ),
                    ],
                ),
            ),
            ("children"@, JsonModel::Arr(blocks_to_json(children))),
        ],
    )
}

/// The create-page request body text.
pub fn build_create_page_body(
    parent_db: &str,
    title_prop: &str,
    date_prop: &str,
    title: &str,
    d: Date,
    children: &Vec<NotionBlock>,
) -> (r: String)
    requires
        valid_date(d),
        d.year <= 9999,
    ensures
        r@ == spec_ser(
            create_page_to_json(
                parent_db@,
                title_prop@,
                date_prop@,
                title@,
                d,
                block_models(children@),
            ),
        ),
{
    let ghost target = create_page_to_json(
        parent_db@,
        title_prop@,
        date_prop@,
        title@,
        d,
        block_models(children@),
    );
    let mut cms: Vec<(String, JsonValue)> = Vec::new();
    cms.push((String::from_str("content"), JsonValue::Str(title.to_owned())));
    proof {
        crate::json::lemma_member_models_are(cms@, seq![("content"@, JsonModel::Str(title@))]);
    }
    let mut tms: Vec<(String, JsonValue)> = Vec::new();
    tms.push((String::from_str("text"), JsonValue::Obj(cms)));
    proof {
        crate::json::lemma_member_models_are(
            tms@,
            target->Obj_0[1].1->Obj_0[0].1->Obj_0[0].1->Arr_0[0]->Obj_0,
        );
    }
    let mut title_items: Vec<JsonValue> = Vec::new();
    title_items.push(JsonValue::Obj(tms));
    proof {
        crate::json::lemma_models_are(
            title_items@,
            target->Obj_0[1].1->Obj_0[0].1->Obj_0[0].1->Arr_0,
        );
    }
    let mut tpms: Vec<(String, JsonValue)> = Vec::new();
    tpms.push((String::from_str("title"), JsonValue::Arr(title_items)));
    proof {
        crate::json::lemma_member_models_are(tpms@, target->Obj_0[1].1->Obj_0[0].1->Obj_0);
    }
    let mut sms: Vec<(String, JsonValue)> = Vec::new();
    sms.push((String::from_str("start"), JsonValue::Str(format_date(d))));
    proof {
        crate::json::lemma_member_models_are(
            sms@,
            seq![("start"@, JsonModel::Str(spec_format_date(d)))],
        );
    }
    let mut dpms: Vec<(String, JsonValue)> = Vec::new();
    dpms.push((String::from_str("date"), JsonValue::Obj(sms)));
    proof {
        crate::json::lemma_member_models_are(dpms@, target->Obj_0[1].1->Obj_0[1].1->Obj_0);
    }
    let mut pms: Vec<(String, JsonValue)> = Vec::new();
    pms.push((title_prop.to_owned(), JsonValue::Obj(tpms)));
    pms.push((date_prop.to_owned(), JsonValue::Obj(dpms)));
    proof {
        crate::json::lemma_member_models_are(pms@, target->Obj_0[1].1->Obj_0);
    }
    let mut prms: Vec<(String, JsonValue)> = Vec::new();
    prms.push((String::from_str("database_id"), JsonValue::Str(parent_db.to_owned())));
    proof {
        crate::json::lemma_member_models_are(
            prms@,
            seq![("database_id"@, JsonModel::Str(parent_db@))],
        );
    }
    let mut ms: Vec<(String, JsonValue)> = Vec::new();
    ms.push((String::from_str("parent"), JsonValue::Obj(prms)));
    ms.push((String::from_str("properties"), JsonValue::Obj(pms)));
    ms.push((String::from_str("children"), encode_blocks(children)));
    proof {
        crate::json::lemma_member_models_are(ms@, target->Obj_0);
    }
    let v = JsonValue::Obj(ms);
    to_json_text(&v)
}

/// The weekly report page title for a window.
pub fn build_weekly_title(from: Date, to: Date) -> (r: String)
    requires
        valid_date(from),
        valid_date(to),
        from.year <= 9999,
        to.year <= 9999,
    ensures
        r@ == "Weekly Report ("@ + spec_format_date(from) + " ~ "@ + spec_format_date(to) + ")"@,
{
    let mut out = String::from_str("Weekly Report (");
    out.append(format_date(from).as_str());
    out.append(" ~ ");
    out.append(format_date(to).as_str());
    out.append(")");
    out
}

// ---------------------------------------------------------------
// Page-store response bodies
// ---------------------------------------------------------------

/// A fetched block listing: its required `results` array.
pub open spec fn json_to_block_results(j: JsonModel) -> Option<Seq<BlockModel>> {
    match j {
        JsonModel::Obj(ms) => match spec_lookup(ms, "results"@) {
            Some(rj) => json_to_blocks(rj),
            None => None,
        },
        _ => None,
    }
}

/// Reads a fetched page body into its blocks; `None` exactly when the
/// body is not well-formed JSON of the listing shape.
pub fn parse_page_detail(body: &str) -> (r: Option<NotionPageDetail>)
    ensures
        r matches Some(pd) ==> json_parse_spec(body@) matches Some(j) && json_to_block_results(j)
            == Some(block_models(pd.body.results@)),
        r is None ==> (json_parse_spec(body@) is None || (json_parse_spec(body@) matches Some(j)
            && json_to_block_results(j) is None)),
{
    match parse_json_text(body) {
        Some(j) => match &j {
            JsonValue::Obj(ms) => match lookup(ms, "results") {
                Some(rj) => match decode_block_array(rj) {
                    Some(results) => Some(
                        NotionPageDetail { body: NotionBlockResponse { results } },
                    ),
                    None => None,
                },
                None => None,
            },
            _ => None,
        },
        None => None,
    }
}

pub open spec fn page_data_views(v: Seq<NotionPageData>) -> Seq<(Seq<char>, Seq<char>)> {
    Seq::new(v.len(), |i: int| (v[i].id@, v[i].url@))
}

/// One queried page summary: required string `id` and `url`.
pub open spec fn json_to_page_summary(j: JsonModel) -> Option<(Seq<char>, Seq<char>)> {
    match j {
        JsonModel::Obj(ms) => match (spec_lookup(ms, "id"@), spec_lookup(ms, "url"@)) {
            (Some(JsonModel::Str(id)), Some(JsonModel::Str(url))) => Some((id, url)),
            _ => None,
        },
        _ => None,
    }
}

pub open spec fn json_to_page_summaries(elts: Seq<JsonModel>) -> Option<Seq<(Seq<char>, Seq<char>)>>
    decreases elts,
{
    if elts.len() == 0 {
        Some(Seq::empty())
    } else {
        match json_to_page_summary(elts[0]) {
            Some(p) => match json_to_page_summaries(elts.drop_first()) {
                Some(rest) => Some(seq![p] + rest),
                None => None,
            },
            None => None,
        }
    }
}

/// A query response: its required `results` array of page summaries.
pub open spec fn json_to_query_results(j: JsonModel) -> Option<Seq<(Seq<char>, Seq<char>)>> {
    match j {
        JsonModel::Obj(ms) => match spec_lookup(ms, "results"@) {
            Some(JsonModel::Arr(elts)) => json_to_page_summaries(elts),
            _ => None,
        },
        _ => None,
    }
}

fn decode_page_summary(j: &JsonValue) -> (r: Option<NotionPageData>)
    ensures
        r matches Some(p) ==> json_to_page_summary(j@) == Some((p.id@, p.url@)),
        r is None ==> json_to_page_summary(j@) is None,
{
    match j {
        JsonValue::Obj(ms) => match (lookup(ms, "id"), lookup(ms, "url")) {
            (Some(JsonValue::Str(id)), Some(JsonValue::Str(url))) => Some(
                NotionPageData { id: id.clone(), url: url.clone() },
            ),
            _ => None,
        },
        _ => None,
    }
}

/// Reads a create-page response into the new page's summary; `None`
/// exactly when the body is not well-formed JSON carrying string `id`
/// and `url` fields.
pub fn parse_created_page(body: &str) -> (r: Option<NotionPageData>)
    ensures
        r matches Some(p) ==> json_parse_spec(body@) matches Some(j) && json_to_page_summary(j)
            == Some((p.id@, p.url@)),
        r is None ==> (json_parse_spec(body@) is None || (json_parse_spec(body@) matches Some(j)
            && json_to_page_summary(j) is None)),
{
    match parse_json_text(body) {
        Some(jv) => decode_page_summary(&jv),
        None => None,
    }
}

/// Reads a database query body into page summaries; `None` exactly
/// when the body is not well-formed JSON of the query-response shape.
#[verifier::loop_isolation(false)]
pub fn parse_query_results(body: &str) -> (r: Option<Vec<NotionPageData>>)
    ensures
        r matches Some(v) ==> json_parse_spec(body@) matches Some(j) && json_to_query_results(j)
            == Some(page_data_views(v@)),
        r is None ==> (json_parse_spec(body@) is None || (json_parse_spec(body@) matches Some(j)
            && json_to_query_results(j) is None)),
{
    match parse_json_text(body) {
        Some(jv) => match &jv {
            JsonValue::Obj(ms) => match lookup(ms, "results") {
                Some(rv) => match rv {
                    JsonValue::Arr(elts) => {
                        let ghost m = crate::json::jv_models(elts@);
                        proof {
                            crate::json::lemma_jv_models_index(elts@);
                        }
                        let mut acc: Vec<NotionPageData> = Vec::new();
                        let mut i: usize = 0;
                        proof {
                            assert(m.skip(0) =~= m);
                        }
                        while i < elts.len()
                            invariant
                                i <= elts.len(),
                                acc@.len() == i,
                                json_to_page_summaries(m.skip(i as int)) matches Some(rest)
                                    ==> json_to_page_summaries(m) == Some(
                                    page_data_views(acc@) + rest,
                                ),
                                json_to_page_summaries(m.skip(i as int)) is None
                                    ==> json_to_page_summaries(m) is None,
                            decreases elts@.len() - i,
                        {
                            let d = decode_page_summary(&elts[i]);
                            match d {
                                Some(p) => {
                                    proof {
                                        assert(m.skip(i as int)[0] == m[i as int]);
                                        assert(m.skip(i as int).drop_first() =~= m.skip(
                                            i as int + 1,
                                        ));
                                        assert(page_data_views(acc@.push(p)) =~= page_data_views(
                                            acc@,
                                        ).push((p.id@, p.url@)));
                                        match json_to_page_summaries(m.skip(i as int + 1)) {
                                            Some(rest2) => {
                                                assert(page_data_views(acc@).push((p.id@, p.url@))
                                                    + rest2 =~= page_data_views(acc@) + (
                                                seq![(p.id@, p.url@)] + rest2));
                                            },
                                            None => {},
                                        }
                                    }
                                    acc.push(p);
                                    i += 1;
                                },
                                None => {
                                    proof {
                                        assert(m.skip(i as int)[0] == m[i as int]);
                                    }
                                    return None;
                                },
                            }
                        }
                        proof {
                            assert(m.skip(i as int) =~= Seq::<JsonModel>::empty());
                            assert(page_data_views(acc@) + Seq::<(Seq<char>, Seq<char>)>::empty()
                                =~= page_data_views(acc@));
                        }
                        Some(acc)
                    },
                    _ => None,
                },
                None => None,
            },
            _ => None,
        },
        None => None,
    }
}

pub open spec fn block_id_views(v: Seq<NotionBlockId>) -> Seq<(Seq<char>, Seq<char>)> {
    Seq::new(v.len(), |i: int| (v[i].id@, v[i].block_type@))
}

/// One listed block: its required string `id` and `type`.
pub open spec fn json_to_block_id(j: JsonModel) -> Option<(Seq<char>, Seq<char>)> {
    match j {
        JsonModel::Obj(ms) => match (spec_lookup(ms, "id"@), spec_lookup(ms, "type"@)) {
            (Some(JsonModel::Str(id)), Some(JsonModel::Str(t))) => Some((id, t)),
            _ => None,
        },
        _ => None,
    }
}

pub open spec fn json_to_block_id_seq(elts: Seq<JsonModel>) -> Option<Seq<(Seq<char>, Seq<char>)>>
    decreases elts,
{
    if elts.len() == 0 {
        Some(Seq::empty())
    } else {
        match json_to_block_id(elts[0]) {
            Some(p) => match json_to_block_id_seq(elts.drop_first()) {
                Some(rest) => Some(seq![p] + rest),
                None => None,
            },
            None => None,
        }
    }
}

/// A block listing read only for identities: its required `results`
/// array of id/type pairs.
pub open spec fn json_to_block_ids(j: JsonModel) -> Option<Seq<(Seq<char>, Seq<char>)>> {
    match j {
        JsonModel::Obj(ms) => match spec_lookup(ms, "results"@) {
            Some(JsonModel::Arr(elts)) => json_to_block_id_seq(elts),
            _ => None,
        },
        _ => None,
    }
}

fn decode_block_id(j: &JsonValue) -> (r: Option<NotionBlockId>)
    ensures
        r matches Some(b) ==> json_to_block_id(j@) == Some((b.id@, b.block_type@)),
        r is None ==> json_to_block_id(j@) is None,
{
    match j {
        JsonValue::Obj(ms) => match (lookup(ms, "id"), lookup(ms, "type")) {
            (Some(JsonValue::Str(id)), Some(JsonValue::Str(t))) => Some(
                NotionBlockId { id: id.clone(), block_type: t.clone() },
            ),
            _ => None,
        },
        _ => None,
    }
}

/// Reads a block listing body into block identities; `None` exactly
/// when the body is not well-formed JSON of the listing shape.
#[verifier::loop_isolation(false)]
pub fn parse_block_ids(body: &str) -> (r: Option<Vec<NotionBlockId>>)
    ensures
        r matches Some(v) ==> json_parse_spec(body@) matches Some(j) && json_to_block_ids(j)
            == Some(block_id_views(v@)),
        r is None ==> (json_parse_spec(body@) is None || (json_parse_spec(body@) matches Some(j)
            && json_to_block_ids(j) is None)),
{
    match parse_json_text(body) {
        Some(jv) => match &jv {
            JsonValue::Obj(ms) => match lookup(ms, "results") {
                Some(rv) => match rv {
                    JsonValue::Arr(elts) => {
                        let ghost m = crate::json::jv_models(elts@);
                        proof {
                            crate::json::lemma_jv_models_index(elts@);
                        }
                        let mut acc: Vec<NotionBlockId> = Vec::new();
                        let mut i: usize = 0;
                        proof {
                            assert(m.skip(0) =~= m);
                        }
                        while i < elts.len()
                            invariant
                                i <= elts.len(),
                                acc@.len() == i,
                                json_to_block_id_seq(m.skip(i as int)) matches Some(rest)
                                    ==> json_to_block_id_seq(m) == Some(
                                    block_id_views(acc@) + rest,
                                ),
                                json_to_block_id_seq(m.skip(i as int)) is None
                                    ==> json_to_block_id_seq(m) is None,
                            decreases elts@.len() - i,
                        {
                            let d = decode_block_id(&elts[i]);
                            match d {
                                Some(b) => {
                                    proof {
                                        assert(m.skip(i as int)[0] == m[i as int]);
                                        assert(m.skip(i as int).drop_first() =~= m.skip(
                                            i as int + 1,
                                        ));
                                        assert(block_id_views(acc@.push(b)) =~= block_id_views(
                                            acc@,
                                        ).push((b.id@, b.block_type@)));
                                        match json_to_block_id_seq(m.skip(i as int + 1)) {
                                            Some(rest2) => {
                                                assert(block_id_views(acc@).push(
                                                    (b.id@, b.block_type@),
                                                ) + rest2 =~= block_id_views(acc@) + (
                                                seq![(b.id@, b.block_type@)] + rest2));
                                            },
                                            None => {},
                                        }
                                    }
                                    acc.push(b);
                                    i += 1;
                                },
                                None => {
                                    proof {
                                        assert(m.skip(i as int)[0] == m[i as int]);
                                    }
                                    return None;
                                },
                            }
                        }
                        proof {
                            assert(m.skip(i as int) =~= Seq::<JsonModel>::empty());
                            assert(block_id_views(acc@) + Seq::<(Seq<char>, Seq<char>)>::empty()
                                =~= block_id_views(acc@));
                        }
                        Some(acc)
                    },
                    _ => None,
                },
                None => None,
            },
            _ => None,
        },
        None => None,
    }
}

/// The webhook body's page id: `data.id`, both required.
pub open spec fn webhook_id_of(j: JsonModel) -> Option<Seq<char>> {
    match j {
        JsonModel::Obj(ms) => match spec_lookup(ms, "data"@) {
            Some(JsonModel::Obj(dms)) => match spec_lookup(dms, "id"@) {
                Some(JsonModel::Str(id)) => Some(id),
                _ => None,
            },
            _ => None,
        },
        _ => None,
    }
}

/// Reads an inbound trigger body; `None` exactly when the body is not
/// well-formed JSON carrying a `data.id` string.
pub fn parse_webhook_payload(body: &str) -> (r: Option<NotionWebhookPayload>)
    ensures
        r matches Some(p) ==> json_parse_spec(body@) matches Some(j) && webhook_id_of(j) == Some(
            p.data.id@,
        ),
        r is None ==> (json_parse_spec(body@) is None || (json_parse_spec(body@) matches Some(j)
            && webhook_id_of(j) is None)),
{
    match parse_json_text(body) {
        Some(jv) => match &jv {
            JsonValue::Obj(ms) => match lookup(ms, "data") {
                Some(JsonValue::Obj(dms)) => match lookup(dms, "id") {
                    Some(JsonValue::Str(id)) => Some(
                        NotionWebhookPayload { data: NotionPageRef { id: id.clone() } },
                    ),
                    _ => None,
                },
                _ => None,
            },
            _ => None,
        },
        None => None,
    }
}

// ---------------------------------------------------------------
// Weekly aggregation and the clear step
// ---------------------------------------------------------------

/// The identities to delete when clearing a page: every listed block,
/// in order, except embedded databases and buttons, which are kept.
pub open spec fn spec_delete_plan(s: Seq<(Seq<char>, Seq<char>)>) -> Seq<Seq<char>>
    decreases s.len(),
{
    if s.len() == 0 {
        Seq::empty()
    } else {
        (if s[0].1 == "child_database"@ || s[0].1 == "button"@ {
            Seq::empty()
        } else {
            seq![s[0].0]
        }) + spec_delete_plan(s.drop_first())
    }
}

/// The block ids the clear step deletes, in listing order.
#[verifier::loop_isolation(false)]
pub fn blocks_to_delete(blocks: &Vec<NotionBlockId>) -> (r: Vec<String>)
    ensures
        str_views(r@) == spec_delete_plan(block_id_views(blocks@)),
{
    let ghost m = block_id_views(blocks@);
    let mut acc: Vec<String> = Vec::new();
    let mut i: usize = 0;
    proof {
        assert(m.skip(0) =~= m);
    }
    while i < blocks.len()
        invariant
            i <= blocks.len(),
            spec_delete_plan(m) == str_views(acc@) + spec_delete_plan(m.skip(i as int)),
        decreases blocks@.len() - i,
    {
        proof {
            assert(m.skip(i as int)[0] == m[i as int]);
            assert(m.skip(i as int).drop_first() =~= m.skip(i as int + 1));
        }
        let keep = crate::text::str_eq(blocks[i].block_type.as_str(), "child_database")
            || crate::text::str_eq(blocks[i].block_type.as_str(), "button");
        if !keep {
            let id = blocks[i].id.clone();
            proof {
                assert(str_views(acc@.push(id)) =~= str_views(acc@).push(id@));
                assert(str_views(acc@).push(id@) + spec_delete_plan(m.skip(i as int + 1))
                    =~= str_views(acc@) + (seq![id@] + spec_delete_plan(m.skip(i as int + 1))));
            }
            acc.push(id);
        } else {
            proof {
                assert(Seq::<Seq<char>>::empty() + spec_delete_plan(m.skip(i as int + 1))
                    =~= spec_delete_plan(m.skip(i as int + 1)));
            }
        }
        i += 1;
    }
    proof {
        assert(m.skip(i as int) =~= Seq::<(Seq<char>, Seq<char>)>::empty());
        assert(str_views(acc@) + Seq::<Seq<char>>::empty() =~= str_views(acc@));
    }
    acc
}

pub open spec fn entry_views(v: Seq<(String, Option<NotionPageDetail>)>) -> Seq<
    (Seq<char>, Option<Seq<BlockModel>>),
> {
    Seq::new(
        v.len(),
        |i: int|
            (
                v[i].0@,
                match v[i].1 {
                    Some(d) => Some(block_models(d.body.results@)),
                    None => None,
                },
            ),
    )
}

/// What one queried entry contributes to the aggregate: nothing when
/// its fetch failed or its text is blank, else its text framed by a
/// delimiter line naming the entry.
pub open spec fn entry_contribution(e: (Seq<char>, Option<Seq<BlockModel>>)) -> Seq<char> {
    match e.1 {
        Some(bs) => {
            let t = spec_page_text(bs);
            if crate::text::spec_all_ws(t) {
                Seq::empty()
            } else {
                "\n--- Diary Entry ("@ + e.0 + ") ---\n"@ + t + "\n"@
            }
        },
        None => Seq::empty(),
    }
}

/// The aggregate text of the week: each kept entry's contribution, in
/// query order.
pub open spec fn spec_aggregate(es: Seq<(Seq<char>, Option<Seq<BlockModel>>)>) -> Seq<char>
    decreases es.len(),
{
    if es.len() == 0 {
        Seq::empty()
    } else {
        entry_contribution(es[0]) + spec_aggregate(es.drop_first())
    }
}

/// Folds the week's fetched pages into one aggregate text. An entry
/// whose fetch failed is `None` and is skipped.
#[verifier::loop_isolation(false)]
pub fn aggregate_diary_texts(entries: &Vec<(String, Option<NotionPageDetail>)>) -> (r: String)
    ensures
        r@ == spec_aggregate(entry_views(entries@)),
{
    let ghost m = entry_views(entries@);
    let mut out = String::new();
    let mut i: usize = 0;
    proof {
        assert(m.skip(0) =~= m);
    }
    while i < entries.len()
        invariant
            i <= entries.len(),
            spec_aggregate(m) == out@ + spec_aggregate(m.skip(i as int)),
        decreases entries@.len() - i,
    {
        proof {
            assert(m.skip(i as int)[0] == m[i as int]);
            assert(m.skip(i as int).drop_first() =~= m.skip(i as int + 1));
        }
        let ghost out0 = out@;
        match &entries[i].1 {
            Some(detail) => {
                let text = extract_page_text(detail);
                if !crate::text::is_blank(text.as_str()) {
                    out.append("\n--- Diary Entry (");
                    out.append(entries[i].0.as_str());
                    out.append(") ---\n");
                    out.append(text.as_str());
                    out.append("\n");
                    proof {
                        assert(out@ =~= out0 + entry_contribution(m[i as int]));
                    }
                }
            },
            None => {},
        }
        proof {
            assert(out@ =~= out0 + entry_contribution(m[i as int]));
            assert(out@ + spec_aggregate(m.skip(i as int + 1)) =~= out0 + (entry_contribution(
                m[i as int],
            ) + spec_aggregate(m.skip(i as int + 1))));
        }
        i += 1;
    }
    proof {
        assert(m.skip(i as int) =~= Seq::<(Seq<char>, Option<Seq<BlockModel>>)>::empty());
        assert(out@ + Seq::<char>::empty() =~= out@);
    }
    out
}

/// The fixed paragraph written when the week held no diary content.
pub open spec fn no_content_message() -> Seq<char> {
    "No diary entries were found for this period."@
}

/// What the weekly pipeline does next once the aggregate is known:
/// with no content, clear and write the fixed notice, calling the
/// generator not at all; with content, send one generation request.
pub enum WeeklyAction {
    NoContent { append_body: String },
    Generate { request_body: String },
}

/// Decides the weekly pipeline's continuation from the aggregate. An
/// empty aggregate never reaches the generator.
pub fn plan_weekly_update(aggregate: String, instruction: String) -> (r: WeeklyAction)
    ensures
        aggregate@.len() == 0 ==> (r matches WeeklyAction::NoContent { append_body }
            && append_body@ == spec_ser(
            append_request_to_json(
                seq![spec_paragraph(no_content_message())],
                AppendPositionType::End,
            ),
        )),
        aggregate@.len() != 0 ==> (r matches WeeklyAction::Generate { request_body }
            && request_body@ == spec_ser(
            crate::gemini::prompt_to_json(spec_build_request(instruction@, seq![aggregate@])),
        )),
{
    if aggregate.as_str().is_empty() {
        let mut children: Vec<NotionBlock> = Vec::new();
        children.push(NotionBlock::paragraph("No diary entries were found for this period."));
        proof {
            lemma_block_models_index(children@);
            assert(block_models(children@) =~= seq![spec_paragraph(no_content_message())]);
        }
        let req = NotionAppendBlockRequest { children, position: AppendPositionType::End };
        WeeklyAction::NoContent { append_body: build_append_body(&req) }
    } else {
        let prompt = gen_weekly_report_prompt(instruction, aggregate);
        WeeklyAction::Generate { request_body: crate::gemini::build_generate_body(&prompt) }
    }
}

} // verus!
