//! The text-generation service's wire shapes: the request a prompt is
//! laid out as, the response a generation comes back as, and the
//! degrade-not-fail reading of generated block content.

use vstd::prelude::*;

verus! {

use vstd::string::StringExecFns;

broadcast use {vstd::std_specs::vec::group_vec_axioms, vstd::string::group_string_axioms};

use crate::codec::decode_block_array;
use crate::codec::json_to_blocks;
use crate::date::digit_char;
use crate::date::spec_digit;
use crate::json::JsonModel;
use crate::json::JsonValue;
use crate::json::json_parse_spec;
use crate::json::jv_model;
use crate::json::lookup;
use crate::json::parse_json_text;
use crate::json::spec_lookup;
use crate::notion::BlockModel;
use crate::notion::NotionBlock;
use crate::notion::block_models;
use crate::notion::spec_heading_3;
use crate::text::str_eq;

/// The model tiers this service is called with.
#[derive(Debug, Clone, Copy, PartialEq, Eq)]
pub enum GeminiAPIModel {
    Gemini3Flash,
    Gemini3Pro,
}

pub open spec fn spec_model_name(m: GeminiAPIModel) -> Seq<char> {
    match m {
        GeminiAPIModel::Gemini3Flash => "gemini-3-flash-preview"@,
        GeminiAPIModel::Gemini3Pro => "gemini-3-pro-preview"@,
    }
}

impl GeminiAPIModel {
    /// The wire name of the model tier.
    pub fn model_name(&self) -> (r: &'static str)
        ensures
            r@ == spec_model_name(*self),
    {
        match self {
            GeminiAPIModel::Gemini3Flash => "gemini-3-flash-preview",
            GeminiAPIModel::Gemini3Pro => "gemini-3-pro-preview",
        }
    }
}

#[derive(Debug, Clone, Copy, PartialEq, Eq)]
pub enum Role {
    User,
    Model,
}

/// One text part of a turn.
pub struct Part {
    pub text: String,
}

impl View for Part {
    type V = Seq<char>;

    open spec fn view(&self) -> Seq<char> {
        self.text@
    }
}

/// One role-tagged group of text parts.
pub struct GeminiAPIChatContent {
    pub role: Option<Role>,
    pub parts: Vec<Part>,
}

#[verifier::ext_equal]
pub struct ContentTurnModel {
    pub role: Option<Role>,
    pub parts: Seq<Seq<char>>,
}

impl View for GeminiAPIChatContent {
    type V = ContentTurnModel;

    open spec fn view(&self) -> ContentTurnModel {
        ContentTurnModel {
            role: self.role,
            parts: Seq::new(self.parts@.len(), |i: int| self.parts@[i].text@),
        }
    }
}

#[derive(Debug, Clone, Copy, PartialEq, Eq)]
pub enum ResponseMimeType {
    Text,
    Json,
}

impl Default for ResponseMimeType {
    fn default() -> (r: Self)
        ensures
            r == ResponseMimeType::Text,
    {
        ResponseMimeType::Text
    }
}

/// Fixed sampling configuration. The temperature is held in tenths,
/// so the default of eight tenths reaches the wire as `0.8`.
#[derive(Debug, Clone, Copy, PartialEq, Eq)]
pub struct GenerationConfig {
    pub temperature_tenths: u8,
    pub response_mime_type: ResponseMimeType,
}

pub open spec fn spec_default_generation_config() -> GenerationConfig {
    GenerationConfig { temperature_tenths: 8, response_mime_type: ResponseMimeType::Json }
}

impl Default for GenerationConfig {
    fn default() -> (r: Self)
        ensures
            r == spec_default_generation_config(),
    {
        GenerationConfig { temperature_tenths: 8, response_mime_type: ResponseMimeType::Json }
    }
}

/// A full generation request.
pub struct GeminiAPIPrompt {
    pub contents: Vec<GeminiAPIChatContent>,
    pub system_instruction: Option<GeminiAPIChatContent>,
    pub generation_config: Option<GenerationConfig>,
}

#[verifier::ext_equal]
pub struct PromptModel {
    pub contents: Seq<ContentTurnModel>,
    pub system_instruction: Option<ContentTurnModel>,
    pub generation_config: Option<GenerationConfig>,
}

impl View for GeminiAPIPrompt {
    type V = PromptModel;

    open spec fn view(&self) -> PromptModel {
        PromptModel {
            contents: Seq::new(self.contents@.len(), |i: int| self.contents@[i]@),
            system_instruction: match self.system_instruction {
                Some(c) => Some(c@),
                None => None,
            },
            generation_config: self.generation_config,
        }
    }
}

/// One candidate completion.
pub struct GeminiAPICandidate {
    pub content: GeminiAPIChatContent,
}

/// A generation response: its candidate completions.
pub struct GeminiAPIResponse {
    pub candidates: Vec<GeminiAPICandidate>,
}

#[verifier::ext_equal]
pub struct ResponseModel {
    pub candidates: Seq<ContentTurnModel>,
}

impl View for GeminiAPIResponse {
    type V = ResponseModel;

    open spec fn view(&self) -> ResponseModel {
        ResponseModel {
            candidates: Seq::new(self.candidates@.len(), |i: int| self.candidates@[i].content@),
        }
    }
}

pub open spec fn role_name(r: Role) -> Seq<char> {
    match r {
        Role::User => "user"@,
        Role::Model => "model"@,
    }
}

pub open spec fn mime_name(m: ResponseMimeType) -> Seq<char> {
    match m {
        ResponseMimeType::Text => "text/plain"@,
        ResponseMimeType::Json => "application/json"@,
    }
}

/// The decimal text of a tenths value: `8` reads `0.8`, `12` reads
/// `1.2`, `255` reads `25.5`.
pub open spec fn tenths_text(t: int) -> Seq<char> {
    let whole = t / 10;
    let frac = t % 10;
    (if whole >= 10 {
        seq![spec_digit(whole / 10), spec_digit(whole % 10)]
    } else {
        seq![spec_digit(whole)]
    }) + seq!['.', spec_digit(frac)]
}

fn tenths_to_string(t: u8) -> (r: String)
    ensures
        r@ == tenths_text(t as int),
{
    let mut out = String::new();
    let whole = t / 10;
    let frac = t % 10;
    if whole >= 10 {
        out.push(digit_char(whole / 10));
        out.push(digit_char(whole % 10));
    } else {
        out.push(digit_char(whole));
    }
    out.push('.');
    out.push(digit_char(frac));
    assert(out@ =~= tenths_text(t as int));
    out
}

pub open spec fn config_to_json(c: GenerationConfig) -> JsonModel {
    JsonModel::Obj(
        seq![
            ("temperature"@, JsonModel::Num(tenths_text(c.temperature_tenths as int))),
            ("responseMimeType"@, JsonModel::Str(mime_name(c.response_mime_type))),
        ],
    )
}

pub open spec fn part_to_json(p: Seq<char>) -> JsonModel {
    JsonModel::Obj(seq![("text"@, JsonModel::Str(p))])
}

pub open spec fn turn_to_json(t: ContentTurnModel) -> JsonModel {
    JsonModel::Obj(
        seq![
            (
                "role"@,
                match t.role {
                    Some(r) => JsonModel::Str(role_name(r)),
                    None => JsonModel::Null,
                },
            ),
            ("parts"@, JsonModel::Arr(Seq::new(t.parts.len(), |i: int| part_to_json(t.parts[i])))),
        ],
    )
}

/// The request body: contents, then the optional system instruction,
/// then the optional generation configuration, absent ones as null.
pub open spec fn prompt_to_json(p: PromptModel) -> JsonModel {
    JsonModel::Obj(
        seq![
            (
                "contents"@,
                JsonModel::Arr(Seq::new(p.contents.len(), |i: int| turn_to_json(p.contents[i]))),
            ),
            (
                "systemInstruction"@,
                match p.system_instruction {
                    Some(t) => turn_to_json(t),
                    None => JsonModel::Null,
                },
            ),
            (
                "generationConfig"@,
                match p.generation_config {
                    Some(c) => config_to_json(c),
                    None => JsonModel::Null,
                },
            ),
        ],
    )
}

fn encode_config(c: &GenerationConfig) -> (r: JsonValue)
    ensures
        r@ == config_to_json(*c),
{
    let mut ms: Vec<(String, JsonValue)> = Vec::new();
    ms.push((String::from_str("temperature"), JsonValue::Num(tenths_to_string(c.temperature_tenths))));
    let mime = match c.response_mime_type {
        ResponseMimeType::Text => String::from_str("text/plain"),
        ResponseMimeType::Json => String::from_str("application/json"),
    };
    ms.push((String::from_str("responseMimeType"), JsonValue::Str(mime)));
    proof {
        crate::json::lemma_member_models_are(ms@, config_to_json(*c)->Obj_0);
    }
    JsonValue::Obj(ms)
}

fn encode_turn(t: &GeminiAPIChatContent) -> (r: JsonValue)
    ensures
        r@ == turn_to_json(t@),
{
    let mut ms: Vec<(String, JsonValue)> = Vec::new();
    let role = match t.role {
        Some(Role::User) => JsonValue::Str(String::from_str("user")),
        Some(Role::Model) => JsonValue::Str(String::from_str("model")),
        None => JsonValue::Null,
    };
    ms.push((String::from_str("role"), role));
    let mut parts: Vec<JsonValue> = Vec::new();
    let mut i: usize = 0;
    while i < t.parts.len()
        invariant
            i <= t.parts.len(),
            parts@.len() == i,
            forall|k: int|
                0 <= k < i ==> jv_model(#[trigger] parts@[k]) == part_to_json(t.parts@[k].text@),
        decreases t.parts@.len() - i,
    {
        let mut pms: Vec<(String, JsonValue)> = Vec::new();
        pms.push((String::from_str("text"), JsonValue::Str(t.parts[i].text.clone())));
        proof {
            crate::json::lemma_member_models_are(pms@, part_to_json(t.parts@[i as int].text@)->Obj_0);
        }
        parts.push(JsonValue::Obj(pms));
        i += 1;
    }
    proof {
        crate::json::lemma_models_are(parts@, turn_to_json(t@)->Obj_0[1].1->Arr_0);
    }
    ms.push((String::from_str("parts"), JsonValue::Arr(parts)));
    proof {
        crate::json::lemma_member_models_are(ms@, turn_to_json(t@)->Obj_0);
    }
    JsonValue::Obj(ms)
}

/// Lays a prompt out as the JSON tree the generation service expects.
pub fn encode_prompt(p: &GeminiAPIPrompt) -> (r: JsonValue)
    ensures
        r@ == prompt_to_json(p@),
{
    let mut ms: Vec<(String, JsonValue)> = Vec::new();
    let mut turns: Vec<JsonValue> = Vec::new();
    let mut i: usize = 0;
    while i < p.contents.len()
        invariant
            i <= p.contents.len(),
            turns@.len() == i,
            forall|k: int|
                0 <= k < i ==> jv_model(#[trigger] turns@[k]) == turn_to_json(p.contents@[k]@),
        decreases p.contents@.len() - i,
    {
        let e = encode_turn(&p.contents[i]);
        turns.push(e);
        i += 1;
    }
    proof {
        crate::json::lemma_models_are(turns@, prompt_to_json(p@)->Obj_0[0].1->Arr_0);
    }
    ms.push((String::from_str("contents"), JsonValue::Arr(turns)));
    let system = match &p.system_instruction {
        Some(t) => encode_turn(t),
        None => JsonValue::Null,
    };
    ms.push((String::from_str("systemInstruction"), system));
    let config = match &p.generation_config {
        Some(c) => encode_config(c),
        None => JsonValue::Null,
    };
    ms.push((String::from_str("generationConfig"), config));
    proof {
        crate::json::lemma_member_models_are(ms@, prompt_to_json(p@)->Obj_0);
    }
    JsonValue::Obj(ms)
}

/// The request body text for a prompt.
pub fn build_generate_body(p: &GeminiAPIPrompt) -> (r: String)
    ensures
        r@ == crate::json::spec_ser(prompt_to_json(p@)),
{
    let v = encode_prompt(p);
    crate::json::to_json_text(&v)
}

/// The role field of an inbound turn: absent or null means no role,
/// an unknown role name fails.
pub open spec fn json_to_role(v: Option<JsonModel>) -> Option<Option<Role>> {
    match v {
        None => Some(None),
        Some(JsonModel::Null) => Some(None),
        Some(JsonModel::Str(s)) => if s == "user"@ {
            Some(Some(Role::User))
        } else if s == "model"@ {
            Some(Some(Role::Model))
        } else {
            None
        },
        Some(_) => None,
    }
}

/// One inbound part: an object with a required string `text`.
pub open spec fn json_to_part(j: JsonModel) -> Option<Seq<char>> {
    match j {
        JsonModel::Obj(ms) => match spec_lookup(ms, "text"@) {
            Some(JsonModel::Str(s)) => Some(s),
            _ => None,
        },
        _ => None,
    }
}

pub open spec fn json_to_parts(elts: Seq<JsonModel>) -> Option<Seq<Seq<char>>>
    decreases elts,
{
    if elts.len() == 0 {
        Some(Seq::empty())
    } else {
        match json_to_part(elts[0]) {
            Some(p) => match json_to_parts(elts.drop_first()) {
                Some(rest) => Some(seq![p] + rest),
                None => None,
            },
            None => None,
        }
    }
}

/// One inbound turn: an optional role and a required part array.
pub open spec fn json_to_turn(j: JsonModel) -> Option<ContentTurnModel> {
    match j {
        JsonModel::Obj(ms) => match json_to_role(spec_lookup(ms, "role"@)) {
            Some(role) => match spec_lookup(ms, "parts"@) {
                Some(JsonModel::Arr(elts)) => match json_to_parts(elts) {
                    Some(parts) => Some(ContentTurnModel { role, parts }),
                    None => None,
                },
                _ => None,
            },
            None => None,
        },
        _ => None,
    }
}

/// One candidate: an object with a required `content` turn.
pub open spec fn json_to_candidate(j: JsonModel) -> Option<ContentTurnModel> {
    match j {
        JsonModel::Obj(ms) => match spec_lookup(ms, "content"@) {
            Some(cj) => json_to_turn(cj),
            None => None,
        },
        _ => None,
    }
}

pub open spec fn json_to_candidates(elts: Seq<JsonModel>) -> Option<Seq<ContentTurnModel>>
    decreases elts,
{
    if elts.len() == 0 {
        Some(Seq::empty())
    } else {
        match json_to_candidate(elts[0]) {
            Some(c) => match json_to_candidates(elts.drop_first()) {
                Some(rest) => Some(seq![c] + rest),
                None => None,
            },
            None => None,
        }
    }
}

/// A whole response: an object with a required candidate array.
pub open spec fn json_to_response(j: JsonModel) -> Option<ResponseModel> {
    match j {
        JsonModel::Obj(ms) => match spec_lookup(ms, "candidates"@) {
            Some(JsonModel::Arr(elts)) => match json_to_candidates(elts) {
                Some(candidates) => Some(ResponseModel { candidates }),
                None => None,
            },
            _ => None,
        },
        _ => None,
    }
}

fn decode_part(j: &JsonValue) -> (r: Option<Part>)
    ensures
        r matches Some(p) ==> json_to_part(j@) == Some(p.text@),
        r is None ==> json_to_part(j@) is None,
{
    match j {
        JsonValue::Obj(ms) => match lookup(ms, "text") {
            Some(JsonValue::Str(s)) => Some(Part { text: s.clone() }),
            _ => None,
        },
        _ => None,
    }
}

#[verifier::loop_isolation(false)]
fn decode_turn(j: &JsonValue) -> (r: Option<GeminiAPIChatContent>)
    ensures
        r matches Some(t) ==> json_to_turn(j@) == Some(t@),
        r is None ==> json_to_turn(j@) is None,
{
    match j {
        JsonValue::Obj(ms) => {
            let role: Option<Role> = match lookup(ms, "role") {
                None => None,
                Some(JsonValue::Null) => None,
                Some(JsonValue::Str(s)) => {
                    if str_eq(s.as_str(), "user") {
                        Some(Role::User)
                    } else if str_eq(s.as_str(), "model") {
                        Some(Role::Model)
                    } else {
                        return None;
                    }
                },
                Some(_) => {
                    return None;
                },
            };
            match lookup(ms, "parts") {
                Some(pv) => match pv {
                    JsonValue::Arr(elts) => {
                        let ghost m = crate::json::jv_models(elts@);
                        proof {
                            crate::json::lemma_jv_models_index(elts@);
                        }
                        let mut acc: Vec<Part> = Vec::new();
                        let mut i: usize = 0;
                        proof {
                            assert(m.skip(0) =~= m);
                        }
                        while i < elts.len()
                            invariant
                                i <= elts.len(),
                                acc@.len() == i,
                                json_to_parts(m.skip(i as int)) matches Some(rest)
                                    ==> json_to_parts(m) == Some(part_views(acc@) + rest),
                                json_to_parts(m.skip(i as int)) is None ==> json_to_parts(m)
                                    is None,
                            decreases elts@.len() - i,
                        {
                            let d = decode_part(&elts[i]);
                            match d {
                                Some(p) => {
                                    proof {
                                        assert(m.skip(i as int)[0] == m[i as int]);
                                        assert(m.skip(i as int).drop_first() =~= m.skip(
                                            i as int + 1,
                                        ));
                                        assert(part_views(acc@.push(p)) =~= part_views(acc@).push(
                                            p.text@,
                                        ));
                                        match json_to_parts(m.skip(i as int + 1)) {
                                            Some(rest2) => {
                                                assert(part_views(acc@).push(p.text@) + rest2
                                                    =~= part_views(acc@) + (seq![p.text@]
                                                    + rest2));
                                            },
                                            None => {},
                                        }
                                    }
                                    acc.push(p);
                                    i += 1;
                                },
                                None => {
                                    proof {
                                        assert(m.skip(i as int)[0] == m[i as int]);
                                    }
                                    return None;
                                },
                            }
                        }
                        proof {
                            assert(m.skip(i as int) =~= Seq::<JsonModel>::empty());
                            assert(part_views(acc@) + Seq::<Seq<char>>::empty() =~= part_views(
                                acc@,
                            ));
                        }
                        let t = GeminiAPIChatContent { role, parts: acc };
                        proof {
                            assert(t@.parts =~= part_views(t.parts@));
                        }
                        Some(t)
                    },
                    _ => None,
                },
                None => None,
            }
        },
        _ => None,
    }
}

pub open spec fn part_views(v: Seq<Part>) -> Seq<Seq<char>> {
    Seq::new(v.len(), |i: int| v[i].text@)
}

/// Reads a whole generation response out of a JSON tree.
#[verifier::loop_isolation(false)]
pub fn decode_response(j: &JsonValue) -> (r: Option<GeminiAPIResponse>)
    ensures
        r matches Some(resp) ==> json_to_response(j@) == Some(resp@),
        r is None ==> json_to_response(j@) is None,
{
    match j {
        JsonValue::Obj(ms) => match lookup(ms, "candidates") {
            Some(cv) => match cv {
                JsonValue::Arr(elts) => {
                    let ghost m = crate::json::jv_models(elts@);
                    proof {
                        crate::json::lemma_jv_models_index(elts@);
                    }
                    let mut acc: Vec<GeminiAPICandidate> = Vec::new();
                    let mut i: usize = 0;
                    proof {
                        assert(m.skip(0) =~= m);
                    }
                    while i < elts.len()
                        invariant
                            i <= elts.len(),
                            acc@.len() == i,
                            json_to_candidates(m.skip(i as int)) matches Some(rest)
                                ==> json_to_candidates(m) == Some(candidate_views(acc@) + rest),
                            json_to_candidates(m.skip(i as int)) is None ==> json_to_candidates(m)
                                is None,
                        decreases elts@.len() - i,
                    {
                        let d = decode_candidate(&elts[i]);
                        match d {
                            Some(c) => {
                                proof {
                                    assert(m.skip(i as int)[0] == m[i as int]);
                                    assert(m.skip(i as int).drop_first() =~= m.skip(i as int + 1));
                                    assert(candidate_views(acc@.push(c)) =~= candidate_views(
                                        acc@,
                                    ).push(c.content@));
                                    match json_to_candidates(m.skip(i as int + 1)) {
                                        Some(rest2) => {
                                            assert(candidate_views(acc@).push(c.content@) + rest2
                                                =~= candidate_views(acc@) + (seq![c.content@]
                                                + rest2));
                                        },
                                        None => {},
                                    }
                                }
                                acc.push(c);
                                i += 1;
                            },
                            None => {
                                proof {
                                    assert(m.skip(i as int)[0] == m[i as int]);
                                }
                                return None;
                            },
                        }
                    }
                    proof {
                        assert(m.skip(i as int) =~= Seq::<JsonModel>::empty());
                        assert(candidate_views(acc@) + Seq::<ContentTurnModel>::empty()
                            =~= candidate_views(acc@));
                    }
                    let resp = GeminiAPIResponse { candidates: acc };
                    proof {
                        assert(resp@.candidates =~= candidate_views(resp.candidates@));
                    }
                    Some(resp)
                },
                _ => None,
            },
            None => None,
        },
        _ => None,
    }
}

pub open spec fn candidate_views(v: Seq<GeminiAPICandidate>) -> Seq<ContentTurnModel> {
    Seq::new(v.len(), |i: int| v[i].content@)
}

fn decode_candidate(j: &JsonValue) -> (r: Option<GeminiAPICandidate>)
    ensures
        r matches Some(c) ==> json_to_candidate(j@) == Some(c.content@),
        r is None ==> json_to_candidate(j@) is None,
{
    match j {
        JsonValue::Obj(ms) => match lookup(ms, "content") {
            Some(cj) => match decode_turn(cj) {
                Some(content) => Some(GeminiAPICandidate { content }),
                None => None,
            },
            None => None,
        },
        _ => None,
    }
}

/// Why a generation response could not be used.
#[derive(Debug, Clone, Copy, PartialEq, Eq)]
pub enum GenDecodeError {
    /// The response body was not the expected response shape.
    MalformedResponse,
    /// The response carried no candidates.
    NoCandidates,
    /// The first candidate carried no text parts.
    NoParts,
}

/// The fixed heading written when generated text cannot be read as
/// blocks.
pub open spec fn fallback_message() -> Seq<char> {
    "AI response generation failed"@
}

/// The single fallback block substituted for undecodable generated
/// text.
pub open spec fn fallback_blocks() -> Seq<BlockModel> {
    seq![spec_heading_3(fallback_message())]
}

/// What generated text decodes to: the block array it encodes when it
/// is well-formed, else the fixed fallback heading. This never fails.
pub open spec fn spec_blocks_from_text(text: Seq<char>) -> Seq<BlockModel> {
    match json_parse_spec(text) {
        Some(j) => match json_to_blocks(j) {
            Some(bs) => bs,
            None => fallback_blocks(),
        },
        None => fallback_blocks(),
    }
}

/// Reads generated text as blocks, degrading to the fallback heading
/// instead of failing.
pub fn blocks_from_generated_text(text: &str) -> (r: Vec<NotionBlock>)
    ensures
        block_models(r@) == spec_blocks_from_text(text@),
{
    match parse_json_text(text) {
        Some(j) => match decode_block_array(&j) {
            Some(bs) => bs,
            None => fallback_vec(),
        },
        None => fallback_vec(),
    }
}

fn fallback_vec() -> (r: Vec<NotionBlock>)
    ensures
        block_models(r@) == fallback_blocks(),
{
    let mut v: Vec<NotionBlock> = Vec::new();
    v.push(NotionBlock::heading_3("AI response generation failed"));
    proof {
        crate::notion::lemma_block_models_index(v@);
        assert(block_models(v@) =~= fallback_blocks());
    }
    v
}

/// What a whole response yields: an error for an unusable response,
/// else the (never-failing) reading of its first text part.
pub open spec fn spec_blocks_from_response(resp: ResponseModel) -> Result<
    Seq<BlockModel>,
    GenDecodeError,
> {
    if resp.candidates.len() == 0 {
        Err(GenDecodeError::NoCandidates)
    } else if resp.candidates[0].parts.len() == 0 {
        Err(GenDecodeError::NoParts)
    } else {
        Ok(spec_blocks_from_text(resp.candidates[0].parts[0]))
    }
}

/// The blocks a generation response carries: the first candidate's
/// first text part, read as blocks with the fallback policy.
pub fn generated_blocks_from_response(resp: &GeminiAPIResponse) -> (r: Result<
    Vec<NotionBlock>,
    GenDecodeError,
>)
    ensures
        r matches Ok(v) ==> spec_blocks_from_response(resp@) == Ok::<_, GenDecodeError>(
            block_models(v@),
        ),
        r matches Err(e) ==> spec_blocks_from_response(resp@) == Err::<Seq<BlockModel>, _>(e),
{
    if resp.candidates.len() == 0 {
        Err(GenDecodeError::NoCandidates)
    } else if resp.candidates[0].content.parts.len() == 0 {
        Err(GenDecodeError::NoParts)
    } else {
        Ok(blocks_from_generated_text(resp.candidates[0].content.parts[0].text.as_str()))
    }
}

/// Reads a generation response body; `MalformedResponse` exactly when
/// the body is not well-formed JSON of the response shape.
pub fn decode_generation_response(body: &str) -> (r: Result<GeminiAPIResponse, GenDecodeError>)
    ensures
        r matches Ok(resp) ==> json_parse_spec(body@) matches Some(j) && json_to_response(j)
            == Some(resp@),
        r matches Err(e) ==> e == GenDecodeError::MalformedResponse && (json_parse_spec(body@)
            is None || (json_parse_spec(body@) matches Some(j) && json_to_response(j) is None)),
{
    match parse_json_text(body) {
        Some(j) => match decode_response(&j) {
            Some(resp) => Ok(resp),
            None => Err(GenDecodeError::MalformedResponse),
        },
        None => Err(GenDecodeError::MalformedResponse),
    }
}

/// Valid generated JSON decodes as the array it encodes: the reading
/// with fallback agrees with a direct decode of the same text.
pub proof fn lemma_decode_agrees_with_direct(text: Seq<char>, j: JsonModel, bs: Seq<BlockModel>)
    requires
        json_parse_spec(text) == Some(j),
        json_to_blocks(j) == Some(bs),
    ensures
        spec_blocks_from_text(text) == bs,
{
}

/// Text that is not well-formed JSON yields exactly the one fallback
/// heading, whatever the text.
pub proof fn lemma_invalid_text_falls_back(text: Seq<char>)
    requires
        json_parse_spec(text) is None,
    ensures
        spec_blocks_from_text(text) == fallback_blocks(),
        spec_blocks_from_text(text).len() == 1,
        spec_blocks_from_text(text)[0] == spec_heading_3(fallback_message()),
{
}

/// Well-formed JSON that is not a decodable block array also yields
/// exactly the one fallback heading.
pub proof fn lemma_unshaped_text_falls_back(text: Seq<char>, j: JsonModel)
    requires
        json_parse_spec(text) == Some(j),
        json_to_blocks(j) is None,
    ensures
        spec_blocks_from_text(text) == fallback_blocks(),
{
}

} // verus!
