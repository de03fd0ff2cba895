//! The block model of the page store: richly-variant content blocks,
//! their rich-text spans, and plain-text extraction over them.

use vstd::prelude::*;

verus! {

use vstd::string::StringExecFns;

broadcast use vstd::std_specs::vec::group_vec_axioms;

use crate::json::JsonModel;
use crate::json::JsonValue;

/// A colour tag carried through annotations, never interpreted here.
#[derive(Debug, Clone, Copy, PartialEq, Eq)]
pub enum RichTextColor {
    Default,
    Red,
    Blue,
    Pink,
    Green,
    Yellow,
    Purple,
    Glay,
    Blown,
    Orange,
}

/// Formatting flags of a rich-text span, carried through but never
/// interpreted by this library.
#[derive(Debug, Clone, Copy, PartialEq, Eq)]
pub struct RichTextAnnotations {
    pub bold: bool,
    pub italic: bool,
    pub strikethrough: bool,
    pub underline: bool,
    pub code: bool,
    pub color: Option<RichTextColor>,
}

pub open spec fn spec_default_annotations() -> RichTextAnnotations {
    RichTextAnnotations {
        bold: false,
        italic: false,
        strikethrough: false,
        underline: false,
        code: false,
        color: None,
    }
}

impl Default for RichTextAnnotations {
    fn default() -> (r: Self)
        ensures
            r == spec_default_annotations(),
    {
        RichTextAnnotations {
            bold: false,
            italic: false,
            strikethrough: false,
            underline: false,
            code: false,
            color: None,
        }
    }
}

pub struct NotionLinkText {
    pub url: String,
}

pub struct NotionTextContent {
    pub content: String,
    pub link: Option<NotionLinkText>,
}

#[verifier::ext_equal]
pub struct TextContentModel {
    pub content: Seq<char>,
    pub link: Option<Seq<char>>,
}

impl View for NotionTextContent {
    type V = TextContentModel;

    open spec fn view(&self) -> TextContentModel {
        TextContentModel {
            content: self.content@,
            link: match self.link {
                Some(l) => Some(l.url@),
                None => None,
            },
        }
    }
}

impl NotionTextContent {
    pub fn new(text: &str) -> (r: Self)
        ensures
            r@ == (TextContentModel { content: text@, link: None }),
    {
        NotionTextContent { content: text.to_owned(), link: None }
    }
}

/// One styled run of text, or an uninterpreted mention or equation.
pub enum NotionRichText {
    Text { text: NotionTextContent, plain_text: Option<String>, annotations: RichTextAnnotations },
    Mention { mention: JsonValue, annotations: RichTextAnnotations, plain_text: Option<String> },
    Equation { equation: JsonValue, annotations: RichTextAnnotations, plain_text: Option<String> },
}

#[verifier::ext_equal]
pub enum RichTextModel {
    Text {
        text: TextContentModel,
        plain_text: Option<Seq<char>>,
        annotations: RichTextAnnotations,
    },
    Mention { mention: JsonModel, annotations: RichTextAnnotations, plain_text: Option<Seq<char>> },
    Equation {
        equation: JsonModel,
        annotations: RichTextAnnotations,
        plain_text: Option<Seq<char>>,
    },
}

pub open spec fn opt_str_view(o: Option<String>) -> Option<Seq<char>> {
    match o {
        Some(s) => Some(s@),
        None => None,
    }
}

impl View for NotionRichText {
    type V = RichTextModel;

    open spec fn view(&self) -> RichTextModel {
        match *self {
            NotionRichText::Text { text, plain_text, annotations } => RichTextModel::Text {
                text: text@,
                plain_text: opt_str_view(plain_text),
                annotations,
            },
            NotionRichText::Mention { mention, annotations, plain_text } => RichTextModel::Mention {
                mention: mention@,
                annotations,
                plain_text: opt_str_view(plain_text),
            },
            NotionRichText::Equation {
                equation,
                annotations,
                plain_text,
            } => RichTextModel::Equation {
                equation: equation@,
                annotations,
                plain_text: opt_str_view(plain_text),
            },
        }
    }
}

/// A span constructed from a plain string: text content, no link, no
/// wire-derived plain text, default annotations.
pub open spec fn spec_plain_rich_text(s: Seq<char>) -> RichTextModel {
    RichTextModel::Text {
        text: TextContentModel { content: s, link: None },
        plain_text: None,
        annotations: spec_default_annotations(),
    }
}

impl NotionRichText {
    fn new(text: &str) -> (r: Self)
        ensures
            r@ == spec_plain_rich_text(text@),
    {
        NotionRichText::Text {
            text: NotionTextContent::new(text),
            plain_text: None,
            annotations: RichTextAnnotations::default(),
        }
    }

    /// The plain text of the span: the wire-derived `plain_text` where
    /// present, else, for a text span, its own content.
    pub fn plain_text(&self) -> (r: Option<&String>)
        ensures
            opt_ref_view(r) == spec_span_text(self@),
    {
        match self {
            NotionRichText::Text { plain_text: Some(p), .. } => Some(p),
            NotionRichText::Text { text, plain_text: None, .. } => Some(&text.content),
            NotionRichText::Mention { plain_text, .. } => match plain_text {
                Some(p) => Some(p),
                None => None,
            },
            NotionRichText::Equation { plain_text, .. } => match plain_text {
                Some(p) => Some(p),
                None => None,
            },
        }
    }
}

pub open spec fn opt_ref_view(o: Option<&String>) -> Option<Seq<char>> {
    match o {
        Some(s) => Some(s@),
        None => None,
    }
}

/// The text one span contributes to extraction.
pub open spec fn spec_span_text(t: RichTextModel) -> Option<Seq<char>> {
    match t {
        RichTextModel::Text { text, plain_text, .. } => match plain_text {
            Some(p) => Some(p),
            None => Some(text.content),
        },
        RichTextModel::Mention { plain_text, .. } => plain_text,
        RichTextModel::Equation { plain_text, .. } => plain_text,
    }
}

pub open spec fn rt_models(s: Seq<NotionRichText>) -> Seq<RichTextModel> {
    Seq::new(s.len(), |i: int| s[i]@)
}

pub struct BlockContent {
    pub rich_text: Vec<NotionRichText>,
}

pub struct ToDoBlockContent {
    pub rich_text: Vec<NotionRichText>,
    pub checked: bool,
}

pub struct ToggleBlockContent {
    pub rich_text: Vec<NotionRichText>,
    pub children: Option<Vec<NotionBlock>>,
}

pub struct CodeBlockContent {
    pub rich_text: Vec<NotionRichText>,
    pub language: String,
}

pub struct EmptyStruct {}

/// One unit of structured page content. `Unsupported` absorbs every
/// wire tag this library does not know; it is never constructed for
/// outbound content.
pub enum NotionBlock {
    Heading1 { heading_1: BlockContent },
    Heading2 { heading_2: BlockContent },
    Heading3 { heading_3: BlockContent },
    Paragraph { paragraph: BlockContent },
    BulletedListItem { bulleted_list_item: BlockContent },
    NumberedListItem { numbered_list_item: BlockContent },
    ToDo { to_do: ToDoBlockContent },
    Toggle { toggle: ToggleBlockContent },
    Quote { quote: BlockContent },
    Callout { callout: BlockContent },
    Divider { divider: EmptyStruct },
    Code { code: CodeBlockContent },
    Unsupported,
}

#[verifier::ext_equal]
pub struct ContentModel {
    pub rich_text: Seq<RichTextModel>,
}

#[verifier::ext_equal]
pub struct ToDoModel {
    pub rich_text: Seq<RichTextModel>,
    pub checked: bool,
}

#[verifier::ext_equal]
pub struct ToggleModel {
    pub rich_text: Seq<RichTextModel>,
    pub children: Option<Seq<BlockModel>>,
}

#[verifier::ext_equal]
pub struct CodeModel {
    pub rich_text: Seq<RichTextModel>,
    pub language: Seq<char>,
}

#[verifier::ext_equal]
pub enum BlockModel {
    Heading1 { heading_1: ContentModel },
    Heading2 { heading_2: ContentModel },
    Heading3 { heading_3: ContentModel },
    Paragraph { paragraph: ContentModel },
    BulletedListItem { bulleted_list_item: ContentModel },
    NumberedListItem { numbered_list_item: ContentModel },
    ToDo { to_do: ToDoModel },
    Toggle { toggle: ToggleModel },
    Quote { quote: ContentModel },
    Callout { callout: ContentModel },
    Divider,
    Code { code: CodeModel },
    Unsupported,
}

pub open spec fn block_model(b: NotionBlock) -> BlockModel
    decreases b,
{
    match b {
        NotionBlock::Heading1 { heading_1 } => BlockModel::Heading1 {
            heading_1: ContentModel { rich_text: rt_models(heading_1.rich_text@) },
        },
        NotionBlock::Heading2 { heading_2 } => BlockModel::Heading2 {
            heading_2: ContentModel { rich_text: rt_models(heading_2.rich_text@) },
        },
        NotionBlock::Heading3 { heading_3 } => BlockModel::Heading3 {
            heading_3: ContentModel { rich_text: rt_models(heading_3.rich_text@) },
        },
        NotionBlock::Paragraph { paragraph } => BlockModel::Paragraph {
            paragraph: ContentModel { rich_text: rt_models(paragraph.rich_text@) },
        },
        NotionBlock::BulletedListItem { bulleted_list_item } => BlockModel::BulletedListItem {
            bulleted_list_item: ContentModel { rich_text: rt_models(bulleted_list_item.rich_text@) },
        },
        NotionBlock::NumberedListItem { numbered_list_item } => BlockModel::NumberedListItem {
            numbered_list_item: ContentModel { rich_text: rt_models(numbered_list_item.rich_text@) },
        },
        NotionBlock::ToDo { to_do } => BlockModel::ToDo {
            to_do: ToDoModel { rich_text: rt_models(to_do.rich_text@), checked: to_do.checked },
        },
        NotionBlock::Toggle { toggle } => BlockModel::Toggle {
            toggle: ToggleModel {
                rich_text: rt_models(toggle.rich_text@),
                children: match toggle.children {
                    Some(cs) => Some(block_models(cs@)),
                    None => None,
                },
            },
        },
        NotionBlock::Quote { quote } => BlockModel::Quote {
            quote: ContentModel { rich_text: rt_models(quote.rich_text@) },
        },
        NotionBlock::Callout { callout } => BlockModel::Callout {
            callout: ContentModel { rich_text: rt_models(callout.rich_text@) },
        },
        NotionBlock::Divider { .. } => BlockModel::Divider,
        NotionBlock::Code { code } => BlockModel::Code {
            code: CodeModel { rich_text: rt_models(code.rich_text@), language: code.language@ },
        },
        NotionBlock::Unsupported => BlockModel::Unsupported,
    }
}

pub open spec fn block_models(s: Seq<NotionBlock>) -> Seq<BlockModel>
    decreases s,
{
    if s.len() == 0 {
        Seq::empty()
    } else {
        seq![block_model(s[0])] + block_models(s.drop_first())
    }
}

pub proof fn lemma_block_models_index(s: Seq<NotionBlock>)
    ensures
        block_models(s).len() == s.len(),
        forall|i: int| 0 <= i < s.len() ==> block_models(s)[i] == block_model(#[trigger] s[i]),
    decreases s.len(),
{
    if s.len() > 0 {
        lemma_block_models_index(s.drop_first());
        assert forall|i: int| 0 <= i < s.len() implies block_models(s)[i] == block_model(
            #[trigger] s[i],
        ) by {
            if i > 0 {
                assert(s.drop_first()[i - 1] == s[i]);
                assert(block_models(s)[i] == block_models(s.drop_first())[i - 1]);
            }
        }
    }
}

pub proof fn lemma_block_models_snoc(s: Seq<NotionBlock>, x: NotionBlock)
    ensures
        block_models(s.push(x)) == block_models(s).push(block_model(x)),
{
    lemma_block_models_index(s.push(x));
    lemma_block_models_index(s);
    assert forall|i: int|
        0 <= i < s.len() + 1 implies #[trigger] block_models(s.push(x))[i] == block_models(s).push(
        block_model(x),
    )[i] by {
        assert(block_models(s.push(x))[i] == block_model(s.push(x)[i]));
        if i < s.len() {
            assert(s.push(x)[i] == s[i]);
            assert(block_models(s)[i] == block_model(s[i]));
        } else {
            assert(s.push(x)[i] == x);
        }
    }
    assert(block_models(s.push(x)) =~= block_models(s).push(block_model(x)));
}

impl View for NotionBlock {
    type V = BlockModel;

    open spec fn view(&self) -> BlockModel {
        block_model(*self)
    }
}

pub open spec fn spec_plain_content(s: Seq<char>) -> ContentModel {
    ContentModel { rich_text: seq![spec_plain_rich_text(s)] }
}

pub open spec fn spec_paragraph(s: Seq<char>) -> BlockModel {
    BlockModel::Paragraph { paragraph: spec_plain_content(s) }
}

pub open spec fn spec_heading_1(s: Seq<char>) -> BlockModel {
    BlockModel::Heading1 { heading_1: spec_plain_content(s) }
}

pub open spec fn spec_heading_2(s: Seq<char>) -> BlockModel {
    BlockModel::Heading2 { heading_2: spec_plain_content(s) }
}

pub open spec fn spec_heading_3(s: Seq<char>) -> BlockModel {
    BlockModel::Heading3 { heading_3: spec_plain_content(s) }
}

pub open spec fn spec_code_block(s: Seq<char>, language: Seq<char>) -> BlockModel {
    BlockModel::Code {
        code: CodeModel { rich_text: seq![spec_plain_rich_text(s)], language },
    }
}

impl BlockContent {
    fn new(text: &str) -> (r: Self)
        ensures
            r@ == spec_plain_content(text@),
    {
        let mut rich_text: Vec<NotionRichText> = Vec::new();
        rich_text.push(NotionRichText::new(text));
        let r = BlockContent { rich_text };
        proof {
            assert(rt_models(r.rich_text@) =~= seq![spec_plain_rich_text(text@)]);
        }
        r
    }
}

impl View for BlockContent {
    type V = ContentModel;

    open spec fn view(&self) -> ContentModel {
        ContentModel { rich_text: rt_models(self.rich_text@) }
    }
}

impl CodeBlockContent {
    fn new(text: &str, language: String) -> (r: Self)
        ensures
            r@ == (CodeModel {
                rich_text: seq![spec_plain_rich_text(text@)],
                language: language@,
            }),
    {
        let mut rich_text: Vec<NotionRichText> = Vec::new();
        rich_text.push(NotionRichText::new(text));
        let r = CodeBlockContent { rich_text, language };
        proof {
            assert(rt_models(r.rich_text@) =~= seq![spec_plain_rich_text(text@)]);
        }
        r
    }
}

impl View for CodeBlockContent {
    type V = CodeModel;

    open spec fn view(&self) -> CodeModel {
        CodeModel { rich_text: rt_models(self.rich_text@), language: self.language@ }
    }
}

impl View for ToDoBlockContent {
    type V = ToDoModel;

    open spec fn view(&self) -> ToDoModel {
        ToDoModel { rich_text: rt_models(self.rich_text@), checked: self.checked }
    }
}

impl View for ToggleBlockContent {
    type V = ToggleModel;

    open spec fn view(&self) -> ToggleModel {
        ToggleModel {
            rich_text: rt_models(self.rich_text@),
            children: match self.children {
                Some(cs) => Some(block_models(cs@)),
                None => None,
            },
        }
    }
}

impl NotionBlock {
    /// A paragraph block holding one plain-string span.
    pub fn paragraph(text: &str) -> (r: Self)
        ensures
            r@ == spec_paragraph(text@),
    {
        NotionBlock::Paragraph { paragraph: BlockContent::new(text) }
    }

    /// A level-1 heading holding one plain-string span.
    pub fn heading_1(text: &str) -> (r: Self)
        ensures
            r@ == spec_heading_1(text@),
    {
        NotionBlock::Heading1 { heading_1: BlockContent::new(text) }
    }

    /// A level-2 heading holding one plain-string span.
    pub fn heading_2(text: &str) -> (r: Self)
        ensures
            r@ == spec_heading_2(text@),
    {
        NotionBlock::Heading2 { heading_2: BlockContent::new(text) }
    }

    /// A level-3 heading holding one plain-string span.
    pub fn heading_3(text: &str) -> (r: Self)
        ensures
            r@ == spec_heading_3(text@),
    {
        NotionBlock::Heading3 { heading_3: BlockContent::new(text) }
    }

    /// A code block holding one plain-string span and a language tag.
    pub fn code(text: &str, language: String) -> (r: Self)
        ensures
            r@ == spec_code_block(text@, language@),
    {
        NotionBlock::Code { code: CodeBlockContent::new(text, language) }
    }
}

/// The concatenation, in order and with no separator, of what each
/// span contributes; spans without a text contribute nothing.
pub open spec fn spec_concat_spans(spans: Seq<RichTextModel>) -> Seq<char>
    decreases spans.len(),
{
    if spans.len() == 0 {
        Seq::empty()
    } else {
        (match spec_span_text(spans[0]) {
            Some(t) => t,
            None => Seq::empty(),
        }) + spec_concat_spans(spans.drop_first())
    }
}

proof fn lemma_concat_spans_snoc(spans: Seq<RichTextModel>, x: RichTextModel)
    ensures
        spec_concat_spans(spans.push(x)) == spec_concat_spans(spans) + (match spec_span_text(x) {
            Some(t) => t,
            None => Seq::<char>::empty(),
        }),
    decreases spans.len(),
{
    let p = spans.push(x);
    let xt = match spec_span_text(x) {
        Some(t) => t,
        None => Seq::<char>::empty(),
    };
    if spans.len() == 0 {
        assert(p[0] == x);
        assert(p.drop_first() =~= Seq::<RichTextModel>::empty());
        assert(spec_concat_spans(Seq::<RichTextModel>::empty()) =~= Seq::<char>::empty());
        assert(spec_concat_spans(p) =~= spec_concat_spans(spans) + xt);
    } else {
        assert(p[0] == spans[0]);
        assert(p.drop_first() =~= spans.drop_first().push(x));
        lemma_concat_spans_snoc(spans.drop_first(), x);
        assert(spec_concat_spans(p) =~= spec_concat_spans(spans) + xt);
    }
}

/// Extraction over a span sequence: `None` when there are no spans at
/// all, else the concatenated text (which may be empty).
pub open spec fn spec_extract_rich(spans: Seq<RichTextModel>) -> Option<Seq<char>> {
    if spans.len() == 0 {
        None
    } else {
        Some(spec_concat_spans(spans))
    }
}

/// The capability of carrying rich-text spans.
pub trait HasRichText {
    spec fn spec_rich_text(&self) -> Seq<RichTextModel>;

    fn get_rich_text(&self) -> (r: &Vec<NotionRichText>)
        ensures
            rt_models(r@) == self.spec_rich_text(),
    ;
}

/// The capability of yielding a flattened plain text, or of signalling
/// that there is none to yield.
pub trait ExtractText {
    spec fn spec_extract(&self) -> Option<Seq<char>>;

    fn extract_text(&self) -> (r: Option<String>)
        ensures
            r matches Some(s) ==> self.spec_extract() == Some(s@),
            r is None ==> self.spec_extract() is None,
    ;
}

impl<T: HasRichText> ExtractText for T {
    open spec fn spec_extract(&self) -> Option<Seq<char>> {
        spec_extract_rich(self.spec_rich_text())
    }

    #[verifier::loop_isolation(false)]
    fn extract_text(&self) -> (r: Option<String>) {
        let rich_text = self.get_rich_text();
        if rich_text.len() == 0 {
            return None;
        }
        let ghost m = rt_models(rich_text@);
        let mut joined = String::new();
        let mut i: usize = 0;
        proof {
            assert(m.take(0) =~= Seq::<RichTextModel>::empty());
            assert(joined@ =~= spec_concat_spans(m.take(0)));
        }
        while i < rich_text.len()
            invariant
                i <= rich_text.len(),
                joined@ == spec_concat_spans(m.take(i as int)),
            decreases rich_text.len() - i,
        {
            match rich_text[i].plain_text() {
                Some(t) => {
                    joined.append(t.as_str());
                },
                None => {},
            }
            proof {
                lemma_concat_spans_snoc(m.take(i as int), m[i as int]);
                assert(m.take(i as int + 1) =~= m.take(i as int).push(m[i as int]));
            }
            i += 1;
        }
        proof {
            assert(m.take(rich_text@.len() as int) =~= m);
        }
        Some(joined)
    }
}

impl HasRichText for BlockContent {
    open spec fn spec_rich_text(&self) -> Seq<RichTextModel> {
        self@.rich_text
    }

    fn get_rich_text(&self) -> (r: &Vec<NotionRichText>) {
        &self.rich_text
    }
}

impl HasRichText for ToDoBlockContent {
    open spec fn spec_rich_text(&self) -> Seq<RichTextModel> {
        self@.rich_text
    }

    fn get_rich_text(&self) -> (r: &Vec<NotionRichText>) {
        &self.rich_text
    }
}

impl HasRichText for ToggleBlockContent {
    open spec fn spec_rich_text(&self) -> Seq<RichTextModel> {
        self@.rich_text
    }

    fn get_rich_text(&self) -> (r: &Vec<NotionRichText>) {
        &self.rich_text
    }
}

impl HasRichText for CodeBlockContent {
    open spec fn spec_rich_text(&self) -> Seq<RichTextModel> {
        self@.rich_text
    }

    fn get_rich_text(&self) -> (r: &Vec<NotionRichText>) {
        &self.rich_text
    }
}

/// Extraction over a whole block: every textual kind yields what its
/// spans carry; `Divider` and `Unsupported` yield nothing. A toggle's
/// nested children are not walked.
pub open spec fn spec_extract_block(b: BlockModel) -> Option<Seq<char>> {
    match b {
        BlockModel::Heading1 { heading_1 } => spec_extract_rich(heading_1.rich_text),
        BlockModel::Heading2 { heading_2 } => spec_extract_rich(heading_2.rich_text),
        BlockModel::Heading3 { heading_3 } => spec_extract_rich(heading_3.rich_text),
        BlockModel::Paragraph { paragraph } => spec_extract_rich(paragraph.rich_text),
        BlockModel::BulletedListItem { bulleted_list_item } => spec_extract_rich(
            bulleted_list_item.rich_text,
        ),
        BlockModel::NumberedListItem { numbered_list_item } => spec_extract_rich(
            numbered_list_item.rich_text,
        ),
        BlockModel::ToDo { to_do } => spec_extract_rich(to_do.rich_text),
        BlockModel::Toggle { toggle } => spec_extract_rich(toggle.rich_text),
        BlockModel::Quote { quote } => spec_extract_rich(quote.rich_text),
        BlockModel::Callout { callout } => spec_extract_rich(callout.rich_text),
        BlockModel::Divider => None,
        BlockModel::Code { code } => spec_extract_rich(code.rich_text),
        BlockModel::Unsupported => None,
    }
}

/// The spans a block carries, where it carries any: every textual
/// kind has some, `Divider` and `Unsupported` have none.
pub open spec fn block_spans(b: BlockModel) -> Option<Seq<RichTextModel>> {
    match b {
        BlockModel::Heading1 { heading_1 } => Some(heading_1.rich_text),
        BlockModel::Heading2 { heading_2 } => Some(heading_2.rich_text),
        BlockModel::Heading3 { heading_3 } => Some(heading_3.rich_text),
        BlockModel::Paragraph { paragraph } => Some(paragraph.rich_text),
        BlockModel::BulletedListItem { bulleted_list_item } => Some(bulleted_list_item.rich_text),
        BlockModel::NumberedListItem { numbered_list_item } => Some(numbered_list_item.rich_text),
        BlockModel::ToDo { to_do } => Some(to_do.rich_text),
        BlockModel::Toggle { toggle } => Some(toggle.rich_text),
        BlockModel::Quote { quote } => Some(quote.rich_text),
        BlockModel::Callout { callout } => Some(callout.rich_text),
        BlockModel::Divider => None,
        BlockModel::Code { code } => Some(code.rich_text),
        BlockModel::Unsupported => None,
    }
}

/// A block built from a plain string by any of the construction
/// helpers extracts exactly that string.
pub proof fn lemma_extract_of_plain_helpers(s: Seq<char>, lang: Seq<char>)
    ensures
        spec_extract_block(spec_paragraph(s)) == Some(s),
        spec_extract_block(spec_heading_1(s)) == Some(s),
        spec_extract_block(spec_heading_2(s)) == Some(s),
        spec_extract_block(spec_heading_3(s)) == Some(s),
        spec_extract_block(spec_code_block(s, lang)) == Some(s),
{
    let spans = seq![spec_plain_rich_text(s)];
    assert(spans.drop_first() =~= Seq::<RichTextModel>::empty());
    assert(spec_concat_spans(Seq::<RichTextModel>::empty()) =~= Seq::<char>::empty());
    assert(spec_concat_spans(spans) =~= s);
}

/// A block whose span sequence is empty extracts nothing at all: the
/// block is skipped, not kept as an empty line.
pub proof fn lemma_extract_of_empty_spans(b: BlockModel)
    requires
        block_spans(b) == Some(Seq::<RichTextModel>::empty()),
    ensures
        spec_extract_block(b) is None,
{
}

impl ExtractText for NotionBlock {
    open spec fn spec_extract(&self) -> Option<Seq<char>> {
        spec_extract_block(self@)
    }

    fn extract_text(&self) -> (r: Option<String>) {
        match self {
            NotionBlock::Heading1 { heading_1 } => heading_1.extract_text(),
            NotionBlock::Heading2 { heading_2 } => heading_2.extract_text(),
            NotionBlock::Heading3 { heading_3 } => heading_3.extract_text(),
            NotionBlock::Paragraph { paragraph } => paragraph.extract_text(),
            NotionBlock::BulletedListItem { bulleted_list_item } => {
                bulleted_list_item.extract_text()
            },
            NotionBlock::NumberedListItem { numbered_list_item } => {
                numbered_list_item.extract_text()
            },
            NotionBlock::ToDo { to_do } => to_do.extract_text(),
            NotionBlock::Toggle { toggle } => toggle.extract_text(),
            NotionBlock::Quote { quote } => quote.extract_text(),
            NotionBlock::Callout { callout } => callout.extract_text(),
            NotionBlock::Divider { .. } => None,
            NotionBlock::Code { code } => code.extract_text(),
            NotionBlock::Unsupported => None,
        }
    }
}

} // verus!
