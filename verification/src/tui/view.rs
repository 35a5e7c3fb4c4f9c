//! What is drawn, as data: spans, lines, rows, blocks and panes.
//!
//! Drawing itself happens elsewhere. Everything that decides what a frame says is a value of
//! these types.
use vstd::prelude::*;

use crate::tui::theme::{Color, Style};

verus! {

/// A stretch of text in one style.
#[derive(Clone, Debug, PartialEq, Eq)]
pub struct Span {
    pub text: String,
    pub style: Style,
}

/// A line: its spans, and the style beneath them.
#[derive(Clone, Debug, PartialEq, Eq)]
pub struct Line {
    pub spans: Vec<Span>,
    pub style: Style,
}

/// A row of a list: its lines, and the style beneath them.
#[derive(Clone, Debug, PartialEq, Eq)]
pub struct Row {
    pub lines: Vec<Line>,
    pub style: Style,
}

/// Which edges of a block are drawn.
#[derive(Clone, Copy, Debug, PartialEq, Eq, Structural)]
pub enum Edges {
    All,
    Left,
    LeftAndTop,
}

/// A frame around a pane.
#[derive(Clone, Debug, PartialEq, Eq)]
pub struct Block {
    pub edges: Edges,
    pub title: Option<Span>,
    /// The color of the edges.
    pub border: Color,
    /// The style of what is inside.
    pub style: Style,
}

/// A pane of wrapped lines, scrolled down by `offset` rows.
#[derive(Clone, Debug, PartialEq, Eq)]
pub struct TextPane {
    pub block: Block,
    pub lines: Vec<Line>,
    pub offset: u16,
}

/// A pane of rows.
#[derive(Clone, Debug, PartialEq, Eq)]
pub struct ListPane {
    pub block: Block,
    pub rows: Vec<Row>,
}

/// A part of a column: `percent` of its height.
#[derive(Clone, Debug, PartialEq, Eq)]
pub struct Rail {
    pub percent: u16,
    pub block: Block,
    pub lines: Vec<Line>,
}

/// What is inside an overlay.
#[derive(Clone, Debug, PartialEq, Eq)]
pub enum Body {
    /// Wrapped lines.
    Text(Vec<Line>),
    /// A list on the left, and rails one above the other on the right. The two columns take
    /// `list` and `detail` percent.
    Browser { list: u16, rows: Vec<Row>, detail: u16, rails: Vec<Rail> },
    /// Two fixed lines above a list.
    Menu { head: Vec<Line>, rows: Vec<Row> },
}

/// An overlay in the middle of the screen: `width` and `height` in percent.
#[derive(Clone, Debug, PartialEq, Eq)]
pub struct Popup {
    pub width: u16,
    pub height: u16,
    pub block: Block,
    pub body: Body,
}

/// What a [`Span`] says.
pub struct SpanModel {
    pub text: Seq<char>,
    pub style: Style,
}

/// What a [`Line`] says.
pub struct LineModel {
    pub spans: Seq<SpanModel>,
    pub style: Style,
}

/// What a [`Row`] says.
pub struct RowModel {
    pub lines: Seq<LineModel>,
    pub style: Style,
}

/// What a [`Block`] says.
pub struct BlockModel {
    pub edges: Edges,
    pub title: Option<SpanModel>,
    pub border: Color,
    pub style: Style,
}

/// What a [`TextPane`] says.
pub struct TextPaneModel {
    pub block: BlockModel,
    pub lines: Seq<LineModel>,
    pub offset: u16,
}

/// What a [`ListPane`] says.
pub struct ListPaneModel {
    pub block: BlockModel,
    pub rows: Seq<RowModel>,
}

/// What a [`Rail`] says.
pub struct RailModel {
    pub percent: u16,
    pub block: BlockModel,
    pub lines: Seq<LineModel>,
}

/// What a [`Body`] says.
pub enum BodyModel {
    Text(Seq<LineModel>),
    Browser { list: u16, rows: Seq<RowModel>, detail: u16, rails: Seq<RailModel> },
    Menu { head: Seq<LineModel>, rows: Seq<RowModel> },
}

/// What a [`Popup`] says.
pub struct PopupModel {
    pub width: u16,
    pub height: u16,
    pub block: BlockModel,
    pub body: BodyModel,
}

/// What spans say.
pub open spec fn span_models(v: Seq<Span>) -> Seq<SpanModel> {
    Seq::new(v.len(), |i: int| v[i]@)
}

/// What lines say.
pub open spec fn line_models(v: Seq<Line>) -> Seq<LineModel> {
    Seq::new(v.len(), |i: int| v[i]@)
}

/// What rows say.
pub open spec fn row_models(v: Seq<Row>) -> Seq<RowModel> {
    Seq::new(v.len(), |i: int| v[i]@)
}

/// What rails say.
pub open spec fn rail_models(v: Seq<Rail>) -> Seq<RailModel> {
    Seq::new(v.len(), |i: int| v[i]@)
}

/// What overlays say.
pub open spec fn popup_models(v: Seq<Popup>) -> Seq<PopupModel> {
    Seq::new(v.len(), |i: int| v[i]@)
}

impl View for Span {
    type V = SpanModel;

    open spec fn view(&self) -> SpanModel {
        SpanModel { text: self.text@, style: self.style }
    }
}

impl View for Line {
    type V = LineModel;

    open spec fn view(&self) -> LineModel {
        LineModel { spans: span_models(self.spans@), style: self.style }
    }
}

impl View for Row {
    type V = RowModel;

    open spec fn view(&self) -> RowModel {
        RowModel { lines: line_models(self.lines@), style: self.style }
    }
}

impl View for Block {
    type V = BlockModel;

    open spec fn view(&self) -> BlockModel {
        BlockModel {
            edges: self.edges,
            title: match self.title {
                Some(span) => Some(span@),
                None => None,
            },
            border: self.border,
            style: self.style,
        }
    }
}

impl View for TextPane {
    type V = TextPaneModel;

    open spec fn view(&self) -> TextPaneModel {
        TextPaneModel {
            block: self.block@,
            lines: line_models(self.lines@),
            offset: self.offset,
        }
    }
}

impl View for ListPane {
    type V = ListPaneModel;

    open spec fn view(&self) -> ListPaneModel {
        ListPaneModel { block: self.block@, rows: row_models(self.rows@) }
    }
}

impl View for Rail {
    type V = RailModel;

    open spec fn view(&self) -> RailModel {
        RailModel { percent: self.percent, block: self.block@, lines: line_models(self.lines@) }
    }
}

impl View for Body {
    type V = BodyModel;

    open spec fn view(&self) -> BodyModel {
        match self {
            Body::Text(lines) => BodyModel::Text(line_models(lines@)),
            Body::Browser { list, rows, detail, rails } => BodyModel::Browser {
                list: *list,
                rows: row_models(rows@),
                detail: *detail,
                rails: rail_models(rails@),
            },
            Body::Menu { head, rows } => BodyModel::Menu {
                head: line_models(head@),
                rows: row_models(rows@),
            },
        }
    }
}

impl View for Popup {
    type V = PopupModel;

    open spec fn view(&self) -> PopupModel {
        PopupModel {
            width: self.width,
            height: self.height,
            block: self.block@,
            body: self.body@,
        }
    }
}

/// No style of its own.
pub open spec fn unstyled() -> Style {
    Style { fg: None, bg: None, bold: false, underlined: false }
}

/// In the color `c`.
pub open spec fn colored(c: Color) -> Style {
    Style { fg: Some(c), bg: None, bold: false, underlined: false }
}

/// In the color `c`, bold.
pub open spec fn bold(c: Color) -> Style {
    Style { fg: Some(c), bg: None, bold: true, underlined: false }
}

/// In the color `c`, underlined.
pub open spec fn underlined(c: Color) -> Style {
    Style { fg: Some(c), bg: None, bold: false, underlined: true }
}

/// On the background `c`.
pub open spec fn backed(c: Color) -> Style {
    Style { fg: None, bg: Some(c), bold: false, underlined: false }
}

/// In the color `fg` on the background `bg`.
pub open spec fn painted(fg: Color, bg: Color) -> Style {
    Style { fg: Some(fg), bg: Some(bg), bold: false, underlined: false }
}

pub(crate) fn no_style() -> (r: Style)
    ensures
        r == unstyled(),
{
    Style { fg: None, bg: None, bold: false, underlined: false }
}

pub(crate) fn in_color(c: Color) -> (r: Style)
    ensures
        r == colored(c),
{
    Style { fg: Some(c), bg: None, bold: false, underlined: false }
}

pub(crate) fn in_bold(c: Color) -> (r: Style)
    ensures
        r == bold(c),
{
    Style { fg: Some(c), bg: None, bold: true, underlined: false }
}

pub(crate) fn in_underlined(c: Color) -> (r: Style)
    ensures
        r == underlined(c),
{
    Style { fg: Some(c), bg: None, bold: false, underlined: true }
}

pub(crate) fn on_color(c: Color) -> (r: Style)
    ensures
        r == backed(c),
{
    Style { fg: None, bg: Some(c), bold: false, underlined: false }
}

pub(crate) fn in_color_on(fg: Color, bg: Color) -> (r: Style)
    ensures
        r == painted(fg, bg),
{
    Style { fg: Some(fg), bg: Some(bg), bold: false, underlined: false }
}

/// A span.
pub open spec fn words(text: Seq<char>, style: Style) -> SpanModel {
    SpanModel { text, style }
}

/// A line of spans, with no style beneath them.
pub open spec fn spanned(spans: Seq<SpanModel>) -> LineModel {
    LineModel { spans, style: unstyled() }
}

/// A line of plain text over `style`. A text of several lines has a span for each.
pub open spec fn styled(text: Seq<char>, style: Style) -> LineModel {
    LineModel {
        spans: Seq::new(
            crate::lines::line_list(text).len(),
            |i: int| words(crate::lines::line_list(text)[i], unstyled()),
        ),
        style,
    }
}

/// A line with nothing on it.
pub open spec fn blank_line() -> LineModel {
    LineModel { spans: Seq::<SpanModel>::empty(), style: unstyled() }
}

pub(crate) fn span(text: &str, style: Style) -> (r: Span)
    ensures
        r@ == words(text@, style),
{
    Span { text: text.to_owned(), style }
}

pub(crate) fn empty_line() -> (r: Line)
    ensures
        r@ == blank_line(),
{
    let r = Line { spans: Vec::new(), style: no_style() };
    proof {
        assert(span_models(r.spans@) =~= Seq::<SpanModel>::empty());
    }
    r
}

pub(crate) fn text_line(text: &str, style: Style) -> (r: Line)
    ensures
        r@ == styled(text@, style),
{
    let parts: Vec<String> = crate::lines::lines(text);
    let mut spans: Vec<Span> = Vec::new();
    let mut i: usize = 0;
    while i < parts.len()
        invariant
            i <= parts@.len(),
            crate::text::texts(parts@) == crate::lines::line_list(text@),
            spans@.len() == i,
            forall|k: int| #![trigger spans@[k]]
                0 <= k < i ==> spans@[k]@ == words(crate::lines::line_list(text@)[k], unstyled()),
        decreases parts@.len() - i,
    {
        proof {
            assert(crate::lines::line_list(text@)[i as int] == parts@[i as int]@);
        }
        spans.push(span(parts[i].as_str(), no_style()));
        i = i + 1;
    }
    let r = Line { spans, style };
    proof {
        assert(span_models(r.spans@) =~= styled(text@, style).spans);
    }
    r
}

pub(crate) fn add_span(spans: &mut Vec<Span>, s: Span)
    ensures
        span_models(final(spans)@) == span_models(old(spans)@).push(s@),
{
    let ghost before = span_models(spans@);
    spans.push(s);
    proof {
        assert(span_models(spans@) =~= before.push(s@));
    }
}

pub(crate) fn no_spans() -> (r: Vec<Span>)
    ensures
        span_models(r@) == Seq::<SpanModel>::empty(),
{
    let r: Vec<Span> = Vec::new();
    proof {
        assert(span_models(r@) =~= Seq::<SpanModel>::empty());
    }
    r
}

pub(crate) fn span_line(spans: Vec<Span>) -> (r: Line)
    ensures
        r@ == spanned(span_models(spans@)),
{
    Line { spans, style: no_style() }
}

pub(crate) fn line1(a: Span) -> (r: Line)
    ensures
        r@ == spanned(seq![a@]),
{
    let mut spans: Vec<Span> = no_spans();
    add_span(&mut spans, a);
    span_line(spans)
}

pub(crate) fn line2(a: Span, b: Span) -> (r: Line)
    ensures
        r@ == spanned(seq![a@, b@]),
{
    let mut spans: Vec<Span> = no_spans();
    add_span(&mut spans, a);
    add_span(&mut spans, b);
    proof {
        assert(span_models(spans@) =~= seq![a@, b@]);
    }
    span_line(spans)
}

pub(crate) fn line3(a: Span, b: Span, c: Span) -> (r: Line)
    ensures
        r@ == spanned(seq![a@, b@, c@]),
{
    let mut spans: Vec<Span> = no_spans();
    add_span(&mut spans, a);
    add_span(&mut spans, b);
    add_span(&mut spans, c);
    proof {
        assert(span_models(spans@) =~= seq![a@, b@, c@]);
    }
    span_line(spans)
}

pub(crate) fn line4(a: Span, b: Span, c: Span, d: Span) -> (r: Line)
    ensures
        r@ == spanned(seq![a@, b@, c@, d@]),
{
    let mut spans: Vec<Span> = no_spans();
    add_span(&mut spans, a);
    add_span(&mut spans, b);
    add_span(&mut spans, c);
    add_span(&mut spans, d);
    proof {
        assert(span_models(spans@) =~= seq![a@, b@, c@, d@]);
    }
    span_line(spans)
}

pub(crate) fn no_lines() -> (r: Vec<Line>)
    ensures
        line_models(r@) == Seq::<LineModel>::empty(),
{
    let r: Vec<Line> = Vec::new();
    proof {
        assert(line_models(r@) =~= Seq::<LineModel>::empty());
    }
    r
}

pub(crate) fn add_line(lines: &mut Vec<Line>, line: Line)
    ensures
        line_models(final(lines)@) == line_models(old(lines)@).push(line@),
{
    let ghost before = line_models(lines@);
    lines.push(line);
    proof {
        assert(line_models(lines@) =~= before.push(line@));
    }
}

pub(crate) fn add_lines(lines: &mut Vec<Line>, more: Vec<Line>)
    ensures
        line_models(final(lines)@) == line_models(old(lines)@) + line_models(more@),
{
    let ghost before = line_models(lines@);
    let ghost added = line_models(more@);
    let mut more: Vec<Line> = more;
    lines.append(&mut more);
    proof {
        assert(line_models(lines@) =~= before + added);
    }
}

pub(crate) fn no_rows() -> (r: Vec<Row>)
    ensures
        row_models(r@) == Seq::<RowModel>::empty(),
{
    let r: Vec<Row> = Vec::new();
    proof {
        assert(row_models(r@) =~= Seq::<RowModel>::empty());
    }
    r
}

pub(crate) fn add_row(rows: &mut Vec<Row>, row: Row)
    ensures
        row_models(final(rows)@) == row_models(old(rows)@).push(row@),
{
    let ghost before = row_models(rows@);
    rows.push(row);
    proof {
        assert(row_models(rows@) =~= before.push(row@));
    }
}

/// `s` cut to `max` characters, the last of them an ellipsis where something was cut off.
pub open spec fn clipped(s: Seq<char>, max: nat) -> Seq<char> {
    if s.len() <= max {
        s
    } else {
        s.take(if max > 0 { max - 1 } else { 0 }) + crate::tui::cells::ellipsis()
    }
}

/// `s`, filled up with spaces to `n` characters.
pub open spec fn widened(s: Seq<char>, n: nat) -> Seq<char> {
    s + crate::tui::cells::spaces(
        if s.len() <= n {
            (n - s.len()) as nat
        } else {
            0
        },
    )
}

/// `text` cut to `max` characters.
pub fn truncate(text: &str, max: usize) -> (r: String)
    ensures
        r@ == clipped(text@, max as nat),
{
    let v: Vec<char> = crate::text::char_vec(text);
    if v.len() <= max {
        return text.to_owned();
    }
    let kept: usize = if max > 0 {
        max - 1
    } else {
        0
    };
    let mut r: String = crate::text::string_of(&v, 0, kept);
    proof {
        assert(v@.subrange(0, kept as int) =~= text@.take(kept as int));
    }
    let ghost before = r@;
    crate::text::push_char(&mut r, '\u{2026}');
    proof {
        assert(r@ =~= before + crate::tui::cells::ellipsis());
    }
    r
}

/// `text` filled up with spaces to `n` characters.
pub fn widen(text: &str, n: usize) -> (r: String)
    ensures
        r@ == widened(text@, n as nat),
{
    let own: String = text.to_owned();
    let len: usize = text.unicode_len();
    crate::tui::cells::pad_text(&own, len, n)
}

/// A clipped text is never longer than asked for, wherever there is room for the mark.
pub proof fn law_clipped_text_fits(s: Seq<char>, max: nat)
    requires
        max > 0,
    ensures
        clipped(s, max).len() <= max,
        s.len() <= max ==> clipped(s, max) == s,
{
}

} // verus!
