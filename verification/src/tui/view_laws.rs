//! What a line shows.
use crate::lines::{line_list, pieces, Separator};
use crate::tui::view::{
    clipped, line_models, popup_models, rail_models, row_models, span_models, styled, widened, Line,
    LineModel, Popup, Rail, Row, Span,
};
use crate::tui::theme::Style;
use vstd::prelude::*;

verus! {

/// The texts of a line's spans.
pub open spec fn span_texts(line: LineModel) -> Seq<Seq<char>> {
    Seq::new(line.spans.len(), |i: int| line.spans[i].text)
}

/// What a line says: its spans one behind the other.
pub open spec fn said(line: LineModel) -> Seq<char> {
    span_texts(line).flatten_alt()
}

/// Whether a line shows `text`, a span for each line of it.
pub open spec fn reads(line: LineModel, text: Seq<char>) -> bool {
    span_texts(line) == line_list(text)
}

/// Whether one of the lines shows `text`.
pub open spec fn told(lines: Seq<LineModel>, text: Seq<char>) -> bool {
    exists|i: int| 0 <= i < lines.len() && reads(#[trigger] lines[i], text)
}

proof fn lemma_one_piece(text: Seq<char>)
    requires
        !text.contains('\n'),
    ensures
        pieces(text, Separator::LineFeed) == seq![text],
    decreases text.len(),
{
    if text.len() == 0 {
        assert(text =~= Seq::<char>::empty());
    } else {
        let front = text.drop_last();
        assert forall|i: int| 0 <= i < front.len() implies front[i] != '\n' by {
            assert(text.contains(text[i]));
        }
        assert(text.contains(text[text.len() - 1]));
        lemma_one_piece(front);
        assert(front.push(text.last()) =~= text);
        assert(pieces(text, Separator::LineFeed) =~= seq![text]);
    }
}

/// A text without line feeds is one line, or none where it is empty.
pub proof fn lemma_one_line(text: Seq<char>)
    requires
        !text.contains('\n'),
    ensures
        text.len() > 0 ==> line_list(text) == seq![text],
        text.len() == 0 ==> line_list(text).len() == 0,
{
    lemma_one_piece(text);
    assert(line_list(text) =~= if text.len() > 0 {
        seq![text]
    } else {
        Seq::<Seq<char>>::empty()
    });
}

/// No line of a text holds a line feed.
pub proof fn lemma_lines_hold_no_feed(text: Seq<char>, i: int)
    requires
        0 <= i < line_list(text).len(),
    ensures
        !line_list(text)[i].contains('\n'),
{
    let cut = pieces(text, Separator::LineFeed);
    crate::text_laws::law_cutting_at_line_feeds_is_undone(text);
    let line = line_list(text)[i];
    assert(!cut[i].contains('\n'));
    if line.contains('\n') {
        let k = line.index_of('\n');
        assert(cut[i][k] == '\n');
        assert(cut[i].contains('\n'));
    }
}

/// A line of plain text shows the text, all of it: where the text holds no line feed the line says
/// exactly it.
pub proof fn law_a_styled_line_says_its_text(text: Seq<char>, style: Style)
    ensures
        reads(styled(text, style), text),
        styled(text, style).style == style,
        !text.contains('\n') ==> said(styled(text, style)) == text,
{
    let line = styled(text, style);
    assert(span_texts(line) =~= line_list(text));
    if !text.contains('\n') {
        lemma_one_line(text);
        let all = span_texts(line);
        if text.len() > 0 {
            assert(all.drop_last().flatten_alt() =~= Seq::<char>::empty());
            assert(all.flatten_alt() =~= text);
        } else {
            assert(all.flatten_alt() =~= text);
        }
    }
}

/// A clipped text is the text where it fits, else the beginning of it and an ellipsis, as long as
/// asked for.
pub proof fn law_clipping_keeps_the_beginning(s: Seq<char>, max: nat)
    ensures
        s.len() <= max ==> clipped(s, max) == s,
        s.len() > max && max > 0 ==> clipped(s, max).len() == max && clipped(s, max).last()
            == '\u{2026}' && clipped(s, max).drop_last() == s.take(max - 1),
{
    if s.len() > max && max > 0 {
        assert(clipped(s, max).drop_last() =~= s.take(max - 1));
    }
}

/// A widened text is the text with spaces behind it, up to the length asked for and no further.
pub proof fn law_widening_adds_only_spaces(s: Seq<char>, n: nat, i: int)
    ensures
        widened(s, n).len() == if s.len() <= n {
            n
        } else {
            s.len()
        },
        widened(s, n).take(s.len() as int) == s,
        s.len() <= i < widened(s, n).len() ==> widened(s, n)[i] == ' ',
{
    assert(widened(s, n).take(s.len() as int) =~= s);
}

/// What is said of what is drawn leaves nothing out: every overlay, row, line and span is there, in
/// order, with its own text and style.
pub proof fn law_everything_drawn_is_said(
    popups: Seq<Popup>,
    rails: Seq<Rail>,
    rows: Seq<Row>,
    lines: Seq<Line>,
    spans: Seq<Span>,
    i: int,
)
    ensures
        popup_models(popups).len() == popups.len(),
        0 <= i < popups.len() ==> popup_models(popups)[i].width == popups[i].width
            && popup_models(popups)[i].height == popups[i].height && popup_models(popups)[i].body
            == popups[i].body@ && popup_models(popups)[i].block == popups[i].block@,
        rail_models(rails).len() == rails.len(),
        0 <= i < rails.len() ==> rail_models(rails)[i].lines == line_models(rails[i].lines@)
            && rail_models(rails)[i].percent == rails[i].percent,
        row_models(rows).len() == rows.len(),
        0 <= i < rows.len() ==> row_models(rows)[i].lines == line_models(rows[i].lines@)
            && row_models(rows)[i].style == rows[i].style,
        line_models(lines).len() == lines.len(),
        0 <= i < lines.len() ==> line_models(lines)[i].spans == span_models(lines[i].spans@)
            && line_models(lines)[i].style == lines[i].style,
        span_models(spans).len() == spans.len(),
        0 <= i < spans.len() ==> span_models(spans)[i].text == spans[i].text@ && span_models(
            spans,
        )[i].style == spans[i].style,
{
}

} // verus!
