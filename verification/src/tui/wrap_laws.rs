//! What wrapping and truncating leave in place.
use crate::tui::cells::{
    broken, cells, ellipsis, kept, together, truncated, with_token, with_tokens, wrapped_line,
    ClusterModel, Filling, TokenModel,
};
use vstd::prelude::*;

verus! {

/// The cells that the first `n` stretches take.
pub open spec fn stretch_cells(ts: Seq<TokenModel>, n: int) -> nat
    decreases n,
{
    if n <= 0 {
        0
    } else {
        stretch_cells(ts, n - 1) + ts[n - 1].width
    }
}

/// The texts of the first `n` stretches, one behind the other.
pub open spec fn stretch_text(ts: Seq<TokenModel>, n: int) -> Seq<char>
    decreases n,
{
    if n <= 0 {
        Seq::<char>::empty()
    } else {
        stretch_text(ts, n - 1) + ts[n - 1].text
    }
}

proof fn lemma_fits(f: Filling, ts: Seq<TokenModel>, n: int, width: nat)
    requires
        0 <= n <= ts.len(),
        f.used + stretch_cells(ts, n) <= width,
    ensures
        ({
            let g = with_tokens(f, ts, n, width);
            &&& g.done == f.done
            &&& g.line == f.line + stretch_text(ts, n)
            &&& g.used == f.used + stretch_cells(ts, n)
        }),
    decreases n,
{
    let g = with_tokens(f, ts, n, width);
    if n > 0 {
        lemma_fits(f, ts, n - 1, width);
        assert(g.line =~= f.line + stretch_text(ts, n));
    } else {
        assert(g.line =~= f.line + stretch_text(ts, n));
    }
}

/// What fits on the line that is being filled is put on it, all of it and as it is, and no line is
/// ended for it.
pub proof fn law_what_fits_stays_on_the_line(f: Filling, ts: Seq<TokenModel>, width: nat)
    requires
        f.used + stretch_cells(ts, ts.len() as int) <= width,
    ensures
        with_tokens(f, ts, ts.len() as int, width).done == f.done,
        with_tokens(f, ts, ts.len() as int, width).line == f.line + stretch_text(
            ts,
            ts.len() as int,
        ),
{
    lemma_fits(f, ts, ts.len() as int, width);
}

/// A line that fits is not wrapped: it is shown as it is, without the white space at its end.
pub proof fn law_a_line_that_fits_is_not_wrapped(ts: Seq<TokenModel>, width: nat)
    requires
        stretch_cells(ts, ts.len() as int) <= width,
    ensures
        wrapped_line(ts, width) == seq![
            crate::text::trim_back(stretch_text(ts, ts.len() as int)),
        ],
{
    let start = Filling { done: Seq::empty(), line: Seq::<char>::empty(), used: 0 };
    lemma_fits(start, ts, ts.len() as int, width);
    assert(start.line + stretch_text(ts, ts.len() as int) =~= stretch_text(ts, ts.len() as int));
    assert(wrapped_line(ts, width) =~= seq![
        crate::text::trim_back(stretch_text(ts, ts.len() as int)),
    ]);
}

/// A stretch that no longer fits on a line ends it: what stood on the line is shown, without the
/// white space at its end, before anything of the stretch.
pub proof fn law_what_does_not_fit_ends_the_line(f: Filling, t: TokenModel, width: nat)
    requires
        t.width > 0,
        f.used > 0,
        f.used + t.width > width,
        t.width <= width,
    ensures
        ({
            let g = with_token(f, t, width);
            &&& g.done == f.done.push(crate::text::trim_back(f.line))
            &&& !crate::text::blank(t.text) ==> g.line == t.text
            &&& crate::text::blank(t.text) ==> g.line.len() == 0
        }),
{
    let g = with_token(f, t, width);
    if !crate::text::blank(t.text) {
        assert(g.line =~= t.text);
    }
}

proof fn lemma_kept(cs: Seq<ClusterModel>, room: nat)
    ensures
        kept(cs, room) <= cs.len(),
        cells(cs.take(kept(cs, room) as int)) <= room,
        kept(cs, room) < cs.len() ==> cells(cs.take(kept(cs, room) as int + 1)) > room,
    decreases cs.len(),
{
    let n = kept(cs, room) as int;
    if n == 0 {
        assert(cs.take(0).len() == 0);
        if cs.len() > 0 {
            crate::tui::cells_laws::lemma_cells_first(cs.take(1));
            assert(cs.take(1).skip(1).len() == 0);
            assert(cells(cs.take(1).skip(1)) == 0);
        }
    } else {
        let rest = (room - cs[0].width) as nat;
        lemma_kept(cs.skip(1), rest);
        assert(cs.take(n).skip(1) =~= cs.skip(1).take(n - 1));
        crate::tui::cells_laws::lemma_cells_first(cs.take(n));
        if n < cs.len() {
            assert(cs.take(n + 1).skip(1) =~= cs.skip(1).take(n));
            crate::tui::cells_laws::lemma_cells_first(cs.take(n + 1));
        }
    }
}

/// Truncating keeps as much as there is room for: the clusters that stay fit before the mark, and
/// with the next one they would not.
pub proof fn law_truncation_keeps_what_fits(
    text: Seq<char>,
    total: nat,
    cs: Seq<ClusterModel>,
    mark: nat,
    width: nat,
) -> (n: int)
    requires
        total > width,
        0 < mark <= width,
    ensures
        0 <= n <= cs.len(),
        truncated(text, total, cs, mark, width) == together(
            Seq::new(n as nat, |i: int| cs[i].text),
        ) + seq!['\u{2026}'],
        cells(cs.take(n)) + mark <= width,
        n < cs.len() ==> cells(cs.take(n + 1)) + mark > width,
{
    let room = (width - mark) as nat;
    let n = kept(cs, room) as int;
    lemma_kept(cs, room);
    assert(crate::tui::cells::cluster_texts(cs).take(n) =~= Seq::new(
        n as nat,
        |i: int| cs[i].text,
    ));
    assert(ellipsis() =~= seq!['\u{2026}']);
    n
}

/// A text that fits is not truncated, and where there is no room nothing is shown.
pub proof fn law_what_fits_is_not_truncated(
    text: Seq<char>,
    total: nat,
    cs: Seq<ClusterModel>,
    mark: nat,
    width: nat,
)
    ensures
        total <= width ==> truncated(text, total, cs, mark, width) == text,
        total > width && width == 0 ==> truncated(text, total, cs, mark, width).len() == 0,
{
}

/// Ending a line shows what stood on it, without the white space at its end, and begins an empty
/// one.
pub proof fn law_an_ended_line_is_shown(f: Filling)
    ensures
        broken(f).done == f.done.push(crate::text::trim_back(f.line)),
        broken(f).line.len() == 0,
        broken(f).used == 0,
{
}

/// A text is wrapped line by line, each as its stretches, and each stretch, and each cluster of it,
/// is as wide as it is displayed.
pub proof fn law_stretches_are_measured_as_displayed(text: Seq<char>, i: int, j: int, k: int)
    ensures
        ({
            let cut = crate::lines::pieces(text, crate::lines::Separator::LineFeed);
            let lines = crate::tui::cells::logical_lines(text);
            &&& lines.len() == cut.len()
            &&& 0 <= i < cut.len() && cut[i].len() == 0 ==> lines[i].len() == 0
            &&& 0 <= i < cut.len() && cut[i].len() > 0 ==> {
                let parts = crate::tui::cells::word_stretches_of(cut[i]);
                &&& lines[i].len() == parts.len()
                &&& 0 <= j < parts.len() ==> {
                    let clusters = crate::tui::cells::clusters_of(parts[j]);
                    &&& lines[i][j].text == parts[j]
                    &&& lines[i][j].width == crate::tui::cells::display_width(parts[j])
                    &&& lines[i][j].clusters.len() == clusters.len()
                    &&& 0 <= k < clusters.len() ==> lines[i][j].clusters[k].text == clusters[k]
                        && lines[i][j].clusters[k].width == crate::tui::cells::display_width(
                        clusters[k],
                    )
                }
            }
        }),
{
}

} // verus!
