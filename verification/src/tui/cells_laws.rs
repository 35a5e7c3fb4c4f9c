//! What holds of every wrapped or truncated text.
use vstd::prelude::*;

use crate::tui::cells::{ClusterModel, Filling, TokenModel};

verus! {

/// Whether `c` is a stretch of a logical line, or a cluster of one.
pub open spec fn piece_of(ts: Seq<TokenModel>, c: ClusterModel) -> bool {
    exists|k: int| #![trigger ts[k]]
        0 <= k < ts.len() && (c == (ClusterModel { text: ts[k].text, width: ts[k].width })
            || ts[k].clusters.contains(c))
}

/// Whether all of `ps` are pieces of a logical line.
pub open spec fn pieces_of(ts: Seq<TokenModel>, ps: Seq<ClusterModel>) -> bool {
    forall|k: int| #![trigger ps[k]] 0 <= k < ps.len() ==> piece_of(ts, ps[k])
}

/// Whether `line` is what the pieces `ps` of a logical line say, without trailing white space,
/// and the cells they take add up to at most `width`.
pub open spec fn fills(
    ts: Seq<TokenModel>,
    ps: Seq<ClusterModel>,
    line: Seq<char>,
    width: nat,
) -> bool {
    &&& pieces_of(ts, ps)
    &&& line == crate::text::trim_back(
        crate::tui::cells::together(crate::tui::cells::cluster_texts(ps)),
    )
    &&& crate::tui::cells::cells(ps) <= width
}

/// Whether `line` is what some pieces of one of the logical lines say, without trailing white
/// space, and the cells they take add up to at most `width`.
pub open spec fn well_filled(lines: Seq<Seq<TokenModel>>, line: Seq<char>, width: nat) -> bool {
    exists|j: int, ps: Seq<ClusterModel>|
        0 <= j < lines.len() && #[trigger] fills(lines[j], ps, line, width)
}

/// Whether `packs` are the pieces on the ended lines of a filling, and `held` those on the line
/// that is being filled.
spec fn packed(
    ts: Seq<TokenModel>,
    f: Filling,
    packs: Seq<Seq<ClusterModel>>,
    held: Seq<ClusterModel>,
    width: nat,
) -> bool {
    &&& packs.len() == f.done.len()
    &&& forall|i: int| #![trigger packs[i]]
        0 <= i < packs.len() ==> fills(ts, packs[i], f.done[i], width)
    &&& pieces_of(ts, held)
    &&& crate::tui::cells::together(crate::tui::cells::cluster_texts(held)) == f.line
    &&& crate::tui::cells::cells(held) == f.used
    &&& f.used <= width
}

/// A piece is put behind those on the line.
proof fn lemma_pack_piece(
    ts: Seq<TokenModel>,
    f: Filling,
    packs: Seq<Seq<ClusterModel>>,
    held: Seq<ClusterModel>,
    c: ClusterModel,
    width: nat,
)
    requires
        packed(ts, f, packs, held, width),
        piece_of(ts, c),
        f.used + c.width <= width,
    ensures
        packed(
            ts,
            Filling { line: f.line + c.text, used: f.used + c.width, ..f },
            packs,
            held.push(c),
            width,
        ),
{
    let more = held.push(c);
    assert(more.drop_last() =~= held);
    assert(crate::tui::cells::cluster_texts(more).drop_last()
        =~= crate::tui::cells::cluster_texts(held));
    assert(crate::tui::cells::cluster_texts(more).last() == c.text);
}

/// The line is ended.
proof fn lemma_pack_break(
    ts: Seq<TokenModel>,
    f: Filling,
    packs: Seq<Seq<ClusterModel>>,
    held: Seq<ClusterModel>,
    width: nat,
)
    requires
        packed(ts, f, packs, held, width),
    ensures
        packed(
            ts,
            crate::tui::cells::broken(f),
            packs.push(held),
            Seq::<ClusterModel>::empty(),
            width,
        ),
{
    let none = Seq::<ClusterModel>::empty();
    assert(crate::tui::cells::cluster_texts(none).len() == 0);
    assert(crate::tui::cells::together(crate::tui::cells::cluster_texts(none)).len() == 0);
    assert(fills(ts, held, crate::text::trim_back(f.line), width));
}

proof fn lemma_pack_clusters(
    ts: Seq<TokenModel>,
    f: Filling,
    packs: Seq<Seq<ClusterModel>>,
    held: Seq<ClusterModel>,
    cs: Seq<ClusterModel>,
    n: int,
    width: nat,
) -> (r: (Seq<Seq<ClusterModel>>, Seq<ClusterModel>))
    requires
        packed(ts, f, packs, held, width),
        pieces_of(ts, cs),
        0 <= n <= cs.len(),
    ensures
        packed(ts, crate::tui::cells::with_clusters(f, cs, n, width), r.0, r.1, width),
    decreases n,
{
    if n == 0 {
        (packs, held)
    } else {
        let (packs, held) = lemma_pack_clusters(ts, f, packs, held, cs, n - 1, width);
        let g = crate::tui::cells::with_clusters(f, cs, n - 1, width);
        let c = cs[n - 1];
        let (h, packs, held) = if g.used > 0 && g.used + c.width > width {
            lemma_pack_break(ts, g, packs, held, width);
            (crate::tui::cells::broken(g), packs.push(held), Seq::<ClusterModel>::empty())
        } else {
            (g, packs, held)
        };
        if c.width <= width {
            lemma_pack_piece(ts, h, packs, held, c, width);
            (packs, held.push(c))
        } else {
            (packs, held)
        }
    }
}

proof fn lemma_pack_token(
    ts: Seq<TokenModel>,
    f: Filling,
    packs: Seq<Seq<ClusterModel>>,
    held: Seq<ClusterModel>,
    k: int,
    width: nat,
) -> (r: (Seq<Seq<ClusterModel>>, Seq<ClusterModel>))
    requires
        packed(ts, f, packs, held, width),
        0 <= k < ts.len(),
    ensures
        packed(ts, crate::tui::cells::with_token(f, ts[k], width), r.0, r.1, width),
{
    let t = ts[k];
    let whole = ClusterModel { text: t.text, width: t.width };
    assert(piece_of(ts, whole));
    if t.width == 0 {
        lemma_pack_piece(ts, f, packs, held, whole, width);
        (packs, held.push(whole))
    } else {
        let breaks = f.used > 0 && f.used + t.width > width;
        let (g, packs, held) = if breaks {
            lemma_pack_break(ts, f, packs, held, width);
            (crate::tui::cells::broken(f), packs.push(held), Seq::<ClusterModel>::empty())
        } else {
            (f, packs, held)
        };
        if breaks && crate::text::blank(t.text) {
            (packs, held)
        } else if t.width + g.used <= width {
            lemma_pack_piece(ts, g, packs, held, whole, width);
            (packs, held.push(whole))
        } else {
            assert forall|i: int| #![trigger t.clusters[i]] 0 <= i < t.clusters.len() implies piece_of(
                ts,
                t.clusters[i],
            ) by {
                assert(ts[k].clusters.contains(t.clusters[i]));
            }
            lemma_pack_clusters(ts, g, packs, held, t.clusters, t.clusters.len() as int, width)
        }
    }
}

proof fn lemma_pack_tokens(ts: Seq<TokenModel>, n: int, width: nat) -> (r: (
    Seq<Seq<ClusterModel>>,
    Seq<ClusterModel>,
))
    requires
        0 <= n <= ts.len(),
    ensures
        packed(
            ts,
            crate::tui::cells::with_tokens(
                Filling { done: Seq::empty(), line: Seq::<char>::empty(), used: 0 },
                ts,
                n,
                width,
            ),
            r.0,
            r.1,
            width,
        ),
    decreases n,
{
    let start = Filling { done: Seq::empty(), line: Seq::<char>::empty(), used: 0 };
    if n == 0 {
        let none = Seq::<ClusterModel>::empty();
        assert(crate::tui::cells::cluster_texts(none).len() == 0);
        assert(crate::tui::cells::together(crate::tui::cells::cluster_texts(none)).len() == 0);
        (Seq::empty(), none)
    } else {
        let (packs, held) = lemma_pack_tokens(ts, n - 1, width);
        lemma_pack_token(
            ts,
            crate::tui::cells::with_tokens(start, ts, n - 1, width),
            packs,
            held,
            n - 1,
            width,
        )
    }
}

/// No line is overfilled: each of the lines that a line of stretches is wrapped into is made of
/// stretches and clusters of it whose cells add up to at most `width`, and nothing else.
pub proof fn law_no_line_is_overfilled(ts: Seq<TokenModel>, width: nat, i: int)
    requires
        0 <= i < crate::tui::cells::wrapped_line(ts, width).len(),
    ensures
        exists|ps: Seq<ClusterModel>|
            fills(ts, ps, crate::tui::cells::wrapped_line(ts, width)[i], width),
{
    let start = Filling { done: Seq::empty(), line: Seq::<char>::empty(), used: 0 };
    let f = crate::tui::cells::with_tokens(start, ts, ts.len() as int, width);
    let (packs, held) = lemma_pack_tokens(ts, ts.len() as int, width);
    lemma_pack_break(ts, f, packs, held, width);
    let all = packs.push(held);
    assert(fills(ts, all[i], crate::tui::cells::wrapped_line(ts, width)[i], width));
}

/// No line of a wrapped text is overfilled: each is made of stretches and clusters of one of the
/// logical lines, and their cells add up to at most `width`.
pub proof fn law_no_wrapped_line_is_overfilled(
    lines: Seq<Seq<TokenModel>>,
    n: int,
    width: nat,
    i: int,
)
    requires
        0 <= n <= lines.len(),
        0 <= i < crate::tui::cells::wrapped_lines(lines, n, width).len(),
    ensures
        well_filled(lines, crate::tui::cells::wrapped_lines(lines, n, width)[i], width),
    decreases n,
{
    if n > 0 {
        let before = crate::tui::cells::wrapped_lines(lines, n - 1, width);
        let last = crate::tui::cells::wrapped_line(lines[n - 1], width);
        if i < before.len() {
            law_no_wrapped_line_is_overfilled(lines, n - 1, width, i);
            assert((before + last)[i] == before[i]);
        } else {
            let at = i - before.len();
            law_no_line_is_overfilled(lines[n - 1], width, at);
            let ts = lines[n - 1];
            let line = last[at];
            let ps = choose|ps: Seq<ClusterModel>| fills(ts, ps, line, width);
            assert((before + last)[i] == line);
            assert(fills(lines[n - 1], ps, (before + last)[i], width));
        }
    }
}

proof fn lemma_char_cells_sum(a: Seq<char>, b: Seq<char>)
    ensures
        crate::tui::cells::char_cells(a + b) == crate::tui::cells::char_cells(a)
            + crate::tui::cells::char_cells(b),
    decreases b.len(),
{
    if b.len() == 0 {
        assert(a + b =~= a);
    } else {
        lemma_char_cells_sum(a, b.drop_last());
        assert((a + b).drop_last() =~= a + b.drop_last());
        assert((a + b).last() == b.last());
    }
}

proof fn lemma_char_cells_trim(s: Seq<char>)
    ensures
        crate::tui::cells::char_cells(crate::text::trim_back(s)) <= crate::tui::cells::char_cells(s),
    decreases s.len(),
{
    if s.len() > 0 && crate::text::is_space(s.last()) {
        lemma_char_cells_trim(s.drop_last());
    }
}

/// Whether the piece takes as many cells as its characters do one by one.
pub open spec fn summed(c: ClusterModel) -> bool {
    c.width == crate::tui::cells::char_cells(c.text)
}

/// Pieces that take as many cells as their characters take together as many as all of these.
pub proof fn lemma_char_cells_together(ps: Seq<ClusterModel>)
    requires
        forall|k: int| #![trigger ps[k]] 0 <= k < ps.len() ==> summed(ps[k]),
    ensures
        crate::tui::cells::char_cells(
            crate::tui::cells::together(crate::tui::cells::cluster_texts(ps)),
        ) == crate::tui::cells::cells(ps),
    decreases ps.len(),
{
    let all = crate::tui::cells::cluster_texts(ps);
    if ps.len() > 0 {
        let front = ps.drop_last();
        assert(all.drop_last() =~= crate::tui::cells::cluster_texts(front));
        assert forall|k: int| #![trigger front[k]] 0 <= k < front.len() implies summed(front[k]) by {
            assert(front[k] == ps[k]);
        }
        lemma_char_cells_together(front);
        assert(summed(ps[ps.len() - 1]));
        lemma_char_cells_sum(crate::tui::cells::together(all.drop_last()), all.last());
    }
}

/// Whether the stretch and its clusters take as many cells as their characters do one by one.
pub open spec fn summed_token(t: TokenModel) -> bool {
    &&& t.width == crate::tui::cells::char_cells(t.text)
    &&& forall|i: int| #![trigger t.clusters[i]]
        0 <= i < t.clusters.len() ==> summed(t.clusters[i])
}

/// Whether the piece takes as many cells as its characters, where these stand apart.
pub open spec fn sums_up(c: ClusterModel) -> bool {
    made_of(c.text, crate::tui::cells::apart()) ==> summed(c)
}

/// Whether the stretch and its clusters take as many cells as their characters, where these
/// stand apart.
pub open spec fn token_sums_up(t: TokenModel) -> bool {
    &&& made_of(t.text, crate::tui::cells::apart()) ==> t.width == crate::tui::cells::char_cells(
        t.text,
    )
    &&& forall|i: int| #![trigger t.clusters[i]]
        0 <= i < t.clusters.len() ==> sums_up(t.clusters[i])
}

/// The stretches of a line whose characters stand apart take as many cells as their characters.
pub proof fn lemma_stretches_sum_up(ts: Seq<TokenModel>, k: int)
    requires
        made_of(crate::tui::cells::together(token_texts(ts)), crate::tui::cells::apart()),
        0 <= k < ts.len(),
        whole_token(ts[k]),
        token_sums_up(ts[k]),
    ensures
        summed_token(ts[k]),
        token_of(ts[k], crate::tui::cells::apart()),
{
    let p = crate::tui::cells::apart();
    let t = ts[k];
    lemma_parts(token_texts(ts), k, p);
    assert forall|i: int| #![trigger t.clusters[i]] 0 <= i < t.clusters.len() implies summed(
        t.clusters[i],
    ) && made_of(t.clusters[i].text, p) by {
        lemma_parts(crate::tui::cells::cluster_texts(t.clusters), i, p);
        assert(sums_up(t.clusters[i]));
    }
}

/// Where stretches and clusters take as many cells as their characters, the characters of a
/// wrapped line take at most `width` cells.
pub proof fn law_wrapped_characters_fit(
    lines: Seq<Seq<TokenModel>>,
    n: int,
    width: nat,
    i: int,
)
    requires
        0 <= n <= lines.len(),
        forall|j: int, k: int| #![trigger lines[j][k]]
            0 <= j < lines.len() && 0 <= k < lines[j].len() ==> summed_token(lines[j][k]),
        0 <= i < crate::tui::cells::wrapped_lines(lines, n, width).len(),
    ensures
        crate::tui::cells::char_cells(crate::tui::cells::wrapped_lines(lines, n, width)[i])
            <= width,
{
    law_no_wrapped_line_is_overfilled(lines, n, width, i);
    let line = crate::tui::cells::wrapped_lines(lines, n, width)[i];
    let (j, ps) = choose|j: int, ps: Seq<ClusterModel>|
        0 <= j < lines.len() && #[trigger] fills(lines[j], ps, line, width);
    assert forall|k: int| #![trigger ps[k]] 0 <= k < ps.len() implies summed(ps[k]) by {
        assert(piece_of(lines[j], ps[k]));
        let m = choose|m: int| #![trigger lines[j][m]]
            0 <= m < lines[j].len() && (ps[k] == (ClusterModel {
                text: lines[j][m].text,
                width: lines[j][m].width,
            }) || lines[j][m].clusters.contains(ps[k]));
        assert(summed_token(lines[j][m]));
        if lines[j][m].clusters.contains(ps[k]) {
            let q = lines[j][m].clusters.index_of(ps[k]);
            assert(summed(lines[j][m].clusters[q]));
        }
    }
    lemma_char_cells_together(ps);
    lemma_char_cells_trim(crate::tui::cells::together(crate::tui::cells::cluster_texts(ps)));
}

/// Whether every character of `s` is one of those that `p` admits.
pub open spec fn made_of(s: Seq<char>, p: spec_fn(char) -> bool) -> bool {
    forall|k: int| #![trigger s[k]] 0 <= k < s.len() ==> p(s[k])
}

/// The characters that can stand on a line: no control characters, so no line feeds either,
/// and no direction marks.
pub open spec fn printable() -> spec_fn(char) -> bool {
    |c: char| !crate::tui::cells::is_direction(c) && !crate::tui::cells::is_control(c)
}

/// The characters that cannot steer a terminal: the printable ones and line feeds.
pub open spec fn harmless() -> spec_fn(char) -> bool {
    |c: char|
        !crate::tui::cells::is_direction(c) && (c == '\n' || !crate::tui::cells::is_control(c))
}

/// Whether the stretch and its clusters are made of characters that `p` admits.
pub open spec fn token_of(t: TokenModel, p: spec_fn(char) -> bool) -> bool {
    &&& made_of(t.text, p)
    &&& forall|i: int| #![trigger t.clusters[i]]
        0 <= i < t.clusters.len() ==> made_of(t.clusters[i].text, p)
}

/// Whether the clusters of the stretch put together are the stretch.
pub open spec fn whole_token(t: TokenModel) -> bool {
    crate::tui::cells::together(crate::tui::cells::cluster_texts(t.clusters)) == t.text
}

/// Whether no line of a filling holds a character that `p` does not admit.
spec fn filling_of(f: Filling, p: spec_fn(char) -> bool) -> bool {
    &&& made_of(f.line, p)
    &&& forall|i: int| #![trigger f.done[i]] 0 <= i < f.done.len() ==> made_of(f.done[i], p)
}

proof fn lemma_sum(a: Seq<char>, b: Seq<char>, p: spec_fn(char) -> bool)
    requires
        made_of(a, p),
        made_of(b, p),
    ensures
        made_of(a + b, p),
{
    assert forall|k: int| #![trigger (a + b)[k]] 0 <= k < (a + b).len() implies p((a + b)[k]) by {
        if k < a.len() {
            assert((a + b)[k] == a[k]);
        } else {
            assert((a + b)[k] == b[k - a.len()]);
        }
    }
}

/// Each of the parts is made of what they are together.
pub proof fn lemma_parts(parts: Seq<Seq<char>>, i: int, p: spec_fn(char) -> bool)
    requires
        made_of(crate::tui::cells::together(parts), p),
        0 <= i < parts.len(),
    ensures
        made_of(parts[i], p),
    decreases parts.len(),
{
    let a = crate::tui::cells::together(parts.drop_last());
    let b = parts.last();
    if i == parts.len() - 1 {
        assert forall|k: int| #![trigger b[k]] 0 <= k < b.len() implies p(b[k]) by {
            assert((a + b)[k + a.len()] == b[k]);
        }
    } else {
        assert forall|k: int| #![trigger a[k]] 0 <= k < a.len() implies p(a[k]) by {
            assert((a + b)[k] == a[k]);
        }
        lemma_parts(parts.drop_last(), i, p);
    }
}

/// A line is made of what the text is made of.
pub proof fn lemma_lines_made_of(s: Seq<char>, i: int, p: spec_fn(char) -> bool)
    requires
        made_of(s, p),
        0 <= i < crate::lines::pieces(s, crate::lines::Separator::LineFeed).len(),
    ensures
        made_of(crate::lines::pieces(s, crate::lines::Separator::LineFeed)[i], p),
    decreases s.len(),
{
    let sep = crate::lines::Separator::LineFeed;
    if s.len() > 0 {
        let before = crate::lines::pieces(s.drop_last(), sep);
        crate::lines::lemma_pieces_exist(s.drop_last(), sep);
        assert forall|k: int| #![trigger s.drop_last()[k]] 0 <= k < s.drop_last().len() implies p(
            s.drop_last()[k],
        ) by {
            assert(s.drop_last()[k] == s[k]);
        }
        assert(p(s[s.len() - 1]));
        if i < before.len() {
            lemma_lines_made_of(s.drop_last(), i, p);
            if s.last() != '\n' {
                assert(made_of(seq![s.last()], p));
                lemma_sum(before[i], seq![s.last()], p);
                assert(before[i] + seq![s.last()] =~= before[i].push(s.last()));
            }
        }
    }
}

/// A line of harmless text is printable.
pub proof fn lemma_lines_are_printable(s: Seq<char>, i: int)
    requires
        crate::tui::cells::clean(s),
        0 <= i < crate::lines::pieces(s, crate::lines::Separator::LineFeed).len(),
    ensures
        made_of(
            crate::lines::pieces(s, crate::lines::Separator::LineFeed)[i],
            printable(),
        ),
    decreases s.len(),
{
    let sep = crate::lines::Separator::LineFeed;
    if s.len() > 0 {
        let before = crate::lines::pieces(s.drop_last(), sep);
        crate::lines::lemma_pieces_exist(s.drop_last(), sep);
        assert(crate::tui::cells::clean(s.drop_last())) by {
            assert forall|k: int| #![trigger s.drop_last()[k]] 0 <= k < s.drop_last().len() implies harmless()(
                s.drop_last()[k],
            ) by {
                assert(s.drop_last()[k] == s[k]);
            }
        }
        assert(s[s.len() - 1] == s.last());
        if i < before.len() {
            lemma_lines_are_printable(s.drop_last(), i);
            if s.last() != '\n' {
                assert(made_of(seq![s.last()], printable()));
                lemma_sum(before[i], seq![s.last()], printable());
                assert(before[i] + seq![s.last()] =~= before[i].push(s.last()));
            }
        }
    }
}

proof fn lemma_trim(s: Seq<char>, p: spec_fn(char) -> bool)
    requires
        made_of(s, p),
    ensures
        made_of(crate::text::trim_back(s), p),
    decreases s.len(),
{
    if s.len() > 0 && crate::text::is_space(s.last()) {
        assert forall|k: int| #![trigger s.drop_last()[k]] 0 <= k < s.drop_last().len() implies p(
            s.drop_last()[k],
        ) by {
            assert(s.drop_last()[k] == s[k]);
        }
        lemma_trim(s.drop_last(), p);
    }
}

proof fn lemma_clusters_made_of(
    f: Filling,
    cs: Seq<ClusterModel>,
    n: int,
    width: nat,
    p: spec_fn(char) -> bool,
)
    requires
        filling_of(f, p),
        0 <= n <= cs.len(),
        forall|i: int| #![trigger cs[i]] 0 <= i < cs.len() ==> made_of(cs[i].text, p),
    ensures
        filling_of(crate::tui::cells::with_clusters(f, cs, n, width), p),
    decreases n,
{
    if n > 0 {
        lemma_clusters_made_of(f, cs, n - 1, width, p);
        let g = crate::tui::cells::with_clusters(f, cs, n - 1, width);
        lemma_trim(g.line, p);
        let c = cs[n - 1];
        let h = if g.used > 0 && g.used + c.width > width {
            crate::tui::cells::broken(g)
        } else {
            g
        };
        lemma_sum(h.line, c.text, p);
    }
}

proof fn lemma_token_made_of(f: Filling, t: TokenModel, width: nat, p: spec_fn(char) -> bool)
    requires
        filling_of(f, p),
        token_of(t, p),
    ensures
        filling_of(crate::tui::cells::with_token(f, t, width), p),
{
    lemma_sum(f.line, t.text, p);
    lemma_trim(f.line, p);
    let g = if f.used > 0 && f.used + t.width > width {
        crate::tui::cells::broken(f)
    } else {
        f
    };
    lemma_sum(g.line, t.text, p);
    lemma_clusters_made_of(g, t.clusters, t.clusters.len() as int, width, p);
}

proof fn lemma_tokens_made_of(
    f: Filling,
    ts: Seq<TokenModel>,
    n: int,
    width: nat,
    p: spec_fn(char) -> bool,
)
    requires
        filling_of(f, p),
        0 <= n <= ts.len(),
        forall|i: int| #![trigger ts[i]] 0 <= i < ts.len() ==> token_of(ts[i], p),
    ensures
        filling_of(crate::tui::cells::with_tokens(f, ts, n, width), p),
    decreases n,
{
    if n > 0 {
        lemma_tokens_made_of(f, ts, n - 1, width, p);
        lemma_token_made_of(
            crate::tui::cells::with_tokens(f, ts, n - 1, width),
            ts[n - 1],
            width,
            p,
        );
    }
}

/// Wrapping a line adds no characters: its lines are made of what its stretches are made of.
pub proof fn law_wrapping_a_line_adds_nothing(
    ts: Seq<TokenModel>,
    width: nat,
    i: int,
    p: spec_fn(char) -> bool,
)
    requires
        forall|k: int| #![trigger ts[k]] 0 <= k < ts.len() ==> token_of(ts[k], p),
        0 <= i < crate::tui::cells::wrapped_line(ts, width).len(),
    ensures
        made_of(crate::tui::cells::wrapped_line(ts, width)[i], p),
{
    let start = Filling { done: Seq::empty(), line: Seq::<char>::empty(), used: 0 };
    assert(filling_of(start, p));
    lemma_tokens_made_of(start, ts, ts.len() as int, width, p);
    let f = crate::tui::cells::with_tokens(start, ts, ts.len() as int, width);
    lemma_trim(f.line, p);
}

/// Wrapping adds no characters: the lines are made of what the stretches are made of.
pub proof fn law_wrapping_adds_nothing(
    lines: Seq<Seq<TokenModel>>,
    n: int,
    width: nat,
    i: int,
    p: spec_fn(char) -> bool,
)
    requires
        0 <= n <= lines.len(),
        forall|j: int, k: int| #![trigger lines[j][k]]
            0 <= j < lines.len() && 0 <= k < lines[j].len() ==> token_of(lines[j][k], p),
        0 <= i < crate::tui::cells::wrapped_lines(lines, n, width).len(),
    ensures
        made_of(crate::tui::cells::wrapped_lines(lines, n, width)[i], p),
    decreases n,
{
    if n > 0 {
        let before = crate::tui::cells::wrapped_lines(lines, n - 1, width);
        let last = crate::tui::cells::wrapped_line(lines[n - 1], width);
        if i < before.len() {
            law_wrapping_adds_nothing(lines, n - 1, width, i, p);
            assert((before + last)[i] == before[i]);
        } else {
            law_wrapping_a_line_adds_nothing(lines[n - 1], width, i - before.len(), p);
            assert((before + last)[i] == last[i - before.len()]);
        }
    }
}

proof fn lemma_trim_twice(s: Seq<char>)
    ensures
        crate::text::trim_back(crate::text::trim_back(s)) == crate::text::trim_back(s),
    decreases s.len(),
{
    if s.len() > 0 && crate::text::is_space(s.last()) {
        lemma_trim_twice(s.drop_last());
    }
}

/// Whether none of the ended lines of a filling has trailing white space.
spec fn trimmed_lines(done: Seq<Seq<char>>) -> bool {
    forall|i: int| #![trigger done[i]]
        0 <= i < done.len() ==> crate::text::trim_back(done[i]) == done[i]
}

proof fn lemma_clusters_trimmed(f: Filling, cs: Seq<ClusterModel>, n: int, width: nat)
    requires
        trimmed_lines(f.done),
    ensures
        trimmed_lines(crate::tui::cells::with_clusters(f, cs, n, width).done),
    decreases n,
{
    if n > 0 {
        lemma_clusters_trimmed(f, cs, n - 1, width);
        lemma_trim_twice(crate::tui::cells::with_clusters(f, cs, n - 1, width).line);
    }
}

proof fn lemma_tokens_trimmed(f: Filling, ts: Seq<TokenModel>, n: int, width: nat)
    requires
        trimmed_lines(f.done),
    ensures
        trimmed_lines(crate::tui::cells::with_tokens(f, ts, n, width).done),
    decreases n,
{
    if n > 0 {
        lemma_tokens_trimmed(f, ts, n - 1, width);
        let g = crate::tui::cells::with_tokens(f, ts, n - 1, width);
        let t = ts[n - 1];
        lemma_trim_twice(g.line);
        let h = if g.used > 0 && g.used + t.width > width {
            crate::tui::cells::broken(g)
        } else {
            g
        };
        lemma_clusters_trimmed(h, t.clusters, t.clusters.len() as int, width);
    }
}

/// No wrapped line ends in white space, and every logical line gives at least one.
pub proof fn law_wrapped_lines_are_trimmed(lines: Seq<Seq<TokenModel>>, n: int, width: nat)
    requires
        0 <= n <= lines.len(),
    ensures
        crate::tui::cells::wrapped_lines(lines, n, width).len() >= n,
        forall|i: int| #![trigger crate::tui::cells::wrapped_lines(lines, n, width)[i]]
            0 <= i < crate::tui::cells::wrapped_lines(lines, n, width).len()
                ==> crate::text::trim_back(crate::tui::cells::wrapped_lines(lines, n, width)[i])
                == crate::tui::cells::wrapped_lines(lines, n, width)[i],
    decreases n,
{
    if n > 0 {
        law_wrapped_lines_are_trimmed(lines, n - 1, width);
        let start = Filling { done: Seq::empty(), line: Seq::<char>::empty(), used: 0 };
        let ts = lines[n - 1];
        lemma_tokens_trimmed(start, ts, ts.len() as int, width);
        let f = crate::tui::cells::with_tokens(start, ts, ts.len() as int, width);
        lemma_trim_twice(f.line);
        let before = crate::tui::cells::wrapped_lines(lines, n - 1, width);
        let last = crate::tui::cells::wrapped_line(ts, width);
        assert(trimmed_lines(last));
        let all = crate::tui::cells::wrapped_lines(lines, n, width);
        assert forall|i: int| #![trigger all[i]] 0 <= i < all.len() implies crate::text::trim_back(
            all[i],
        ) == all[i] by {
            if i < before.len() {
                assert(all[i] == before[i]);
            } else {
                assert(all[i] == last[i - before.len()]);
            }
        }
    }
}

/// `s` without its white space.
pub open spec fn solid(s: Seq<char>) -> Seq<char>
    decreases s.len(),
{
    if s.len() == 0 {
        Seq::<char>::empty()
    } else if crate::text::is_space(s.last()) {
        solid(s.drop_last())
    } else {
        solid(s.drop_last()).push(s.last())
    }
}

proof fn lemma_solid_sum(a: Seq<char>, b: Seq<char>)
    ensures
        solid(a + b) == solid(a) + solid(b),
    decreases b.len(),
{
    if b.len() == 0 {
        assert(a + b =~= a);
        assert(solid(a) + solid(b) =~= solid(a));
    } else {
        lemma_solid_sum(a, b.drop_last());
        assert((a + b).drop_last() =~= a + b.drop_last());
        assert((a + b).last() == b.last());
        assert((solid(a) + solid(b.drop_last())).push(b.last()) =~= solid(a) + solid(
            b.drop_last(),
        ).push(b.last()));
    }
}

proof fn lemma_solid_trim(s: Seq<char>)
    ensures
        solid(crate::text::trim_back(s)) == solid(s),
    decreases s.len(),
{
    if s.len() > 0 && crate::text::is_space(s.last()) {
        lemma_solid_trim(s.drop_last());
    }
}

proof fn lemma_solid_blank(s: Seq<char>)
    requires
        crate::text::blank(s),
    ensures
        solid(s) == Seq::<char>::empty(),
    decreases s.len(),
{
    if s.len() > 0 {
        assert(crate::text::is_space(s[s.len() - 1]));
        assert(crate::text::blank(s.drop_last())) by {
            assert forall|i: int| 0 <= i < s.drop_last().len() implies crate::text::is_space(
                #[trigger] s.drop_last()[i],
            ) by {
                assert(s.drop_last()[i] == s[i]);
            }
        }
        lemma_solid_blank(s.drop_last());
    }
}

proof fn lemma_together_sum(a: Seq<Seq<char>>, b: Seq<Seq<char>>)
    ensures
        crate::tui::cells::together(a + b) == crate::tui::cells::together(a)
            + crate::tui::cells::together(b),
    decreases b.len(),
{
    if b.len() == 0 {
        assert(a + b =~= a);
        assert(crate::tui::cells::together(a) + crate::tui::cells::together(b)
            =~= crate::tui::cells::together(a));
    } else {
        lemma_together_sum(a, b.drop_last());
        assert((a + b).drop_last() =~= a + b.drop_last());
        assert((a + b).last() == b.last());
        assert(crate::tui::cells::together(a) + (crate::tui::cells::together(b.drop_last())
            + b.last()) =~= crate::tui::cells::together(a) + crate::tui::cells::together(
            b.drop_last(),
        ) + b.last());
    }
}

/// What the lines of a filling say, without white space.
spec fn said(f: Filling) -> Seq<char> {
    solid(crate::tui::cells::together(f.done)) + solid(f.line)
}

proof fn lemma_break_says_the_same(f: Filling)
    ensures
        said(crate::tui::cells::broken(f)) == said(f),
{
    let end = crate::text::trim_back(f.line);
    assert(f.done.push(end).drop_last() =~= f.done);
    lemma_solid_sum(crate::tui::cells::together(f.done), end);
    lemma_solid_trim(f.line);
    assert(said(crate::tui::cells::broken(f)) =~= said(f));
}

proof fn lemma_line_grows(f: Filling, text: Seq<char>, used: nat)
    ensures
        said(Filling { line: f.line + text, used, ..f }) == said(f) + solid(text),
{
    lemma_solid_sum(f.line, text);
    assert(said(Filling { line: f.line + text, used, ..f }) =~= said(f) + solid(text));
}

proof fn lemma_clusters_said(f: Filling, cs: Seq<ClusterModel>, n: int, width: nat)
    requires
        0 <= n <= cs.len(),
        forall|i: int| #![trigger cs[i]] 0 <= i < cs.len() ==> cs[i].width <= width,
    ensures
        said(crate::tui::cells::with_clusters(f, cs, n, width)) == said(f) + solid(
            crate::tui::cells::together(crate::tui::cells::cluster_texts(cs).take(n)),
        ),
    decreases n,
{
    let all = crate::tui::cells::cluster_texts(cs);
    if n == 0 {
        assert(all.take(0) =~= Seq::<Seq<char>>::empty());
        assert(said(f) + Seq::<char>::empty() =~= said(f));
    } else {
        lemma_clusters_said(f, cs, n - 1, width);
        let g = crate::tui::cells::with_clusters(f, cs, n - 1, width);
        let c = cs[n - 1];
        lemma_break_says_the_same(g);
        let h = if g.used > 0 && g.used + c.width > width {
            crate::tui::cells::broken(g)
        } else {
            g
        };
        lemma_line_grows(h, c.text, h.used + c.width);
        assert(all.take(n).drop_last() =~= all.take(n - 1));
        assert(all.take(n).last() == c.text);
        let before = crate::tui::cells::together(all.take(n - 1));
        lemma_solid_sum(before, c.text);
        assert(said(f) + solid(before) + solid(c.text) =~= said(f) + (solid(before) + solid(
            c.text,
        )));
    }
}

/// Whether every cluster of the stretch fits on a line.
pub open spec fn narrow_token(t: TokenModel, width: nat) -> bool {
    forall|i: int| #![trigger t.clusters[i]]
        0 <= i < t.clusters.len() ==> t.clusters[i].width <= width
}

proof fn lemma_token_said(f: Filling, t: TokenModel, width: nat)
    requires
        whole_token(t),
        narrow_token(t, width),
    ensures
        said(crate::tui::cells::with_token(f, t, width)) == said(f) + solid(t.text),
{
    let breaks = f.used > 0 && f.used + t.width > width;
    lemma_break_says_the_same(f);
    let g = if breaks {
        crate::tui::cells::broken(f)
    } else {
        f
    };
    if t.width == 0 {
        lemma_line_grows(f, t.text, f.used);
    } else if breaks && crate::text::blank(t.text) {
        lemma_solid_blank(t.text);
        assert(said(f) + Seq::<char>::empty() =~= said(f));
    } else if t.width + g.used <= width {
        lemma_line_grows(g, t.text, g.used + t.width);
    } else {
        let all = crate::tui::cells::cluster_texts(t.clusters);
        lemma_clusters_said(g, t.clusters, t.clusters.len() as int, width);
        assert(all.take(t.clusters.len() as int) =~= all);
    }
}

/// The texts of the stretches.
pub open spec fn token_texts(ts: Seq<TokenModel>) -> Seq<Seq<char>> {
    Seq::new(ts.len(), |i: int| ts[i].text)
}

/// Whether every stretch is made of its clusters, all of which fit on a line.
pub open spec fn fitting(ts: Seq<TokenModel>, width: nat) -> bool {
    forall|i: int| #![trigger ts[i]]
        0 <= i < ts.len() ==> whole_token(ts[i]) && narrow_token(ts[i], width)
}

proof fn lemma_tokens_said(f: Filling, ts: Seq<TokenModel>, n: int, width: nat)
    requires
        0 <= n <= ts.len(),
        fitting(ts, width),
    ensures
        said(crate::tui::cells::with_tokens(f, ts, n, width)) == said(f) + solid(
            crate::tui::cells::together(token_texts(ts).take(n)),
        ),
    decreases n,
{
    let all = token_texts(ts);
    if n == 0 {
        assert(all.take(0) =~= Seq::<Seq<char>>::empty());
        assert(said(f) + Seq::<char>::empty() =~= said(f));
    } else {
        lemma_tokens_said(f, ts, n - 1, width);
        let g = crate::tui::cells::with_tokens(f, ts, n - 1, width);
        let t = ts[n - 1];
        lemma_token_said(g, t, width);
        assert(all.take(n).drop_last() =~= all.take(n - 1));
        assert(all.take(n).last() == t.text);
        let before = crate::tui::cells::together(all.take(n - 1));
        lemma_solid_sum(before, t.text);
        assert(said(f) + solid(before) + solid(t.text) =~= said(f) + (solid(before) + solid(
            t.text,
        )));
    }
}

/// Wrapping a line loses nothing but white space, where every cluster fits on a line.
pub proof fn law_wrapping_a_line_loses_only_space(ts: Seq<TokenModel>, width: nat)
    requires
        fitting(ts, width),
    ensures
        solid(crate::tui::cells::together(crate::tui::cells::wrapped_line(ts, width))) == solid(
            crate::tui::cells::together(token_texts(ts)),
        ),
{
    let start = Filling { done: Seq::empty(), line: Seq::<char>::empty(), used: 0 };
    lemma_tokens_said(start, ts, ts.len() as int, width);
    assert(token_texts(ts).take(ts.len() as int) =~= token_texts(ts));
    let f = crate::tui::cells::with_tokens(start, ts, ts.len() as int, width);
    lemma_break_says_the_same(f);
    let end = crate::tui::cells::broken(f);
    assert(said(start) =~= Seq::<char>::empty());
    assert(said(end) =~= solid(crate::tui::cells::together(end.done)));
    assert(said(start) + solid(crate::tui::cells::together(token_texts(ts))) =~= solid(
        crate::tui::cells::together(token_texts(ts)),
    ));
}

/// Wrapping loses nothing but white space, where every cluster fits on a line and `cut` are the
/// logical lines that the stretches make up.
pub proof fn law_wrapping_loses_only_space(
    lines: Seq<Seq<TokenModel>>,
    cut: Seq<Seq<char>>,
    n: int,
    width: nat,
)
    requires
        0 <= n <= lines.len(),
        cut.len() == lines.len(),
        forall|j: int| #![trigger lines[j]]
            0 <= j < lines.len() ==> fitting(lines[j], width) && crate::tui::cells::together(
                token_texts(lines[j]),
            ) == cut[j],
    ensures
        solid(crate::tui::cells::together(crate::tui::cells::wrapped_lines(lines, n, width)))
            == solid(crate::tui::cells::together(cut.take(n))),
    decreases n,
{
    if n == 0 {
        assert(cut.take(0) =~= Seq::<Seq<char>>::empty());
    } else {
        law_wrapping_loses_only_space(lines, cut, n - 1, width);
        law_wrapping_a_line_loses_only_space(lines[n - 1], width);
        let before = crate::tui::cells::wrapped_lines(lines, n - 1, width);
        let last = crate::tui::cells::wrapped_line(lines[n - 1], width);
        lemma_together_sum(before, last);
        lemma_solid_sum(crate::tui::cells::together(before), crate::tui::cells::together(last));
        assert(cut.take(n).drop_last() =~= cut.take(n - 1));
        assert(cut.take(n).last() == cut[n - 1]);
        lemma_solid_sum(crate::tui::cells::together(cut.take(n - 1)), cut[n - 1]);
    }
}

/// Cutting at line feeds loses nothing but white space.
pub proof fn lemma_lines_lose_only_space(s: Seq<char>)
    ensures
        solid(
            crate::tui::cells::together(
                crate::lines::pieces(s, crate::lines::Separator::LineFeed),
            ),
        ) == solid(s),
    decreases s.len(),
{
    let sep = crate::lines::Separator::LineFeed;
    let all = crate::lines::pieces(s, sep);
    if s.len() == 0 {
        assert(all.drop_last() =~= Seq::<Seq<char>>::empty());
        assert(crate::tui::cells::together(all.drop_last()).len() == 0);
        assert(all.last().len() == 0);
        assert(crate::tui::cells::together(all) =~= s);
    } else {
        lemma_lines_lose_only_space(s.drop_last());
        crate::lines::lemma_pieces_exist(s.drop_last(), sep);
        let before = crate::lines::pieces(s.drop_last(), sep);
        let a = crate::tui::cells::together(before);
        if s.last() == '\n' {
            assert(all.drop_last() =~= before);
            assert(crate::tui::cells::together(all) =~= a);
        } else {
            assert(all.drop_last() =~= before.drop_last());
            assert(crate::tui::cells::together(all) =~= a.push(s.last()));
            assert(a.push(s.last()).drop_last() =~= a);
        }
    }
}

proof fn lemma_together_take(parts: Seq<Seq<char>>, n: int)
    requires
        0 <= n <= parts.len(),
    ensures
        crate::tui::cells::together(parts.take(n)).len() <= crate::tui::cells::together(parts).len(),
        crate::tui::cells::together(parts.take(n)) == crate::tui::cells::together(parts).take(
            crate::tui::cells::together(parts.take(n)).len() as int,
        ),
    decreases parts.len() - n,
{
    if n == parts.len() {
        assert(parts.take(n) =~= parts);
        assert(crate::tui::cells::together(parts).take(
            crate::tui::cells::together(parts).len() as int,
        ) =~= crate::tui::cells::together(parts));
    } else {
        lemma_together_take(parts, n + 1);
        assert(parts.take(n + 1).drop_last() =~= parts.take(n));
        let a = crate::tui::cells::together(parts.take(n));
        let b = crate::tui::cells::together(parts.take(n + 1));
        assert(b == a + parts.take(n + 1).last());
        assert(b.take(a.len() as int) =~= a);
        assert(crate::tui::cells::together(parts).take(b.len() as int).take(a.len() as int)
            =~= crate::tui::cells::together(parts).take(a.len() as int));
    }
}

proof fn lemma_kept(cs: Seq<ClusterModel>, room: nat)
    ensures
        crate::tui::cells::kept(cs, room) <= cs.len(),
        crate::tui::cells::cells(cs.take(crate::tui::cells::kept(cs, room) as int)) <= room,
    decreases cs.len(),
{
    let n = crate::tui::cells::kept(cs, room);
    if cs.len() == 0 || cs[0].width > room {
        assert(cs.take(0).len() == 0);
    } else {
        let rest = (room - cs[0].width) as nat;
        lemma_kept(cs.skip(1), rest);
        lemma_cells_first(cs.take(n as int));
        assert(cs.take(n as int).skip(1) =~= cs.skip(1).take(n - 1));
    }
}

/// The cells of clusters are those of the first and those of the others.
pub proof fn lemma_cells_first(cs: Seq<ClusterModel>)
    requires
        cs.len() > 0,
    ensures
        crate::tui::cells::cells(cs) == cs[0].width + crate::tui::cells::cells(cs.skip(1)),
    decreases cs.len(),
{
    if cs.len() == 1 {
        assert(cs.drop_last().len() == 0);
        assert(cs.skip(1).len() == 0);
        assert(crate::tui::cells::cells(cs.drop_last()) == 0);
    } else {
        lemma_cells_first(cs.drop_last());
        assert(cs.drop_last().skip(1) =~= cs.skip(1).drop_last());
        assert(cs.skip(1).last() == cs.last());
    }
}

/// The clusters that a truncation keeps, and the mark behind them, take no more cells than
/// asked for, wherever the mark itself fits.
pub proof fn law_truncation_fits(cs: Seq<ClusterModel>, mark: nat, width: nat)
    requires
        mark <= width,
    ensures
        crate::tui::cells::cells(
            cs.take(crate::tui::cells::kept(cs, (width - mark) as nat) as int),
        ) + mark <= width,
{
    lemma_kept(cs, (width - mark) as nat);
}

/// A truncation of text whose characters stand apart takes at most `width` cells, where the mark
/// takes one and the clusters as many as their characters; its characters stand apart too.
pub proof fn law_truncated_characters_fit(
    text: Seq<char>,
    total: nat,
    cs: Seq<ClusterModel>,
    mark: nat,
    width: nat,
)
    requires
        crate::tui::cells::together(crate::tui::cells::cluster_texts(cs)) == text,
        made_of(text, crate::tui::cells::apart()),
        total == crate::tui::cells::char_cells(text),
        forall|k: int| #![trigger cs[k]] 0 <= k < cs.len() ==> sums_up(cs[k]),
        mark == crate::tui::cells::display_width(crate::tui::cells::ellipsis()),
        mark == 1,
    ensures
        ({
            let short = crate::tui::cells::truncated(text, total, cs, mark, width);
            crate::tui::cells::char_cells(short) <= width && made_of(
                short,
                crate::tui::cells::apart(),
            )
        }),
{
    let p = crate::tui::cells::apart();
    let short = crate::tui::cells::truncated(text, total, cs, mark, width);
    if total > width && width > 0 {
        let room = (width - mark) as nat;
        let n = crate::tui::cells::kept(cs, room) as int;
        lemma_kept(cs, room);
        let ps = cs.take(n);
        let all = crate::tui::cells::cluster_texts(cs);
        assert(crate::tui::cells::cluster_texts(ps) =~= all.take(n));
        assert forall|k: int| #![trigger ps[k]] 0 <= k < ps.len() implies summed(ps[k]) by {
            lemma_parts(all, k, p);
            assert(sums_up(cs[k]));
        }
        lemma_char_cells_together(ps);
        lemma_together_take(all, n);
        let front = crate::tui::cells::together(all.take(n));
        assert forall|k: int| #![trigger front[k]] 0 <= k < front.len() implies p(front[k]) by {
            assert(front[k] == text[k]);
        }
        let end = crate::tui::cells::ellipsis();
        lemma_sum(front, end, p);
        lemma_char_cells_sum(front, end);
        assert(crate::tui::cells::char_cells(end.drop_last()) == 0);
        assert(seq![end.last()] =~= end);
        assert(short == front + end);
    }
}

/// A truncation shows the text as it is, or nothing, or a beginning of the text and the
/// mark.
pub proof fn law_truncation_keeps_a_beginning(
    text: Seq<char>,
    total: nat,
    cs: Seq<ClusterModel>,
    mark: nat,
    width: nat,
)
    requires
        crate::tui::cells::together(crate::tui::cells::cluster_texts(cs)) == text,
    ensures
        ({
            let short = crate::tui::cells::truncated(text, total, cs, mark, width);
            let n = short.len() - crate::tui::cells::ellipsis().len();
            ||| short == text
            ||| short.len() == 0
            ||| 0 <= n <= text.len() && short == text.take(n) + crate::tui::cells::ellipsis()
        }),
{
    let room = if mark <= width {
        (width - mark) as nat
    } else {
        0
    };
    lemma_kept(cs, room);
    lemma_together_take(
        crate::tui::cells::cluster_texts(cs),
        crate::tui::cells::kept(cs, room) as int,
    );
}

/// Truncating text that cannot steer a terminal gives text that cannot either.
pub proof fn law_truncated_text_is_clean(
    text: Seq<char>,
    total: nat,
    cs: Seq<ClusterModel>,
    mark: nat,
    width: nat,
)
    requires
        crate::tui::cells::together(crate::tui::cells::cluster_texts(cs)) == text,
        crate::tui::cells::clean(text),
    ensures
        crate::tui::cells::clean(crate::tui::cells::truncated(text, total, cs, mark, width)),
{
    law_truncation_keeps_a_beginning(text, total, cs, mark, width);
    let short = crate::tui::cells::truncated(text, total, cs, mark, width);
    let n = short.len() - crate::tui::cells::ellipsis().len();
    if short != text && short.len() != 0 {
        assert forall|k: int| #![trigger text.take(n)[k]] 0 <= k < n implies harmless()(
            text.take(n)[k],
        ) by {
            assert(text.take(n)[k] == text[k]);
        }
        assert(made_of(crate::tui::cells::ellipsis(), harmless()));
        lemma_sum(text.take(n), crate::tui::cells::ellipsis(), harmless());
    }
}

} // verus!
