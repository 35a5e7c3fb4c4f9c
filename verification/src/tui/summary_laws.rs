//! What wrapping keeps of a summary.
use crate::lines::word_list;
use crate::text::is_space;
use crate::tui::summary::{closed, cut_word, summary_list, with_word, with_words, Wrapping};
use vstd::prelude::*;

verus! {

/// A text without its spaces.
pub open spec fn dark(s: Seq<char>) -> Seq<char> {
    s.filter(|c: char| !is_space(c))
}

/// Texts one behind the other, each without its spaces.
pub open spec fn ink(lines: Seq<Seq<char>>) -> Seq<char>
    decreases lines.len(),
{
    if lines.len() == 0 {
        Seq::<char>::empty()
    } else {
        ink(lines.drop_last()) + dark(lines.last())
    }
}

proof fn lemma_dark_sum(a: Seq<char>, b: Seq<char>)
    ensures
        dark(a + b) == dark(a) + dark(b),
{
    Seq::<char>::filter_distributes_over_add(a, b, |c: char| !is_space(c));
}

proof fn lemma_dark_word(w: Seq<char>)
    requires
        forall|k: int| 0 <= k < w.len() ==> !is_space(#[trigger] w[k]),
    ensures
        dark(w) == w,
    decreases w.len(),
{
    reveal(Seq::filter);
    if w.len() > 0 {
        assert forall|k: int| 0 <= k < w.drop_last().len() implies !is_space(
            #[trigger] w.drop_last()[k],
        ) by {
            assert(w.drop_last()[k] == w[k]);
        }
        lemma_dark_word(w.drop_last());
        assert(!is_space(w[w.len() - 1]));
        assert(w.drop_last().push(w.last()) =~= w);
    }
}

proof fn lemma_closed(w: Wrapping)
    ensures
        ink(closed(w)) == ink(w.lines) + dark(w.current),
{
    reveal(Seq::filter);
    if w.current.len() == 0 {
        assert(dark(w.current) =~= Seq::<char>::empty());
        assert(ink(w.lines) + dark(w.current) =~= ink(w.lines));
    } else {
        assert(w.lines.push(w.current).drop_last() =~= w.lines);
    }
}

proof fn lemma_cut(lines: Seq<Seq<char>>, word: Seq<char>)
    ensures
        ({
            let w = cut_word(lines, word);
            ink(w.lines) + dark(w.current) == ink(lines) + dark(word)
        }),
    decreases word.len(),
{
    let n = crate::tui::summary::SUMMARY_WIDTH as int;
    if word.len() > n {
        let more = lines.push(word.take(n));
        lemma_cut(more, word.skip(n));
        assert(more.drop_last() =~= lines);
        assert(word.take(n) + word.skip(n) =~= word);
        lemma_dark_sum(word.take(n), word.skip(n));
        assert(ink(more) + dark(word.skip(n)) =~= ink(lines) + dark(word));
    }
}

proof fn lemma_with_word(w: Wrapping, word: Seq<char>)
    requires
        word.len() > 0,
    ensures
        ({
            let next = with_word(w, word);
            ink(next.lines) + dark(next.current) == ink(w.lines) + dark(w.current) + dark(word)
        }),
{
    let n = crate::tui::summary::SUMMARY_WIDTH as int;
    let next = with_word(w, word);
    lemma_closed(w);
    if word.len() > n {
        lemma_cut(closed(w), word);
    } else if w.current.len() == 0 {
        assert(closed(w) == w.lines);
    } else if w.current.len() + 1 + word.len() > n {
        assert(next.lines == closed(w));
    } else {
        reveal_with_fuel(Seq::<char>::filter, 2);
        let gap = seq![' '];
        assert(dark(gap) =~= Seq::<char>::empty()) by {
            assert(gap.drop_last() =~= Seq::<char>::empty());
            assert(is_space(' '));
        }
        lemma_dark_sum(w.current + gap, word);
        lemma_dark_sum(w.current, gap);
        assert(dark(next.current) =~= dark(w.current) + dark(word));
        assert(ink(w.lines) + (dark(w.current) + dark(word)) =~= ink(w.lines) + dark(w.current)
            + dark(word));
    }
}

proof fn lemma_with_words(words: Seq<Seq<char>>, n: int)
    requires
        0 <= n <= words.len(),
        forall|i: int| 0 <= i < words.len() ==> (#[trigger] words[i]).len() > 0,
        forall|i: int, k: int| #![trigger words[i][k]]
            0 <= i < words.len() && 0 <= k < words[i].len() ==> !is_space(words[i][k]),
    ensures
        ({
            let w = with_words(words, n);
            ink(w.lines) + dark(w.current) == words.take(n).flatten_alt()
        }),
    decreases n,
{
    let w = with_words(words, n);
    if n == 0 {
        reveal(Seq::filter);
        assert(ink(w.lines) + dark(w.current) =~= words.take(0).flatten_alt());
    } else {
        lemma_with_words(words, n - 1);
        lemma_with_word(with_words(words, n - 1), words[n - 1]);
        lemma_dark_word(words[n - 1]);
        assert(words.take(n).drop_last() =~= words.take(n - 1));
        assert(words.take(n).last() == words[n - 1]);
    }
}

/// Nothing of a summary is lost in wrapping it: read one behind the other, its lines hold every
/// character of it, in order, but for white space.
pub proof fn law_wrapping_loses_nothing(summary: Seq<char>)
    requires
        summary.len() > 0,
    ensures
        ink(summary_list(summary)) == dark(summary),
{
    let words = word_list(summary);
    crate::text_laws::law_words_lose_only_white_space(summary);
    lemma_with_words(words, words.len() as int);
    lemma_closed(with_words(words, words.len() as int));
    assert(words.take(words.len() as int) =~= words);
}

/// Whether the first word of `line` has `k` characters.
pub open spec fn first_word(line: Seq<char>, k: int) -> bool {
    &&& 0 < k <= line.len()
    &&& forall|i: int| 0 <= i < k ==> #[trigger] line[i] != ' '
    &&& k < line.len() ==> line[k] == ' '
}

/// Whether the first word of `next` had no room on the line above it.
pub open spec fn had_no_room(line: Seq<char>, next: Seq<char>) -> bool {
    exists|k: int| #[trigger] first_word(next, k) && line.len() + 1 + k
        > crate::tui::summary::SUMMARY_WIDTH
}

spec fn packed(lines: Seq<Seq<char>>) -> bool {
    forall|i: int, j: int| #![trigger lines[i], lines[j]]
        0 <= i && j == i + 1 && j < lines.len() ==> had_no_room(lines[i], lines[j])
}

spec fn packing(w: Wrapping) -> bool {
    &&& packed(w.lines)
    &&& w.current.len() > 0 && w.lines.len() > 0 ==> had_no_room(w.lines.last(), w.current)
    &&& w.current.len() == 0 ==> w.lines.len() == 0
    &&& w.current.len() > 0 ==> exists|k: int| first_word(w.current, k)
}

spec fn solid(w: Seq<char>) -> bool {
    forall|k: int| 0 <= k < w.len() ==> #[trigger] w[k] != ' '
}

proof fn lemma_pack_cut(lines: Seq<Seq<char>>, word: Seq<char>)
    requires
        packed(lines),
        solid(word),
        word.len() > 0,
        lines.len() > 0 ==> lines.last().len() + 1 + word.len()
            > crate::tui::summary::SUMMARY_WIDTH && (word.len()
            > crate::tui::summary::SUMMARY_WIDTH || lines.last().len()
            == crate::tui::summary::SUMMARY_WIDTH),
    ensures
        packing(cut_word(lines, word)),
    decreases word.len(),
{
    let n = crate::tui::summary::SUMMARY_WIDTH as int;
    if word.len() > n {
        let piece = word.take(n);
        let more = lines.push(piece);
        assert(first_word(piece, n));
        assert(packed(more)) by {
            assert forall|i: int, j: int| #![trigger more[i], more[j]] 0 <= i && j == i + 1 && j
                < more.len() implies had_no_room(more[i], more[j]) by {
                if j < lines.len() {
                    assert(had_no_room(lines[i], lines[j]));
                } else {
                    assert(more[j] == piece);
                }
            }
        }
        lemma_pack_cut(more, word.skip(n));
    } else {
        assert(first_word(word, word.len() as int));
    }
}

proof fn lemma_pack_word(w: Wrapping, word: Seq<char>)
    requires
        packing(w),
        solid(word),
        word.len() > 0,
    ensures
        packing(with_word(w, word)),
{
    let n = crate::tui::summary::SUMMARY_WIDTH as int;
    let next = with_word(w, word);
    let done = closed(w);
    if w.current.len() > 0 {
        assert forall|i: int, j: int| #![trigger done[i], done[j]] 0 <= i && j == i + 1 && j
            < done.len() implies had_no_room(done[i], done[j]) by {
            if j < w.lines.len() {
                assert(had_no_room(w.lines[i], w.lines[j]));
            } else {
                assert(done[i] == w.lines.last());
            }
        }
    }
    assert(packed(done));
    if word.len() > n {
        lemma_pack_cut(done, word);
    } else if w.current.len() == 0 {
        assert(first_word(word, word.len() as int));
    } else if w.current.len() + 1 + word.len() > n {
        assert(first_word(word, word.len() as int));
        assert(next.lines == done);
    } else {
        let k = if w.lines.len() > 0 {
            choose|k: int| #[trigger] first_word(w.current, k) && w.lines.last().len() + 1 + k > n
        } else {
            choose|k: int| first_word(w.current, k)
        };
        assert forall|i: int| 0 <= i < k implies #[trigger] next.current[i] != ' ' by {
            assert(w.current[i] != ' ');
        }
        assert(first_word(next.current, k));
    }
}

proof fn lemma_pack_words(words: Seq<Seq<char>>, n: int)
    requires
        0 <= n <= words.len(),
        forall|i: int| 0 <= i < words.len() ==> (#[trigger] words[i]).len() > 0 && solid(words[i]),
    ensures
        packing(with_words(words, n)),
    decreases n,
{
    if n > 0 {
        lemma_pack_words(words, n - 1);
        lemma_pack_word(with_words(words, n - 1), words[n - 1]);
    }
}

/// A line is filled before the next is begun: the first word of each line would not have fitted on
/// the one above it.
pub proof fn law_lines_are_filled(summary: Seq<char>, i: int)
    requires
        0 <= i,
        i + 1 < summary_list(summary).len(),
    ensures
        had_no_room(summary_list(summary)[i], summary_list(summary)[i + 1]),
{
    let words = word_list(summary);
    crate::text_laws::law_words_lose_only_white_space(summary);
    assert forall|j: int| 0 <= j < words.len() implies (#[trigger] words[j]).len() > 0 && solid(
        words[j],
    ) by {
        assert forall|k: int| 0 <= k < words[j].len() implies #[trigger] words[j][k] != ' ' by {
            assert(is_space(' '));
            assert(!is_space(words[j][k]));
        }
    }
    lemma_pack_words(words, words.len() as int);
    let w = with_words(words, words.len() as int);
    let lines = summary_list(summary);
    if i + 1 < w.lines.len() {
        assert(had_no_room(w.lines[i], w.lines[i + 1]));
    } else {
        assert(lines[i] == w.lines.last());
    }
}

} // verus!
