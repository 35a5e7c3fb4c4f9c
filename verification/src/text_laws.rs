//! What holds of every trimmed, joined, cut or counted text.
use crate::lines::{filled, line_list, pieces, separates, word_list, Separator};
use crate::text::{blank, decimal, is_space, joined, text_lt, trim_back, trim_front, trimmed};
use vstd::prelude::*;

verus! {

proof fn lemma_front(s: Seq<char>)
    ensures
        trim_front(s).len() <= s.len(),
        trim_front(s) == s.skip(s.len() - trim_front(s).len()),
        blank(s.take(s.len() - trim_front(s).len())),
        trim_front(s).len() > 0 ==> !is_space(trim_front(s)[0]),
    decreases s.len(),
{
    if s.len() > 0 && is_space(s[0]) {
        let rest = s.skip(1);
        lemma_front(rest);
        let n = s.len() - trim_front(s).len();
        assert(s.skip(n) =~= rest.skip(n - 1));
        assert forall|i: int| 0 <= i < n implies is_space(#[trigger] s.take(n)[i]) by {
            if i > 0 {
                assert(rest.take(n - 1)[i - 1] == s.take(n)[i]);
            }
        }
    } else {
        assert(s.skip(0) =~= s);
    }
}

proof fn lemma_back(s: Seq<char>)
    ensures
        trim_back(s).len() <= s.len(),
        trim_back(s) == s.take(trim_back(s).len() as int),
        blank(s.skip(trim_back(s).len() as int)),
        trim_back(s).len() > 0 ==> !is_space(trim_back(s).last()),
    decreases s.len(),
{
    if s.len() > 0 && is_space(s.last()) {
        let rest = s.drop_last();
        lemma_back(rest);
        let n = trim_back(s).len() as int;
        assert(s.take(n) =~= rest.take(n));
        assert forall|i: int| 0 <= i < s.skip(n).len() implies is_space(#[trigger] s.skip(n)[i]) by {
            if i < rest.skip(n).len() {
                assert(rest.skip(n)[i] == s.skip(n)[i]);
            }
        }
    } else {
        assert(s.take(s.len() as int) =~= s);
    }
}

/// Trimming takes white space off both ends and nothing else: what is left is a stretch of the
/// text that neither begins nor ends with white space, and all around it is white space.
pub proof fn law_trimming_takes_only_the_ends(s: Seq<char>)
    ensures
        exists|a: int, b: int|
            0 <= a <= b <= s.len() && trimmed(s) == #[trigger] s.subrange(a, b) && (forall|i: int|
                0 <= i < a || b <= i < s.len() ==> is_space(#[trigger] s[i])),
        trimmed(s).len() > 0 ==> !is_space(trimmed(s)[0]) && !is_space(trimmed(s).last()),
{
    lemma_front(s);
    let mid = trim_front(s);
    lemma_back(mid);
    let a = s.len() - mid.len();
    let b = a + trimmed(s).len();
    assert(trimmed(s) =~= s.subrange(a, b));
    assert forall|i: int| 0 <= i < a || b <= i < s.len() implies is_space(#[trigger] s[i]) by {
        if i < a {
            assert(s.take(a)[i] == s[i]);
        } else {
            assert(mid.skip(trimmed(s).len() as int)[i - b] == s[i]);
        }
    }
    if trimmed(s).len() > 0 {
        assert(trimmed(s)[0] == mid[0]);
    }
}

/// White space around a text makes no difference to what trimming gives.
pub proof fn law_trimming_ignores_padding(before: Seq<char>, s: Seq<char>, after: Seq<char>)
    requires
        blank(before),
        blank(after),
        s.len() > 0 ==> !is_space(s[0]) && !is_space(s.last()),
    ensures
        trimmed(before + s + after) == s,
{
    let all = before + s + after;
    lemma_skip_front(before, s + after);
    assert(before + (s + after) =~= all);
    if s.len() == 0 {
        assert(s + after =~= after);
        lemma_blank_front(after);
        assert(trim_back(Seq::<char>::empty()) =~= s);
    } else {
        assert((s + after)[0] == s[0]);
        assert(trim_front(s + after) == s + after);
        lemma_skip_back(s, after);
    }
}

proof fn lemma_blank_front(s: Seq<char>)
    requires
        blank(s),
    ensures
        trim_front(s) == Seq::<char>::empty(),
    decreases s.len(),
{
    if s.len() > 0 {
        assert(is_space(s[0]));
        assert forall|i: int| 0 <= i < s.skip(1).len() implies is_space(#[trigger] s.skip(1)[i]) by {
            assert(s.skip(1)[i] == s[i + 1]);
        }
        lemma_blank_front(s.skip(1));
    } else {
        assert(s =~= Seq::<char>::empty());
    }
}

proof fn lemma_skip_front(before: Seq<char>, s: Seq<char>)
    requires
        blank(before),
    ensures
        trim_front(before + s) == trim_front(s),
    decreases before.len(),
{
    if before.len() > 0 {
        let all = before + s;
        assert(is_space(before[0]));
        assert(all[0] == before[0]);
        assert(all.skip(1) =~= before.skip(1) + s);
        assert forall|i: int| 0 <= i < before.skip(1).len() implies is_space(
            #[trigger] before.skip(1)[i],
        ) by {
            assert(before.skip(1)[i] == before[i + 1]);
        }
        lemma_skip_front(before.skip(1), s);
    } else {
        assert(before + s =~= s);
    }
}

proof fn lemma_skip_back(s: Seq<char>, after: Seq<char>)
    requires
        blank(after),
        s.len() > 0,
        !is_space(s.last()),
    ensures
        trim_back(s + after) == s,
    decreases after.len(),
{
    let all = s + after;
    if after.len() > 0 {
        assert(is_space(after[after.len() - 1]));
        assert(all.last() == after.last());
        assert(all.drop_last() =~= s + after.drop_last());
        assert forall|i: int| 0 <= i < after.drop_last().len() implies is_space(
            #[trigger] after.drop_last()[i],
        ) by {
            assert(after.drop_last()[i] == after[i]);
        }
        lemma_skip_back(s, after.drop_last());
    } else {
        assert(all =~= s);
    }
}

/// The number that decimal digits stand for.
pub open spec fn value(s: Seq<char>) -> int
    decreases s.len(),
{
    if s.len() == 0 {
        0
    } else {
        10 * value(s.drop_last()) + (s.last() as int - '0' as int)
    }
}

/// Written digits stand for the number: they are digits, there is no needless zero in front, and
/// read from left to right they give the number back.
pub proof fn law_digits_stand_for_the_number(n: nat)
    ensures
        value(decimal(n)) == n,
        decimal(n).len() >= 1,
        forall|i: int| 0 <= i < decimal(n).len() ==> '0' <= #[trigger] decimal(n)[i] <= '9',
        n > 0 ==> decimal(n)[0] != '0',
    decreases n,
{
    let s = decimal(n);
    if n < 10 {
        assert(s.drop_last().len() == 0);
        assert(value(s.drop_last()) == 0);
    } else {
        law_digits_stand_for_the_number(n / 10);
        assert(s.drop_last() =~= decimal(n / 10));
        assert(s[0] == decimal(n / 10)[0]);
    }
}

/// What is joined is the parts in order with the separator between each two of them.
pub proof fn law_joining_puts_separators_between(parts: Seq<Seq<char>>, sep: Seq<char>)
    ensures
        joined(parts, sep) == Seq::new(
            parts.len(),
            |i: int|
                if i == 0 {
                    parts[i]
                } else {
                    sep + parts[i]
                },
        ).flatten_alt(),
    decreases parts.len(),
{
    let all = Seq::new(
        parts.len(),
        |i: int|
            if i == 0 {
                parts[i]
            } else {
                sep + parts[i]
            },
    );
    if parts.len() == 1 {
        assert(all.drop_last().len() == 0);
        assert(all.drop_last().flatten_alt() =~= Seq::<char>::empty());
        assert(all.flatten_alt() =~= parts[0]);
    } else if parts.len() > 1 {
        let front = parts.drop_last();
        law_joining_puts_separators_between(front, sep);
        let some = Seq::new(
            front.len(),
            |i: int|
                if i == 0 {
                    front[i]
                } else {
                    sep + front[i]
                },
        );
        assert(all.drop_last() =~= some);
        assert(joined(parts, sep) =~= joined(front, sep) + (sep + parts.last()));
    }
}

/// Strings are ordered by the first character in which they differ, and before whatever continues
/// them.
pub proof fn law_strings_are_ordered_by_their_first_difference(a: Seq<char>, b: Seq<char>, k: int)
    requires
        0 <= k <= a.len(),
        k <= b.len(),
        a.take(k) == b.take(k),
    ensures
        k < a.len() && k < b.len() && a[k] != b[k] ==> (text_lt(a, b) <==> (a[k] as int)
            < (b[k] as int)),
        k == a.len() && k < b.len() ==> text_lt(a, b),
        k == b.len() ==> !text_lt(a, b),
    decreases k,
{
    if k > 0 {
        assert(a.take(k)[0] == a[0] && b.take(k)[0] == b[0]);
        let p = a.skip(1).take(k - 1);
        let q = b.skip(1).take(k - 1);
        assert forall|i: int| 0 <= i < k - 1 implies #[trigger] p[i] == q[i] by {
            assert(a.take(k)[i + 1] == a[i + 1]);
            assert(b.take(k)[i + 1] == b[i + 1]);
        }
        assert(p =~= q);
        assert(k < a.len() ==> a.skip(1)[k - 1] == a[k]);
        assert(k < b.len() ==> b.skip(1)[k - 1] == b[k]);
        law_strings_are_ordered_by_their_first_difference(a.skip(1), b.skip(1), k - 1);
    }
}

/// Cutting at line feeds loses nothing but these: no piece holds one, and the pieces with a line
/// feed between each two of them are the text again.
pub proof fn law_cutting_at_line_feeds_is_undone(s: Seq<char>)
    ensures
        joined(pieces(s, Separator::LineFeed), seq!['\n']) == s,
        forall|i: int|
            0 <= i < pieces(s, Separator::LineFeed).len() ==> !(#[trigger] pieces(
                s,
                Separator::LineFeed,
            )[i]).contains('\n'),
    decreases s.len(),
{
    let sep = Separator::LineFeed;
    let all = pieces(s, sep);
    crate::lines::lemma_pieces_exist(s, sep);
    if s.len() == 0 {
        assert(joined(all, seq!['\n']) =~= s);
    } else {
        let front = s.drop_last();
        let before = pieces(front, sep);
        crate::lines::lemma_pieces_exist(front, sep);
        law_cutting_at_line_feeds_is_undone(front);
        if s.last() == '\n' {
            assert(all.drop_last() =~= before);
            assert(joined(all, seq!['\n']) =~= joined(before, seq!['\n']) + seq!['\n']);
            assert(front + seq!['\n'] =~= s);
        } else {
            assert(all.drop_last() =~= before.drop_last());
            assert(all.last() == before.last().push(s.last()));
            assert(joined(all, seq!['\n']) =~= joined(before, seq!['\n']).push(s.last()));
            assert(front.push(s.last()) =~= s);
            assert(!before[before.len() - 1].contains('\n'));
            assert forall|i: int| 0 <= i < all.len() implies !(#[trigger] all[i]).contains(
                '\n',
            ) by {
                if i < all.len() - 1 {
                    assert(all[i] == before[i]);
                } else if all[i].contains('\n') {
                    let k = all[i].index_of('\n');
                    assert(before.last()[k] == '\n');
                }
            }
        }
    }
}

/// A text of lines, each ended by a line feed, has exactly these lines; a last one that is not
/// ended counts as well, unless it is empty.
pub proof fn law_lines_are_what_line_feeds_end(s: Seq<char>)
    ensures
        ({
            let cut = pieces(s, Separator::LineFeed);
            let list = line_list(s);
            &&& forall|i: int|
                0 <= i < cut.len() - 1 ==> i < list.len() && (#[trigger] list[i] == cut[i]
                    && (cut[i].len() > 0 ==> cut[i].last() != '\r') || cut[i] == list[i].push(
                    '\r',
                ))
            &&& list.len() == if s.len() == 0 || s.last() == '\n' {
                cut.len() - 1
            } else {
                cut.len() as int
            }
            &&& s.len() > 0 && s.last() != '\n' ==> list.last() == cut.last()
        }),
{
    let sep = Separator::LineFeed;
    let cut = pieces(s, sep);
    let list = line_list(s);
    crate::lines::lemma_pieces_exist(s, sep);
    if s.len() > 0 {
        crate::lines::lemma_pieces_exist(s.drop_last(), sep);
    }
    assert forall|i: int| 0 <= i < cut.len() - 1 implies i < list.len() && (#[trigger] list[i]
        == cut[i] && (cut[i].len() > 0 ==> cut[i].last() != '\r') || cut[i] == list[i].push('\r')) by {
        if cut[i].len() > 0 && cut[i].last() == '\r' {
            assert(cut[i] =~= list[i].push('\r'));
        }
    }
}

proof fn lemma_filled(s: Seq<Seq<char>>)
    ensures
        forall|i: int| 0 <= i < filled(s).len() ==> (#[trigger] filled(s)[i]).len() > 0,
        filled(s).flatten_alt() == s.flatten_alt(),
    decreases s.len(),
{
    if s.len() > 0 {
        lemma_filled(s.drop_last());
        if s.last().len() == 0 {
            assert(s.flatten_alt() =~= s.drop_last().flatten_alt());
        } else {
            assert(filled(s).drop_last() =~= filled(s.drop_last()));
        }
    }
}

proof fn lemma_filled_from(s: Seq<Seq<char>>, i: int)
    requires
        0 <= i < filled(s).len(),
    ensures
        s.contains(filled(s)[i]),
    decreases s.len(),
{
    if s.len() > 0 {
        if s.last().len() == 0 || i < filled(s.drop_last()).len() {
            lemma_filled_from(s.drop_last(), i);
            let k = s.drop_last().index_of(filled(s)[i]);
            assert(s[k] == filled(s)[i]);
        } else {
            assert(s[s.len() - 1] == filled(s)[i]);
        }
    }
}

proof fn lemma_space_pieces(s: Seq<char>)
    ensures
        forall|i: int, k: int| #![trigger pieces(s, Separator::Space)[i][k]]
            0 <= i < pieces(s, Separator::Space).len() && 0 <= k < pieces(
                s,
                Separator::Space,
            )[i].len() ==> !is_space(pieces(s, Separator::Space)[i][k]),
        pieces(s, Separator::Space).flatten_alt() == s.filter(|c: char| !is_space(c)),
    decreases s.len(),
{
    reveal(Seq::filter);
    let sep = Separator::Space;
    let all = pieces(s, sep);
    if s.len() == 0 {
        assert(all.drop_last().flatten_alt() =~= Seq::<char>::empty());
        assert(all.flatten_alt() =~= Seq::<char>::empty());
    } else {
        let front = s.drop_last();
        let before = pieces(front, sep);
        crate::lines::lemma_pieces_exist(front, sep);
        lemma_space_pieces(front);
        if is_space(s.last()) {
            assert(all.drop_last() =~= before);
            assert(all.flatten_alt() =~= before.flatten_alt());
        } else {
            assert(all.drop_last() =~= before.drop_last());
            assert(all.flatten_alt() =~= before.flatten_alt().push(s.last()));
            assert forall|i: int, k: int| #![trigger all[i][k]]
                0 <= i < all.len() && 0 <= k < all[i].len() implies !is_space(all[i][k]) by {
                if i < all.len() - 1 {
                    assert(all[i] == before[i]);
                    assert(!is_space(before[i][k]));
                } else if k < before.last().len() {
                    assert(all[i][k] == before[before.len() - 1][k]);
                }
            }
        }
    }
}

/// The words of a text are not empty, hold no white space, and together are the text without its
/// white space.
pub proof fn law_words_lose_only_white_space(s: Seq<char>)
    ensures
        word_list(s).flatten_alt() == s.filter(|c: char| !is_space(c)),
        forall|i: int, k: int| #![trigger word_list(s)[i][k]]
            0 <= i < word_list(s).len() && 0 <= k < word_list(s)[i].len() ==> !is_space(
                word_list(s)[i][k],
            ),
        forall|i: int| 0 <= i < word_list(s).len() ==> (#[trigger] word_list(s)[i]).len() > 0,
{
    let all = pieces(s, Separator::Space);
    lemma_space_pieces(s);
    lemma_filled(all);
    assert forall|i: int, k: int| #![trigger word_list(s)[i][k]]
        0 <= i < word_list(s).len() && 0 <= k < word_list(s)[i].len() implies !is_space(
        word_list(s)[i][k],
    ) by {
        lemma_filled_from(all, i);
        let j = all.index_of(word_list(s)[i]);
        assert(!is_space(all[j][k]));
    }
}

/// Two words are kept apart: white space between two texts never lets a word run from the one
/// into the other.
pub proof fn law_white_space_ends_a_word(a: Seq<char>, c: char, b: Seq<char>)
    requires
        is_space(c),
    ensures
        word_list(a + seq![c] + b) == word_list(a) + word_list(b),
{
    lemma_pieces_apart(a, c, b, Separator::Space);
    lemma_filled_sum(pieces(a, Separator::Space), pieces(b, Separator::Space));
}

proof fn lemma_pieces_apart(a: Seq<char>, c: char, b: Seq<char>, sep: Separator)
    requires
        separates(sep, c),
    ensures
        pieces(a + seq![c] + b, sep) == pieces(a, sep) + pieces(b, sep),
    decreases b.len(),
{
    let all = a + seq![c] + b;
    if b.len() == 0 {
        assert(all.drop_last() =~= a);
        assert(all.last() == c);
        assert(pieces(all, sep) =~= pieces(a, sep) + pieces(b, sep));
    } else {
        assert(all.drop_last() =~= a + seq![c] + b.drop_last());
        assert(all.last() == b.last());
        lemma_pieces_apart(a, c, b.drop_last(), sep);
        crate::lines::lemma_pieces_exist(b.drop_last(), sep);
        assert(pieces(all, sep) =~= pieces(a, sep) + pieces(b, sep));
    }
}

proof fn lemma_filled_sum(a: Seq<Seq<char>>, b: Seq<Seq<char>>)
    ensures
        filled(a + b) == filled(a) + filled(b),
    decreases b.len(),
{
    if b.len() == 0 {
        assert(a + b =~= a);
        assert(filled(a) + filled(b) =~= filled(a));
    } else {
        lemma_filled_sum(a, b.drop_last());
        assert((a + b).drop_last() =~= a + b.drop_last());
        assert((a + b).last() == b.last());
        assert(filled(a + b) =~= filled(a) + filled(b));
    }
}

/// The bytes of two texts one behind the other are the bytes of the one and then those of the other.
pub proof fn law_texts_are_encoded_one_behind_the_other(a: Seq<char>, b: Seq<char>)
    ensures
        vstd::utf8::encode_utf8(a + b) == vstd::utf8::encode_utf8(a) + vstd::utf8::encode_utf8(b),
    decreases a.len(),
{
    if a.len() == 0 {
        assert(a + b =~= b);
        assert(vstd::utf8::encode_utf8(a) =~= Seq::<u8>::empty());
        assert(vstd::utf8::encode_utf8(a) + vstd::utf8::encode_utf8(b) =~= vstd::utf8::encode_utf8(
            b,
        ));
    } else {
        assert((a + b).drop_first() =~= a.drop_first() + b);
        law_texts_are_encoded_one_behind_the_other(a.drop_first(), b);
        assert((a + b)[0] == a[0]);
        assert(vstd::utf8::encode_utf8(a + b) =~= vstd::utf8::encode_utf8(a)
            + vstd::utf8::encode_utf8(b));
    }
}


/// Sorting keeps the texts, each as often as it was there, and none comes before one that precedes
/// it.
pub proof fn law_sorting_puts_texts_in_order(s: Seq<Seq<char>>, i: int, j: int)
    ensures
        crate::text::sorted(s).len() == s.len(),
        crate::text::sorted(s).to_multiset() == s.to_multiset(),
        0 <= i < j < s.len() ==> crate::text::sorted(s)[i] == crate::text::sorted(s)[j] || text_lt(
            crate::text::sorted(s)[i],
            crate::text::sorted(s)[j],
        ),
{
    crate::text::lemma_sorted(s);
}

/// A character is trimmed away where it is one of the blanks and line ends that there are, and no
/// other character is.
pub proof fn law_blanks_and_line_ends_are_trimmed(c: char)
    ensures
        trimmed(seq![c]).len() == 0 <==> (c == '\t' || c == '\n' || c == '\u{b}' || c == '\u{c}' || c
            == '\r' || c == ' ' || c == '\u{85}' || c == '\u{a0}' || c == '\u{1680}' || ('\u{2000}'
            <= c <= '\u{200a}') || c == '\u{2028}' || c == '\u{2029}' || c == '\u{202f}' || c
            == '\u{205f}' || c == '\u{3000}'),
        trimmed(seq![c]).len() > 0 ==> trimmed(seq![c]) == seq![c],
{
    let one = seq![c];
    let none = Seq::<char>::empty();
    if is_space(c) {
        assert(blank(one));
        law_trimming_ignores_padding(one, none, none);
        assert(one + none + none =~= one);
    } else {
        law_trimming_ignores_padding(none, one, none);
        assert(none + one + none =~= one);
    }
}

} // verus!
