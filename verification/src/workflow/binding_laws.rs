//! What holds of every bound argument.
use crate::text::{blank, next_occurrence, lemma_next_occurrence, occurs_at, trimmed};
use crate::workflow::binding::{
    byte_spans, closing, interpolated, looked_up, names_of, opening, placeholders, spliced, stringified,
};
use crate::workflow::json::{field_from, field_of, json_text, JsonModel};
use vstd::prelude::*;

verus! {

/// Whether a placeholder is opened at `p`.
pub open spec fn opened(s: Seq<char>, p: int) -> bool {
    0 <= p && p + 3 <= s.len() && s[p] == '$' && s[p + 1] == '{' && s[p + 2] == '{'
}

/// Whether a placeholder is closed at `p`.
pub open spec fn closed_at(s: Seq<char>, p: int) -> bool {
    0 <= p && p + 2 <= s.len() && s[p] == '}' && s[p + 1] == '}'
}

proof fn lemma_marks(s: Seq<char>, p: int)
    ensures
        occurs_at(s, opening(), p) <==> opened(s, p),
        occurs_at(s, closing(), p) <==> closed_at(s, p),
{
    if 0 <= p && p + 3 <= s.len() {
        let cut = s.subrange(p, p + 3);
        assert(cut[0] == s[p] && cut[1] == s[p + 1] && cut[2] == s[p + 2]);
        if opened(s, p) {
            assert(cut =~= opening());
        }
    }
    if 0 <= p && p + 2 <= s.len() {
        let cut = s.subrange(p, p + 2);
        assert(cut[0] == s[p] && cut[1] == s[p + 1]);
        if closed_at(s, p) {
            assert(cut =~= closing());
        }
    }
}

/// Whether what a placeholder encloses refers to the input `name`.
pub open spec fn refers(inner: Seq<char>, name: Seq<char>) -> bool {
    inner == seq!['i', 'n', 'p', 'u', 't', 's', '.'] + name && name.len() > 0
}

proof fn lemma_found(s: Seq<char>, cursor: int, i: int)
    requires
        0 <= cursor <= s.len(),
        placeholders(s, cursor) is Ok,
        0 <= i < placeholders(s, cursor)->Ok_0.len(),
    ensures
        ({
            let (start, end, name) = placeholders(s, cursor)->Ok_0[i];
            &&& cursor <= start < start + 5 <= end <= s.len()
            &&& opened(s, start)
            &&& closed_at(s, end - 2)
            &&& forall|p: int| start + 3 <= p < end - 2 ==> !#[trigger] closed_at(s, p)
            &&& refers(trimmed(s.subrange(start + 3, end - 2)), name)
        }),
    decreases s.len() - cursor,
{
    lemma_next_occurrence(s, opening(), cursor);
    let start = next_occurrence(s, opening(), cursor)->0;
    lemma_marks(s, start);
    lemma_next_occurrence(s, closing(), start + 3);
    let inner_end = next_occurrence(s, closing(), start + 3)->0;
    lemma_marks(s, inner_end);
    let inner = trimmed(s.subrange(start + 3, inner_end));
    let rest = placeholders(s, inner_end + 2)->Ok_0;
    if i == 0 {
        assert forall|p: int| start + 3 <= p < inner_end implies !#[trigger] closed_at(s, p) by {
            lemma_marks(s, p);
            assert(!occurs_at(s, closing(), p));
        }
        assert(inner =~= inner.take(7) + inner.skip(7));
        assert(inner.take(7) =~= seq!['i', 'n', 'p', 'u', 't', 's', '.']);
    } else {
        lemma_found(s, inner_end + 2, i - 1);
        assert(placeholders(s, cursor)->Ok_0[i] == rest[i - 1]);
    }
}

proof fn lemma_nothing_missed(s: Seq<char>, cursor: int, p: int)
    requires
        0 <= cursor <= p,
        cursor <= s.len(),
        placeholders(s, cursor) is Ok,
        opened(s, p),
    ensures
        exists|i: int| #![trigger placeholders(s, cursor)->Ok_0[i]]
            0 <= i < placeholders(s, cursor)->Ok_0.len() && placeholders(s, cursor)->Ok_0[i].0 <= p
                < placeholders(s, cursor)->Ok_0[i].1,
    decreases s.len() - cursor,
{
    lemma_next_occurrence(s, opening(), cursor);
    lemma_marks(s, p);
    assert(occurs_at(s, opening(), p));
    let start = next_occurrence(s, opening(), cursor)->0;
    lemma_next_occurrence(s, closing(), start + 3);
    let inner_end = next_occurrence(s, closing(), start + 3)->0;
    let found = placeholders(s, cursor)->Ok_0;
    let rest = placeholders(s, inner_end + 2)->Ok_0;
    assert(found[0] == (start, inner_end + 2, found[0].2));
    if p >= inner_end + 2 {
        lemma_nothing_missed(s, inner_end + 2, p);
        let i = choose|i: int| #![trigger rest[i]] 0 <= i < rest.len() && rest[i].0 <= p < rest[i].1;
        assert(found[i + 1] == rest[i]);
    }
}

/// What is found is what the marks enclose: each placeholder runs from `${{` to the first `}}`
/// behind it, and between them, apart from white space at the ends, stands `inputs.` and the name.
pub proof fn law_a_placeholder_is_what_the_marks_enclose(s: Seq<char>, i: int)
    requires
        placeholders(s, 0) is Ok,
        0 <= i < placeholders(s, 0)->Ok_0.len(),
    ensures
        ({
            let (start, end, name) = placeholders(s, 0)->Ok_0[i];
            &&& 0 <= start < start + 5 <= end <= s.len()
            &&& s.subrange(start, start + 3) == seq!['$', '{', '{']
            &&& s.subrange(end - 2, end) == seq!['}', '}']
            &&& forall|p: int| start + 3 <= p < end - 2 ==> !#[trigger] closed_at(s, p)
            &&& trimmed(s.subrange(start + 3, end - 2)) == seq!['i', 'n', 'p', 'u', 't', 's', '.']
                + name
            &&& name.len() > 0
        }),
{
    lemma_found(s, 0, i);
    let (start, end, name) = placeholders(s, 0)->Ok_0[i];
    assert(s.subrange(start, start + 3) =~= seq!['$', '{', '{']);
    assert(s.subrange(end - 2, end) =~= seq!['}', '}']);
}

/// No placeholder is passed over: wherever `${{` stands in a text that is accepted, a placeholder
/// that was found begins there or runs over it.
pub proof fn law_no_placeholder_is_passed_over(s: Seq<char>, p: int)
    requires
        placeholders(s, 0) is Ok,
        0 <= p,
        p + 3 <= s.len(),
        s.subrange(p, p + 3) == seq!['$', '{', '{'],
    ensures
        exists|i: int| #![trigger placeholders(s, 0)->Ok_0[i]]
            0 <= i < placeholders(s, 0)->Ok_0.len() && placeholders(s, 0)->Ok_0[i].0 <= p
                < placeholders(s, 0)->Ok_0[i].1,
{
    let cut = s.subrange(p, p + 3);
    assert(cut[0] == s[p] && cut[1] == s[p + 1] && cut[2] == s[p + 2]);
    lemma_nothing_missed(s, 0, p);
}

/// Placeholders are found from left to right and do not overlap.
pub proof fn law_placeholders_stand_in_order(s: Seq<char>, i: int, j: int)
    requires
        placeholders(s, 0) is Ok,
        0 <= i < j < placeholders(s, 0)->Ok_0.len(),
    ensures
        placeholders(s, 0)->Ok_0[i].1 <= placeholders(s, 0)->Ok_0[j].0,
{
    lemma_in_order(s, 0, i, j);
}

proof fn lemma_in_order(s: Seq<char>, cursor: int, i: int, j: int)
    requires
        0 <= cursor <= s.len(),
        placeholders(s, cursor) is Ok,
        0 <= i < j < placeholders(s, cursor)->Ok_0.len(),
    ensures
        placeholders(s, cursor)->Ok_0[i].1 <= placeholders(s, cursor)->Ok_0[j].0,
    decreases s.len() - cursor,
{
    lemma_next_occurrence(s, opening(), cursor);
    let start = next_occurrence(s, opening(), cursor)->0;
    lemma_next_occurrence(s, closing(), start + 3);
    let inner_end = next_occurrence(s, closing(), start + 3)->0;
    let found = placeholders(s, cursor)->Ok_0;
    let rest = placeholders(s, inner_end + 2)->Ok_0;
    assert(found[j] == rest[j - 1]);
    if i == 0 {
        lemma_found(s, inner_end + 2, j - 1);
    } else {
        assert(found[i] == rest[i - 1]);
        lemma_in_order(s, inner_end + 2, i - 1, j - 1);
    }
}

/// Whether `p` opens a placeholder that is no reference to an input: it is never closed, or what
/// it encloses is not `inputs.` and a name.
pub open spec fn malformed_at(s: Seq<char>, p: int) -> bool {
    &&& opened(s, p)
    &&& {
        ||| forall|c: int| p + 3 <= c ==> !#[trigger] closed_at(s, c)
        ||| exists|c: int|
            p + 3 <= c && #[trigger] closed_at(s, c) && (forall|b: int|
                p + 3 <= b < c ==> !#[trigger] closed_at(s, b)) && forall|name: Seq<char>|
                !#[trigger] refers(trimmed(s.subrange(p + 3, c)), name)
    }
}

/// A refused text does hold a placeholder that is no reference to an input.
pub proof fn law_a_refused_text_is_malformed(s: Seq<char>)
    requires
        placeholders(s, 0) is Err,
    ensures
        exists|p: int| malformed_at(s, p),
{
    lemma_malformed(s, 0);
}

proof fn lemma_malformed(s: Seq<char>, cursor: int)
    requires
        0 <= cursor <= s.len(),
        placeholders(s, cursor) is Err,
    ensures
        exists|p: int| malformed_at(s, p),
    decreases s.len() - cursor,
{
    lemma_next_occurrence(s, opening(), cursor);
    let start = next_occurrence(s, opening(), cursor)->0;
    lemma_marks(s, start);
    lemma_next_occurrence(s, closing(), start + 3);
    match next_occurrence(s, closing(), start + 3) {
        None => {
            assert forall|c: int| start + 3 <= c implies !#[trigger] closed_at(s, c) by {
                lemma_marks(s, c);
                assert(!occurs_at(s, closing(), c));
            }
            assert(malformed_at(s, start));
        },
        Some(c) => {
            let inner = trimmed(s.subrange(start + 3, c));
            if inner.len() > 7 && inner.take(7) == crate::workflow::binding::input_prefix() {
                lemma_malformed(s, c + 2);
            } else {
                lemma_marks(s, c);
                assert forall|b: int| start + 3 <= b < c implies !#[trigger] closed_at(s, b) by {
                    lemma_marks(s, b);
                    assert(!occurs_at(s, closing(), b));
                }
                assert forall|name: Seq<char>| !#[trigger] refers(inner, name) by {
                    if refers(inner, name) {
                        assert(inner.take(7) =~= crate::workflow::binding::input_prefix());
                    }
                }
                assert(malformed_at(s, start));
            }
        },
    }
}

proof fn lemma_single(s: Seq<char>, a: int, c: int, name: Seq<char>)
    requires
        0 <= a,
        a + 3 <= c,
        opened(s, a),
        closed_at(s, c),
        forall|p: int| 0 <= p < a ==> !#[trigger] opened(s, p),
        forall|p: int| a + 3 <= p < c ==> !#[trigger] closed_at(s, p),
        forall|p: int| c + 2 <= p ==> !#[trigger] opened(s, p),
        refers(trimmed(s.subrange(a + 3, c)), name),
    ensures
        placeholders(s, 0) == Ok::<_, Seq<char>>(seq![(a, c + 2, name)]),
{
    lemma_marks(s, a);
    lemma_next_occurrence(s, opening(), 0);
    if let Some(p) = next_occurrence(s, opening(), 0) {
        lemma_marks(s, p);
    }
    assert(next_occurrence(s, opening(), 0) == Some(a));
    lemma_marks(s, c);
    lemma_next_occurrence(s, closing(), a + 3);
    if let Some(p) = next_occurrence(s, closing(), a + 3) {
        lemma_marks(s, p);
    }
    assert(next_occurrence(s, closing(), a + 3) == Some(c));
    lemma_next_occurrence(s, opening(), c + 2);
    if let Some(p) = next_occurrence(s, opening(), c + 2) {
        lemma_marks(s, p);
    }
    assert(placeholders(s, c + 2) == Ok::<_, Seq<char>>(Seq::<(int, int, Seq<char>)>::empty()));
    let inner = trimmed(s.subrange(a + 3, c));
    assert(inner.take(7) =~= crate::workflow::binding::input_prefix());
    assert(inner.skip(7) =~= name);
    assert(seq![(a, c + 2, name)] + Seq::<(int, int, Seq<char>)>::empty() =~= seq![
        (a, c + 2, name),
    ]);
}

/// A reference is found by its name, whatever white space stands around it.
pub proof fn law_a_reference_is_found(
    before: Seq<char>,
    left: Seq<char>,
    name: Seq<char>,
    right: Seq<char>,
    after: Seq<char>,
)
    requires
        blank(left),
        blank(right),
        name.len() > 0,
        !crate::text::is_space(name.last()),
        !name.contains('}'),
        !before.contains('$'),
        !after.contains('$'),
    ensures
        ({
            let inside = left + (seq!['i', 'n', 'p', 'u', 't', 's', '.'] + name) + right;
            placeholders(before + seq!['$', '{', '{'] + inside + seq!['}', '}'] + after, 0) == Ok::<
                _,
                Seq<char>,
            >(seq![(before.len() as int, (before.len() + inside.len() + 5) as int, name)])
        }),
{
    let prefix = seq!['i', 'n', 'p', 'u', 't', 's', '.'];
    let word = prefix + name;
    let inside = left + word + right;
    let s = before + seq!['$', '{', '{'] + inside + seq!['}', '}'] + after;
    let a = before.len() as int;
    let c = a + 3 + inside.len();
    assert forall|k: int| 0 <= k < inside.len() implies #[trigger] inside[k] != '}' by {
        if k < left.len() {
            assert(crate::text::is_space(left[k]));
        } else if k < left.len() + word.len() {
            let m = k - left.len();
            assert(inside[k] == word[m]);
            if m >= 7 {
                assert(word[m] == name[m - 7]);
                assert(name.contains(name[m - 7]));
            }
        } else {
            assert(crate::text::is_space(right[k - left.len() - word.len()]));
        }
    }
    assert forall|p: int| a + 3 <= p < c implies !#[trigger] closed_at(s, p) by {
        assert(s[p] == inside[p - a - 3]);
    }
    assert forall|p: int| 0 <= p < a implies !#[trigger] opened(s, p) by {
        assert(s[p] == before[p]);
        assert(before.contains(before[p]));
    }
    assert forall|p: int| c + 2 <= p implies !#[trigger] opened(s, p) by {
        if p < s.len() {
            assert(s[p] == after[p - c - 2]);
            assert(after.contains(after[p - c - 2]));
        }
    }
    assert(s.subrange(a + 3, c) =~= inside);
    assert(word[0] == 'i');
    assert(word.last() == name.last());
    crate::text_laws::law_trimming_ignores_padding(left, word, right);
    lemma_single(s, a, c, name);
}

/// The text between two placeholders, before the first one and behind the last one, and what
/// stands for each of them, in turn from the `k`-th on.
spec fn parts_from(
    s: Seq<char>,
    found: Seq<(int, int, Seq<char>)>,
    said: Seq<Seq<char>>,
    k: int,
) -> Seq<Seq<char>> {
    Seq::new(
        (2 * (found.len() - k) + 1) as nat,
        |j: int|
            if j % 2 == 0 {
                s.subrange(
                    if k + j / 2 == 0 {
                        0
                    } else {
                        found[k + j / 2 - 1].1
                    },
                    if k + j / 2 == found.len() {
                        s.len() as int
                    } else {
                        found[k + j / 2].0
                    },
                )
            } else {
                said[k + j / 2]
            },
    )
}

proof fn lemma_spliced(
    s: Seq<char>,
    found: Seq<(int, int, Seq<char>)>,
    inputs: JsonModel,
    said: Seq<Seq<char>>,
    k: int,
)
    requires
        0 <= k <= found.len(),
        said.len() == found.len(),
        forall|i: int| #![trigger found[i]]
            0 <= i < found.len() ==> (field_of(inputs, found[i].2) matches Some(v) && said[i]
                == match v {
                JsonModel::String(x) => x,
                _ => json_text(v),
            }),
    ensures
        spliced(
            s,
            found,
            inputs,
            if k == 0 {
                0
            } else {
                found[k - 1].1
            },
            k,
        ) == Ok::<_, Seq<char>>(parts_from(s, found, said, k).flatten()),
    decreases found.len() - k,
{
    let all = parts_from(s, found, said, k);
    let last = if k == 0 {
        0
    } else {
        found[k - 1].1
    };
    if k == found.len() {
        assert(all.len() == 1);
        assert(all[0] == s.subrange(last, s.len() as int));
        assert(all.drop_first().len() == 0);
        assert(all.drop_first().flatten() =~= Seq::<char>::empty());
        assert(all.flatten() =~= s.subrange(last, s.len() as int));
    } else {
        lemma_spliced(s, found, inputs, said, k + 1);
        let rest = parts_from(s, found, said, k + 1);
        assert(all.drop_first().drop_first() =~= rest) by {
            let tail = all.drop_first().drop_first();
            assert(tail.len() == rest.len());
            assert forall|j: int| 0 <= j < rest.len() implies #[trigger] tail[j] == rest[j] by {
                assert(tail[j] == all[j + 2]);
                assert((j + 2) / 2 == j / 2 + 1 && (j + 2) % 2 == j % 2);
            }
        }
        assert(all.first() == s.subrange(last, found[k].0));
        assert(all.drop_first().first() == all[1]);
        assert(all[1] == said[k]);
        let v = field_of(inputs, found[k].2)->0;
        assert(stringified(v) == said[k]);
        assert(all.drop_first().flatten() == said[k] + rest.flatten());
        assert(all.flatten() == s.subrange(last, found[k].0) + all.drop_first().flatten());
        assert(all.flatten() =~= s.subrange(last, found[k].0) + said[k] + rest.flatten());
    }
}

/// Everything outside the placeholders is kept: a text in which placeholders are embedded becomes
/// the stretches between them, each followed by what the next one stands for, a string input as
/// it is and any other as its JSON text, and at the end the stretch behind the last.
pub proof fn law_text_around_placeholders_is_kept(s: Seq<char>, inputs: JsonModel, said: Seq<Seq<char>>)
    requires
        placeholders(s, 0) is Ok,
        ({
            let found = placeholders(s, 0)->Ok_0;
            &&& found.len() > 0
            &&& !(found.len() == 1 && found[0].0 == 0 && found[0].1 == s.len())
            &&& said.len() == found.len()
            &&& forall|i: int| #![trigger found[i]]
                0 <= i < found.len() ==> (field_of(inputs, found[i].2) matches Some(v) && said[i]
                    == match v {
                    JsonModel::String(x) => x,
                    _ => json_text(v),
                })
        }),
    ensures
        ({
            let found = placeholders(s, 0)->Ok_0;
            interpolated(JsonModel::String(s), inputs) == Ok::<_, Seq<char>>(
                JsonModel::String(
                    Seq::new(
                        (2 * found.len() + 1) as nat,
                        |j: int|
                            if j % 2 == 1 {
                                said[j / 2]
                            } else {
                                s.subrange(
                                    if j == 0 {
                                        0
                                    } else {
                                        found[j / 2 - 1].1
                                    },
                                    if j == 2 * found.len() {
                                        s.len() as int
                                    } else {
                                        found[j / 2].0
                                    },
                                )
                            },
                    ).flatten(),
                ),
            )
        }),
{
    let found = placeholders(s, 0)->Ok_0;
    lemma_spliced(s, found, inputs, said, 0);
    let all = parts_from(s, found, said, 0);
    let stated = Seq::new(
        (2 * found.len() + 1) as nat,
        |j: int|
            if j % 2 == 1 {
                said[j / 2]
            } else {
                s.subrange(
                    if j == 0 {
                        0
                    } else {
                        found[j / 2 - 1].1
                    },
                    if j == 2 * found.len() {
                        s.len() as int
                    } else {
                        found[j / 2].0
                    },
                )
            },
    );
    assert(all =~= stated);
}

/// A text whose placeholders all stand for themselves is bound to itself.
pub proof fn law_substituting_a_placeholder_for_itself_changes_nothing(
    s: Seq<char>,
    inputs: JsonModel,
)
    requires
        placeholders(s, 0) is Ok,
        ({
            let found = placeholders(s, 0)->Ok_0;
            forall|i: int| #![trigger found[i]]
                0 <= i < found.len() ==> field_of(inputs, found[i].2) == Some(
                    JsonModel::String(s.subrange(found[i].0, found[i].1)),
                )
        }),
    ensures
        interpolated(JsonModel::String(s), inputs) == Ok::<_, Seq<char>>(JsonModel::String(s)),
{
    let found = placeholders(s, 0)->Ok_0;
    assert forall|i: int| 0 <= i < found.len() implies 0 <= (#[trigger] found[i]).0 <= found[i].1
        <= s.len() && (i > 0 ==> found[i - 1].1 <= found[i].0) by {
        lemma_found(s, 0, i);
        if i > 0 {
            lemma_in_order(s, 0, i - 1, i);
        }
    }
    lemma_identity(s, found, inputs, 0);
    if found.len() > 0 {
        assert(found[0] == found[0]);
        assert(s.subrange(0, s.len() as int) =~= s);
    }
}

proof fn lemma_identity(
    s: Seq<char>,
    found: Seq<(int, int, Seq<char>)>,
    inputs: JsonModel,
    k: int,
)
    requires
        0 <= k <= found.len(),
        forall|i: int|
            0 <= i < found.len() ==> 0 <= (#[trigger] found[i]).0 <= found[i].1 <= s.len() && (i > 0
                ==> found[i - 1].1 <= found[i].0),
        forall|i: int| #![trigger found[i]]
            0 <= i < found.len() ==> field_of(inputs, found[i].2) == Some(
                JsonModel::String(s.subrange(found[i].0, found[i].1)),
            ),
    ensures
        ({
            let last = if k == 0 {
                0
            } else {
                found[k - 1].1
            };
            spliced(s, found, inputs, last, k) == Ok::<_, Seq<char>>(s.subrange(last, s.len() as int))
        }),
    decreases found.len() - k,
{
    let last = if k == 0 {
        0
    } else {
        found[k - 1].1
    };
    if k < found.len() {
        lemma_identity(s, found, inputs, k + 1);
        let (start, end, name) = found[k];
        assert(field_of(inputs, found[k].2) is Some);
        assert(s.subrange(last, start) + s.subrange(start, end) + s.subrange(end, s.len() as int)
            =~= s.subrange(last, s.len() as int));
    }
}

/// A text that is one placeholder and nothing else takes the input's own value, of whatever type.
pub proof fn law_a_lone_placeholder_keeps_the_type(s: Seq<char>, inputs: JsonModel, v: JsonModel)
    requires
        placeholders(s, 0) is Ok,
        placeholders(s, 0)->Ok_0.len() == 1,
        placeholders(s, 0)->Ok_0[0].0 == 0,
        placeholders(s, 0)->Ok_0[0].1 == s.len(),
        field_of(inputs, placeholders(s, 0)->Ok_0[0].2) == Some(v),
    ensures
        interpolated(JsonModel::String(s), inputs) == Ok::<_, Seq<char>>(v),
{
}

/// Only strings are looked into: any other argument is bound as it is.
pub proof fn law_other_arguments_are_bound_as_they_are(v: JsonModel, inputs: JsonModel)
    requires
        v !is String,
    ensures
        interpolated(v, inputs) == Ok::<_, Seq<char>>(v),
{
}

proof fn lemma_missing(
    s: Seq<char>,
    found: Seq<(int, int, Seq<char>)>,
    inputs: JsonModel,
    last: int,
    k: int,
    i: int,
)
    requires
        0 <= k <= i < found.len(),
        field_of(inputs, found[i].2) is None,
    ensures
        spliced(s, found, inputs, last, k) is Err,
    decreases i - k,
{
    if k < i {
        lemma_missing(s, found, inputs, found[k].1, k + 1, i);
    }
}

/// A reference to an input that was not given is refused, and so is a malformed placeholder.
pub proof fn law_unknown_inputs_are_refused(s: Seq<char>, inputs: JsonModel, i: int)
    ensures
        placeholders(s, 0) is Err ==> interpolated(JsonModel::String(s), inputs) is Err,
        placeholders(s, 0) is Ok && 0 <= i < placeholders(s, 0)->Ok_0.len() && field_of(
            inputs,
            placeholders(s, 0)->Ok_0[i].2,
        ) is None ==> interpolated(JsonModel::String(s), inputs) is Err,
{
    if placeholders(s, 0) is Ok && 0 <= i < placeholders(s, 0)->Ok_0.len() && field_of(
        inputs,
        placeholders(s, 0)->Ok_0[i].2,
    ) is None {
        lemma_missing(s, placeholders(s, 0)->Ok_0, inputs, 0, 0, i);
    }
}

proof fn lemma_first_field(fields: Seq<(Seq<char>, JsonModel)>, name: Seq<char>, i: int)
    requires
        0 <= i <= fields.len(),
    ensures
        match field_from(fields, name, i) {
            Some(v) => exists|k: int|
                i <= k < fields.len() && (#[trigger] fields[k]).0 == name && fields[k].1 == v
                    && forall|j: int| i <= j < k ==> (#[trigger] fields[j]).0 != name,
            None => forall|j: int| i <= j < fields.len() ==> (#[trigger] fields[j]).0 != name,
        },
    decreases fields.len() - i,
{
    if i < fields.len() && fields[i].0 != name {
        lemma_first_field(fields, name, i + 1);
    } else if i < fields.len() {
        assert(fields[i].0 == name);
    }
}

/// An input is looked up by its name: the value found stands under it, and nothing is found only
/// where nothing stands under it.
pub proof fn law_inputs_are_looked_up_by_name(inputs: JsonModel, name: Seq<char>)
    ensures
        match (inputs, field_of(inputs, name)) {
            (JsonModel::Object(fields), Some(v)) => exists|k: int|
                0 <= k < fields.len() && #[trigger] fields[k] == (name, v),
            (JsonModel::Object(fields), None) => forall|k: int|
                0 <= k < fields.len() ==> (#[trigger] fields[k]).0 != name,
            (_, found) => found is None,
        },
        match looked_up(inputs, name) {
            Ok(v) => field_of(inputs, name) == Some(v),
            Err(message) => field_of(inputs, name) is None && exists|a: Seq<char>, b: Seq<char>|
                message == #[trigger] (a + name + b),
        },
{
    if let JsonModel::Object(fields) = inputs {
        lemma_first_field(fields, name, 0);
        if let Some(v) = field_of(inputs, name) {
            let k = choose|k: int|
                0 <= k < fields.len() && (#[trigger] fields[k]).0 == name && fields[k].1 == v
                    && forall|j: int| 0 <= j < k ==> (#[trigger] fields[j]).0 != name;
            assert(fields[k] == (name, v));
        }
    }
}

/// A found placeholder is given by where its bytes begin and end among the bytes of the text, and by
/// the name in it.
pub proof fn law_placeholders_are_given_by_their_bytes(
    s: Seq<char>,
    found: Seq<(int, int, Seq<char>)>,
    i: int,
)
    requires
        0 <= i < found.len(),
        0 <= found[i].0 <= found[i].1 <= s.len(),
    ensures
        ({
            let given = byte_spans(s, found);
            let all = vstd::utf8::encode_utf8(s);
            &&& given.len() == found.len()
            &&& 0 <= given[i].0 <= given[i].1 <= all.len()
            &&& all.subrange(given[i].0, given[i].1) == vstd::utf8::encode_utf8(
                s.subrange(found[i].0, found[i].1),
            )
            &&& given[i].2 == found[i].2
            &&& names_of(found).len() == found.len()
            &&& names_of(found)[i] == found[i].2
        }),
{
    let (from, to, _) = found[i];
    let a = s.take(from);
    let b = s.subrange(from, to);
    let c = s.skip(to);
    crate::text_laws::law_texts_are_encoded_one_behind_the_other(a, b);
    crate::text_laws::law_texts_are_encoded_one_behind_the_other(a + b, c);
    assert(a + b =~= s.take(to));
    assert(a + b + c =~= s);
    let given = byte_spans(s, found);
    assert(vstd::utf8::encode_utf8(s).subrange(given[i].0, given[i].1)
        =~= vstd::utf8::encode_utf8(b));
}

} // verus!
