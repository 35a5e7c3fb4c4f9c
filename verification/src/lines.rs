//! Cutting text into pieces: at line feeds, into lines, and into words.
use vstd::prelude::*;

verus! {

/// What text is cut at.
#[derive(Clone, Copy, Debug, PartialEq, Eq, Structural)]
pub enum Separator {
    /// A line feed.
    LineFeed,
    /// Any white space.
    Space,
}

/// Whether `c` is what `sep` cuts at.
pub open spec fn separates(sep: Separator, c: char) -> bool {
    match sep {
        Separator::LineFeed => c == '\n',
        Separator::Space => crate::text::is_space(c),
    }
}

/// The stretches between separators: one more than there are separators in `s`.
pub open spec fn pieces(s: Seq<char>, sep: Separator) -> Seq<Seq<char>>
    decreases s.len(),
{
    if s.len() == 0 {
        seq![Seq::<char>::empty()]
    } else {
        let before = pieces(s.drop_last(), sep);
        if separates(sep, s.last()) {
            before.push(Seq::<char>::empty())
        } else {
            before.drop_last().push(before.last().push(s.last()))
        }
    }
}

/// `s` without one trailing carriage return.
pub open spec fn without_return(s: Seq<char>) -> Seq<char> {
    if s.len() > 0 && s.last() == '\r' {
        s.drop_last()
    } else {
        s
    }
}

/// The lines of `s`: what ends in a line feed, each without the `\n` or `\r\n` that ends
/// it, and what follows the last line feed, if anything does.
pub open spec fn line_list(s: Seq<char>) -> Seq<Seq<char>> {
    let cut = pieces(s, Separator::LineFeed);
    let ended = Seq::new(
        (cut.len() - 1) as nat,
        |i: int| without_return(cut[i]),
    );
    if cut.last().len() == 0 {
        ended
    } else {
        ended.push(cut.last())
    }
}

/// The non-empty members of `s`, in order.
pub open spec fn filled(s: Seq<Seq<char>>) -> Seq<Seq<char>>
    decreases s.len(),
{
    if s.len() == 0 {
        Seq::<Seq<char>>::empty()
    } else if s.last().len() == 0 {
        filled(s.drop_last())
    } else {
        filled(s.drop_last()).push(s.last())
    }
}

/// The words of `s`: its longest stretches without white space.
pub open spec fn word_list(s: Seq<char>) -> Seq<Seq<char>> {
    filled(pieces(s, Separator::Space))
}

/// How many characters of `s` are separators.
pub open spec fn separators(s: Seq<char>, sep: Separator) -> nat
    decreases s.len(),
{
    if s.len() == 0 {
        0
    } else {
        separators(s.drop_last(), sep) + if separates(sep, s.last()) {
            1nat
        } else {
            0nat
        }
    }
}

/// There is one more piece than there are separators.
pub proof fn lemma_pieces_count(s: Seq<char>, sep: Separator)
    ensures
        pieces(s, sep).len() == 1 + separators(s, sep),
    decreases s.len(),
{
    if s.len() > 0 {
        lemma_pieces_count(s.drop_last(), sep);
    }
}

/// There is always at least one piece.
pub proof fn lemma_pieces_exist(s: Seq<char>, sep: Separator)
    ensures
        pieces(s, sep).len() > 0,
    decreases s.len(),
{
    if s.len() > 0 {
        lemma_pieces_exist(s.drop_last(), sep);
    }
}

fn is_separator(sep: Separator, c: char) -> (r: bool)
    ensures
        r == separates(sep, c),
{
    match sep {
        Separator::LineFeed => c == '\n',
        Separator::Space => crate::text::char_is_space(c),
    }
}

/// The stretches of `s` between separators.
pub fn cut(s: &str, sep: Separator) -> (out: Vec<String>)
    ensures
        crate::text::texts(out@) == pieces(s@, sep),
        out@.len() > 0,
{
    let v: Vec<char> = crate::text::char_vec(s);
    let mut out: Vec<String> = Vec::new();
    let mut from: usize = 0;
    let mut i: usize = 0;
    proof {
        assert(s@.take(0) =~= Seq::<char>::empty());
        assert(v@.subrange(0, 0) =~= Seq::<char>::empty());
        assert(crate::text::texts(out@).push(Seq::<char>::empty()) =~= seq![Seq::<char>::empty()]);
    }
    while i < v.len()
        invariant
            v@ == s@,
            from <= i <= v@.len(),
            crate::text::texts(out@).push(v@.subrange(from as int, i as int)) == pieces(s@.take(i as int), sep),
        decreases v@.len() - i,
    {
        let ghost before = crate::text::texts(out@);
        let ghost part = v@.subrange(from as int, i as int);
        let ghost longer = s@.take(i + 1);
        proof {
            assert(longer.drop_last() =~= s@.take(i as int));
            assert(longer.last() == v@[i as int]);
            assert(before.push(part).last() == part);
            assert(before.push(part).drop_last() =~= before);
        }
        if is_separator(sep, v[i]) {
            out.push(crate::text::string_of(&v, from, i));
            from = i + 1;
            proof {
                assert(crate::text::texts(out@) =~= before.push(part));
                assert(v@.subrange(i + 1, i + 1) =~= Seq::<char>::empty());
            }
        } else {
            proof {
                assert(v@.subrange(from as int, i + 1) =~= part.push(v@[i as int]));
            }
        }
        i = i + 1;
    }
    let ghost before = crate::text::texts(out@);
    let last: String = crate::text::string_of(&v, from, i);
    out.push(last);
    proof {
        assert(s@.take(s@.len() as int) =~= s@);
        assert(crate::text::texts(out@) =~= before.push(v@.subrange(from as int, i as int)));
    }
    out
}

fn drop_return(s: &String) -> (out: String)
    ensures
        out@ == without_return(s@),
{
    let v: Vec<char> = crate::text::char_vec(s.as_str());
    let n: usize = v.len();
    if n > 0 && v[n - 1] == '\r' {
        let out: String = crate::text::string_of(&v, 0, n - 1);
        proof {
            assert(v@.subrange(0, n - 1) =~= s@.drop_last());
        }
        out
    } else {
        s.clone()
    }
}

/// The lines of `s`.
pub fn lines(s: &str) -> (out: Vec<String>)
    ensures
        crate::text::texts(out@) == line_list(s@),
{
    let parts: Vec<String> = cut(s, Separator::LineFeed);
    let ghost all = pieces(s@, Separator::LineFeed);
    let n: usize = parts.len();
    let mut out: Vec<String> = Vec::new();
    let mut i: usize = 0;
    while i < n - 1
        invariant
            n == parts@.len(),
            n > 0,
            i <= n - 1,
            crate::text::texts(parts@) == all,
            all.len() == n,
            crate::text::texts(out@) == Seq::new(i as nat, |k: int| without_return(all[k])),
        decreases n - i,
    {
        let ghost before = crate::text::texts(out@);
        proof {
            assert(all[i as int] == parts@[i as int]@);
        }
        out.push(drop_return(&parts[i]));
        proof {
            assert(crate::text::texts(out@) =~= before.push(without_return(all[i as int])));
            assert(crate::text::texts(out@) =~= Seq::new((i + 1) as nat, |k: int| without_return(all[k])));
        }
        i = i + 1;
    }
    let ghost before = crate::text::texts(out@);
    proof {
        assert(all.last() == parts@[n - 1]@);
    }
    if parts[n - 1].as_str().unicode_len() != 0 {
        out.push(parts[n - 1].clone());
        proof {
            assert(crate::text::texts(out@) =~= before.push(all.last()));
        }
    }
    out
}

/// The words of `s`.
pub fn words(s: &str) -> (out: Vec<String>)
    ensures
        crate::text::texts(out@) == word_list(s@),
{
    let parts: Vec<String> = cut(s, Separator::Space);
    let ghost all = pieces(s@, Separator::Space);
    let mut out: Vec<String> = Vec::new();
    let mut i: usize = 0;
    proof {
        assert(all.take(0) =~= Seq::<Seq<char>>::empty());
        assert(crate::text::texts(out@) =~= Seq::<Seq<char>>::empty());
    }
    while i < parts.len()
        invariant
            i <= parts@.len(),
            crate::text::texts(parts@) == all,
            crate::text::texts(out@) == filled(all.take(i as int)),
        decreases parts@.len() - i,
    {
        let ghost before = crate::text::texts(out@);
        proof {
            assert(all.take(i + 1).drop_last() =~= all.take(i as int));
            assert(all.take(i + 1).last() == parts@[i as int]@);
        }
        if parts[i].as_str().unicode_len() != 0 {
            out.push(parts[i].clone());
            proof {
                assert(crate::text::texts(out@) =~= before.push(parts@[i as int]@));
            }
        }
        i = i + 1;
    }
    proof {
        assert(all.take(all.len() as int) =~= all);
    }
    out
}

} // verus!
