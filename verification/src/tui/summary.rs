//! A summary on lines of limited length.
use vstd::prelude::*;

verus! {

/// The most characters of a line.
pub const SUMMARY_WIDTH: usize = 48;

/// Lines that are done, and the one being filled.
pub struct Wrapping {
    pub lines: Seq<Seq<char>>,
    pub current: Seq<char>,
}

/// The lines, with the current one behind them unless it is empty.
pub open spec fn closed(w: Wrapping) -> Seq<Seq<char>> {
    if w.current.len() == 0 {
        w.lines
    } else {
        w.lines.push(w.current)
    }
}

/// A long word is cut into full lines; the last piece stays on the current line.
pub open spec fn cut_word(lines: Seq<Seq<char>>, word: Seq<char>) -> Wrapping
    decreases word.len(),
{
    if word.len() <= SUMMARY_WIDTH {
        Wrapping { lines, current: word }
    } else {
        cut_word(
            lines.push(word.take(SUMMARY_WIDTH as int)),
            word.skip(SUMMARY_WIDTH as int),
        )
    }
}

/// A word is put on the current line where it fits, else on a new one; one longer than a
/// line is cut.
pub open spec fn with_word(w: Wrapping, word: Seq<char>) -> Wrapping {
    if word.len() > SUMMARY_WIDTH {
        cut_word(closed(w), word)
    } else if w.current.len() == 0 {
        Wrapping { lines: w.lines, current: word }
    } else if w.current.len() + 1 + word.len() > SUMMARY_WIDTH {
        Wrapping { lines: w.lines.push(w.current), current: word }
    } else {
        Wrapping { lines: w.lines, current: w.current + seq![' '] + word }
    }
}

/// The first `n` words are put on lines, one after the other.
pub open spec fn with_words(words: Seq<Seq<char>>, n: int) -> Wrapping
    decreases n,
{
    if n <= 0 {
        Wrapping { lines: Seq::<Seq<char>>::empty(), current: Seq::<char>::empty() }
    } else {
        with_word(with_words(words, n - 1), words[n - 1])
    }
}

/// The lines of a summary.
pub open spec fn summary_list(summary: Seq<char>) -> Seq<Seq<char>> {
    if summary.len() == 0 {
        seq!["(empty)"@]
    } else {
        let words = crate::lines::word_list(summary);
        closed(with_words(words, words.len() as int))
    }
}

fn close(lines: Vec<String>, current: String) -> (r: Vec<String>)
    ensures
        crate::text::texts(r@) == closed(
            Wrapping { lines: crate::text::texts(lines@), current: current@ },
        ),
{
    let mut r: Vec<String> = lines;
    if current.as_str().unicode_len() != 0 {
        let ghost before = crate::text::texts(r@);
        r.push(current);
        proof {
            assert(crate::text::texts(r@) =~= before.push(current@));
        }
    }
    r
}

fn cut_long(lines: Vec<String>, word: &String) -> (r: (Vec<String>, String))
    ensures
        (Wrapping { lines: crate::text::texts(r.0@), current: r.1@ }) == cut_word(
            crate::text::texts(lines@),
            word@,
        ),
{
    let v: Vec<char> = crate::text::char_vec(word.as_str());
    let mut out: Vec<String> = lines;
    let mut from: usize = 0;
    proof {
        assert(v@.skip(0) =~= v@);
    }
    while v.len() - from > SUMMARY_WIDTH
        invariant
            from <= v@.len(),
            v@ == word@,
            cut_word(crate::text::texts(lines@), word@) == cut_word(
                crate::text::texts(out@),
                v@.skip(from as int),
            ),
        decreases v@.len() - from,
    {
        let ghost before = crate::text::texts(out@);
        let ghost rest = v@.skip(from as int);
        out.push(crate::text::string_of(&v, from, from + SUMMARY_WIDTH));
        proof {
            assert(rest.take(SUMMARY_WIDTH as int) =~= v@.subrange(
                from as int,
                from + SUMMARY_WIDTH,
            ));
            assert(rest.skip(SUMMARY_WIDTH as int) =~= v@.skip(from + SUMMARY_WIDTH));
            assert(crate::text::texts(out@) =~= before.push(rest.take(SUMMARY_WIDTH as int)));
        }
        from = from + SUMMARY_WIDTH;
    }
    let last: String = crate::text::string_of(&v, from, v.len());
    proof {
        assert(v@.subrange(from as int, v@.len() as int) =~= v@.skip(from as int));
    }
    (out, last)
}

fn add_word(lines: Vec<String>, current: String, word: &String) -> (r: (Vec<String>, String))
    ensures
        (Wrapping { lines: crate::text::texts(r.0@), current: r.1@ }) == with_word(
            Wrapping { lines: crate::text::texts(lines@), current: current@ },
            word@,
        ),
{
    let size: usize = word.as_str().unicode_len();
    let used: usize = current.as_str().unicode_len();
    if size > SUMMARY_WIDTH {
        return cut_long(close(lines, current), word);
    }
    if used == 0 {
        return (lines, word.clone());
    }
    if used >= SUMMARY_WIDTH || size > SUMMARY_WIDTH - 1 - used {
        let mut out: Vec<String> = lines;
        let ghost before = crate::text::texts(out@);
        out.push(current);
        proof {
            assert(crate::text::texts(out@) =~= before.push(current@));
        }
        return (out, word.clone());
    }
    proof {
        reveal_strlit(" ");
        assert(" "@ =~= seq![' ']);
    }
    (lines, crate::text::concat3(current.as_str(), " ", word.as_str()))
}

/// The lines of a summary: its words, as many on a line as fit; a word longer than a line is
/// cut.
pub fn textwrap_summary(summary: &str) -> (r: Vec<String>)
    ensures
        crate::text::texts(r@) == summary_list(summary@),
{
    if summary.unicode_len() == 0 {
        let mut r: Vec<String> = Vec::new();
        r.push("(empty)".to_owned());
        proof {
            assert(crate::text::texts(r@) =~= seq!["(empty)"@]);
        }
        return r;
    }
    let words: Vec<String> = crate::lines::words(summary);
    let ghost list = crate::lines::word_list(summary@);
    let mut lines: Vec<String> = Vec::new();
    let mut current: String = String::new();
    let mut i: usize = 0;
    proof {
        assert(crate::text::texts(lines@) =~= Seq::<Seq<char>>::empty());
        assert(current@ =~= Seq::<char>::empty());
    }
    while i < words.len()
        invariant
            i <= words@.len(),
            crate::text::texts(words@) == list,
            (Wrapping { lines: crate::text::texts(lines@), current: current@ }) == with_words(
                list,
                i as int,
            ),
        decreases words@.len() - i,
    {
        proof {
            assert(list[i as int] == words@[i as int]@);
        }
        let (next_lines, next_current): (Vec<String>, String) = add_word(
            lines,
            current,
            &words[i],
        );
        lines = next_lines;
        current = next_current;
        i = i + 1;
    }
    close(lines, current)
}

/// Whether no line is longer than a line may be.
pub open spec fn within(w: Wrapping) -> bool {
    &&& w.current.len() <= SUMMARY_WIDTH
    &&& forall|i: int| 0 <= i < w.lines.len() ==> (#[trigger] w.lines[i]).len() <= SUMMARY_WIDTH
}

proof fn lemma_cut_within(lines: Seq<Seq<char>>, word: Seq<char>)
    requires
        forall|i: int| 0 <= i < lines.len() ==> (#[trigger] lines[i]).len() <= SUMMARY_WIDTH,
    ensures
        within(cut_word(lines, word)),
    decreases word.len(),
{
    if word.len() > SUMMARY_WIDTH {
        lemma_cut_within(
            lines.push(word.take(SUMMARY_WIDTH as int)),
            word.skip(SUMMARY_WIDTH as int),
        );
    }
}

proof fn lemma_words_within(words: Seq<Seq<char>>, n: int)
    requires
        0 <= n <= words.len(),
    ensures
        within(with_words(words, n)),
    decreases n,
{
    if n > 0 {
        lemma_words_within(words, n - 1);
        lemma_cut_within(closed(with_words(words, n - 1)), words[n - 1]);
    }
}

/// No line of a summary is longer than a line may be, however long its words are.
pub proof fn law_summary_lines_fit(summary: Seq<char>, i: int)
    requires
        0 <= i < summary_list(summary).len(),
    ensures
        summary_list(summary)[i].len() <= SUMMARY_WIDTH,
{
    reveal_strlit("(empty)");
    let words = crate::lines::word_list(summary);
    lemma_words_within(words, words.len() as int);
}

} // verus!
