//! What sanitizing takes out, and what it leaves.
use crate::tui::cells::{
    command_end, escape_end, is_escape, sanitized, sanitized_from, sequence_end, shown, unit_end,
};
use vstd::prelude::*;

verus! {

/// No character that is shown steers a terminal: none is an escape or another control character of
/// either set, a line feed apart, and none marks, overrides or isolates a writing direction.
pub proof fn law_nothing_shown_steers_the_terminal(s: Seq<char>, k: int)
    requires
        0 <= k < sanitized(s).len(),
    ensures
        ({
            let u = sanitized(s)[k] as u32;
            &&& u == 0x0a || u >= 0x20
            &&& !(0x7f <= u <= 0x9f)
            &&& u != 0x061c && u != 0x200e && u != 0x200f
            &&& !(0x202a <= u <= 0x202e)
            &&& !(0x2066 <= u <= 0x2069)
        }),
{
    crate::tui::cells::law_sanitized_text_is_clean(s);
    let c = sanitized(s)[k];
    assert(c == '\n' || !crate::tui::cells::is_control(c));
}

proof fn lemma_sequence_shift(p: Seq<char>, s: Seq<char>, i: int)
    requires
        0 <= i <= s.len(),
    ensures
        sequence_end(p + s, p.len() + i) == p.len() + sequence_end(s, i),
    decreases s.len() - i,
{
    if i < s.len() {
        assert((p + s)[p.len() + i] == s[i]);
        lemma_sequence_shift(p, s, i + 1);
    }
}

proof fn lemma_command_shift(p: Seq<char>, s: Seq<char>, i: int, escaped: bool)
    requires
        0 <= i <= s.len(),
    ensures
        command_end(p + s, p.len() + i, escaped) == p.len() + command_end(s, i, escaped),
    decreases s.len() - i,
{
    if i < s.len() {
        assert((p + s)[p.len() + i] == s[i]);
        lemma_command_shift(p, s, i + 1, is_escape(s[i]));
    }
}

proof fn lemma_unit_shift(p: Seq<char>, s: Seq<char>, i: int)
    requires
        0 <= i < s.len(),
    ensures
        unit_end(p + s, p.len() + i) == p.len() + unit_end(s, i),
{
    assert((p + s)[p.len() + i] == s[i]);
    if i + 1 < s.len() {
        assert((p + s)[p.len() + i + 1] == s[i + 1]);
    }
    if is_escape(s[i]) && i + 1 < s.len() {
        lemma_sequence_shift(p, s, i + 2);
        lemma_command_shift(p, s, i + 2, false);
    }
}

proof fn lemma_shift(p: Seq<char>, s: Seq<char>, i: int)
    requires
        0 <= i <= s.len(),
    ensures
        sanitized_from(p + s, p.len() + i) == sanitized_from(s, i),
    decreases s.len() - i,
{
    if i < s.len() {
        crate::tui::cells::lemma_unit_end(s, i);
        lemma_unit_shift(p, s, i);
        assert((p + s)[p.len() + i] == s[i]);
        lemma_shift(p, s, unit_end(s, i));
    }
}

proof fn lemma_front(a: Seq<char>, b: Seq<char>, i: int)
    requires
        0 <= i <= a.len(),
        forall|k: int| 0 <= k < a.len() ==> !is_escape(#[trigger] a[k]) && a[k] != '\r',
    ensures
        sanitized_from(a + b, i) == sanitized_from(a, i) + sanitized_from(b, 0),
    decreases a.len() - i,
{
    let all = a + b;
    if i < a.len() {
        assert(all[i] == a[i]);
        assert(unit_end(all, i) == i + 1 && unit_end(a, i) == i + 1);
        lemma_front(a, b, i + 1);
        assert(sanitized_from(all, i) == shown(a[i]) + sanitized_from(all, i + 1));
        assert(sanitized_from(a, i) == shown(a[i]) + sanitized_from(a, i + 1));
        assert(sanitized_from(all, i) =~= sanitized_from(a, i) + sanitized_from(b, 0));
    } else {
        lemma_shift(a, b, 0);
        assert(sanitized_from(a, i) =~= Seq::<char>::empty());
        assert(sanitized_from(all, i) =~= sanitized_from(a, i) + sanitized_from(b, 0));
    }
}

/// Text without escapes and carriage returns is sanitized on its own, whatever follows it.
pub proof fn law_plain_text_is_sanitized_on_its_own(a: Seq<char>, b: Seq<char>)
    requires
        forall|k: int| 0 <= k < a.len() ==> a[k] as u32 != 0x1b && #[trigger] a[k] != '\r',
    ensures
        sanitized(a + b) == sanitized(a) + sanitized(b),
{
    lemma_front(a, b, 0);
}

/// Whatever follows, a line end of any of the three kinds is one line feed, a tab is four spaces, a
/// control character or direction mark is nothing, and any other character is itself.
pub proof fn law_characters_are_shown_one_by_one(c: char, b: Seq<char>)
    requires
        c as u32 != 0x1b,
    ensures
        c == '\n' ==> sanitized(seq![c] + b) == seq!['\n'] + sanitized(b),
        c == '\r' && !(b.len() > 0 && b[0] == '\n') ==> sanitized(seq![c] + b) == seq!['\n']
            + sanitized(b),
        sanitized(seq!['\r', '\n'] + b) == seq!['\n'] + sanitized(b),
        c == '\t' ==> sanitized(seq![c] + b) == seq![' ', ' ', ' ', ' '] + sanitized(b),
        ({
            let u = c as u32;
            let control = u < 0x20 || 0x7f <= u <= 0x9f;
            let direction = u == 0x061c || u == 0x200e || u == 0x200f || 0x202a <= u <= 0x202e
                || 0x2066 <= u <= 0x2069;
            &&& (control && c != '\n' && c != '\r' && c != '\t') || direction ==> sanitized(
                seq![c] + b,
            ) == sanitized(b)
            &&& !control && !direction ==> sanitized(seq![c] + b) == seq![c] + sanitized(b)
        }),
{
    let one = seq![c];
    let all = one + b;
    assert(all[0] == c);
    if b.len() > 0 {
        assert(all[1] == b[0]);
    }
    lemma_shift(one, b, 0);
    assert(sanitized(all) == shown(c) + sanitized_from(all, unit_end(all, 0)));
    if shown(c).len() == 0 {
        assert(shown(c) + sanitized(b) =~= sanitized(b));
    }
    let two = seq!['\r', '\n'];
    assert((two + b)[0] == '\r' && (two + b)[1] == '\n');
    lemma_shift(two, b, 0);
    assert(unit_end(two + b, 0) == 2);
}

proof fn lemma_sequence_at(s: Seq<char>, i: int, end: int)
    requires
        0 <= i <= end < s.len(),
        0x40 <= s[end] as u32 <= 0x7e,
        forall|k: int| i <= k < end ==> !(0x40 <= #[trigger] s[k] as u32 <= 0x7e),
    ensures
        sequence_end(s, i) == end + 1,
    decreases end - i,
{
    if i < end {
        assert(!(0x40 <= s[i] as u32 <= 0x7e));
        lemma_sequence_at(s, i + 1, end);
    }
}

/// A control sequence is taken out whole, from the escape to its final character, and nothing
/// behind it.
pub proof fn law_a_control_sequence_is_taken_out(params: Seq<char>, last: char, b: Seq<char>)
    requires
        0x40 <= last as u32 <= 0x7e,
        forall|k: int|
            0 <= k < params.len() ==> !(0x40 <= #[trigger] params[k] as u32 <= 0x7e),
    ensures
        sanitized(seq!['\u{1b}', '['] + params + seq![last] + b) == sanitized(b),
{
    let head = seq!['\u{1b}', '['] + params + seq![last];
    let all = head + b;
    let end = 2 + params.len() as int;
    assert(all[0] == '\u{1b}' && all[1] == '[' && all[end] == last);
    assert forall|k: int| 2 <= k < end implies !(0x40 <= #[trigger] all[k] as u32 <= 0x7e) by {
        assert(all[k] == params[k - 2]);
    }
    lemma_sequence_at(all, 2, end);
    lemma_shift(head, b, 0);
    assert(unit_end(all, 0) == head.len());
    assert(shown('\u{1b}') =~= Seq::<char>::empty());
    assert(sanitized(all) =~= sanitized(b));
}

proof fn lemma_command_at(s: Seq<char>, i: int, end: int)
    requires
        0 <= i <= end < s.len(),
        s[end] as u32 == 7,
        forall|k: int|
            i <= k < end ==> #[trigger] s[k] as u32 != 7 && s[k] as u32 != 0x1b,
    ensures
        command_end(s, i, false) == end + 1,
    decreases end - i,
{
    if i < end {
        assert(s[i] as u32 != 7 && s[i] as u32 != 0x1b);
        lemma_command_at(s, i + 1, end);
    }
}

proof fn lemma_command_terminated(s: Seq<char>, i: int, end: int)
    requires
        0 <= i <= end,
        end + 1 < s.len(),
        s[end] as u32 == 0x1b,
        s[end + 1] == '\\',
        forall|k: int|
            i <= k < end ==> #[trigger] s[k] as u32 != 7 && s[k] as u32 != 0x1b,
    ensures
        command_end(s, i, false) == end + 2,
    decreases end - i,
{
    if i < end {
        assert(s[i] as u32 != 7 && s[i] as u32 != 0x1b);
        lemma_command_terminated(s, i + 1, end);
    } else {
        assert(command_end(s, i, false) == command_end(s, i + 1, true));
    }
}

/// An operating system command is taken out whole, its text with it, up to the bell or the string
/// terminator that ends it, and nothing behind that.
pub proof fn law_a_system_command_is_taken_out(text: Seq<char>, b: Seq<char>)
    requires
        forall|k: int|
            0 <= k < text.len() ==> #[trigger] text[k] as u32 != 7 && text[k] as u32 != 0x1b,
    ensures
        sanitized(seq!['\u{1b}', ']'] + text + seq!['\u{7}'] + b) == sanitized(b),
        sanitized(seq!['\u{1b}', ']'] + text + seq!['\u{1b}', '\\'] + b) == sanitized(b),
{
    assert(shown('\u{1b}') =~= Seq::<char>::empty());
    let end = 2 + text.len() as int;
    let head = seq!['\u{1b}', ']'] + text + seq!['\u{7}'];
    let all = head + b;
    assert(all[0] == '\u{1b}' && all[1] == ']' && all[end] == '\u{7}');
    assert forall|k: int| 2 <= k < end implies #[trigger] all[k] as u32 != 7 && all[k] as u32
        != 0x1b by {
        assert(all[k] == text[k - 2]);
    }
    lemma_command_at(all, 2, end);
    lemma_shift(head, b, 0);
    assert(unit_end(all, 0) == head.len());
    assert(sanitized(all) =~= sanitized(b));
    let other = seq!['\u{1b}', ']'] + text + seq!['\u{1b}', '\\'];
    let more = other + b;
    assert(more[0] == '\u{1b}' && more[1] == ']' && more[end] == '\u{1b}' && more[end + 1] == '\\');
    assert forall|k: int| 2 <= k < end implies #[trigger] more[k] as u32 != 7 && more[k] as u32
        != 0x1b by {
        assert(more[k] == text[k - 2]);
    }
    lemma_command_terminated(more, 2, end);
    lemma_shift(other, b, 0);
    assert(unit_end(more, 0) == other.len());
    assert(sanitized(more) =~= sanitized(b));
}

/// Any other escape takes the one character behind it with it, and no more.
pub proof fn law_a_short_escape_is_taken_out(c: char, b: Seq<char>)
    requires
        c != '[',
        c != ']',
    ensures
        sanitized(seq!['\u{1b}', c] + b) == sanitized(b),
{
    let head = seq!['\u{1b}', c];
    let all = head + b;
    assert(all[0] == '\u{1b}' && all[1] == c);
    lemma_shift(head, b, 0);
    assert(escape_end(all, 0) == 2);
    assert(shown('\u{1b}') =~= Seq::<char>::empty());
    assert(sanitized(all) =~= sanitized(b));
}

} // verus!
