//! Strings as sequences of characters: comparison, ordering, trimming, search,
//! decimal and hexadecimal rendering.
use vstd::prelude::*;

verus! {

/// Whether `c` has the Unicode `White_Space` property.
pub open spec fn is_space(c: char) -> bool {
    let u = c as u32;
    ||| 0x9 <= u <= 0xd
    ||| u == 0x20
    ||| u == 0x85
    ||| u == 0xa0
    ||| u == 0x1680
    ||| 0x2000 <= u <= 0x200a
    ||| u == 0x2028
    ||| u == 0x2029
    ||| u == 0x202f
    ||| u == 0x205f
    ||| u == 0x3000
}

/// Whether every character of `s` is white space, so that trimming leaves nothing.
pub open spec fn blank(s: Seq<char>) -> bool {
    forall|i: int| 0 <= i < s.len() ==> is_space(#[trigger] s[i])
}

/// `s` without its leading white space.
pub open spec fn trim_front(s: Seq<char>) -> Seq<char>
    decreases s.len(),
{
    if s.len() > 0 && is_space(s[0]) {
        trim_front(s.skip(1))
    } else {
        s
    }
}

/// `s` without its trailing white space.
pub open spec fn trim_back(s: Seq<char>) -> Seq<char>
    decreases s.len(),
{
    if s.len() > 0 && is_space(s.last()) {
        trim_back(s.drop_last())
    } else {
        s
    }
}

/// `s` without its leading and trailing white space.
pub open spec fn trimmed(s: Seq<char>) -> Seq<char> {
    trim_back(trim_front(s))
}

/// Lexicographic order by code point, a shorter string before its extensions.
pub open spec fn text_lt(a: Seq<char>, b: Seq<char>) -> bool
    decreases a.len(),
{
    if b.len() == 0 {
        false
    } else if a.len() == 0 {
        true
    } else if a[0] == b[0] {
        text_lt(a.skip(1), b.skip(1))
    } else {
        (a[0] as int) < (b[0] as int)
    }
}

pub open spec fn text_le(a: Seq<char>, b: Seq<char>) -> bool {
    a == b || text_lt(a, b)
}

/// The sequence of views of a vector of strings.
pub open spec fn texts(v: Seq<String>) -> Seq<Seq<char>> {
    v.map_values(|s: String| s@)
}

/// Whether `needle` occurs in `hay` at character offset `at`.
pub open spec fn occurs_at(hay: Seq<char>, needle: Seq<char>, at: int) -> bool {
    &&& 0 <= at
    &&& at + needle.len() <= hay.len()
    &&& hay.subrange(at, at + needle.len()) == needle
}

/// Whether `needle` occurs anywhere in `hay`.
pub open spec fn occurs(hay: Seq<char>, needle: Seq<char>) -> bool {
    exists|at: int| occurs_at(hay, needle, at)
}

/// The decimal digits of `n`, without leading zeros.
pub open spec fn decimal(n: nat) -> Seq<char>
    decreases n,
{
    if n < 10 {
        seq![digit(n)]
    } else {
        decimal(n / 10).push(digit(n % 10))
    }
}

/// The character that stands for the decimal digit `d`.
pub open spec fn digit(d: nat) -> char {
    (('0' as u32) + d) as char
}

/// The elements of `parts` one after the other, with `sep` between neighbours.
pub open spec fn joined(parts: Seq<Seq<char>>, sep: Seq<char>) -> Seq<char>
    decreases parts.len(),
{
    if parts.len() == 0 {
        Seq::empty()
    } else if parts.len() == 1 {
        parts[0]
    } else {
        joined(parts.drop_last(), sep) + sep + parts.last()
    }
}

/// Whether `c` has the Unicode `White_Space` property.
pub fn char_is_space(c: char) -> (r: bool)
    ensures
        r == is_space(c),
{
    let u: u32 = c as u32;
    (0x9 <= u && u <= 0xd) || u == 0x20 || u == 0x85 || u == 0xa0 || u == 0x1680 || (0x2000 <= u && u
        <= 0x200a) || u == 0x2028 || u == 0x2029 || u == 0x202f || u == 0x205f || u == 0x3000
}

/// The characters of `s`, one vector element each.
pub fn char_vec(s: &str) -> (out: Vec<char>)
    ensures
        out@ == s@,
{
    let mut out: Vec<char> = Vec::new();
    for c in it: s.chars()
        invariant
            it.seq() == s@,
            out@ == s@.take(it.index()),
    {
        out.push(c);
        proof {
            assert(s@.take(it.index() + 1) =~= s@.take(it.index()).push(s@[it.index()]));
        }
    }
    proof {
        assert(s@.take(s@.len() as int) =~= s@);
    }
    out
}

/// A text in lower case.
pub uninterp spec fn lowercase_of(s: Seq<char>) -> Seq<char>;

/// `s` in lower case.
///
/// Trusted: `str::to_lowercase` "returns the lowercase equivalent of this string slice" by
/// the Unicode properties of its characters, which depends on the text alone.
#[verifier::external_body]
pub(crate) fn lowercase(s: &str) -> (out: String)
    ensures
        out@ == lowercase_of(s@),
{
    s.to_lowercase()
}

/// Appends one character.
///
/// Trusted: `String::push` "appends the given `char` to the end of this `String`".
#[verifier::external_body]
pub(crate) fn push_char(s: &mut String, c: char)
    ensures
        final(s)@ == old(s)@.push(c),
{
    s.push(c);
}

/// The string whose characters are `chars[from..to]`.
pub fn string_of(chars: &Vec<char>, from: usize, to: usize) -> (out: String)
    requires
        from <= to <= chars@.len(),
    ensures
        out@ == chars@.subrange(from as int, to as int),
{
    let mut out: String = String::new();
    let mut i: usize = from;
    while i < to
        invariant
            from <= i <= to <= chars@.len(),
            out@ == chars@.subrange(from as int, i as int),
        decreases to - i,
    {
        push_char(&mut out, chars[i]);
        proof {
            assert(chars@.subrange(from as int, i + 1) =~= chars@.subrange(from as int, i as int).push(chars@[i as int]));
        }
        i = i + 1;
    }
    out
}

/// A fresh string that concatenates two.
pub fn concat2(a: &str, b: &str) -> (out: String)
    ensures
        out@ == a@ + b@,
{
    let mut out: String = a.to_owned();
    out.append(b);
    out
}

/// A fresh string that concatenates three.
pub fn concat3(a: &str, b: &str, c: &str) -> (out: String)
    ensures
        out@ == a@ + b@ + c@,
{
    let mut out: String = a.to_owned();
    out.append(b);
    out.append(c);
    out
}

/// Whether the two hold the same characters.
pub fn same_text(a: &str, b: &str) -> (r: bool)
    ensures
        r == (a@ == b@),
{
    a.to_owned() == b.to_owned()
}

/// Whether every character of `s` is white space.
pub fn is_blank(s: &str) -> (r: bool)
    ensures
        r == blank(s@),
{
    let v: Vec<char> = char_vec(s);
    let mut i: usize = 0;
    while i < v.len()
        invariant
            v@ == s@,
            i <= v@.len(),
            forall|j: int| 0 <= j < i ==> is_space(#[trigger] s@[j]),
        decreases v@.len() - i,
    {
        if !char_is_space(v[i]) {
            return false;
        }
        i = i + 1;
    }
    true
}

/// Trimming a string that is not blank keeps something, and trimming a blank one
/// keeps nothing.
pub proof fn lemma_trimmed_blank(s: Seq<char>)
    ensures
        trimmed(s).len() == 0 <==> blank(s),
    decreases s.len(),
{
    if s.len() > 0 && is_space(s[0]) {
        lemma_trimmed_blank(s.skip(1));
        assert forall|i: int| blank(s.skip(1)) && 0 <= i < s.len() implies is_space(#[trigger] s[i]) by {
            if i > 0 {
                assert(s.skip(1)[i - 1] == s[i]);
            }
        }
    } else if s.len() > 0 {
        assert(!blank(s));
        lemma_trim_back_keeps(s, 0);
    }
}

/// Trimming the end keeps everything up to a character that is not white space.
proof fn lemma_trim_back_keeps(s: Seq<char>, i: int)
    requires
        0 <= i < s.len(),
        !is_space(s[i]),
    ensures
        trim_back(s).len() > i,
        trim_back(s)[i] == s[i],
    decreases s.len(),
{
    if is_space(s.last()) {
        assert(i < s.len() - 1);
        lemma_trim_back_keeps(s.drop_last(), i);
    }
}

/// `s` without leading and trailing white space.
pub fn trim(s: &str) -> (out: String)
    ensures
        out@ == trimmed(s@),
{
    let v: Vec<char> = char_vec(s);
    let mut from: usize = 0;
    proof {
        assert(s@.skip(0) =~= s@);
    }
    while from < v.len() && char_is_space(v[from])
        invariant
            v@ == s@,
            from <= v@.len(),
            trim_front(s@) == trim_front(s@.skip(from as int)),
        decreases v@.len() - from,
    {
        proof {
            assert(s@.skip(from as int).skip(1) =~= s@.skip(from + 1));
        }
        from = from + 1;
    }
    let ghost front = s@.skip(from as int);
    let mut to: usize = v.len();
    proof {
        assert(front.take(front.len() as int) =~= front);
    }
    while to > from && char_is_space(v[to - 1])
        invariant
            v@ == s@,
            from <= to <= v@.len(),
            front == s@.skip(from as int),
            trim_back(front) == trim_back(front.take(to - from)),
        decreases to,
    {
        proof {
            assert(front.take(to - from).drop_last() =~= front.take(to - from - 1));
            assert(front.take(to - from).last() == v@[to - 1]);
        }
        to = to - 1;
    }
    proof {
        assert(front.take(to - from) =~= s@.subrange(from as int, to as int));
        if to > from {
            assert(front.take(to - from).last() == v@[to - 1]);
        }
    }
    string_of(&v, from, to)
}

/// No string precedes itself.
pub proof fn lemma_text_lt_irreflexive(a: Seq<char>)
    ensures
        !text_lt(a, a),
    decreases a.len(),
{
    if a.len() > 0 {
        lemma_text_lt_irreflexive(a.skip(1));
    }
}

/// The order is transitive.
pub proof fn lemma_text_lt_transitive(a: Seq<char>, b: Seq<char>, c: Seq<char>)
    requires
        text_lt(a, b),
        text_lt(b, c),
    ensures
        text_lt(a, c),
    decreases a.len(),
{
    if a.len() > 0 && a[0] == b[0] && b[0] == c[0] {
        lemma_text_lt_transitive(a.skip(1), b.skip(1), c.skip(1));
    }
}

/// Of two different strings one precedes the other.
pub proof fn lemma_text_lt_total(a: Seq<char>, b: Seq<char>)
    ensures
        text_lt(a, b) || a == b || text_lt(b, a),
    decreases a.len(),
{
    if a.len() > 0 && b.len() > 0 && a[0] == b[0] {
        lemma_text_lt_total(a.skip(1), b.skip(1));
        if a.skip(1) == b.skip(1) {
            assert(a =~= seq![a[0]] + a.skip(1));
            assert(b =~= seq![b[0]] + b.skip(1));
        }
    } else if a.len() == 0 && b.len() == 0 {
        assert(a =~= b);
    }
}

/// The order is asymmetric.
pub proof fn lemma_text_lt_asymmetric(a: Seq<char>, b: Seq<char>)
    requires
        text_lt(a, b),
    ensures
        !text_lt(b, a),
        a != b,
{
    if text_lt(b, a) {
        lemma_text_lt_transitive(a, b, a);
    }
    lemma_text_lt_irreflexive(a);
}

/// Whether `a` precedes `b`.
pub fn precedes(a: &str, b: &str) -> (r: bool)
    ensures
        r == text_lt(a@, b@),
{
    let x: Vec<char> = char_vec(a);
    let y: Vec<char> = char_vec(b);
    let mut i: usize = 0;
    proof {
        assert(a@.skip(0) =~= a@);
        assert(b@.skip(0) =~= b@);
    }
    while i < x.len() && i < y.len() && x[i] == y[i]
        invariant
            x@ == a@,
            y@ == b@,
            i <= x@.len(),
            i <= y@.len(),
            text_lt(a@, b@) == text_lt(a@.skip(i as int), b@.skip(i as int)),
        decreases x@.len() - i,
    {
        proof {
            assert(a@.skip(i as int).skip(1) =~= a@.skip(i + 1));
            assert(b@.skip(i as int).skip(1) =~= b@.skip(i + 1));
        }
        i = i + 1;
    }
    if i >= y.len() {
        false
    } else if i >= x.len() {
        true
    } else {
        x[i] < y[i]
    }
}

/// Whether the strings are in order, equal neighbours allowed.
pub open spec fn in_order(s: Seq<Seq<char>>) -> bool {
    forall|i: int, j: int| 0 <= i < j < s.len() ==> text_le(#[trigger] s[i], #[trigger] s[j])
}

/// `x` put into the ordered `s`, behind the elements that do not follow it.
pub open spec fn placed(s: Seq<Seq<char>>, x: Seq<char>) -> Seq<Seq<char>>
    decreases s.len(),
{
    if s.len() > 0 && text_lt(x, s.last()) {
        placed(s.drop_last(), x).push(s.last())
    } else {
        s.push(x)
    }
}

/// The same strings in order.
pub open spec fn sorted(s: Seq<Seq<char>>) -> Seq<Seq<char>>
    decreases s.len(),
{
    if s.len() == 0 {
        Seq::empty()
    } else {
        placed(sorted(s.drop_last()), s.last())
    }
}

proof fn lemma_placed(s: Seq<Seq<char>>, x: Seq<char>)
    requires
        in_order(s),
    ensures
        in_order(placed(s, x)),
        placed(s, x).to_multiset() == s.to_multiset().insert(x),
        placed(s, x).len() == s.len() + 1,
    decreases s.len(),
{
    broadcast use vstd::seq_lib::group_to_multiset_ensures;

    if s.len() > 0 && text_lt(x, s.last()) {
        let front = s.drop_last();
        lemma_placed(front, x);
        let p = placed(front, x);
        let t = p.push(s.last());
        assert(s =~= front.push(s.last()));
        assert(t.to_multiset() =~= s.to_multiset().insert(x));
        assert forall|i: int, j: int| 0 <= i < j < t.len() implies text_le(#[trigger] t[i], #[trigger] t[j]) by {
            if j < p.len() {
                assert(text_le(p[i], p[j]));
            } else {
                assert(p.contains(p[i]));
                assert(p.to_multiset().count(p[i]) > 0);
                if p[i] != x {
                    assert(front.to_multiset().count(p[i]) > 0);
                    assert(front.contains(p[i]));
                    let k = choose|k: int| 0 <= k < front.len() && front[k] == p[i];
                    assert(text_le(s[k], s[s.len() - 1]));
                }
            }
        }
    } else {
        let t = s.push(x);
        assert forall|i: int, j: int| 0 <= i < j < t.len() implies text_le(#[trigger] t[i], #[trigger] t[j]) by {
            if j < s.len() {
                assert(text_le(s[i], s[j]));
            } else {
                lemma_text_lt_total(x, s.last());
                if i < s.len() - 1 {
                    assert(text_le(s[i], s[s.len() - 1]));
                    if text_lt(s[i], s.last()) && text_lt(s.last(), x) {
                        lemma_text_lt_transitive(s[i], s.last(), x);
                    }
                }
            }
        }
    }
}

/// Sorting orders the strings and neither adds nor loses one.
pub proof fn lemma_sorted(s: Seq<Seq<char>>)
    ensures
        in_order(sorted(s)),
        sorted(s).to_multiset() == s.to_multiset(),
        sorted(s).len() == s.len(),
    decreases s.len(),
{
    broadcast use vstd::seq_lib::group_to_multiset_ensures;

    if s.len() > 0 {
        lemma_sorted(s.drop_last());
        lemma_placed(sorted(s.drop_last()), s.last());
        assert(s =~= s.drop_last().push(s.last()));
    } else {
        assert(s =~= Seq::<Seq<char>>::empty());
    }
}

/// The same strings in order.
pub fn sort_texts(items: &Vec<String>) -> (out: Vec<String>)
    ensures
        texts(out@) == sorted(texts(items@)),
{
    let mut out: Vec<String> = Vec::new();
    let mut k: usize = 0;
    let ghost all = texts(items@);
    proof {
        assert(texts(out@) =~= sorted(all.take(0)));
    }
    while k < items.len()
        invariant
            k <= items@.len(),
            all == texts(items@),
            texts(out@) == sorted(all.take(k as int)),
        decreases items@.len() - k,
    {
        let mut at: usize = out.len();
        let x: String = items[k].clone();
        let ghost so = texts(out@);
        proof {
            assert(so.take(so.len() as int) =~= so);
            assert(so.skip(so.len() as int) =~= Seq::<Seq<char>>::empty());
            assert(placed(so, x@) =~= placed(so, x@) + Seq::<Seq<char>>::empty());
        }
        while at > 0 && precedes(&x, &out[at - 1])
            invariant
                at <= out@.len(),
                so == texts(out@),
                placed(so, x@) == placed(so.take(at as int), x@) + so.skip(at as int),
            decreases at,
        {
            proof {
                let p = so.take(at as int);
                assert(p.drop_last() =~= so.take(at - 1));
                assert(so.skip(at - 1) =~= seq![p.last()] + so.skip(at as int));
                assert(placed(p, x@) =~= placed(p.drop_last(), x@).push(p.last()));
                assert(placed(so, x@) =~= placed(so.take(at - 1), x@) + so.skip(at - 1));
            }
            at = at - 1;
        }
        proof {
            if at > 0 {
                assert(so.take(at as int).last() == so[at - 1]);
            }
            assert(placed(so.take(at as int), x@) == so.take(at as int).push(x@));
            assert(texts(out@.insert(at as int, x)) =~= so.take(at as int).push(x@) + so.skip(at as int));
            assert(all.take(k + 1).drop_last() =~= all.take(k as int));
        }
        out.insert(at, x);
        k = k + 1;
    }
    proof {
        assert(all.take(all.len() as int) =~= all);
    }
    out
}

/// The decimal digits of `n`.
pub fn decimal_text(n: u64) -> (out: String)
    ensures
        out@ == decimal(n as nat),
    decreases n,
{
    let mut out: String = if n < 10 {
        String::new()
    } else {
        decimal_text(n / 10)
    };
    let d: u32 = (n % 10) as u32;
    let c: char = digit_char(d);
    let ghost before = out@;
    push_char(&mut out, c);
    proof {
        if n < 10 {
            assert(before.push(c) =~= decimal(n as nat));
        }
    }
    out
}

/// The character that stands for the decimal digit `d`.
fn digit_char(d: u32) -> (c: char)
    requires
        d < 10,
    ensures
        c == digit(d as nat),
{
    match d {
        0 => '0',
        1 => '1',
        2 => '2',
        3 => '3',
        4 => '4',
        5 => '5',
        6 => '6',
        7 => '7',
        8 => '8',
        _ => '9',
    }
}

/// The parts one after the other, with `sep` between neighbours.
pub fn join(parts: &Vec<String>, sep: &str) -> (out: String)
    ensures
        out@ == joined(texts(parts@), sep@),
{
    let mut out: String = String::new();
    let mut k: usize = 0;
    let ghost all = texts(parts@);
    proof {
        assert(out@ =~= joined(all.take(0), sep@));
    }
    while k < parts.len()
        invariant
            k <= parts@.len(),
            all == texts(parts@),
            out@ == joined(all.take(k as int), sep@),
        decreases parts@.len() - k,
    {
        proof {
            assert(all.take(k + 1).drop_last() =~= all.take(k as int));
        }
        if k > 0 {
            out.append(sep);
        }
        let ghost head = out@;
        out.append(&parts[k]);
        proof {
            if k == 0 {
                assert(head + parts@[0]@ =~= parts@[0]@);
            }
        }
        k = k + 1;
    }
    proof {
        assert(all.take(all.len() as int) =~= all);
    }
    out
}

/// Whether `needle` occurs in `hay` at offset `at`.
fn match_at(hay: &Vec<char>, needle: &Vec<char>, at: usize) -> (r: bool)
    requires
        at + needle@.len() <= hay@.len(),
    ensures
        r == occurs_at(hay@, needle@, at as int),
{
    let mut k: usize = 0;
    let end: usize = hay.len();
    while k < needle.len()
        invariant
            k <= needle@.len(),
            end == hay@.len(),
            at + needle@.len() <= hay@.len(),
            forall|m: int| 0 <= m < k ==> hay@[at + m] == #[trigger] needle@[m],
        decreases needle@.len() - k,
    {
        if hay[at + k] != needle[k] {
            proof {
                assert(hay@.subrange(at as int, at + needle@.len())[k as int] == hay@[at + k]);
            }
            return false;
        }
        k = k + 1;
    }
    proof {
        assert(hay@.subrange(at as int, at + needle@.len()) =~= needle@);
    }
    true
}

/// The first offset from `from` on at which `needle` occurs.
pub open spec fn next_occurrence(hay: Seq<char>, needle: Seq<char>, from: int) -> Option<int>
    decreases hay.len() - from + 1,
{
    if from < 0 || from > hay.len() {
        None
    } else if occurs_at(hay, needle, from) {
        Some(from)
    } else {
        next_occurrence(hay, needle, from + 1)
    }
}

/// The search finds the first occurrence, and finds one if there is one.
pub proof fn lemma_next_occurrence(hay: Seq<char>, needle: Seq<char>, from: int)
    requires
        0 <= from,
    ensures
        match next_occurrence(hay, needle, from) {
            Some(at) => {
                &&& from <= at
                &&& occurs_at(hay, needle, at)
                &&& forall|k: int| from <= k < at ==> !#[trigger] occurs_at(hay, needle, k)
            },
            None => forall|k: int| from <= k ==> !#[trigger] occurs_at(hay, needle, k),
        },
    decreases hay.len() - from + 1,
{
    if from <= hay.len() && !occurs_at(hay, needle, from) {
        lemma_next_occurrence(hay, needle, from + 1);
    }
}

/// The first offset from `from` on at which `needle` occurs in `hay`.
pub fn find_from(hay: &Vec<char>, needle: &Vec<char>, from: usize) -> (r: Option<usize>)
    requires
        from <= hay@.len(),
    ensures
        match r {
            Some(at) => next_occurrence(hay@, needle@, from as int) == Some(at as int) && from <= at
                && at + needle@.len() <= hay@.len(),
            None => next_occurrence(hay@, needle@, from as int) is None,
        },
{
    let mut at: usize = from;
    while at <= hay.len() && needle.len() <= hay.len() - at
        invariant
            from <= at,
            at <= hay@.len() + 1,
            next_occurrence(hay@, needle@, from as int) == next_occurrence(hay@, needle@, at as int),
        decreases hay@.len() + 1 - at,
    {
        if match_at(hay, needle, at) {
            return Some(at);
        }
        if at == hay.len() {
            proof {
                assert(next_occurrence(hay@, needle@, at + 1) is None);
            }
            return None;
        }
        at = at + 1;
    }
    proof {
        lemma_next_occurrence(hay@, needle@, at as int);
        if let Some(k) = next_occurrence(hay@, needle@, at as int) {
            assert(occurs_at(hay@, needle@, k));
        }
    }
    None
}

/// Whether `needle` occurs anywhere in `hay`.
pub fn contains_text(hay: &str, needle: &str) -> (r: bool)
    ensures
        r == occurs(hay@, needle@),
{
    let h: Vec<char> = char_vec(hay);
    let n: Vec<char> = char_vec(needle);
    let found: Option<usize> = find_from(&h, &n, 0);
    proof {
        lemma_next_occurrence(hay@, needle@, 0);
    }
    match found {
        Some(at) => {
            proof {
                assert(occurs_at(hay@, needle@, at as int));
            }
            true
        },
        None => false,
    }
}

} // verus!
