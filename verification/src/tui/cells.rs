//! Text from a producer, made fit for a terminal: control sequences and direction
//! overrides removed, then measured, wrapped and truncated in terminal cells.
use vstd::prelude::*;

verus! {

/// Whether `c` is a control character: C0, DEL or C1.
pub open spec fn is_control(c: char) -> bool {
    let u = c as u32;
    u <= 0x1f || 0x7f <= u <= 0x9f
}

/// Whether `c` marks, overrides or isolates a writing direction.
pub open spec fn is_direction(c: char) -> bool {
    let u = c as u32;
    ||| u == 0x061c
    ||| u == 0x200e
    ||| u == 0x200f
    ||| 0x202a <= u <= 0x202e
    ||| 0x2066 <= u <= 0x2069
}

/// The character that opens every escape sequence.
pub open spec fn is_escape(c: char) -> bool {
    c as u32 == 0x1b
}

/// Where the control sequence whose parameters start at `i` ends: behind its final
/// character, one of `@` to `~`, or with the text.
pub open spec fn sequence_end(s: Seq<char>, i: int) -> int
    decreases s.len() - i,
{
    if i >= s.len() {
        s.len() as int
    } else if 0x40 <= s[i] as u32 <= 0x7e {
        i + 1
    } else {
        sequence_end(s, i + 1)
    }
}

/// Where the operating system command whose text starts at `i` ends: behind a BEL, or
/// behind a backslash that follows an escape, or with the text.
pub open spec fn command_end(s: Seq<char>, i: int, escaped: bool) -> int
    decreases s.len() - i,
{
    if i >= s.len() {
        s.len() as int
    } else if s[i] as u32 == 7 || (escaped && s[i] == '\\') {
        i + 1
    } else {
        command_end(s, i + 1, is_escape(s[i]))
    }
}

/// Where the escape sequence that starts at `i` ends.
pub open spec fn escape_end(s: Seq<char>, i: int) -> int {
    if i + 1 >= s.len() {
        i + 1
    } else if s[i + 1] == '[' {
        sequence_end(s, i + 2)
    } else if s[i + 1] == ']' {
        command_end(s, i + 2, false)
    } else {
        i + 2
    }
}

/// Where the unit of text that starts at `i` ends: an escape sequence, a `\r\n` pair, or
/// one character.
pub open spec fn unit_end(s: Seq<char>, i: int) -> int {
    if is_escape(s[i]) {
        escape_end(s, i)
    } else if s[i] == '\r' && i + 1 < s.len() && s[i + 1] == '\n' {
        i + 2
    } else {
        i + 1
    }
}

/// What is shown for a unit of text that starts with `c`.
pub open spec fn shown(c: char) -> Seq<char> {
    if c == '\r' || c == '\n' {
        seq!['\n']
    } else if c == '\t' {
        seq![' ', ' ', ' ', ' ']
    } else if is_direction(c) || is_control(c) {
        Seq::<char>::empty()
    } else {
        seq![c]
    }
}

/// The text from `i` on, with each unit replaced by what is shown for it.
pub open spec fn sanitized_from(s: Seq<char>, i: int) -> Seq<char>
    decreases s.len() - i,
    when 0 <= i
    via unit_progress
{
    if i >= s.len() {
        Seq::<char>::empty()
    } else {
        shown(s[i]) + sanitized_from(s, unit_end(s, i))
    }
}

#[via_fn]
proof fn unit_progress(s: Seq<char>, i: int) {
    if i < s.len() {
        lemma_unit_end(s, i);
    }
}

/// The text that is safe to show for `s`.
pub open spec fn sanitized(s: Seq<char>) -> Seq<char> {
    sanitized_from(s, 0)
}

proof fn lemma_sequence_end(s: Seq<char>, i: int)
    requires
        0 <= i <= s.len(),
    ensures
        i <= sequence_end(s, i) <= s.len(),
    decreases s.len() - i,
{
    if i < s.len() && !(0x40 <= s[i] as u32 <= 0x7e) {
        lemma_sequence_end(s, i + 1);
    }
}

proof fn lemma_command_end(s: Seq<char>, i: int, escaped: bool)
    requires
        0 <= i <= s.len(),
    ensures
        i <= command_end(s, i, escaped) <= s.len(),
    decreases s.len() - i,
{
    if i < s.len() {
        lemma_command_end(s, i + 1, is_escape(s[i]));
    }
}

pub proof fn lemma_unit_end(s: Seq<char>, i: int)
    requires
        0 <= i < s.len(),
    ensures
        i < unit_end(s, i) <= s.len(),
{
    if i + 2 <= s.len() {
        lemma_sequence_end(s, i + 2);
        lemma_command_end(s, i + 2, false);
    }
}

/// Whether nothing in `s` can steer a terminal: no control character but line feeds,
/// and no direction mark.
pub open spec fn clean(s: Seq<char>) -> bool {
    forall|k: int| #![trigger s[k]]
        0 <= k < s.len() ==> !is_direction(s[k]) && (s[k] == '\n' || !is_control(s[k]))
}

proof fn lemma_sanitized_from_is_clean(s: Seq<char>, i: int)
    requires
        0 <= i <= s.len(),
    ensures
        clean(sanitized_from(s, i)),
    decreases s.len() - i,
{
    if i < s.len() {
        lemma_unit_end(s, i);
        let rest = sanitized_from(s, unit_end(s, i));
        lemma_sanitized_from_is_clean(s, unit_end(s, i));
        assert(clean(shown(s[i])));
        assert forall|k: int| #![trigger (shown(s[i]) + rest)[k]] 0 <= k < (shown(s[i]) + rest).len() implies ({
            let c = (shown(s[i]) + rest)[k];
            !is_direction(c) && (c == '\n' || !is_control(c))
        }) by {
            if k < shown(s[i]).len() {
                assert((shown(s[i]) + rest)[k] == shown(s[i])[k]);
            } else {
                assert((shown(s[i]) + rest)[k] == rest[k - shown(s[i]).len()]);
            }
        }
    }
}

/// Whatever the producer sent, nothing of what is shown can steer the terminal: there is
/// no escape, no other control character but a line feed, and no direction mark.
pub proof fn law_sanitized_text_is_clean(s: Seq<char>)
    ensures
        clean(sanitized(s)),
{
    lemma_sanitized_from_is_clean(s, 0);
}

proof fn lemma_clean_from_is_kept(s: Seq<char>, i: int)
    requires
        clean(s),
        0 <= i <= s.len(),
    ensures
        sanitized_from(s, i) == s.skip(i),
    decreases s.len() - i,
{
    if i < s.len() {
        lemma_clean_from_is_kept(s, i + 1);
        assert(s[i] == '\n' || !is_control(s[i]));
        assert(!is_direction(s[i]));
        assert(unit_end(s, i) == i + 1);
        assert(shown(s[i]) =~= seq![s[i]]);
        assert(seq![s[i]] + s.skip(i + 1) =~= s.skip(i));
    } else {
        assert(s.skip(i) =~= Seq::<char>::empty());
    }
}

/// Text that cannot steer a terminal is shown as it is.
pub proof fn law_clean_text_is_unchanged(s: Seq<char>)
    requires
        clean(s),
    ensures
        sanitized(s) == s,
{
    lemma_clean_from_is_kept(s, 0);
    assert(s.skip(0) =~= s);
}

/// Sanitizing twice is sanitizing once.
pub proof fn law_sanitizing_is_idempotent(s: Seq<char>)
    ensures
        sanitized(sanitized(s)) == sanitized(s),
{
    law_sanitized_text_is_clean(s);
    law_clean_text_is_unchanged(sanitized(s));
}

fn char_is_control(c: char) -> (r: bool)
    ensures
        r == is_control(c),
{
    let u: u32 = c as u32;
    u <= 0x1f || (0x7f <= u && u <= 0x9f)
}

fn char_is_direction(c: char) -> (r: bool)
    ensures
        r == is_direction(c),
{
    let u: u32 = c as u32;
    u == 0x061c || u == 0x200e || u == 0x200f || (0x202a <= u && u <= 0x202e) || (0x2066 <= u && u
        <= 0x2069)
}

fn char_is_escape(c: char) -> (r: bool)
    ensures
        r == is_escape(c),
{
    c as u32 == 0x1b
}

fn end_of_sequence(v: &Vec<char>, from: usize) -> (r: usize)
    requires
        from <= v@.len(),
    ensures
        r == sequence_end(v@, from as int),
        from <= r <= v@.len(),
{
    let mut i: usize = from;
    while i < v.len()
        invariant
            from <= i <= v@.len(),
            sequence_end(v@, from as int) == sequence_end(v@, i as int),
        decreases v@.len() - i,
    {
        let u: u32 = v[i] as u32;
        if 0x40 <= u && u <= 0x7e {
            return i + 1;
        }
        i = i + 1;
    }
    i
}

fn end_of_command(v: &Vec<char>, from: usize) -> (r: usize)
    requires
        from <= v@.len(),
    ensures
        r == command_end(v@, from as int, false),
        from <= r <= v@.len(),
{
    let mut i: usize = from;
    let mut escaped: bool = false;
    while i < v.len()
        invariant
            from <= i <= v@.len(),
            command_end(v@, from as int, false) == command_end(v@, i as int, escaped),
        decreases v@.len() - i,
    {
        let c: char = v[i];
        if c as u32 == 7 || (escaped && c == '\\') {
            return i + 1;
        }
        escaped = char_is_escape(c);
        i = i + 1;
    }
    i
}

fn end_of_unit(v: &Vec<char>, i: usize) -> (r: usize)
    requires
        i < v@.len(),
    ensures
        r == unit_end(v@, i as int),
        i < r <= v@.len(),
{
    let n: usize = v.len();
    if char_is_escape(v[i]) {
        if n - i <= 1 {
            i + 1
        } else if v[i + 1] == '[' {
            end_of_sequence(v, i + 2)
        } else if v[i + 1] == ']' {
            end_of_command(v, i + 2)
        } else {
            i + 2
        }
    } else if v[i] == '\r' && n - i > 1 && v[i + 1] == '\n' {
        i + 2
    } else {
        i + 1
    }
}

/// `input` without terminal controls and direction marks. Line feeds stay, `\r` and
/// `\r\n` become line feeds, and a tab becomes four spaces.
#[must_use]
pub fn sanitize_terminal_text(input: &str) -> (output: String)
    ensures
        output@ == sanitized(input@),
{
    let v: Vec<char> = crate::text::char_vec(input);
    let mut output: String = String::new();
    let mut i: usize = 0;
    proof {
        assert(output@ + sanitized_from(input@, 0) =~= sanitized(input@));
    }
    while i < v.len()
        invariant
            v@ == input@,
            i <= v@.len(),
            output@ + sanitized_from(input@, i as int) == sanitized(input@),
        decreases v@.len() - i,
    {
        let c: char = v[i];
        let ghost before = output@;
        if c == '\r' || c == '\n' {
            crate::text::push_char(&mut output, '\n');
        } else if c == '\t' {
            crate::text::push_char(&mut output, ' ');
            crate::text::push_char(&mut output, ' ');
            crate::text::push_char(&mut output, ' ');
            crate::text::push_char(&mut output, ' ');
        } else if !char_is_direction(c) && !char_is_control(c) {
            crate::text::push_char(&mut output, c);
        }
        let next: usize = end_of_unit(&v, i);
        proof {
            assert(output@ =~= before + shown(c));
            assert(output@ + sanitized_from(input@, next as int) =~= before + sanitized_from(
                input@,
                i as int,
            ));
        }
        i = next;
    }
    proof {
        assert(output@ + Seq::<char>::empty() =~= output@);
    }
    output
}


/// How many terminal cells a text takes.
pub uninterp spec fn display_width(text: Seq<char>) -> nat;

/// The extended grapheme clusters of a text.
pub uninterp spec fn clusters_of(text: Seq<char>) -> Seq<Seq<char>>;

/// The stretches of a text between its word boundaries.
pub uninterp spec fn word_stretches_of(text: Seq<char>) -> Seq<Seq<char>>;

/// Whether `c` can change how many columns its neighbors take: the carriage return, the
/// joiners, the variation selectors, the skin tones, and the letters and signs that end or
/// carry a ligature of Arabic, Khmer, Tifinagh or Lisu.
pub open spec fn joins(c: char) -> bool {
    let u = c as u32;
    ||| u == 0x0d
    ||| 0x0622 <= u <= 0x0882
    ||| u == 0x17d2
    ||| u == 0x200d
    ||| u == 0x2d7f
    ||| 0xa4fc <= u <= 0xa4fd
    ||| 0xfe0e <= u <= 0xfe0f
    ||| 0x1f3fb <= u <= 0x1f3ff
}

/// The characters that leave their neighbors as wide as they are alone.
pub open spec fn apart() -> spec_fn(char) -> bool {
    |c: char| !joins(c)
}

/// The cells that the characters take, one by one.
pub open spec fn char_cells(s: Seq<char>) -> nat
    decreases s.len(),
{
    if s.len() == 0 {
        0
    } else {
        char_cells(s.drop_last()) + display_width(seq![s.last()])
    }
}

/// The number of terminal cells `text` takes.
///
/// Trusted: `unicode_width::UnicodeWidthStr::width` returns the displayed width of the
/// whole string in columns, which depends on its characters alone. It adds the characters
/// up from the last to the first: no characters take no column, and each space at the end
/// takes one and leaves what stands before it as it is. Where no ligature and no emoji
/// sequence can arise, because the text has none of the characters that make them, the width
/// is the sum of the widths of the characters. The ellipsis, of ambiguous width, takes one
/// column. Nothing is said of how the width of another string relates to the widths of its
/// parts: a ligature or a joined emoji takes fewer columns than its parts take alone, and a
/// variation selector can make what stands before it wider.
#[must_use]
#[verifier::external_body]
pub fn cell_width(text: &str) -> (r: usize)
    ensures
        r as nat == display_width(text@),
        text@.len() == 0 ==> r == 0,
        crate::tui::cells_laws::made_of(text@, apart()) ==> r == char_cells(text@),
        text@ == ellipsis() ==> r == 1,
        forall|n: nat| #[trigger] display_width(text@ + spaces(n)) == r + n,
{
    unicode_width::UnicodeWidthStr::width(text)
}

/// The extended grapheme clusters of `text`.
///
/// Trusted: `unicode_segmentation::UnicodeSegmentation::graphemes`, asked for extended
/// clusters, cuts the whole of the text at cluster boundaries, so that the clusters put
/// together are the text again. Where the boundaries fall depends on the text alone.
#[verifier::external_body]
fn graphemes(text: &str) -> (out: Vec<String>)
    ensures
        crate::text::texts(out@) == clusters_of(text@),
        together(crate::text::texts(out@)) == text@,
{
    unicode_segmentation::UnicodeSegmentation::graphemes(text, true).map(str::to_owned).collect()
}

/// The stretches of `text` between word boundaries.
///
/// Trusted: `unicode_segmentation::UnicodeSegmentation::split_word_bounds` cuts the whole of
/// the text at word boundaries, so that the stretches put together are the text again.
/// Where the boundaries fall depends on the text alone.
#[verifier::external_body]
fn word_stretches(text: &str) -> (out: Vec<String>)
    ensures
        crate::text::texts(out@) == word_stretches_of(text@),
        together(crate::text::texts(out@)) == text@,
{
    unicode_segmentation::UnicodeSegmentation::split_word_bounds(text).map(str::to_owned).collect()
}

/// The parts, one after the other.
pub open spec fn together(parts: Seq<Seq<char>>) -> Seq<char>
    decreases parts.len(),
{
    if parts.len() == 0 {
        Seq::<char>::empty()
    } else {
        together(parts.drop_last()) + parts.last()
    }
}

/// A piece of text with the number of cells it takes.
#[derive(Clone, Debug, PartialEq, Eq)]
pub struct Cluster {
    pub text: String,
    pub width: usize,
}

/// What a [`Cluster`] says.
pub struct ClusterModel {
    pub text: Seq<char>,
    pub width: nat,
}

impl View for Cluster {
    type V = ClusterModel;

    open spec fn view(&self) -> ClusterModel {
        ClusterModel { text: self.text@, width: self.width as nat }
    }
}

/// A stretch between word boundaries with the number of cells it takes, and the grapheme
/// clusters it can be cut into.
#[derive(Clone, Debug, PartialEq, Eq)]
pub struct Token {
    pub text: String,
    pub width: usize,
    pub clusters: Vec<Cluster>,
}

/// What a [`Token`] says.
pub struct TokenModel {
    pub text: Seq<char>,
    pub width: nat,
    pub clusters: Seq<ClusterModel>,
}

/// What a list of clusters says.
pub open spec fn cluster_models(v: Seq<Cluster>) -> Seq<ClusterModel> {
    Seq::new(v.len(), |i: int| v[i]@)
}

/// What a list of tokens says.
pub open spec fn token_models(v: Seq<Token>) -> Seq<TokenModel> {
    Seq::new(v.len(), |i: int| v[i]@)
}

/// What a list of token lists says.
pub open spec fn token_lines(v: Seq<Vec<Token>>) -> Seq<Seq<TokenModel>> {
    Seq::new(v.len(), |i: int| token_models(v[i]@))
}

impl View for Token {
    type V = TokenModel;

    open spec fn view(&self) -> TokenModel {
        TokenModel {
            text: self.text@,
            width: self.width as nat,
            clusters: cluster_models(self.clusters@),
        }
    }
}

/// The clusters of a text, each with its width.
pub open spec fn measured_clusters(text: Seq<char>) -> Seq<ClusterModel> {
    Seq::new(
        clusters_of(text).len(),
        |i: int|
            ClusterModel { text: clusters_of(text)[i], width: display_width(clusters_of(text)[i]) },
    )
}

/// The word stretches of a text, each with its width and its clusters.
pub open spec fn measured_tokens(text: Seq<char>) -> Seq<TokenModel> {
    Seq::new(
        word_stretches_of(text).len(),
        |i: int|
            TokenModel {
                text: word_stretches_of(text)[i],
                width: display_width(word_stretches_of(text)[i]),
                clusters: measured_clusters(word_stretches_of(text)[i]),
            },
    )
}

fn measure_clusters(text: &str) -> (out: Vec<Cluster>)
    ensures
        cluster_models(out@) == measured_clusters(text@),
        together(cluster_texts(cluster_models(out@))) == text@,
        forall|k: int| #![trigger out@[k]]
            0 <= k < out@.len() ==> crate::tui::cells_laws::sums_up(out@[k]@),
{
    let parts: Vec<String> = graphemes(text);
    let mut out: Vec<Cluster> = Vec::new();
    let mut i: usize = 0;
    while i < parts.len()
        invariant
            i <= parts@.len(),
            crate::text::texts(parts@) == clusters_of(text@),
            out@.len() == i,
            forall|k: int| #![trigger out@[k]]
                0 <= k < i ==> out@[k]@ == measured_clusters(text@)[k] && out@[k].text@ == parts@[k]@
                    && crate::tui::cells_laws::sums_up(out@[k]@),
        decreases parts@.len() - i,
    {
        let width: usize = cell_width(parts[i].as_str());
        proof {
            assert(clusters_of(text@)[i as int] == parts@[i as int]@);
        }
        out.push(Cluster { text: parts[i].clone(), width });
        i = i + 1;
    }
    proof {
        assert(cluster_models(out@) =~= measured_clusters(text@));
        assert(cluster_texts(cluster_models(out@)) =~= crate::text::texts(parts@));
    }
    out
}

fn measure_tokens(text: &str) -> (out: Vec<Token>)
    requires
        crate::tui::cells_laws::made_of(text@, crate::tui::cells_laws::printable()),
    ensures
        token_models(out@) == measured_tokens(text@),
        together(crate::tui::cells_laws::token_texts(token_models(out@))) == text@,
        forall|k: int| #![trigger out@[k]]
            0 <= k < out@.len() ==> crate::tui::cells_laws::token_of(
                out@[k]@,
                crate::tui::cells_laws::printable(),
            ) && crate::tui::cells_laws::whole_token(out@[k]@)
                && crate::tui::cells_laws::token_sums_up(out@[k]@),
{
    let parts: Vec<String> = word_stretches(text);
    let mut out: Vec<Token> = Vec::new();
    let mut i: usize = 0;
    while i < parts.len()
        invariant
            i <= parts@.len(),
            crate::text::texts(parts@) == word_stretches_of(text@),
            crate::tui::cells_laws::made_of(
                together(crate::text::texts(parts@)),
                crate::tui::cells_laws::printable(),
            ),
            out@.len() == i,
            forall|k: int| #![trigger out@[k]]
                0 <= k < i ==> out@[k]@ == measured_tokens(text@)[k] && out@[k].text@ == parts@[k]@
                    && crate::tui::cells_laws::token_of(
                    out@[k]@,
                    crate::tui::cells_laws::printable(),
                ) && crate::tui::cells_laws::whole_token(out@[k]@)
                    && crate::tui::cells_laws::token_sums_up(out@[k]@),
        decreases parts@.len() - i,
    {
        let width: usize = cell_width(parts[i].as_str());
        let clusters: Vec<Cluster> = measure_clusters(parts[i].as_str());
        proof {
            assert(word_stretches_of(text@)[i as int] == parts@[i as int]@);
            let p = crate::tui::cells_laws::printable();
            crate::tui::cells_laws::lemma_parts(crate::text::texts(parts@), i as int, p);
            let cs = cluster_models(clusters@);
            assert forall|k: int| #![trigger cs[k]] 0 <= k < cs.len() implies crate::tui::cells_laws::made_of(
                cs[k].text,
                p,
            ) by {
                crate::tui::cells_laws::lemma_parts(cluster_texts(cs), k, p);
            }
            assert forall|k: int| #![trigger cs[k]] 0 <= k < cs.len() implies crate::tui::cells_laws::sums_up(
                cs[k],
            ) by {
                assert(cs[k] == clusters@[k]@);
            }
        }
        out.push(Token { text: parts[i].clone(), width, clusters });
        i = i + 1;
    }
    proof {
        assert(token_models(out@) =~= measured_tokens(text@));
        assert(crate::tui::cells_laws::token_texts(token_models(out@)) =~= crate::text::texts(
            parts@,
        ));
    }
    out
}

/// A line being filled: the lines before it, its text so far and the cells it takes.
pub struct Filling {
    pub done: Seq<Seq<char>>,
    pub line: Seq<char>,
    pub used: nat,
}

/// The line is ended, without its trailing white space, and a new one begun.
pub open spec fn broken(f: Filling) -> Filling {
    Filling {
        done: f.done.push(crate::text::trim_back(f.line)),
        line: Seq::<char>::empty(),
        used: 0,
    }
}

/// A cluster is put on the line, on a new one where it no longer fits. One that is wider
/// than any line is left out.
pub open spec fn with_cluster(f: Filling, c: ClusterModel, width: nat) -> Filling {
    let g = if f.used > 0 && f.used + c.width > width {
        broken(f)
    } else {
        f
    };
    if c.width <= width {
        Filling { line: g.line + c.text, used: g.used + c.width, ..g }
    } else {
        g
    }
}

/// The first `n` clusters are put on the line, one after the other.
pub open spec fn with_clusters(f: Filling, cs: Seq<ClusterModel>, n: int, width: nat) -> Filling
    decreases n,
{
    if n <= 0 {
        f
    } else {
        with_cluster(with_clusters(f, cs, n - 1, width), cs[n - 1], width)
    }
}

/// A stretch is put on the line. One that takes no cells stays on it. One that no longer
/// fits starts a new line, where white space is dropped. One that is wider than what is
/// left is cut between its clusters.
pub open spec fn with_token(f: Filling, t: TokenModel, width: nat) -> Filling {
    if t.width == 0 {
        Filling { line: f.line + t.text, ..f }
    } else {
        let breaks = f.used > 0 && f.used + t.width > width;
        let g = if breaks {
            broken(f)
        } else {
            f
        };
        if breaks && crate::text::blank(t.text) {
            g
        } else if t.width + g.used <= width {
            Filling { line: g.line + t.text, used: g.used + t.width, ..g }
        } else {
            with_clusters(g, t.clusters, t.clusters.len() as int, width)
        }
    }
}

/// The first `n` stretches are put on the line, one after the other.
pub open spec fn with_tokens(f: Filling, ts: Seq<TokenModel>, n: int, width: nat) -> Filling
    decreases n,
{
    if n <= 0 {
        f
    } else {
        with_token(with_tokens(f, ts, n - 1, width), ts[n - 1], width)
    }
}

/// The lines that a line of stretches is wrapped into.
pub open spec fn wrapped_line(ts: Seq<TokenModel>, width: nat) -> Seq<Seq<char>> {
    let start = Filling { done: Seq::empty(), line: Seq::<char>::empty(), used: 0 };
    broken(with_tokens(start, ts, ts.len() as int, width)).done
}

/// The lines that the first `n` lines of stretches are wrapped into.
pub open spec fn wrapped_lines(lines: Seq<Seq<TokenModel>>, n: int, width: nat) -> Seq<Seq<char>>
    decreases n,
{
    if n <= 0 {
        Seq::<Seq<char>>::empty()
    } else {
        wrapped_lines(lines, n - 1, width) + wrapped_line(lines[n - 1], width)
    }
}

/// The logical lines of sanitized text, each as its measured stretches. An empty line has
/// none.
pub open spec fn logical_lines(text: Seq<char>) -> Seq<Seq<TokenModel>> {
    let cut = crate::lines::pieces(text, crate::lines::Separator::LineFeed);
    Seq::new(
        cut.len(),
        |i: int|
            if cut[i].len() == 0 {
                Seq::<TokenModel>::empty()
            } else {
                measured_tokens(cut[i])
            },
    )
}

fn add_text(line: &mut String, text: &String)
    ensures
        final(line)@ == old(line)@ + text@,
{
    line.append(text.as_str());
}

/// `s` without its trailing white space.
fn trim_end(s: &String) -> (out: String)
    ensures
        out@ == crate::text::trim_back(s@),
{
    let v: Vec<char> = crate::text::char_vec(s.as_str());
    let mut to: usize = v.len();
    proof {
        assert(s@.take(s@.len() as int) =~= s@);
    }
    while to > 0 && crate::text::char_is_space(v[to - 1])
        invariant
            v@ == s@,
            to <= v@.len(),
            crate::text::trim_back(s@) == crate::text::trim_back(s@.take(to as int)),
        decreases to,
    {
        proof {
            assert(s@.take(to as int).drop_last() =~= s@.take(to - 1));
            assert(s@.take(to as int).last() == v@[to - 1]);
        }
        to = to - 1;
    }
    proof {
        assert(v@.subrange(0, to as int) =~= s@.take(to as int));
        if to > 0 {
            assert(s@.take(to as int).last() == v@[to - 1]);
        }
    }
    crate::text::string_of(&v, 0, to)
}

/// Wraps measured lines: `lines` holds the stretches of each logical line, and what comes
/// back are the lines that fit into `width` cells.
pub fn wrap_tokens(lines: &Vec<Vec<Token>>, width: usize) -> (out: Vec<String>)
    ensures
        crate::text::texts(out@) == wrapped_lines(token_lines(lines@), lines@.len() as int, width as nat),
{
    let mut out: Vec<String> = Vec::new();
    let mut i: usize = 0;
    proof {
        assert(crate::text::texts(out@) =~= Seq::<Seq<char>>::empty());
    }
    while i < lines.len()
        invariant
            i <= lines@.len(),
            crate::text::texts(out@) == wrapped_lines(token_lines(lines@), i as int, width as nat),
        decreases lines@.len() - i,
    {
        let ghost before = crate::text::texts(out@);
        let mut part: Vec<String> = wrap_one(&lines[i], width);
        let ghost added = crate::text::texts(part@);
        out.append(&mut part);
        proof {
            assert(crate::text::texts(out@) =~= before + added);
            assert(token_lines(lines@)[i as int] == token_models(lines@[i as int]@));
        }
        i = i + 1;
    }
    out
}

fn wrap_one(tokens: &Vec<Token>, width: usize) -> (out: Vec<String>)
    ensures
        crate::text::texts(out@) == wrapped_line(token_models(tokens@), width as nat),
{
    let ghost start = Filling { done: Seq::empty(), line: Seq::<char>::empty(), used: 0 };
    let ghost ts = token_models(tokens@);
    let mut out: Vec<String> = Vec::new();
    let mut line: String = String::new();
    let mut used: usize = 0;
    let mut i: usize = 0;
    proof {
        assert(crate::text::texts(out@) =~= Seq::<Seq<char>>::empty());
        assert(line@ =~= Seq::<char>::empty());
    }
    while i < tokens.len()
        invariant
            i <= tokens@.len(),
            ts == token_models(tokens@),
            used <= width,
            (Filling { done: crate::text::texts(out@), line: line@, used: used as nat }) == with_tokens(
                start,
                ts,
                i as int,
                width as nat,
            ),
        decreases tokens@.len() - i,
    {
        let ghost f = Filling { done: crate::text::texts(out@), line: line@, used: used as nat };
        let token: &Token = &tokens[i];
        proof {
            assert(ts[i as int] == token@);
        }
        let (next_out, next_line, next_used) = add_token(out, line, used, token, width);
        out = next_out;
        line = next_line;
        used = next_used;
        i = i + 1;
    }
    let ghost before = crate::text::texts(out@);
    out.push(trim_end(&line));
    proof {
        assert(crate::text::texts(out@) =~= before.push(crate::text::trim_back(line@)));
    }
    out
}

fn add_token(out: Vec<String>, line: String, used: usize, token: &Token, width: usize) -> (r: (
    Vec<String>,
    String,
    usize,
))
    requires
        used <= width,
    ensures
        (Filling { done: crate::text::texts(r.0@), line: r.1@, used: r.2 as nat }) == with_token(
            Filling { done: crate::text::texts(out@), line: line@, used: used as nat },
            token@,
            width as nat,
        ),
        r.2 <= width,
{
    let mut out: Vec<String> = out;
    let mut line: String = line;
    let mut used: usize = used;
    if token.width == 0 {
        add_text(&mut line, &token.text);
        return (out, line, used);
    }
    if used > 0 && token.width > width - used {
        let ghost before = crate::text::texts(out@);
        out.push(trim_end(&line));
        proof {
            assert(crate::text::texts(out@) =~= before.push(crate::text::trim_back(line@)));
        }
        line = String::new();
        proof {
            assert(line@ =~= Seq::<char>::empty());
        }
        used = 0;
        if crate::text::is_blank(token.text.as_str()) {
            return (out, line, used);
        }
    }
    if token.width <= width - used {
        add_text(&mut line, &token.text);
        used = used + token.width;
        return (out, line, used);
    }
    let ghost g = Filling { done: crate::text::texts(out@), line: line@, used: used as nat };
    let ghost cs = cluster_models(token.clusters@);
    let mut i: usize = 0;
    while i < token.clusters.len()
        invariant
            i <= token.clusters@.len(),
            cs == cluster_models(token.clusters@),
            used <= width,
            (Filling { done: crate::text::texts(out@), line: line@, used: used as nat }) == with_clusters(
                g,
                cs,
                i as int,
                width as nat,
            ),
        decreases token.clusters@.len() - i,
    {
        let cluster: &Cluster = &token.clusters[i];
        proof {
            assert(cs[i as int] == cluster@);
        }
        if used > 0 && cluster.width > width - used {
            let ghost before = crate::text::texts(out@);
            out.push(trim_end(&line));
            proof {
                assert(crate::text::texts(out@) =~= before.push(crate::text::trim_back(line@)));
            }
            line = String::new();
            proof {
                assert(line@ =~= Seq::<char>::empty());
            }
            used = 0;
        }
        if cluster.width <= width {
            add_text(&mut line, &cluster.text);
            used = used + cluster.width;
        }
        i = i + 1;
    }
    (out, line, used)
}

/// Whether every grapheme cluster that sanitized text may be cut into fits on a line.
pub open spec fn clusters_fit(text: Seq<char>, width: nat) -> bool {
    forall|j: int, k: int| #![trigger logical_lines(text)[j][k]]
        0 <= j < logical_lines(text).len() && 0 <= k < logical_lines(text)[j].len()
            ==> crate::tui::cells_laws::narrow_token(logical_lines(text)[j][k], width)
}

/// Wraps `input`, sanitized, into lines of at most `width` cells. A long word is cut only
/// between grapheme clusters. No lines come back for no cells. Nothing but white space is
/// lost, unless a cluster is wider than a line.
///
/// The stretches and clusters on each line take at most `width` cells together. Where none of
/// the characters joins with its neighbors, so do the characters, and with them the line. That
/// another line as a whole takes no more cells than its pieces is not said.
#[must_use]
pub fn wrap_cells(input: &str, width: usize) -> (out: Vec<String>)
    ensures
        width == 0 ==> out@.len() == 0,
        width > 0 ==> crate::text::texts(out@) == wrapped_lines(
            logical_lines(sanitized(input@)),
            logical_lines(sanitized(input@)).len() as int,
            width as nat,
        ),
        width > 0 ==> out@.len() >= 1 + crate::lines::separators(
            sanitized(input@),
            crate::lines::Separator::LineFeed,
        ),
        forall|i: int| #![trigger out@[i]]
            0 <= i < out@.len() ==> clean(out@[i]@) && !out@[i]@.contains('\n')
                && crate::text::trim_back(out@[i]@) == out@[i]@,
        forall|i: int| #![trigger out@[i]]
            0 <= i < out@.len() ==> crate::tui::cells_laws::well_filled(
                logical_lines(sanitized(input@)),
                out@[i]@,
                width as nat,
            ),
        crate::tui::cells_laws::made_of(sanitized(input@), apart()) ==> forall|i: int|
            #![trigger out@[i]]
            0 <= i < out@.len() ==> char_cells(out@[i]@) <= width
                && crate::tui::cells_laws::made_of(out@[i]@, apart()),
        width > 0 && clusters_fit(sanitized(input@), width as nat)
            ==> crate::tui::cells_laws::solid(together(crate::text::texts(out@)))
            == crate::tui::cells_laws::solid(sanitized(input@)),
{
    let clean_text: String = sanitize_terminal_text(input);
    proof {
        law_sanitized_text_is_clean(input@);
    }
    if width == 0 {
        return Vec::new();
    }
    let parts: Vec<String> = crate::lines::cut(
        clean_text.as_str(),
        crate::lines::Separator::LineFeed,
    );
    let ghost cut = crate::lines::pieces(sanitized(input@), crate::lines::Separator::LineFeed);
    let mut lines: Vec<Vec<Token>> = Vec::new();
    let mut i: usize = 0;
    while i < parts.len()
        invariant
            i <= parts@.len(),
            crate::text::texts(parts@) == cut,
            cut == crate::lines::pieces(sanitized(input@), crate::lines::Separator::LineFeed),
            lines@.len() == i,
            clean(sanitized(input@)),
            forall|k: int| #![trigger lines@[k]]
                0 <= k < i ==> token_models(lines@[k]@) == logical_lines(sanitized(input@))[k],
            forall|j: int, k: int| #![trigger lines@[j]@[k]]
                0 <= j < i && 0 <= k < lines@[j]@.len() ==> crate::tui::cells_laws::token_of(
                    lines@[j]@[k]@,
                    crate::tui::cells_laws::printable(),
                ) && crate::tui::cells_laws::whole_token(lines@[j]@[k]@)
                    && crate::tui::cells_laws::token_sums_up(lines@[j]@[k]@),
            forall|j: int| #![trigger lines@[j]]
                0 <= j < i ==> together(
                    crate::tui::cells_laws::token_texts(token_models(lines@[j]@)),
                ) == cut[j],
        decreases parts@.len() - i,
    {
        proof {
            assert(cut[i as int] == parts@[i as int]@);
            crate::tui::cells_laws::lemma_lines_are_printable(sanitized(input@), i as int);
        }
        if parts[i].as_str().unicode_len() == 0 {
            let none: Vec<Token> = Vec::new();
            proof {
                assert(token_models(none@) =~= Seq::<TokenModel>::empty());
                assert(together(crate::tui::cells_laws::token_texts(token_models(none@)))
                    =~= cut[i as int]);
            }
            lines.push(none);
        } else {
            lines.push(measure_tokens(parts[i].as_str()));
        }
        i = i + 1;
    }
    proof {
        assert(token_lines(lines@) =~= logical_lines(sanitized(input@)));
    }
    let out: Vec<String> = wrap_tokens(&lines, width);
    proof {
        let all = token_lines(lines@);
        let n = lines@.len() as int;
        let p = crate::tui::cells_laws::printable();
        assert forall|j: int, k: int| #![trigger all[j][k]] 0 <= j < all.len() && 0 <= k
            < all[j].len() implies crate::tui::cells_laws::token_of(all[j][k], p)
            && crate::tui::cells_laws::whole_token(all[j][k]) by {
            assert(all[j][k] == lines@[j]@[k]@);
        }
        crate::tui::cells_laws::law_wrapped_lines_are_trimmed(all, n, width as nat);
        crate::lines::lemma_pieces_count(sanitized(input@), crate::lines::Separator::LineFeed);
        assert forall|i: int| #![trigger out@[i]] 0 <= i < out@.len() implies clean(out@[i]@)
            && !out@[i]@.contains('\n') && crate::text::trim_back(out@[i]@) == out@[i]@ by {
            crate::tui::cells_laws::law_wrapping_adds_nothing(all, n, width as nat, i, p);
            assert(crate::text::texts(out@)[i] == out@[i]@);
            assert(crate::tui::cells_laws::made_of(out@[i]@, p));
            assert(is_control('\n'));
        }
        assert forall|i: int| #![trigger out@[i]] 0 <= i < out@.len() implies crate::tui::cells_laws::well_filled(
            all,
            out@[i]@,
            width as nat,
        ) by {
            crate::tui::cells_laws::law_no_wrapped_line_is_overfilled(all, n, width as nat, i);
            assert(crate::text::texts(out@)[i] == out@[i]@);
        }
        if crate::tui::cells_laws::made_of(sanitized(input@), apart()) {
            assert forall|j: int, k: int| #![trigger all[j][k]] 0 <= j < all.len() && 0 <= k
                < all[j].len() implies crate::tui::cells_laws::summed_token(all[j][k])
                && crate::tui::cells_laws::token_of(all[j][k], apart()) by {
                assert(all[j] == token_models(lines@[j]@));
                assert(all[j][k] == lines@[j]@[k]@);
                crate::tui::cells_laws::lemma_lines_made_of(sanitized(input@), j, apart());
                crate::tui::cells_laws::lemma_stretches_sum_up(all[j], k);
            }
            assert forall|i: int| #![trigger out@[i]] 0 <= i < out@.len() implies char_cells(
                out@[i]@,
            ) <= width && crate::tui::cells_laws::made_of(out@[i]@, apart()) by {
                crate::tui::cells_laws::law_wrapped_characters_fit(all, n, width as nat, i);
                crate::tui::cells_laws::law_wrapping_adds_nothing(
                    all,
                    n,
                    width as nat,
                    i,
                    apart(),
                );
                assert(crate::text::texts(out@)[i] == out@[i]@);
            }
        }
        if clusters_fit(sanitized(input@), width as nat) {
            assert forall|j: int| #![trigger all[j]] 0 <= j < all.len() implies crate::tui::cells_laws::fitting(
                all[j],
                width as nat,
            ) && together(crate::tui::cells_laws::token_texts(all[j])) == cut[j] by {
                assert(all[j] == token_models(lines@[j]@));
                assert forall|k: int| #![trigger all[j][k]] 0 <= k < all[j].len() implies crate::tui::cells_laws::whole_token(
                    all[j][k],
                ) && crate::tui::cells_laws::narrow_token(all[j][k], width as nat) by {
                    assert(crate::tui::cells_laws::narrow_token(
                        logical_lines(sanitized(input@))[j][k],
                        width as nat,
                    ));
                }
            }
            crate::tui::cells_laws::law_wrapping_loses_only_space(all, cut, n, width as nat);
            assert(cut.take(n) =~= cut);
            crate::tui::cells_laws::lemma_lines_lose_only_space(sanitized(input@));
        }
    }
    out
}

/// The mark that stands for what was cut off.
pub open spec fn ellipsis() -> Seq<char> {
    seq!['\u{2026}']
}

/// How many of the first `n` clusters are kept when `room` cells are left: those before the
/// first that no longer fits.
pub open spec fn kept(cs: Seq<ClusterModel>, room: nat) -> nat
    decreases cs.len(),
{
    if cs.len() == 0 || cs[0].width > room {
        0
    } else {
        1 + kept(cs.skip(1), (room - cs[0].width) as nat)
    }
}

/// The texts of the clusters.
pub open spec fn cluster_texts(cs: Seq<ClusterModel>) -> Seq<Seq<char>> {
    Seq::new(cs.len(), |i: int| cs[i].text)
}

/// The cells that the clusters take, one by one.
pub open spec fn cells(cs: Seq<ClusterModel>) -> nat
    decreases cs.len(),
{
    if cs.len() == 0 {
        0
    } else {
        cells(cs.drop_last()) + cs.last().width
    }
}

/// `text`, of `total` cells and of the clusters `cs`, in at most `width` cells: as it is
/// where it fits, else as many clusters as leave room for the mark, and the mark.
pub open spec fn truncated(
    text: Seq<char>,
    total: nat,
    cs: Seq<ClusterModel>,
    mark: nat,
    width: nat,
) -> Seq<char> {
    if total <= width {
        text
    } else if width == 0 {
        Seq::<char>::empty()
    } else {
        let room = if mark <= width {
            (width - mark) as nat
        } else {
            0
        };
        together(cluster_texts(cs).take(kept(cs, room) as int)) + ellipsis()
    }
}

proof fn lemma_kept_bound(cs: Seq<ClusterModel>, room: nat)
    ensures
        kept(cs, room) <= cs.len(),
    decreases cs.len(),
{
    if cs.len() > 0 && cs[0].width <= room {
        lemma_kept_bound(cs.skip(1), (room - cs[0].width) as nat);
    }
}

/// Truncates measured text: `total` are the cells of `text`, `clusters` its grapheme
/// clusters, and `mark` the cells of the ellipsis.
pub fn truncate_clusters(
    text: &String,
    total: usize,
    clusters: &Vec<Cluster>,
    mark: usize,
    width: usize,
) -> (out: String)
    ensures
        out@ == truncated(text@, total as nat, cluster_models(clusters@), mark as nat, width as nat),
{
    if total <= width {
        return text.clone();
    }
    if width == 0 {
        let none: String = String::new();
        proof {
            assert(none@ =~= Seq::<char>::empty());
        }
        return none;
    }
    let room: usize = if mark <= width {
        width - mark
    } else {
        0
    };
    let ghost cs = cluster_models(clusters@);
    let mut out: String = String::new();
    let mut used: usize = 0;
    let mut i: usize = 0;
    proof {
        assert(cs.skip(0) =~= cs);
        assert(cluster_texts(cs).take(0) =~= Seq::<Seq<char>>::empty());
        assert(out@ =~= Seq::<char>::empty());
        lemma_kept_bound(cs, room as nat);
    }
    while i < clusters.len() && clusters[i].width <= room - used
        invariant
            i <= clusters@.len(),
            cs == cluster_models(clusters@),
            used <= room,
            out@ == together(cluster_texts(cs).take(i as int)),
            kept(cs, room as nat) == i + kept(cs.skip(i as int), (room - used) as nat),
        decreases clusters@.len() - i,
    {
        proof {
            assert(cs.skip(i as int)[0] == clusters@[i as int]@);
            assert(cs.skip(i as int).skip(1) =~= cs.skip(i + 1));
            assert(cluster_texts(cs).take(i + 1).drop_last() =~= cluster_texts(cs).take(i as int));
            assert(cluster_texts(cs).take(i + 1).last() == clusters@[i as int].text@);
        }
        add_text(&mut out, &clusters[i].text);
        used = used + clusters[i].width;
        i = i + 1;
    }
    proof {
        if i < clusters@.len() {
            assert(cs.skip(i as int)[0] == clusters@[i as int]@);
        }
        assert(kept(cs, room as nat) == i);
    }
    let ghost before = out@;
    crate::text::push_char(&mut out, '\u{2026}');
    proof {
        assert(out@ =~= before + ellipsis());
    }
    out
}

/// `input`, sanitized, in at most `width` cells, with an ellipsis where something was cut
/// off.
///
/// That it takes at most `width` cells is said where none of the characters joins with its
/// neighbors. Of another text that was cut off, the kept clusters and the mark one by one take
/// no more; how they are measured together is not said.
#[must_use]
pub fn truncate_cells(input: &str, width: usize) -> (out: String)
    ensures
        out@ == truncated(
            sanitized(input@),
            display_width(sanitized(input@)),
            measured_clusters(sanitized(input@)),
            display_width(ellipsis()),
            width as nat,
        ),
        clean(out@),
        crate::tui::cells_laws::made_of(sanitized(input@), apart()) ==> char_cells(out@) <= width
            && crate::tui::cells_laws::made_of(out@, apart()),
{
    let clean_text: String = sanitize_terminal_text(input);
    let total: usize = cell_width(clean_text.as_str());
    let clusters: Vec<Cluster> = measure_clusters(clean_text.as_str());
    proof {
        reveal_strlit("\u{2026}");
        assert("\u{2026}"@ =~= ellipsis());
    }
    let mark: usize = cell_width("\u{2026}");
    proof {
        law_sanitized_text_is_clean(input@);
        crate::tui::cells_laws::law_truncated_text_is_clean(
            clean_text@,
            total as nat,
            cluster_models(clusters@),
            mark as nat,
            width as nat,
        );
        if crate::tui::cells_laws::made_of(clean_text@, apart()) {
            let cs = cluster_models(clusters@);
            assert forall|k: int| #![trigger cs[k]] 0 <= k < cs.len() implies crate::tui::cells_laws::sums_up(
                cs[k],
            ) by {
                assert(cs[k] == clusters@[k]@);
            }
            crate::tui::cells_laws::law_truncated_characters_fit(
                clean_text@,
                total as nat,
                cs,
                mark as nat,
                width as nat,
            );
        }
    }
    truncate_clusters(&clean_text, total, &clusters, mark, width)
}

/// `n` spaces.
pub open spec fn spaces(n: nat) -> Seq<char> {
    Seq::new(n, |i: int| ' ')
}

/// Appends as many spaces to `text`, of `total` cells, as are missing to `width`.
pub fn pad_text(text: &String, total: usize, width: usize) -> (out: String)
    ensures
        out@ == text@ + spaces(
            if total <= width {
                (width - total) as nat
            } else {
                0
            },
        ),
{
    let missing: usize = if total <= width {
        width - total
    } else {
        0
    };
    let mut out: String = text.clone();
    let mut i: usize = 0;
    proof {
        assert(out@ =~= text@ + spaces(0));
    }
    while i < missing
        invariant
            i <= missing,
            out@ == text@ + spaces(i as nat),
        decreases missing - i,
    {
        crate::text::push_char(&mut out, ' ');
        proof {
            assert(text@ + spaces((i + 1) as nat) =~= (text@ + spaces(i as nat)).push(' '));
        }
        i = i + 1;
    }
    out
}

/// `input`, sanitized and truncated to `width` cells, then filled up with spaces: it takes
/// exactly `width` cells wherever the truncated text takes no more, so in particular wherever
/// nothing had to be cut off, and wherever none of the characters joins with its neighbors.
/// That another text which was cut off takes no more is not said: it rests on how the width of
/// a beginning relates to the widths of its clusters.
pub fn pad_cells(input: &str, width: usize) -> (out: String)
    ensures
        ({
            let short = truncated(
                sanitized(input@),
                display_width(sanitized(input@)),
                measured_clusters(sanitized(input@)),
                display_width(ellipsis()),
                width as nat,
            );
            out@ == short + spaces(
                if display_width(short) <= width {
                    (width - display_width(short)) as nat
                } else {
                    0
                },
            ) && display_width(out@) == if display_width(short) <= width {
                width as nat
            } else {
                display_width(short)
            }
        }),
        display_width(sanitized(input@)) <= width || width == 0 ==> display_width(out@) == width,
        crate::tui::cells_laws::made_of(sanitized(input@), apart()) ==> display_width(out@) == width,
{
    let short: String = truncate_cells(input, width);
    let total: usize = cell_width(short.as_str());
    pad_text(&short, total, width)
}

} // verus!
