//! What a theme pack may do, and what it does.
use crate::text::{blank, is_space};
use crate::tui::theme::{Color, Theme};
use crate::tui::theme_pack::{
    applied, base_theme, color_of, digit_value, digits, digits_value, place_within, resolved,
    token_color, token_names, token_place, PackFault, ThemePackManifest,
};
use vstd::prelude::*;

verus! {

/// A pack is refused for its schema version first, then for a blank id, then for what it asks for,
/// and each refusal says what was found; one without any of these is refused only for a color.
pub proof fn law_a_pack_is_refused_for_what_it_is(m: ThemePackManifest)
    ensures
        m.schema_version != 1 ==> resolved(m) == Err::<Theme, PackFault>(
            PackFault::UnsupportedSchemaVersion { found: m.schema_version, supported: 1 },
        ),
        m.schema_version == 1 && blank(m.id@) ==> resolved(m) == Err::<Theme, PackFault>(
            PackFault::EmptyId,
        ),
        m.schema_version == 1 && !blank(m.id@) ==> {
            &&& m.capabilities && m.permissions ==> resolved(m) == Err::<Theme, PackFault>(
                PackFault::ExecutionPermissionsForbidden("capabilities, permissions"@),
            )
            &&& m.capabilities && !m.permissions ==> resolved(m) == Err::<Theme, PackFault>(
                PackFault::ExecutionPermissionsForbidden("capabilities"@),
            )
            &&& !m.capabilities && m.permissions ==> resolved(m) == Err::<Theme, PackFault>(
                PackFault::ExecutionPermissionsForbidden("permissions"@),
            )
            &&& !m.capabilities && !m.permissions ==> (resolved(m) matches Err(fault)
                ==> fault is InvalidColor)
        },
{
    let entries = m.tokens.listed();
    lemma_faults_are_colors(base_theme(m), entries, entries.len() as int);
}

proof fn lemma_faults_are_colors(base: Theme, entries: Seq<(String, String)>, n: int)
    requires
        0 <= n <= entries.len(),
    ensures
        applied(base, entries, n) matches Err(fault) ==> fault is InvalidColor,
    decreases n,
{
    if n > 0 {
        lemma_faults_are_colors(base, entries, n - 1);
    }
}

proof fn lemma_applied(base: Theme, entries: Seq<(String, String)>, n: int, i: int)
    requires
        0 <= i < n <= entries.len(),
        color_of(entries[i].1@) is None || token_place(entries[i].0@) < 0,
        forall|k: int|
            0 <= k < i ==> color_of((#[trigger] entries[k]).1@) is Some && token_place(
                entries[k].0@,
            ) >= 0,
    ensures
        applied(base, entries, n) == Err::<Theme, PackFault>(
            PackFault::InvalidColor { token: entries[i].0@, value: entries[i].1@ },
        ),
    decreases n,
{
    if n - 1 > i {
        lemma_applied(base, entries, n - 1, i);
    } else {
        lemma_accepted(base, entries, i);
    }
}

proof fn lemma_accepted(base: Theme, entries: Seq<(String, String)>, n: int)
    requires
        0 <= n <= entries.len(),
        forall|k: int|
            0 <= k < n ==> color_of((#[trigger] entries[k]).1@) is Some && token_place(entries[k].0@)
                >= 0,
    ensures
        applied(base, entries, n) is Ok,
    decreases n,
{
    if n > 0 {
        lemma_accepted(base, entries, n - 1);
        assert(color_of(entries[n - 1].1@) is Some);
    }
}

/// A pack that may be read becomes a theme exactly where each of its entries names a token and a
/// color; else the first that does not is named.
pub proof fn law_the_first_wrong_color_is_named(m: ThemePackManifest, i: int)
    requires
        m.schema_version == 1,
        !blank(m.id@),
        !m.capabilities,
        !m.permissions,
        forall|k: int|
            0 <= k < i && k < m.tokens.listed().len() ==> color_of(
                (#[trigger] m.tokens.listed()[k]).1@,
            ) is Some && token_place(m.tokens.listed()[k].0@) >= 0,
        0 <= i <= m.tokens.listed().len(),
    ensures
        i == m.tokens.listed().len() ==> resolved(m) is Ok,
        i < m.tokens.listed().len() && (color_of(m.tokens.listed()[i].1@) is None || token_place(
            m.tokens.listed()[i].0@,
        ) < 0) ==> resolved(m) == Err::<Theme, PackFault>(
            PackFault::InvalidColor {
                token: m.tokens.listed()[i].0@,
                value: m.tokens.listed()[i].1@,
            },
        ),
{
    let entries = m.tokens.listed();
    if i == entries.len() {
        lemma_accepted(base_theme(m), entries, i);
    } else if color_of(entries[i].1@) is None || token_place(entries[i].0@) < 0 {
        lemma_applied(base_theme(m), entries, entries.len() as int, i);
    }
}

/// A sharp sign and six hexadecimal digits are a color: two digits each of red, green and blue, in
/// either case, with any white space around them.
pub proof fn law_six_digits_are_red_green_and_blue(
    before: Seq<char>,
    hex: Seq<char>,
    after: Seq<char>,
)
    requires
        blank(before),
        blank(after),
        hex.len() == 6,
        forall|i: int| 0 <= i < 6 ==> digit_value(#[trigger] hex[i]) < 16,
        !is_space('#'),
        !is_space(hex[5]),
    ensures
        color_of(before + (seq!['#'] + hex) + after) == Some(
            Color::Rgb(
                (16 * digit_value(hex[0]) + digit_value(hex[1])) as u8,
                (16 * digit_value(hex[2]) + digit_value(hex[3])) as u8,
                (16 * digit_value(hex[4]) + digit_value(hex[5])) as u8,
            ),
        ),
{
    let core = seq!['#'] + hex;
    crate::text_laws::law_trimming_ignores_padding(before, core, after);
    assert(core.skip(1) =~= hex);
    lemma_six(hex);
    lemma_split(
        16 * digit_value(hex[0]) + digit_value(hex[1]),
        16 * digit_value(hex[2]) + digit_value(hex[3]),
        16 * digit_value(hex[4]) + digit_value(hex[5]),
    );
    assert(digits(hex, 16));
    assert(crate::text::trimmed(before + core + after)[0] == '#');
}

proof fn lemma_split(r: nat, g: nat, u: nat)
    requires
        r < 256,
        g < 256,
        u < 256,
    ensures
        ({
            let n = r * 65536 + g * 256 + u;
            n / 65536 == r && n / 256 % 256 == g && n % 256 == u
        }),
{
}

proof fn lemma_step(hex: Seq<char>, k: int)
    requires
        0 <= k < hex.len(),
    ensures
        digits_value(hex.take(k + 1), 16) == digits_value(hex.take(k), 16) * 16 + digit_value(
            hex[k],
        ),
{
    assert(hex.take(k + 1).drop_last() =~= hex.take(k));
}

proof fn lemma_six(hex: Seq<char>)
    requires
        hex.len() == 6,
    ensures
        digits_value(hex, 16) == (16 * digit_value(hex[0]) + digit_value(hex[1])) * 65536 + (16
            * digit_value(hex[2]) + digit_value(hex[3])) * 256 + (16 * digit_value(hex[4])
            + digit_value(hex[5])),
{
    assert(hex.take(6) =~= hex);
    assert(hex.take(0).len() == 0);
    lemma_step(hex, 0);
    lemma_step(hex, 1);
    lemma_step(hex, 2);
    lemma_step(hex, 3);
    lemma_step(hex, 4);
    lemma_step(hex, 5);
}

/// A digit stands for what it stands for, a letter in either case for ten to fifteen, and nothing
/// else is one.
pub proof fn law_digits_are_read_in_either_case(c: char)
    ensures
        digit_value(c) < 10 <==> '0' <= c <= '9',
        digit_value(c) < 10 ==> c as int == '0' as int + digit_value(c),
        10 <= digit_value(c) < 16 <==> 'a' <= c <= 'f' || 'A' <= c <= 'F',
        'a' <= c <= 'f' ==> c as int == 'a' as int + digit_value(c) - 10,
        'A' <= c <= 'F' ==> c as int == 'A' as int + digit_value(c) - 10,
{
}

/// A number written in decimal digits is a place in the palette where it is no more than 255, and
/// no color where it is more.
pub proof fn law_a_small_number_is_a_place_in_the_palette(n: nat)
    ensures
        n <= 255 ==> color_of(crate::text::decimal(n)) == Some(Color::Indexed(n as u8)),
        n > 255 ==> color_of(crate::text::decimal(n)) is None,
{
    let s = crate::text::decimal(n);
    crate::text_laws::law_digits_stand_for_the_number(n);
    let none = Seq::<char>::empty();
    assert(none + s + none =~= s);
    assert('0' <= s[0] <= '9');
    assert('0' <= s[s.len() - 1] <= '9');
    crate::text_laws::law_trimming_ignores_padding(none, s, none);
    lemma_decimal(n);
    assert(digits(s, 10)) by {
        assert forall|i: int| 0 <= i < s.len() implies digit_value(#[trigger] s[i]) < 10 by {
            assert('0' <= s[i] <= '9');
        }
    }
}

proof fn lemma_decimal(n: nat)
    ensures
        digits_value(crate::text::decimal(n), 10) == n,
    decreases n,
{
    let s = crate::text::decimal(n);
    reveal_with_fuel(digits_value, 2);
    if n < 10 {
        assert(s.drop_last().len() == 0);
    } else {
        lemma_decimal(n / 10);
        assert(s.drop_last() =~= crate::text::decimal(n / 10));
    }
}

/// What begins with a sharp sign and is not seven characters long, or holds anything but
/// hexadecimal digits behind it, is no color; neither is what holds anything but decimal digits.
pub proof fn law_anything_else_is_no_color(s: Seq<char>, i: int)
    requires
        s.len() > 0,
        !is_space(s[0]),
        !is_space(s.last()),
    ensures
        s[0] == '#' && s.len() != 7 ==> color_of(s) is None,
        s[0] == '#' && 0 < i < s.len() && digit_value(s[i]) >= 16 ==> color_of(s) is None,
        s[0] != '#' && 0 <= i < s.len() && digit_value(s[i]) >= 10 ==> color_of(s) is None,
{
    let none = Seq::<char>::empty();
    assert(none + s + none =~= s);
    crate::text_laws::law_trimming_ignores_padding(none, s, none);
    if s[0] == '#' && 0 < i < s.len() {
        assert(s.skip(1)[i - 1] == s[i]);
    }
}

proof fn lemma_place(i: int, n: int)
    requires
        0 <= i < n <= token_names().len(),
        forall|j: int| 0 <= j < i ==> #[trigger] token_names()[j] != token_names()[i],
    ensures
        place_within(token_names()[i], n) == i,
    decreases n,
{
    if n - 1 > i {
        lemma_place(i, n - 1);
    } else {
        lemma_absent(token_names()[i], i);
    }
}

proof fn lemma_absent(name: Seq<char>, n: int)
    requires
        0 <= n <= token_names().len(),
        forall|j: int| 0 <= j < n ==> #[trigger] token_names()[j] != name,
    ensures
        place_within(name, n) == -1,
    decreases n,
{
    if n > 0 {
        lemma_absent(name, n - 1);
    }
}

proof fn lemma_surface_names()
    ensures
        token_place("surface.background"@) == 0,
        token_place("surface.panel"@) == 1,
        token_place("surface.border"@) == 2,
        token_place("surface.overlay"@) == 3,
{
    let all = token_names();
    reveal_strlit("surface.background");
    reveal_strlit("surface.panel");
    reveal_strlit("surface.border");
    reveal_strlit("surface.overlay");
    assert forall|j: int| 0 <= j < 0 implies #[trigger] all[j] != all[0] by {
    }
    lemma_place(0, 29);
    assert forall|j: int| 0 <= j < 1 implies #[trigger] all[j] != all[1] by {
        assert(all[0].len() != all[1].len());
    }
    lemma_place(1, 29);
    assert forall|j: int| 0 <= j < 2 implies #[trigger] all[j] != all[2] by {
        assert(all[0].len() != all[2].len());
        assert(all[1].len() != all[2].len());
    }
    lemma_place(2, 29);
    assert forall|j: int| 0 <= j < 3 implies #[trigger] all[j] != all[3] by {
        assert(all[0].len() != all[3].len());
        assert(all[1].len() != all[3].len());
        assert(all[2].len() != all[3].len());
    }
    lemma_place(3, 29);
}

proof fn lemma_text_names()
    ensures
        token_place("text.primary"@) == 4,
        token_place("text.secondary"@) == 5,
        token_place("text.muted"@) == 6,
        token_place("text.heading"@) == 7,
{
    let all = token_names();
    reveal_strlit("surface.background");
    reveal_strlit("surface.panel");
    reveal_strlit("surface.border");
    reveal_strlit("surface.overlay");
    reveal_strlit("text.primary");
    reveal_strlit("text.secondary");
    reveal_strlit("text.muted");
    reveal_strlit("text.heading");
    assert forall|j: int| 0 <= j < 4 implies #[trigger] all[j] != all[4] by {
        assert(all[0].len() != all[4].len());
        assert(all[1].len() != all[4].len());
        assert(all[2].len() != all[4].len());
        assert(all[3].len() != all[4].len());
    }
    lemma_place(4, 29);
    assert forall|j: int| 0 <= j < 5 implies #[trigger] all[j] != all[5] by {
        assert(all[0].len() != all[5].len());
        assert(all[1].len() != all[5].len());
        assert(all[2][0] != all[5][0]);
        assert(all[3].len() != all[5].len());
        assert(all[4].len() != all[5].len());
    }
    lemma_place(5, 29);
    assert forall|j: int| 0 <= j < 6 implies #[trigger] all[j] != all[6] by {
        assert(all[0].len() != all[6].len());
        assert(all[1].len() != all[6].len());
        assert(all[2].len() != all[6].len());
        assert(all[3].len() != all[6].len());
        assert(all[4].len() != all[6].len());
        assert(all[5].len() != all[6].len());
    }
    lemma_place(6, 29);
    assert forall|j: int| 0 <= j < 7 implies #[trigger] all[j] != all[7] by {
        assert(all[0].len() != all[7].len());
        assert(all[1].len() != all[7].len());
        assert(all[2].len() != all[7].len());
        assert(all[3].len() != all[7].len());
        assert(all[4][5] != all[7][5]);
        assert(all[5].len() != all[7].len());
        assert(all[6].len() != all[7].len());
    }
    lemma_place(7, 29);
}

proof fn lemma_status_names()
    ensures
        token_place("status.info"@) == 8,
        token_place("status.success"@) == 9,
        token_place("status.warning"@) == 10,
        token_place("status.error"@) == 11,
        token_place("status.running"@) == 12,
        token_place("status.idle"@) == 13,
{
    let all = token_names();
    reveal_strlit("surface.background");
    reveal_strlit("surface.panel");
    reveal_strlit("surface.border");
    reveal_strlit("surface.overlay");
    reveal_strlit("text.primary");
    reveal_strlit("text.secondary");
    reveal_strlit("text.muted");
    reveal_strlit("text.heading");
    reveal_strlit("status.info");
    reveal_strlit("status.success");
    reveal_strlit("status.warning");
    reveal_strlit("status.error");
    reveal_strlit("status.running");
    reveal_strlit("status.idle");
    assert forall|j: int| 0 <= j < 8 implies #[trigger] all[j] != all[8] by {
        assert(all[0].len() != all[8].len());
        assert(all[1].len() != all[8].len());
        assert(all[2].len() != all[8].len());
        assert(all[3].len() != all[8].len());
        assert(all[4].len() != all[8].len());
        assert(all[5].len() != all[8].len());
        assert(all[6].len() != all[8].len());
        assert(all[7].len() != all[8].len());
    }
    lemma_place(8, 29);
    assert forall|j: int| 0 <= j < 9 implies #[trigger] all[j] != all[9] by {
        assert(all[0].len() != all[9].len());
        assert(all[1].len() != all[9].len());
        assert(all[2][1] != all[9][1]);
        assert(all[3].len() != all[9].len());
        assert(all[4].len() != all[9].len());
        assert(all[5][0] != all[9][0]);
        assert(all[6].len() != all[9].len());
        assert(all[7].len() != all[9].len());
        assert(all[8].len() != all[9].len());
    }
    lemma_place(9, 29);
    assert forall|j: int| 0 <= j < 10 implies #[trigger] all[j] != all[10] by {
        assert(all[0].len() != all[10].len());
        assert(all[1].len() != all[10].len());
        assert(all[2][1] != all[10][1]);
        assert(all[3].len() != all[10].len());
        assert(all[4].len() != all[10].len());
        assert(all[5][0] != all[10][0]);
        assert(all[6].len() != all[10].len());
        assert(all[7].len() != all[10].len());
        assert(all[8].len() != all[10].len());
        assert(all[9][7] != all[10][7]);
    }
    lemma_place(10, 29);
    assert forall|j: int| 0 <= j < 11 implies #[trigger] all[j] != all[11] by {
        assert(all[0].len() != all[11].len());
        assert(all[1].len() != all[11].len());
        assert(all[2].len() != all[11].len());
        assert(all[3].len() != all[11].len());
        assert(all[4][0] != all[11][0]);
        assert(all[5].len() != all[11].len());
        assert(all[6].len() != all[11].len());
        assert(all[7][0] != all[11][0]);
        assert(all[8].len() != all[11].len());
        assert(all[9].len() != all[11].len());
        assert(all[10].len() != all[11].len());
    }
    lemma_place(11, 29);
    assert forall|j: int| 0 <= j < 12 implies #[trigger] all[j] != all[12] by {
        assert(all[0].len() != all[12].len());
        assert(all[1].len() != all[12].len());
        assert(all[2][1] != all[12][1]);
        assert(all[3].len() != all[12].len());
        assert(all[4].len() != all[12].len());
        assert(all[5][0] != all[12][0]);
        assert(all[6].len() != all[12].len());
        assert(all[7].len() != all[12].len());
        assert(all[8].len() != all[12].len());
        assert(all[9][7] != all[12][7]);
        assert(all[10][7] != all[12][7]);
        assert(all[11].len() != all[12].len());
    }
    lemma_place(12, 29);
    assert forall|j: int| 0 <= j < 13 implies #[trigger] all[j] != all[13] by {
        assert(all[0].len() != all[13].len());
        assert(all[1].len() != all[13].len());
        assert(all[2].len() != all[13].len());
        assert(all[3].len() != all[13].len());
        assert(all[4].len() != all[13].len());
        assert(all[5].len() != all[13].len());
        assert(all[6].len() != all[13].len());
        assert(all[7].len() != all[13].len());
        assert(all[8][8] != all[13][8]);
        assert(all[9].len() != all[13].len());
        assert(all[10].len() != all[13].len());
        assert(all[11].len() != all[13].len());
        assert(all[12].len() != all[13].len());
    }
    lemma_place(13, 29);
}

proof fn lemma_syntax_names()
    ensures
        token_place("syntax.keyword"@) == 14,
        token_place("syntax.literal"@) == 15,
        token_place("syntax.string"@) == 16,
        token_place("syntax.comment"@) == 17,
{
    let all = token_names();
    reveal_strlit("surface.background");
    reveal_strlit("surface.panel");
    reveal_strlit("surface.border");
    reveal_strlit("surface.overlay");
    reveal_strlit("text.primary");
    reveal_strlit("text.secondary");
    reveal_strlit("text.muted");
    reveal_strlit("text.heading");
    reveal_strlit("status.info");
    reveal_strlit("status.success");
    reveal_strlit("status.warning");
    reveal_strlit("status.error");
    reveal_strlit("status.running");
    reveal_strlit("status.idle");
    reveal_strlit("syntax.keyword");
    reveal_strlit("syntax.literal");
    reveal_strlit("syntax.string");
    reveal_strlit("syntax.comment");
    assert forall|j: int| 0 <= j < 14 implies #[trigger] all[j] != all[14] by {
        assert(all[0].len() != all[14].len());
        assert(all[1].len() != all[14].len());
        assert(all[2][1] != all[14][1]);
        assert(all[3].len() != all[14].len());
        assert(all[4].len() != all[14].len());
        assert(all[5][0] != all[14][0]);
        assert(all[6].len() != all[14].len());
        assert(all[7].len() != all[14].len());
        assert(all[8].len() != all[14].len());
        assert(all[9][1] != all[14][1]);
        assert(all[10][1] != all[14][1]);
        assert(all[11].len() != all[14].len());
        assert(all[12][1] != all[14][1]);
        assert(all[13].len() != all[14].len());
    }
    lemma_place(14, 29);
    assert forall|j: int| 0 <= j < 15 implies #[trigger] all[j] != all[15] by {
        assert(all[0].len() != all[15].len());
        assert(all[1].len() != all[15].len());
        assert(all[2][1] != all[15][1]);
        assert(all[3].len() != all[15].len());
        assert(all[4].len() != all[15].len());
        assert(all[5][0] != all[15][0]);
        assert(all[6].len() != all[15].len());
        assert(all[7].len() != all[15].len());
        assert(all[8].len() != all[15].len());
        assert(all[9][1] != all[15][1]);
        assert(all[10][1] != all[15][1]);
        assert(all[11].len() != all[15].len());
        assert(all[12][1] != all[15][1]);
        assert(all[13].len() != all[15].len());
        assert(all[14][7] != all[15][7]);
    }
    lemma_place(15, 29);
    assert forall|j: int| 0 <= j < 16 implies #[trigger] all[j] != all[16] by {
        assert(all[0].len() != all[16].len());
        assert(all[1][1] != all[16][1]);
        assert(all[2].len() != all[16].len());
        assert(all[3].len() != all[16].len());
        assert(all[4].len() != all[16].len());
        assert(all[5].len() != all[16].len());
        assert(all[6].len() != all[16].len());
        assert(all[7].len() != all[16].len());
        assert(all[8].len() != all[16].len());
        assert(all[9].len() != all[16].len());
        assert(all[10].len() != all[16].len());
        assert(all[11].len() != all[16].len());
        assert(all[12].len() != all[16].len());
        assert(all[13].len() != all[16].len());
        assert(all[14].len() != all[16].len());
        assert(all[15].len() != all[16].len());
    }
    lemma_place(16, 29);
    assert forall|j: int| 0 <= j < 17 implies #[trigger] all[j] != all[17] by {
        assert(all[0].len() != all[17].len());
        assert(all[1].len() != all[17].len());
        assert(all[2][1] != all[17][1]);
        assert(all[3].len() != all[17].len());
        assert(all[4].len() != all[17].len());
        assert(all[5][0] != all[17][0]);
        assert(all[6].len() != all[17].len());
        assert(all[7].len() != all[17].len());
        assert(all[8].len() != all[17].len());
        assert(all[9][1] != all[17][1]);
        assert(all[10][1] != all[17][1]);
        assert(all[11].len() != all[17].len());
        assert(all[12][1] != all[17][1]);
        assert(all[13].len() != all[17].len());
        assert(all[14][7] != all[17][7]);
        assert(all[15][7] != all[17][7]);
        assert(all[16].len() != all[17].len());
    }
    lemma_place(17, 29);
}

proof fn lemma_diff_names()
    ensures
        token_place("diff.added"@) == 18,
        token_place("diff.removed"@) == 19,
        token_place("diff.context"@) == 20,
        token_place("diff.header"@) == 21,
{
    let all = token_names();
    reveal_strlit("surface.background");
    reveal_strlit("surface.panel");
    reveal_strlit("surface.border");
    reveal_strlit("surface.overlay");
    reveal_strlit("text.primary");
    reveal_strlit("text.secondary");
    reveal_strlit("text.muted");
    reveal_strlit("text.heading");
    reveal_strlit("status.info");
    reveal_strlit("status.success");
    reveal_strlit("status.warning");
    reveal_strlit("status.error");
    reveal_strlit("status.running");
    reveal_strlit("status.idle");
    reveal_strlit("syntax.keyword");
    reveal_strlit("syntax.literal");
    reveal_strlit("syntax.string");
    reveal_strlit("syntax.comment");
    reveal_strlit("diff.added");
    reveal_strlit("diff.removed");
    reveal_strlit("diff.context");
    reveal_strlit("diff.header");
    assert forall|j: int| 0 <= j < 18 implies #[trigger] all[j] != all[18] by {
        assert(all[0].len() != all[18].len());
        assert(all[1].len() != all[18].len());
        assert(all[2].len() != all[18].len());
        assert(all[3].len() != all[18].len());
        assert(all[4].len() != all[18].len());
        assert(all[5].len() != all[18].len());
        assert(all[6][0] != all[18][0]);
        assert(all[7].len() != all[18].len());
        assert(all[8].len() != all[18].len());
        assert(all[9].len() != all[18].len());
        assert(all[10].len() != all[18].len());
        assert(all[11].len() != all[18].len());
        assert(all[12].len() != all[18].len());
        assert(all[13].len() != all[18].len());
        assert(all[14].len() != all[18].len());
        assert(all[15].len() != all[18].len());
        assert(all[16].len() != all[18].len());
        assert(all[17].len() != all[18].len());
    }
    lemma_place(18, 29);
    assert forall|j: int| 0 <= j < 19 implies #[trigger] all[j] != all[19] by {
        assert(all[0].len() != all[19].len());
        assert(all[1].len() != all[19].len());
        assert(all[2].len() != all[19].len());
        assert(all[3].len() != all[19].len());
        assert(all[4][0] != all[19][0]);
        assert(all[5].len() != all[19].len());
        assert(all[6].len() != all[19].len());
        assert(all[7][0] != all[19][0]);
        assert(all[8].len() != all[19].len());
        assert(all[9].len() != all[19].len());
        assert(all[10].len() != all[19].len());
        assert(all[11][0] != all[19][0]);
        assert(all[12].len() != all[19].len());
        assert(all[13].len() != all[19].len());
        assert(all[14].len() != all[19].len());
        assert(all[15].len() != all[19].len());
        assert(all[16].len() != all[19].len());
        assert(all[17].len() != all[19].len());
        assert(all[18].len() != all[19].len());
    }
    lemma_place(19, 29);
    assert forall|j: int| 0 <= j < 20 implies #[trigger] all[j] != all[20] by {
        assert(all[0].len() != all[20].len());
        assert(all[1].len() != all[20].len());
        assert(all[2].len() != all[20].len());
        assert(all[3].len() != all[20].len());
        assert(all[4][0] != all[20][0]);
        assert(all[5].len() != all[20].len());
        assert(all[6].len() != all[20].len());
        assert(all[7][0] != all[20][0]);
        assert(all[8].len() != all[20].len());
        assert(all[9].len() != all[20].len());
        assert(all[10].len() != all[20].len());
        assert(all[11][0] != all[20][0]);
        assert(all[12].len() != all[20].len());
        assert(all[13].len() != all[20].len());
        assert(all[14].len() != all[20].len());
        assert(all[15].len() != all[20].len());
        assert(all[16].len() != all[20].len());
        assert(all[17].len() != all[20].len());
        assert(all[18].len() != all[20].len());
        assert(all[19][5] != all[20][5]);
    }
    lemma_place(20, 29);
    assert forall|j: int| 0 <= j < 21 implies #[trigger] all[j] != all[21] by {
        assert(all[0].len() != all[21].len());
        assert(all[1].len() != all[21].len());
        assert(all[2].len() != all[21].len());
        assert(all[3].len() != all[21].len());
        assert(all[4].len() != all[21].len());
        assert(all[5].len() != all[21].len());
        assert(all[6].len() != all[21].len());
        assert(all[7].len() != all[21].len());
        assert(all[8][0] != all[21][0]);
        assert(all[9].len() != all[21].len());
        assert(all[10].len() != all[21].len());
        assert(all[11].len() != all[21].len());
        assert(all[12].len() != all[21].len());
        assert(all[13][0] != all[21][0]);
        assert(all[14].len() != all[21].len());
        assert(all[15].len() != all[21].len());
        assert(all[16].len() != all[21].len());
        assert(all[17].len() != all[21].len());
        assert(all[18].len() != all[21].len());
        assert(all[19].len() != all[21].len());
        assert(all[20].len() != all[21].len());
    }
    lemma_place(21, 29);
}

proof fn lemma_agent_names()
    ensures
        token_place("agent.model_text"@) == 22,
        token_place("agent.tool"@) == 23,
        token_place("agent.thinking"@) == 24,
{
    let all = token_names();
    reveal_strlit("surface.background");
    reveal_strlit("surface.panel");
    reveal_strlit("surface.border");
    reveal_strlit("surface.overlay");
    reveal_strlit("text.primary");
    reveal_strlit("text.secondary");
    reveal_strlit("text.muted");
    reveal_strlit("text.heading");
    reveal_strlit("status.info");
    reveal_strlit("status.success");
    reveal_strlit("status.warning");
    reveal_strlit("status.error");
    reveal_strlit("status.running");
    reveal_strlit("status.idle");
    reveal_strlit("syntax.keyword");
    reveal_strlit("syntax.literal");
    reveal_strlit("syntax.string");
    reveal_strlit("syntax.comment");
    reveal_strlit("diff.added");
    reveal_strlit("diff.removed");
    reveal_strlit("diff.context");
    reveal_strlit("diff.header");
    reveal_strlit("agent.model_text");
    reveal_strlit("agent.tool");
    reveal_strlit("agent.thinking");
    assert forall|j: int| 0 <= j < 22 implies #[trigger] all[j] != all[22] by {
        assert(all[0].len() != all[22].len());
        assert(all[1].len() != all[22].len());
        assert(all[2].len() != all[22].len());
        assert(all[3].len() != all[22].len());
        assert(all[4].len() != all[22].len());
        assert(all[5].len() != all[22].len());
        assert(all[6].len() != all[22].len());
        assert(all[7].len() != all[22].len());
        assert(all[8].len() != all[22].len());
        assert(all[9].len() != all[22].len());
        assert(all[10].len() != all[22].len());
        assert(all[11].len() != all[22].len());
        assert(all[12].len() != all[22].len());
        assert(all[13].len() != all[22].len());
        assert(all[14].len() != all[22].len());
        assert(all[15].len() != all[22].len());
        assert(all[16].len() != all[22].len());
        assert(all[17].len() != all[22].len());
        assert(all[18].len() != all[22].len());
        assert(all[19].len() != all[22].len());
        assert(all[20].len() != all[22].len());
        assert(all[21].len() != all[22].len());
    }
    lemma_place(22, 29);
    assert forall|j: int| 0 <= j < 23 implies #[trigger] all[j] != all[23] by {
        assert(all[0].len() != all[23].len());
        assert(all[1].len() != all[23].len());
        assert(all[2].len() != all[23].len());
        assert(all[3].len() != all[23].len());
        assert(all[4].len() != all[23].len());
        assert(all[5].len() != all[23].len());
        assert(all[6][0] != all[23][0]);
        assert(all[7].len() != all[23].len());
        assert(all[8].len() != all[23].len());
        assert(all[9].len() != all[23].len());
        assert(all[10].len() != all[23].len());
        assert(all[11].len() != all[23].len());
        assert(all[12].len() != all[23].len());
        assert(all[13].len() != all[23].len());
        assert(all[14].len() != all[23].len());
        assert(all[15].len() != all[23].len());
        assert(all[16].len() != all[23].len());
        assert(all[17].len() != all[23].len());
        assert(all[18][0] != all[23][0]);
        assert(all[19].len() != all[23].len());
        assert(all[20].len() != all[23].len());
        assert(all[21].len() != all[23].len());
        assert(all[22].len() != all[23].len());
    }
    lemma_place(23, 29);
    assert forall|j: int| 0 <= j < 24 implies #[trigger] all[j] != all[24] by {
        assert(all[0].len() != all[24].len());
        assert(all[1].len() != all[24].len());
        assert(all[2][0] != all[24][0]);
        assert(all[3].len() != all[24].len());
        assert(all[4].len() != all[24].len());
        assert(all[5][0] != all[24][0]);
        assert(all[6].len() != all[24].len());
        assert(all[7].len() != all[24].len());
        assert(all[8].len() != all[24].len());
        assert(all[9][0] != all[24][0]);
        assert(all[10][0] != all[24][0]);
        assert(all[11].len() != all[24].len());
        assert(all[12][0] != all[24][0]);
        assert(all[13].len() != all[24].len());
        assert(all[14][0] != all[24][0]);
        assert(all[15][0] != all[24][0]);
        assert(all[16].len() != all[24].len());
        assert(all[17][0] != all[24][0]);
        assert(all[18].len() != all[24].len());
        assert(all[19].len() != all[24].len());
        assert(all[20].len() != all[24].len());
        assert(all[21].len() != all[24].len());
        assert(all[22].len() != all[24].len());
        assert(all[23].len() != all[24].len());
    }
    lemma_place(24, 29);
}

proof fn lemma_focus_names()
    ensures
        token_place("focus.active"@) == 25,
        token_place("focus.inactive"@) == 26,
{
    let all = token_names();
    reveal_strlit("surface.background");
    reveal_strlit("surface.panel");
    reveal_strlit("surface.border");
    reveal_strlit("surface.overlay");
    reveal_strlit("text.primary");
    reveal_strlit("text.secondary");
    reveal_strlit("text.muted");
    reveal_strlit("text.heading");
    reveal_strlit("status.info");
    reveal_strlit("status.success");
    reveal_strlit("status.warning");
    reveal_strlit("status.error");
    reveal_strlit("status.running");
    reveal_strlit("status.idle");
    reveal_strlit("syntax.keyword");
    reveal_strlit("syntax.literal");
    reveal_strlit("syntax.string");
    reveal_strlit("syntax.comment");
    reveal_strlit("diff.added");
    reveal_strlit("diff.removed");
    reveal_strlit("diff.context");
    reveal_strlit("diff.header");
    reveal_strlit("agent.model_text");
    reveal_strlit("agent.tool");
    reveal_strlit("agent.thinking");
    reveal_strlit("focus.active");
    reveal_strlit("focus.inactive");
    assert forall|j: int| 0 <= j < 25 implies #[trigger] all[j] != all[25] by {
        assert(all[0].len() != all[25].len());
        assert(all[1].len() != all[25].len());
        assert(all[2].len() != all[25].len());
        assert(all[3].len() != all[25].len());
        assert(all[4][0] != all[25][0]);
        assert(all[5].len() != all[25].len());
        assert(all[6].len() != all[25].len());
        assert(all[7][0] != all[25][0]);
        assert(all[8].len() != all[25].len());
        assert(all[9].len() != all[25].len());
        assert(all[10].len() != all[25].len());
        assert(all[11][0] != all[25][0]);
        assert(all[12].len() != all[25].len());
        assert(all[13].len() != all[25].len());
        assert(all[14].len() != all[25].len());
        assert(all[15].len() != all[25].len());
        assert(all[16].len() != all[25].len());
        assert(all[17].len() != all[25].len());
        assert(all[18].len() != all[25].len());
        assert(all[19][0] != all[25][0]);
        assert(all[20][0] != all[25][0]);
        assert(all[21].len() != all[25].len());
        assert(all[22].len() != all[25].len());
        assert(all[23].len() != all[25].len());
        assert(all[24].len() != all[25].len());
    }
    lemma_place(25, 29);
    assert forall|j: int| 0 <= j < 26 implies #[trigger] all[j] != all[26] by {
        assert(all[0].len() != all[26].len());
        assert(all[1].len() != all[26].len());
        assert(all[2][0] != all[26][0]);
        assert(all[3].len() != all[26].len());
        assert(all[4].len() != all[26].len());
        assert(all[5][0] != all[26][0]);
        assert(all[6].len() != all[26].len());
        assert(all[7].len() != all[26].len());
        assert(all[8].len() != all[26].len());
        assert(all[9][0] != all[26][0]);
        assert(all[10][0] != all[26][0]);
        assert(all[11].len() != all[26].len());
        assert(all[12][0] != all[26][0]);
        assert(all[13].len() != all[26].len());
        assert(all[14][0] != all[26][0]);
        assert(all[15][0] != all[26][0]);
        assert(all[16].len() != all[26].len());
        assert(all[17][0] != all[26][0]);
        assert(all[18].len() != all[26].len());
        assert(all[19].len() != all[26].len());
        assert(all[20].len() != all[26].len());
        assert(all[21].len() != all[26].len());
        assert(all[22].len() != all[26].len());
        assert(all[23].len() != all[26].len());
        assert(all[24][0] != all[26][0]);
        assert(all[25].len() != all[26].len());
    }
    lemma_place(26, 29);
}

proof fn lemma_selection_names()
    ensures
        token_place("selection.foreground"@) == 27,
        token_place("selection.background"@) == 28,
{
    let all = token_names();
    reveal_strlit("surface.background");
    reveal_strlit("surface.panel");
    reveal_strlit("surface.border");
    reveal_strlit("surface.overlay");
    reveal_strlit("text.primary");
    reveal_strlit("text.secondary");
    reveal_strlit("text.muted");
    reveal_strlit("text.heading");
    reveal_strlit("status.info");
    reveal_strlit("status.success");
    reveal_strlit("status.warning");
    reveal_strlit("status.error");
    reveal_strlit("status.running");
    reveal_strlit("status.idle");
    reveal_strlit("syntax.keyword");
    reveal_strlit("syntax.literal");
    reveal_strlit("syntax.string");
    reveal_strlit("syntax.comment");
    reveal_strlit("diff.added");
    reveal_strlit("diff.removed");
    reveal_strlit("diff.context");
    reveal_strlit("diff.header");
    reveal_strlit("agent.model_text");
    reveal_strlit("agent.tool");
    reveal_strlit("agent.thinking");
    reveal_strlit("focus.active");
    reveal_strlit("focus.inactive");
    reveal_strlit("selection.foreground");
    reveal_strlit("selection.background");
    assert forall|j: int| 0 <= j < 27 implies #[trigger] all[j] != all[27] by {
        assert(all[0].len() != all[27].len());
        assert(all[1].len() != all[27].len());
        assert(all[2].len() != all[27].len());
        assert(all[3].len() != all[27].len());
        assert(all[4].len() != all[27].len());
        assert(all[5].len() != all[27].len());
        assert(all[6].len() != all[27].len());
        assert(all[7].len() != all[27].len());
        assert(all[8].len() != all[27].len());
        assert(all[9].len() != all[27].len());
        assert(all[10].len() != all[27].len());
        assert(all[11].len() != all[27].len());
        assert(all[12].len() != all[27].len());
        assert(all[13].len() != all[27].len());
        assert(all[14].len() != all[27].len());
        assert(all[15].len() != all[27].len());
        assert(all[16].len() != all[27].len());
        assert(all[17].len() != all[27].len());
        assert(all[18].len() != all[27].len());
        assert(all[19].len() != all[27].len());
        assert(all[20].len() != all[27].len());
        assert(all[21].len() != all[27].len());
        assert(all[22].len() != all[27].len());
        assert(all[23].len() != all[27].len());
        assert(all[24].len() != all[27].len());
        assert(all[25].len() != all[27].len());
        assert(all[26].len() != all[27].len());
    }
    lemma_place(27, 29);
    assert forall|j: int| 0 <= j < 28 implies #[trigger] all[j] != all[28] by {
        assert(all[0].len() != all[28].len());
        assert(all[1].len() != all[28].len());
        assert(all[2].len() != all[28].len());
        assert(all[3].len() != all[28].len());
        assert(all[4].len() != all[28].len());
        assert(all[5].len() != all[28].len());
        assert(all[6].len() != all[28].len());
        assert(all[7].len() != all[28].len());
        assert(all[8].len() != all[28].len());
        assert(all[9].len() != all[28].len());
        assert(all[10].len() != all[28].len());
        assert(all[11].len() != all[28].len());
        assert(all[12].len() != all[28].len());
        assert(all[13].len() != all[28].len());
        assert(all[14].len() != all[28].len());
        assert(all[15].len() != all[28].len());
        assert(all[16].len() != all[28].len());
        assert(all[17].len() != all[28].len());
        assert(all[18].len() != all[28].len());
        assert(all[19].len() != all[28].len());
        assert(all[20].len() != all[28].len());
        assert(all[21].len() != all[28].len());
        assert(all[22].len() != all[28].len());
        assert(all[23].len() != all[28].len());
        assert(all[24].len() != all[28].len());
        assert(all[25].len() != all[28].len());
        assert(all[26].len() != all[28].len());
        assert(all[27][10] != all[28][10]);
    }
    lemma_place(28, 29);
}

/// Each name stands for the token that it names, and for no other.
pub proof fn law_each_name_stands_for_its_token(t: Theme)
    ensures
        token_color(t, token_place("surface.background"@)) == t.surface.background,
        token_color(t, token_place("surface.panel"@)) == t.surface.panel,
        token_color(t, token_place("surface.border"@)) == t.surface.border,
        token_color(t, token_place("surface.overlay"@)) == t.surface.overlay,
        token_color(t, token_place("text.primary"@)) == t.text.primary,
        token_color(t, token_place("text.secondary"@)) == t.text.secondary,
        token_color(t, token_place("text.muted"@)) == t.text.muted,
        token_color(t, token_place("text.heading"@)) == t.text.heading,
        token_color(t, token_place("status.info"@)) == t.status.info,
        token_color(t, token_place("status.success"@)) == t.status.success,
        token_color(t, token_place("status.warning"@)) == t.status.warning,
        token_color(t, token_place("status.error"@)) == t.status.error,
        token_color(t, token_place("status.running"@)) == t.status.running,
        token_color(t, token_place("status.idle"@)) == t.status.idle,
        token_color(t, token_place("syntax.keyword"@)) == t.syntax.keyword,
        token_color(t, token_place("syntax.literal"@)) == t.syntax.literal,
        token_color(t, token_place("syntax.string"@)) == t.syntax.string,
        token_color(t, token_place("syntax.comment"@)) == t.syntax.comment,
        token_color(t, token_place("diff.added"@)) == t.diff.added,
        token_color(t, token_place("diff.removed"@)) == t.diff.removed,
        token_color(t, token_place("diff.context"@)) == t.diff.context,
        token_color(t, token_place("diff.header"@)) == t.diff.header,
        token_color(t, token_place("agent.model_text"@)) == t.agent.model_text,
        token_color(t, token_place("agent.tool"@)) == t.agent.tool,
        token_color(t, token_place("agent.thinking"@)) == t.agent.thinking,
        token_color(t, token_place("focus.active"@)) == t.focus.active,
        token_color(t, token_place("focus.inactive"@)) == t.focus.inactive,
        token_color(t, token_place("selection.foreground"@)) == t.selection.foreground,
        token_color(t, token_place("selection.background"@)) == t.selection.background,
{
    lemma_surface_names();
    lemma_text_names();
    lemma_status_names();
    lemma_syntax_names();
    lemma_diff_names();
    lemma_agent_names();
    lemma_focus_names();
    lemma_selection_names();
}

/// What is no token's name stands for none.
pub proof fn law_other_names_stand_for_nothing(name: Seq<char>)
    requires
        name != "surface.background"@,
        name != "surface.panel"@,
        name != "surface.border"@,
        name != "surface.overlay"@,
        name != "text.primary"@,
        name != "text.secondary"@,
        name != "text.muted"@,
        name != "text.heading"@,
        name != "status.info"@,
        name != "status.success"@,
        name != "status.warning"@,
        name != "status.error"@,
        name != "status.running"@,
        name != "status.idle"@,
        name != "syntax.keyword"@,
        name != "syntax.literal"@,
        name != "syntax.string"@,
        name != "syntax.comment"@,
        name != "diff.added"@,
        name != "diff.removed"@,
        name != "diff.context"@,
        name != "diff.header"@,
        name != "agent.model_text"@,
        name != "agent.tool"@,
        name != "agent.thinking"@,
        name != "focus.active"@,
        name != "focus.inactive"@,
        name != "selection.foreground"@,
        name != "selection.background"@,
    ensures
        token_place(name) < 0,
{
    lemma_absent(name, 29);
}

} // verus!
