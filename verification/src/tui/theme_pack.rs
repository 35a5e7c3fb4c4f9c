//! Theme packs: themes as data, a few tokens over a built-in variant.
//!
//! A pack ships colors and nothing else. One that asks for any capability or permission is
//! refused before a single color is read.
use vstd::prelude::*;

use crate::text_map::TextMap;
use crate::tui::theme::{
    AgentTokens, Color, DiffTokens, FocusTokens, SelectionTokens, StatusTokens, SurfaceTokens,
    SyntaxTokens, TextTokens, Theme, ThemeVariant,
};

verus! {

/// The schema version of packs that this build reads.
pub const SUPPORTED_THEME_PACK_SCHEMA_VERSION: u32 = 1;

/// Why a pack was refused.
#[derive(Clone, Debug, PartialEq, Eq)]
pub enum ThemePackError {
    /// It does not parse.
    Parse(String),
    UnsupportedSchemaVersion { found: u32, supported: u32 },
    EmptyId,
    /// It asks for what a theme never gets: what it named.
    ExecutionPermissionsForbidden(String),
    /// A token that is not known, or a color that is none.
    InvalidColor { token: String, value: String },
}

/// What a [`ThemePackError`] says.
pub enum PackFault {
    Parse(Seq<char>),
    UnsupportedSchemaVersion { found: u32, supported: u32 },
    EmptyId,
    ExecutionPermissionsForbidden(Seq<char>),
    InvalidColor { token: Seq<char>, value: Seq<char> },
}

impl View for ThemePackError {
    type V = PackFault;

    open spec fn view(&self) -> PackFault {
        match self {
            ThemePackError::Parse(m) => PackFault::Parse(m@),
            ThemePackError::UnsupportedSchemaVersion { found, supported } => {
                PackFault::UnsupportedSchemaVersion { found: *found, supported: *supported }
            },
            ThemePackError::EmptyId => PackFault::EmptyId,
            ThemePackError::ExecutionPermissionsForbidden(d) => {
                PackFault::ExecutionPermissionsForbidden(d@)
            },
            ThemePackError::InvalidColor { token, value } => {
                PackFault::InvalidColor { token: token@, value: value@ }
            },
        }
    }
}

impl ThemePackError {
    /// The error in words.
    pub open spec fn words(self) -> Seq<char> {
        match self {
            ThemePackError::Parse(m) => "invalid theme pack: "@ + m@,
            ThemePackError::UnsupportedSchemaVersion { found, supported } => {
                "unsupported theme-pack schema_version "@ + crate::text::decimal(found as nat)
                    + " (this build supports "@ + crate::text::decimal(supported as nat) + ")"@
            },
            ThemePackError::EmptyId => "theme pack id must not be empty"@,
            ThemePackError::ExecutionPermissionsForbidden(d) => {
                "theme packs must not request execution permissions, but this pack declares: "@ + d@
            },
            ThemePackError::InvalidColor { token, value } => {
                "invalid color `"@ + value@ + "` for token `"@ + token@
                    + "` (expected `#rrggbb` or an index 0-255)"@
            },
        }
    }

    /// The error in words.
    pub fn message(&self) -> (r: String)
        ensures
            r@ == self.words(),
    {
        match self {
            ThemePackError::Parse(m) => crate::text::concat2("invalid theme pack: ", m.as_str()),
            ThemePackError::UnsupportedSchemaVersion { found, supported } => {
                let head: String = crate::text::concat2(
                    "unsupported theme-pack schema_version ",
                    crate::text::decimal_text(*found as u64).as_str(),
                );
                let middle: String = crate::text::concat3(
                    head.as_str(),
                    " (this build supports ",
                    crate::text::decimal_text(*supported as u64).as_str(),
                );
                crate::text::concat2(middle.as_str(), ")")
            },
            ThemePackError::EmptyId => "theme pack id must not be empty".to_owned(),
            ThemePackError::ExecutionPermissionsForbidden(d) => crate::text::concat2(
                "theme packs must not request execution permissions, but this pack declares: ",
                d.as_str(),
            ),
            ThemePackError::InvalidColor { token, value } => {
                let head: String = crate::text::concat3(
                    "invalid color `",
                    value.as_str(),
                    "` for token `",
                );
                crate::text::concat3(
                    head.as_str(),
                    token.as_str(),
                    "` (expected `#rrggbb` or an index 0-255)",
                )
            },
        }
    }
}

/// A pack's manifest.
pub struct ThemePackManifest {
    pub schema_version: u32,
    pub id: String,
    pub name: String,
    /// The variant that the pack changes; the dark one where it names none.
    pub base: Option<ThemeVariant>,
    /// Colors by token name, such as `#ff0000` for `status.error` or `236` for
    /// `surface.panel`.
    pub tokens: TextMap<String>,
    /// Whether it has a table of capabilities.
    pub capabilities: bool,
    /// Whether it has a table of permissions.
    pub permissions: bool,
}

/// What a manifest asks for that no theme gets.
pub open spec fn asked_for(m: ThemePackManifest) -> Seq<char> {
    if m.capabilities && m.permissions {
        "capabilities, permissions"@
    } else if m.capabilities {
        "capabilities"@
    } else {
        "permissions"@
    }
}

/// Why a manifest is refused, whatever its colors: first its schema version, then a blank
/// id, then anything it asks for.
pub open spec fn manifest_fault(m: ThemePackManifest) -> Option<PackFault> {
    if m.schema_version != SUPPORTED_THEME_PACK_SCHEMA_VERSION {
        Some(
            PackFault::UnsupportedSchemaVersion {
                found: m.schema_version,
                supported: SUPPORTED_THEME_PACK_SCHEMA_VERSION,
            },
        )
    } else if crate::text::blank(m.id@) {
        Some(PackFault::EmptyId)
    } else if m.capabilities || m.permissions {
        Some(PackFault::ExecutionPermissionsForbidden(asked_for(m)))
    } else {
        None
    }
}

/// Refuses a manifest that is not ours to read, or that asks for anything.
pub fn validate_manifest(manifest: &ThemePackManifest) -> (r: Result<(), ThemePackError>)
    ensures
        r is Ok <==> manifest_fault(*manifest) is None,
        r matches Err(e) ==> manifest_fault(*manifest) == Some(e@),
{
    if manifest.schema_version != SUPPORTED_THEME_PACK_SCHEMA_VERSION {
        return Err(
            ThemePackError::UnsupportedSchemaVersion {
                found: manifest.schema_version,
                supported: SUPPORTED_THEME_PACK_SCHEMA_VERSION,
            },
        );
    }
    if crate::text::is_blank(manifest.id.as_str()) {
        return Err(ThemePackError::EmptyId);
    }
    if manifest.capabilities && manifest.permissions {
        return Err(
            ThemePackError::ExecutionPermissionsForbidden("capabilities, permissions".to_owned()),
        );
    }
    if manifest.capabilities {
        return Err(ThemePackError::ExecutionPermissionsForbidden("capabilities".to_owned()));
    }
    if manifest.permissions {
        return Err(ThemePackError::ExecutionPermissionsForbidden("permissions".to_owned()));
    }
    Ok(())
}

/// The value of a digit, in either case; sixteen for what is no hexadecimal digit.
pub open spec fn digit_value(c: char) -> nat {
    if '0' <= c <= '9' {
        (c as int - '0' as int) as nat
    } else if 'a' <= c <= 'f' {
        (c as int - 'a' as int + 10) as nat
    } else if 'A' <= c <= 'F' {
        (c as int - 'A' as int + 10) as nat
    } else {
        16
    }
}

/// Whether `s` is made of digits of the base `radix`, and of at least one.
pub open spec fn digits(s: Seq<char>, radix: nat) -> bool {
    &&& s.len() > 0
    &&& forall|i: int| 0 <= i < s.len() ==> digit_value(#[trigger] s[i]) < radix
}

/// The number that the digits `s` write.
pub open spec fn digits_value(s: Seq<char>, radix: nat) -> nat
    decreases s.len(),
{
    if s.len() == 0 {
        0
    } else {
        digits_value(s.drop_last(), radix) * radix + digit_value(s.last())
    }
}

/// The color that `value` writes: a `#` and six hexadecimal digits, red, green and blue, or
/// a number up to 255, a place in the palette. White space around it does not count.
pub open spec fn color_of(value: Seq<char>) -> Option<Color> {
    let v = crate::text::trimmed(value);
    if v.len() > 0 && v[0] == '#' {
        let hex = v.skip(1);
        if hex.len() == 6 && digits(hex, 16) {
            let n = digits_value(hex, 16);
            Some(Color::Rgb((n / 65536) as u8, (n / 256 % 256) as u8, (n % 256) as u8))
        } else {
            None
        }
    } else if digits(v, 10) && digits_value(v, 10) <= 255 {
        Some(Color::Indexed(digits_value(v, 10) as u8))
    } else {
        None
    }
}

fn digit(c: char) -> (r: u32)
    ensures
        r == digit_value(c),
{
    let u: u32 = c as u32;
    if 48 <= u && u <= 57 {
        u - 48
    } else if 97 <= u && u <= 102 {
        u - 87
    } else if 65 <= u && u <= 70 {
        u - 55
    } else {
        16
    }
}

proof fn lemma_digits_grow(s: Seq<char>, radix: nat, n: int)
    requires
        0 <= n <= s.len(),
        radix > 0,
    ensures
        digits_value(s.take(n), radix) <= digits_value(s, radix),
    decreases s.len(),
{
    if n == s.len() {
        assert(s.take(n) =~= s);
    } else {
        lemma_digits_grow(s.drop_last(), radix, n);
        assert(s.drop_last().take(n) =~= s.take(n));
        let before = digits_value(s.drop_last(), radix);
        assert(before <= before * radix) by (nonlinear_arith)
            requires
                radix > 0,
        ;
    }
}

/// The number that the characters of `v` from `from` on write, where they are digits of the
/// base `radix` and the number is not above `most`.
fn number(v: &Vec<char>, from: usize, radix: u32, most: u32) -> (r: Option<u32>)
    requires
        from <= v@.len(),
        0 < radix <= 16,
        most <= 0xff_ffff,
    ensures
        r is Some <==> digits(v@.skip(from as int), radix as nat) && digits_value(
            v@.skip(from as int),
            radix as nat,
        ) <= most,
        r matches Some(n) ==> n == digits_value(v@.skip(from as int), radix as nat),
{
    let ghost s = v@.skip(from as int);
    if from == v.len() {
        return None;
    }
    let mut total: u32 = 0;
    let mut i: usize = from;
    proof {
        assert(s.take(0) =~= Seq::<char>::empty());
    }
    while i < v.len()
        invariant
            from <= i <= v@.len(),
            from < v@.len(),
            s == v@.skip(from as int),
            0 < radix <= 16,
            most <= 0xff_ffff,
            total <= most,
            total == digits_value(s.take(i - from), radix as nat),
            forall|k: int| 0 <= k < i - from ==> digit_value(#[trigger] s[k]) < radix,
        decreases v@.len() - i,
    {
        let d: u32 = digit(v[i]);
        proof {
            assert(s[i - from] == v@[i as int]);
            assert(s.take(i - from + 1).drop_last() =~= s.take(i - from));
            assert(s.take(i - from + 1).last() == v@[i as int]);
            lemma_digits_grow(s, radix as nat, i - from + 1);
        }
        if d >= radix {
            return None;
        }
        assert(total * radix <= 0xff_ffff * 16) by (nonlinear_arith)
            requires
                total <= 0xff_ffff,
                radix <= 16,
        ;
        let grown: u32 = total * radix + d;
        if grown > most {
            return None;
        }
        total = grown;
        i = i + 1;
    }
    proof {
        assert(s.take(s.len() as int) =~= s);
    }
    Some(total)
}

proof fn lemma_six_digits(s: Seq<char>)
    requires
        s.len() <= 6,
        forall|i: int| 0 <= i < s.len() ==> digit_value(#[trigger] s[i]) < 16,
    ensures
        s.len() == 0 ==> digits_value(s, 16) < 1,
        s.len() == 1 ==> digits_value(s, 16) < 16,
        s.len() == 2 ==> digits_value(s, 16) < 256,
        s.len() == 3 ==> digits_value(s, 16) < 4096,
        s.len() == 4 ==> digits_value(s, 16) < 65536,
        s.len() == 5 ==> digits_value(s, 16) < 1048576,
        s.len() == 6 ==> digits_value(s, 16) < 16777216,
    decreases s.len(),
{
    if s.len() > 0 {
        lemma_six_digits(s.drop_last());
        assert(digit_value(s[s.len() - 1]) < 16);
    }
}

/// The color that `value` writes, if it writes one.
pub fn read_color(value: &str) -> (r: Option<Color>)
    ensures
        r == color_of(value@),
{
    let text: String = crate::text::trim(value);
    let v: Vec<char> = crate::text::char_vec(text.as_str());
    let n: usize = v.len();
    if n > 0 && v[0] == '#' {
        let ghost hex = v@.skip(1);
        if n != 7 {
            return None;
        }
        proof {
            if digits(hex, 16) {
                lemma_six_digits(hex);
            }
        }
        match number(&v, 1, 16, 0xff_ffff) {
            Some(rgb) => Some(
                Color::Rgb((rgb / 65536) as u8, (rgb / 256 % 256) as u8, (rgb % 256) as u8),
            ),
            None => None,
        }
    } else {
        proof {
            assert(v@.skip(0) =~= v@);
        }
        match number(&v, 0, 10, 255) {
            Some(index) => Some(Color::Indexed(index as u8)),
            None => None,
        }
    }
}

/// The names of the tokens.
pub open spec fn token_names() -> Seq<Seq<char>> {
    seq![
        "surface.background"@,
        "surface.panel"@,
        "surface.border"@,
        "surface.overlay"@,
        "text.primary"@,
        "text.secondary"@,
        "text.muted"@,
        "text.heading"@,
        "status.info"@,
        "status.success"@,
        "status.warning"@,
        "status.error"@,
        "status.running"@,
        "status.idle"@,
        "syntax.keyword"@,
        "syntax.literal"@,
        "syntax.string"@,
        "syntax.comment"@,
        "diff.added"@,
        "diff.removed"@,
        "diff.context"@,
        "diff.header"@,
        "agent.model_text"@,
        "agent.tool"@,
        "agent.thinking"@,
        "focus.active"@,
        "focus.inactive"@,
        "selection.foreground"@,
        "selection.background"@,
    ]
}

/// The place of a name among the first `n` token names; negative for any other.
pub open spec fn place_within(name: Seq<char>, n: int) -> int
    decreases n,
{
    if n <= 0 {
        -1
    } else {
        let before = place_within(name, n - 1);
        if before >= 0 {
            before
        } else if token_names()[n - 1] == name {
            n - 1
        } else {
            -1
        }
    }
}

/// The place of a token's name; negative for what is no token.
pub open spec fn token_place(name: Seq<char>) -> int {
    place_within(name, token_names().len() as int)
}

/// `t` with the color `c` for the token at the place `i`.
pub open spec fn recolored(t: Theme, i: int, c: Color) -> Theme {
    if i == 0 {
        Theme { surface: SurfaceTokens { background: c, ..t.surface }, ..t }
    } else if i == 1 {
        Theme { surface: SurfaceTokens { panel: c, ..t.surface }, ..t }
    } else if i == 2 {
        Theme { surface: SurfaceTokens { border: c, ..t.surface }, ..t }
    } else if i == 3 {
        Theme { surface: SurfaceTokens { overlay: c, ..t.surface }, ..t }
    } else if i == 4 {
        Theme { text: TextTokens { primary: c, ..t.text }, ..t }
    } else if i == 5 {
        Theme { text: TextTokens { secondary: c, ..t.text }, ..t }
    } else if i == 6 {
        Theme { text: TextTokens { muted: c, ..t.text }, ..t }
    } else if i == 7 {
        Theme { text: TextTokens { heading: c, ..t.text }, ..t }
    } else if i == 8 {
        Theme { status: StatusTokens { info: c, ..t.status }, ..t }
    } else if i == 9 {
        Theme { status: StatusTokens { success: c, ..t.status }, ..t }
    } else if i == 10 {
        Theme { status: StatusTokens { warning: c, ..t.status }, ..t }
    } else if i == 11 {
        Theme { status: StatusTokens { error: c, ..t.status }, ..t }
    } else if i == 12 {
        Theme { status: StatusTokens { running: c, ..t.status }, ..t }
    } else if i == 13 {
        Theme { status: StatusTokens { idle: c, ..t.status }, ..t }
    } else if i == 14 {
        Theme { syntax: SyntaxTokens { keyword: c, ..t.syntax }, ..t }
    } else if i == 15 {
        Theme { syntax: SyntaxTokens { literal: c, ..t.syntax }, ..t }
    } else if i == 16 {
        Theme { syntax: SyntaxTokens { string: c, ..t.syntax }, ..t }
    } else if i == 17 {
        Theme { syntax: SyntaxTokens { comment: c, ..t.syntax }, ..t }
    } else if i == 18 {
        Theme { diff: DiffTokens { added: c, ..t.diff }, ..t }
    } else if i == 19 {
        Theme { diff: DiffTokens { removed: c, ..t.diff }, ..t }
    } else if i == 20 {
        Theme { diff: DiffTokens { context: c, ..t.diff }, ..t }
    } else if i == 21 {
        Theme { diff: DiffTokens { header: c, ..t.diff }, ..t }
    } else if i == 22 {
        Theme { agent: AgentTokens { model_text: c, ..t.agent }, ..t }
    } else if i == 23 {
        Theme { agent: AgentTokens { tool: c, ..t.agent }, ..t }
    } else if i == 24 {
        Theme { agent: AgentTokens { thinking: c, ..t.agent }, ..t }
    } else if i == 25 {
        Theme { focus: FocusTokens { active: c, ..t.focus }, ..t }
    } else if i == 26 {
        Theme { focus: FocusTokens { inactive: c, ..t.focus }, ..t }
    } else if i == 27 {
        Theme { selection: SelectionTokens { foreground: c, ..t.selection }, ..t }
    } else if i == 28 {
        Theme { selection: SelectionTokens { background: c, ..t.selection }, ..t }
    } else {
        t
    }
}

/// The color that `t` has for the token at the place `i`.
pub open spec fn token_color(t: Theme, i: int) -> Color {
    if i == 0 {
        t.surface.background
    } else if i == 1 {
        t.surface.panel
    } else if i == 2 {
        t.surface.border
    } else if i == 3 {
        t.surface.overlay
    } else if i == 4 {
        t.text.primary
    } else if i == 5 {
        t.text.secondary
    } else if i == 6 {
        t.text.muted
    } else if i == 7 {
        t.text.heading
    } else if i == 8 {
        t.status.info
    } else if i == 9 {
        t.status.success
    } else if i == 10 {
        t.status.warning
    } else if i == 11 {
        t.status.error
    } else if i == 12 {
        t.status.running
    } else if i == 13 {
        t.status.idle
    } else if i == 14 {
        t.syntax.keyword
    } else if i == 15 {
        t.syntax.literal
    } else if i == 16 {
        t.syntax.string
    } else if i == 17 {
        t.syntax.comment
    } else if i == 18 {
        t.diff.added
    } else if i == 19 {
        t.diff.removed
    } else if i == 20 {
        t.diff.context
    } else if i == 21 {
        t.diff.header
    } else if i == 22 {
        t.agent.model_text
    } else if i == 23 {
        t.agent.tool
    } else if i == 24 {
        t.agent.thinking
    } else if i == 25 {
        t.focus.active
    } else if i == 26 {
        t.focus.inactive
    } else if i == 27 {
        t.selection.foreground
    } else if i == 28 {
        t.selection.background
    } else {
        t.surface.background
    }
}

/// The theme, or the fault, that the first `n` of the entries lead to, applied to `base` in
/// order.
pub open spec fn applied(base: Theme, entries: Seq<(String, String)>, n: int) -> Result<
    Theme,
    PackFault,
>
    decreases n,
{
    if n <= 0 {
        Ok(base)
    } else {
        match applied(base, entries, n - 1) {
            Ok(theme) => {
                let (token, value) = entries[n - 1];
                if color_of(value@) is Some && token_place(token@) >= 0 {
                    Ok(recolored(theme, token_place(token@), color_of(value@)->0))
                } else {
                    Err(PackFault::InvalidColor { token: token@, value: value@ })
                }
            },
            Err(fault) => Err(fault),
        }
    }
}

/// The theme that a manifest changes.
pub open spec fn base_theme(m: ThemePackManifest) -> Theme {
    crate::tui::theme::variant_theme(
        match m.base {
            Some(v) => v,
            None => ThemeVariant::Dark,
        },
    )
}

/// The theme, or the fault, that a manifest leads to: it is validated, and then its colors
/// are applied in the order of their token names.
pub open spec fn resolved(m: ThemePackManifest) -> Result<Theme, PackFault> {
    match manifest_fault(m) {
        Some(fault) => Err(fault),
        None => applied(base_theme(m), m.tokens.listed(), m.tokens.listed().len() as int),
    }
}

#[verifier::spinoff_prover]
#[verifier::rlimit(60)]
fn set_token(theme: &mut Theme, token: &str, color: Color) -> (r: bool)
    ensures
        r == (token_place(token@) >= 0),
        r ==> *final(theme) == recolored(*old(theme), token_place(token@), color),
        !r ==> *final(theme) == *old(theme),
{
    proof {
        reveal_with_fuel(place_within, 30);
    }
    if crate::text::same_text(token, "surface.background") {
        theme.surface.background = color;
    } else if crate::text::same_text(token, "surface.panel") {
        theme.surface.panel = color;
    } else if crate::text::same_text(token, "surface.border") {
        theme.surface.border = color;
    } else if crate::text::same_text(token, "surface.overlay") {
        theme.surface.overlay = color;
    } else if crate::text::same_text(token, "text.primary") {
        theme.text.primary = color;
    } else if crate::text::same_text(token, "text.secondary") {
        theme.text.secondary = color;
    } else if crate::text::same_text(token, "text.muted") {
        theme.text.muted = color;
    } else if crate::text::same_text(token, "text.heading") {
        theme.text.heading = color;
    } else if crate::text::same_text(token, "status.info") {
        theme.status.info = color;
    } else if crate::text::same_text(token, "status.success") {
        theme.status.success = color;
    } else if crate::text::same_text(token, "status.warning") {
        theme.status.warning = color;
    } else if crate::text::same_text(token, "status.error") {
        theme.status.error = color;
    } else if crate::text::same_text(token, "status.running") {
        theme.status.running = color;
    } else if crate::text::same_text(token, "status.idle") {
        theme.status.idle = color;
    } else if crate::text::same_text(token, "syntax.keyword") {
        theme.syntax.keyword = color;
    } else if crate::text::same_text(token, "syntax.literal") {
        theme.syntax.literal = color;
    } else if crate::text::same_text(token, "syntax.string") {
        theme.syntax.string = color;
    } else if crate::text::same_text(token, "syntax.comment") {
        theme.syntax.comment = color;
    } else if crate::text::same_text(token, "diff.added") {
        theme.diff.added = color;
    } else if crate::text::same_text(token, "diff.removed") {
        theme.diff.removed = color;
    } else if crate::text::same_text(token, "diff.context") {
        theme.diff.context = color;
    } else if crate::text::same_text(token, "diff.header") {
        theme.diff.header = color;
    } else if crate::text::same_text(token, "agent.model_text") {
        theme.agent.model_text = color;
    } else if crate::text::same_text(token, "agent.tool") {
        theme.agent.tool = color;
    } else if crate::text::same_text(token, "agent.thinking") {
        theme.agent.thinking = color;
    } else if crate::text::same_text(token, "focus.active") {
        theme.focus.active = color;
    } else if crate::text::same_text(token, "focus.inactive") {
        theme.focus.inactive = color;
    } else if crate::text::same_text(token, "selection.foreground") {
        theme.selection.foreground = color;
    } else if crate::text::same_text(token, "selection.background") {
        theme.selection.background = color;
    } else {
        return false;
    }
    true
}

fn apply_tokens(manifest: &ThemePackManifest) -> (r: Result<Theme, ThemePackError>)
    ensures
        ({
            let entries = manifest.tokens.listed();
            match (r, applied(base_theme(*manifest), entries, entries.len() as int)) {
                (Ok(a), Ok(b)) => a == b,
                (Err(a), Err(b)) => a@ == b,
                _ => false,
            }
        }),
{
    let variant: ThemeVariant = match manifest.base {
        Some(v) => v,
        None => ThemeVariant::Dark,
    };
    let ghost base = base_theme(*manifest);
    let mut theme: Theme = Theme::variant(variant);
    let entries: &Vec<(String, String)> = manifest.tokens.entries();
    let mut i: usize = 0;
    while i < entries.len()
        invariant
            i <= entries@.len(),
            entries@ == manifest.tokens.listed(),
            base == base_theme(*manifest),
            applied(base, entries@, i as int) == Ok::<Theme, PackFault>(theme),
        decreases entries@.len() - i,
    {
        let token: &String = &entries[i].0;
        let value: &String = &entries[i].1;
        let ok: bool = match read_color(value.as_str()) {
            Some(color) => set_token(&mut theme, token.as_str(), color),
            None => false,
        };
        if !ok {
            proof {
                lemma_fault_stays(base, entries@, i + 1, entries@.len() as int);
            }
            return Err(ThemePackError::InvalidColor { token: token.clone(), value: value.clone() });
        }
        i = i + 1;
    }
    Ok(theme)
}

proof fn lemma_fault_stays(base: Theme, entries: Seq<(String, String)>, i: int, n: int)
    requires
        i <= n,
        applied(base, entries, i) is Err,
    ensures
        applied(base, entries, n) == applied(base, entries, i),
    decreases n - i,
{
    if i < n {
        lemma_fault_stays(base, entries, i, n - 1);
    }
}

/// The theme of a pack, or why it is refused.
pub fn resolve_theme_pack(manifest: &ThemePackManifest) -> (r: Result<Theme, ThemePackError>)
    ensures
        match (r, resolved(*manifest)) {
            (Ok(a), Ok(b)) => a == b,
            (Err(a), Err(b)) => a@ == b,
            _ => false,
        },
{
    match validate_manifest(manifest) {
        Err(e) => Err(e),
        Ok(_) => apply_tokens(manifest),
    }
}

/// A pack that asks for any capability or permission never becomes a theme.
pub proof fn law_packs_get_no_permissions(m: ThemePackManifest)
    requires
        m.capabilities || m.permissions,
    ensures
        resolved(m) is Err,
{
}

proof fn lemma_recolored(t: Theme, i: int, j: int, c: Color)
    requires
        0 <= i < 29,
        0 <= j < 29,
    ensures
        token_color(recolored(t, i, c), i) == c,
        i != j ==> token_color(recolored(t, i, c), j) == token_color(t, j),
{
}

proof fn lemma_place_within(name: Seq<char>, n: int)
    requires
        0 <= n <= token_names().len(),
    ensures
        -1 <= place_within(name, n) < n || n == 0,
        place_within(name, n) >= 0 ==> token_names()[place_within(name, n)] == name,
    decreases n,
{
    if n > 0 {
        lemma_place_within(name, n - 1);
    }
}

proof fn lemma_unnamed(base: Theme, entries: Seq<(String, String)>, n: int, name: Seq<char>)
    requires
        0 <= n <= entries.len(),
        applied(base, entries, n) is Ok,
        token_place(name) >= 0,
        forall|i: int| 0 <= i < n ==> (#[trigger] entries[i]).0@ != name,
    ensures
        token_color(applied(base, entries, n)->Ok_0, token_place(name)) == token_color(
            base,
            token_place(name),
        ),
    decreases n,
{
    if n > 0 {
        lemma_unnamed(base, entries, n - 1, name);
        let token = entries[n - 1].0@;
        lemma_place_within(token, 29);
        lemma_place_within(name, 29);
        assert(token_names().len() == 29);
        lemma_recolored(
            applied(base, entries, n - 1)->Ok_0,
            token_place(token),
            token_place(name),
            color_of(entries[n - 1].1@)->0,
        );
    }
}

/// Tokens that a pack does not name keep the colors of the variant it changes.
pub proof fn law_unnamed_tokens_keep_the_base(m: ThemePackManifest, name: Seq<char>)
    requires
        resolved(m) is Ok,
        token_place(name) >= 0,
        forall|i: int| 0 <= i < m.tokens.listed().len() ==> (#[trigger] m.tokens.listed()[i]).0@
            != name,
    ensures
        token_color(resolved(m)->Ok_0, token_place(name)) == token_color(
            base_theme(m),
            token_place(name),
        ),
{
    lemma_unnamed(base_theme(m), m.tokens.listed(), m.tokens.listed().len() as int, name);
}

proof fn lemma_named(base: Theme, entries: Seq<(String, String)>, n: int, i: int)
    requires
        0 <= i < n <= entries.len(),
        applied(base, entries, n) is Ok,
        forall|k: int| i < k < n ==> (#[trigger] entries[k]).0@ != entries[i].0@,
    ensures
        token_place(entries[i].0@) >= 0,
        Some(token_color(applied(base, entries, n)->Ok_0, token_place(entries[i].0@))) == color_of(
            entries[i].1@,
        ),
    decreases n,
{
    let token = entries[n - 1].0@;
    let name = entries[i].0@;
    lemma_place_within(token, 29);
    lemma_place_within(name, 29);
    assert(token_names().len() == 29);
    if i < n - 1 {
        lemma_named(base, entries, n - 1, i);
        assert(entries[n - 1].0@ != name);
    }
    lemma_recolored(
        applied(base, entries, n - 1)->Ok_0,
        token_place(token),
        token_place(name),
        color_of(entries[n - 1].1@)->0,
    );
}

/// A token that an accepted pack names has the color that the pack gives it.
pub proof fn law_named_tokens_are_recolored(m: ThemePackManifest, i: int)
    requires
        resolved(m) is Ok,
        0 <= i < m.tokens.listed().len(),
        forall|k: int| i < k < m.tokens.listed().len() ==> (#[trigger] m.tokens.listed()[k]).0@
            != m.tokens.listed()[i].0@,
    ensures
        token_place(m.tokens.listed()[i].0@) >= 0,
        Some(
            token_color(resolved(m)->Ok_0, token_place(m.tokens.listed()[i].0@)),
        ) == color_of(m.tokens.listed()[i].1@),
{
    lemma_named(base_theme(m), m.tokens.listed(), m.tokens.listed().len() as int, i);
}

} // verus!
