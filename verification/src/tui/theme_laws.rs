//! Which theme is taken.
use crate::tui::theme::{
    announced, ascii_lower, chosen, same_but_case, variant_theme, ColorDepth, Theme,
    ThemePreferences, ThemeVariant,
};
use vstd::prelude::*;

verus! {

/// Without an override the terminal's colors decide first: with none the theme has none, with few
/// it is the one for as many, unless high contrast is preferred; only with direct color do the
/// other preferences count, safety for the color-blind before brightness.
pub proof fn law_the_theme_suits_the_terminal(depth: ColorDepth, prefs: ThemePreferences)
    requires
        prefs.override_variant is None,
    ensures
        chosen(depth, prefs) is Monochrome <==> depth is Monochrome,
        chosen(depth, prefs) is HighContrast <==> prefs.high_contrast && !(depth is Monochrome),
        chosen(depth, prefs) is Ansi256 <==> depth is Ansi256 && !prefs.high_contrast,
        chosen(depth, prefs) is Ansi16 <==> depth is Ansi16 && !prefs.high_contrast,
        chosen(depth, prefs) is ColorBlindSafe <==> depth is TrueColor && !prefs.high_contrast
            && prefs.color_blind_safe,
        chosen(depth, prefs) is Light <==> depth is TrueColor && !prefs.high_contrast
            && !prefs.color_blind_safe && prefs.prefer_light,
{
}

/// An empty `NO_COLOR` counts as none.
pub proof fn law_an_empty_wish_for_no_color_is_none(
    no_color: &str,
    colorterm: Option<&str>,
    term: Option<&str>,
)
    requires
        no_color@.len() == 0,
    ensures
        announced(Some(no_color), colorterm, term) == announced(None, colorterm, term),
{
}

/// A terminal that announces direct color has it, whatever it is called; case does not count.
pub proof fn law_direct_color_is_announced(colorterm: &str, term: Option<&str>)
    ensures
        colorterm@ == "truecolor"@ || colorterm@ == "24bit"@ ==> announced(
            None,
            Some(colorterm),
            term,
        ) is TrueColor,
        announced(None, Some(colorterm), term) is TrueColor ==> colorterm@.len() == "truecolor"@.len()
            || colorterm@.len() == "24bit"@.len(),
        same_but_case(colorterm@, "truecolor"@) || same_but_case(colorterm@, "24bit"@)
            <==> announced(None, Some(colorterm), term) is TrueColor,
{
}

/// Else its name decides: no name means sixteen colors, an empty one or a dumb terminal none, one
/// that speaks of 256 colors as many, and any other sixteen.
pub proof fn law_the_terminals_name_decides(term: &str)
    ensures
        announced(None, None, None) is Ansi16,
        term@.len() == 0 || term@ == "dumb"@ ==> announced(None, None, Some(term)) is Monochrome,
        term@.len() > 0 && term@ != "dumb"@ ==> {
            &&& crate::text::occurs(term@, "256color"@) ==> announced(
                None,
                None,
                Some(term),
            ) is Ansi256
            &&& !crate::text::occurs(term@, "256color"@) ==> announced(
                None,
                None,
                Some(term),
            ) is Ansi16
        },
{
}

/// Two texts are the same but for case exactly where each letter of the one is that of the other
/// in one case or the other, and every other character the same.
pub proof fn law_case_is_that_of_letters(a: char, b: char)
    ensures
        ascii_lower(a) == ascii_lower(b) <==> a == b || ('A' <= a <= 'Z' && b as int == a as int
            + 32) || ('A' <= b <= 'Z' && a as int == b as int + 32),
{
}

/// A pane with the focus has the border of the active one, and any other pane another.
pub proof fn law_the_focused_pane_stands_out(theme: Theme)
    ensures
        theme.border(true) == theme.focus.active,
        theme.border(false) == theme.focus.inactive,
        theme.selected().fg == Some(theme.selection.foreground),
        theme.selected().bg == Some(theme.selection.background),
{
}

/// In every theme with color a failure does not look like a success, nor like a warning, nor a
/// warning like a success, and quiet text does not look like the body.
pub proof fn law_colored_themes_tell_outcomes_apart(v: ThemeVariant)
    requires
        !(v is Monochrome),
    ensures
        variant_theme(v).status.error != variant_theme(v).status.success,
        variant_theme(v).status.error != variant_theme(v).status.warning,
        variant_theme(v).status.warning != variant_theme(v).status.success,
        variant_theme(v).status.error != variant_theme(v).status.running,
        variant_theme(v).text.muted != variant_theme(v).text.primary,
{
}

} // verus!
