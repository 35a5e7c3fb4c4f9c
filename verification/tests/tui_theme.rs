//! Themes and theme packs.
use codypendent::text_map::TextMap;
use codypendent::tui::theme::{Color, ColorDepth, Style, Theme, ThemePreferences, ThemeVariant};
use codypendent::tui::theme_pack::{
    read_color, resolve_theme_pack, validate_manifest, ThemePackError, ThemePackManifest,
};

const ALL: [ThemeVariant; 7] = [
    ThemeVariant::Dark,
    ThemeVariant::Light,
    ThemeVariant::HighContrast,
    ThemeVariant::ColorBlindSafe,
    ThemeVariant::Ansi256,
    ThemeVariant::Ansi16,
    ThemeVariant::Monochrome,
];

#[test]
fn text_is_never_the_same_color_as_its_background() {
    for v in ALL {
        let t = Theme::variant(v);
        assert_ne!(t.text.primary, t.surface.panel, "{v:?}");
        assert_ne!(t.text.primary, t.surface.background, "{v:?}");
        assert_ne!(t.selection.foreground, t.selection.background, "{v:?}");
        assert_ne!(t.focus.active, t.focus.inactive, "{v:?}");
    }
}

#[test]
fn colored_variants_keep_semantic_pairs_distinct() {
    for v in [
        ThemeVariant::Dark,
        ThemeVariant::Light,
        ThemeVariant::HighContrast,
        ThemeVariant::ColorBlindSafe,
        ThemeVariant::Ansi256,
        ThemeVariant::Ansi16,
    ] {
        let t = Theme::variant(v);
        assert_ne!(t.diff.added, t.diff.removed, "{v:?}");
        assert_ne!(t.status.success, t.status.error, "{v:?}");
    }
}

#[test]
fn color_blind_safe_avoids_pure_red_green_for_diffs() {
    let t = Theme::color_blind_safe();
    assert_ne!(t.diff.added, Color::Rgb(0x00, 0xff, 0x00));
    assert_ne!(t.diff.removed, Color::Rgb(0xff, 0x00, 0x00));
    assert_eq!(t.diff.added, Color::Rgb(0x00, 0x9e, 0x73));
    assert_eq!(t.diff.removed, Color::Rgb(0xd5, 0x5e, 0x00));
}

#[test]
fn monochrome_is_purely_grayscale() {
    let t = Theme::monochrome();
    let grayscale = [Color::White, Color::Gray, Color::DarkGray, Color::Black];
    for c in [
        t.status.info,
        t.status.success,
        t.status.warning,
        t.status.error,
        t.diff.added,
        t.diff.removed,
        t.syntax.keyword,
        t.agent.tool,
        t.focus.active,
    ] {
        assert!(grayscale.contains(&c), "{c:?}");
    }
}

#[test]
fn detect_reads_env_conventions() {
    assert_eq!(
        ColorDepth::from_env(None, Some("truecolor"), Some("xterm-256color")),
        ColorDepth::TrueColor
    );
    assert_eq!(
        ColorDepth::from_env(None, None, Some("xterm-256color")),
        ColorDepth::Ansi256
    );
    assert_eq!(
        ColorDepth::from_env(None, None, Some("xterm")),
        ColorDepth::Ansi16
    );
    assert_eq!(
        ColorDepth::from_env(None, None, Some("dumb")),
        ColorDepth::Monochrome
    );
    assert_eq!(
        ColorDepth::from_env(Some("1"), Some("truecolor"), Some("xterm-256color")),
        ColorDepth::Monochrome
    );
    assert_eq!(
        ColorDepth::from_env(Some(""), Some("truecolor"), None),
        ColorDepth::TrueColor
    );
}

#[test]
fn detection_ignores_case_and_falls_back() {
    assert_eq!(
        ColorDepth::from_env(None, Some("TrueColor"), None),
        ColorDepth::TrueColor
    );
    assert_eq!(
        ColorDepth::from_env(None, Some("24BIT"), Some("dumb")),
        ColorDepth::TrueColor
    );
    assert_eq!(
        ColorDepth::from_env(None, Some("other"), Some("xterm-direct")),
        ColorDepth::Ansi16
    );
    assert_eq!(
        ColorDepth::from_env(None, None, Some("xterm-direct")),
        ColorDepth::Ansi16
    );
    assert_eq!(
        ColorDepth::from_env(None, None, Some("xterm-truecolor")),
        ColorDepth::Ansi16
    );
    assert_eq!(ColorDepth::from_env(None, None, None), ColorDepth::Ansi16);
    assert_eq!(
        ColorDepth::from_env(None, None, Some("")),
        ColorDepth::Monochrome
    );
}

#[test]
fn select_picks_by_depth() {
    let none = ThemePreferences::default();
    assert_eq!(Theme::select(ColorDepth::TrueColor, none), Theme::dark());
    assert_eq!(Theme::select(ColorDepth::Ansi256, none), Theme::ansi256());
    assert_eq!(Theme::select(ColorDepth::Ansi16, none), Theme::ansi16());
    assert_eq!(
        Theme::select(ColorDepth::Monochrome, none),
        Theme::monochrome()
    );
}

#[test]
fn select_honors_accessibility_prefs_over_depth() {
    let hc = ThemePreferences {
        high_contrast: true,
        ..Default::default()
    };
    assert_eq!(
        Theme::select(ColorDepth::TrueColor, hc),
        Theme::high_contrast()
    );
    let cb = ThemePreferences {
        color_blind_safe: true,
        ..Default::default()
    };
    assert_eq!(
        Theme::select(ColorDepth::TrueColor, cb),
        Theme::color_blind_safe()
    );
    assert_eq!(
        Theme::select(ColorDepth::Monochrome, hc),
        Theme::monochrome()
    );
}

#[test]
fn manual_override_always_wins() {
    let prefs = ThemePreferences {
        high_contrast: true,
        override_variant: Some(ThemeVariant::Light),
        ..Default::default()
    };
    assert_eq!(Theme::select(ColorDepth::TrueColor, prefs), Theme::light());
    assert_eq!(Theme::select(ColorDepth::Monochrome, prefs), Theme::light());
}

#[test]
fn brightness_counts_last_and_only_with_direct_color() {
    let light = ThemePreferences {
        prefer_light: true,
        ..Default::default()
    };
    assert_eq!(Theme::select(ColorDepth::TrueColor, light), Theme::light());
    assert_eq!(Theme::select(ColorDepth::Ansi16, light), Theme::ansi16());
}

#[test]
fn styles_read_their_tokens() {
    let t = Theme::default();
    assert_eq!(t, Theme::dark());
    assert_eq!(t.border_color(true), t.focus.active);
    assert_eq!(t.border_color(false), t.focus.inactive);
    assert_eq!(
        t.panel_style(),
        Style {
            fg: Some(t.text.primary),
            bg: Some(t.surface.panel),
            bold: false,
            underlined: false
        }
    );
    assert!(t.selection_style().bold);
    assert_eq!(t.surface.background, Color::Rgb(0x12, 0x14, 0x18));
}

fn pack(id: &str, base: Option<ThemeVariant>, tokens: &[(&str, &str)]) -> ThemePackManifest {
    let mut map = TextMap::new();
    for (token, value) in tokens {
        map.insert((*token).to_owned(), (*value).to_owned());
    }
    ThemePackManifest {
        schema_version: 1,
        id: id.to_owned(),
        name: String::new(),
        base,
        tokens: map,
        capabilities: false,
        permissions: false,
    }
}

#[test]
fn valid_data_only_pack_loads() {
    let manifest = pack(
        "solarish",
        Some(ThemeVariant::Dark),
        &[("status.error", "#ff0000"), ("surface.panel", "236")],
    );
    let theme = resolve_theme_pack(&manifest).expect("data-only pack loads");
    assert_eq!(theme.status.error, Color::Rgb(0xff, 0x00, 0x00));
    assert_eq!(theme.surface.panel, Color::Indexed(236));
    assert_eq!(theme.text.primary, Theme::dark().text.primary);
}

#[test]
fn pack_declaring_capabilities_is_rejected() {
    let mut manifest = pack("malicious", None, &[]);
    manifest.capabilities = true;
    let err = resolve_theme_pack(&manifest).unwrap_err();
    assert!(
        matches!(err, ThemePackError::ExecutionPermissionsForbidden(ref s) if s.contains("capabilities")),
        "got {err:?}"
    );
}

#[test]
fn pack_declaring_permissions_is_rejected() {
    let mut manifest = pack("malicious", None, &[]);
    manifest.permissions = true;
    assert_eq!(
        resolve_theme_pack(&manifest),
        Err(ThemePackError::ExecutionPermissionsForbidden(
            "permissions".to_owned()
        ))
    );
    manifest.capabilities = true;
    let err = validate_manifest(&manifest).unwrap_err();
    assert_eq!(
        err.message(),
        "theme packs must not request execution permissions, but this pack declares: capabilities, permissions"
    );
}

#[test]
fn base_variant_selects_the_starting_palette() {
    let manifest = pack("hc-tweak", Some(ThemeVariant::HighContrast), &[]);
    assert_eq!(
        resolve_theme_pack(&manifest).expect("loads"),
        Theme::high_contrast()
    );
}

#[test]
fn unsupported_schema_version_is_rejected() {
    let mut manifest = pack("x", None, &[]);
    manifest.schema_version = 2;
    let err = resolve_theme_pack(&manifest).unwrap_err();
    assert!(matches!(
        err,
        ThemePackError::UnsupportedSchemaVersion { found: 2, .. }
    ));
    assert_eq!(
        err.message(),
        "unsupported theme-pack schema_version 2 (this build supports 1)"
    );
}

#[test]
fn empty_id_is_rejected() {
    let manifest = pack("", None, &[]);
    assert_eq!(resolve_theme_pack(&manifest), Err(ThemePackError::EmptyId));
    let blank = pack(" \t", None, &[]);
    assert_eq!(validate_manifest(&blank), Err(ThemePackError::EmptyId));
}

#[test]
fn malformed_color_is_rejected() {
    let manifest = pack("bad", None, &[("status.error", "not-a-color")]);
    let err = resolve_theme_pack(&manifest).unwrap_err();
    assert!(matches!(err, ThemePackError::InvalidColor { .. }));
    assert_eq!(
        err.message(),
        "invalid color `not-a-color` for token `status.error` (expected `#rrggbb` or an index 0-255)"
    );
    for signed in ["#+12345", "+7"] {
        assert_eq!(
            resolve_theme_pack(&pack("bad", None, &[("status.error", signed)])),
            Err(ThemePackError::InvalidColor {
                token: "status.error".to_owned(),
                value: signed.to_owned()
            })
        );
    }
}

#[test]
fn unknown_token_name_is_rejected() {
    let manifest = pack("bad", None, &[("surface.nonexistent", "#ffffff")]);
    assert!(matches!(
        resolve_theme_pack(&manifest),
        Err(ThemePackError::InvalidColor { .. })
    ));
}

#[test]
fn the_first_bad_token_by_name_is_reported() {
    let manifest = pack("bad", None, &[("zz", "1"), ("aa", "1"), ("text.muted", "x")]);
    assert_eq!(
        resolve_theme_pack(&manifest),
        Err(ThemePackError::InvalidColor {
            token: "aa".to_owned(),
            value: "1".to_owned()
        })
    );
}

#[test]
fn colors_are_six_hexadecimal_digits_or_a_palette_index() {
    assert_eq!(read_color("#0a0B0c"), Some(Color::Rgb(10, 11, 12)));
    assert_eq!(read_color("  #ffffff "), Some(Color::Rgb(255, 255, 255)));
    assert_eq!(read_color("255"), Some(Color::Indexed(255)));
    assert_eq!(read_color("007"), Some(Color::Indexed(7)));
    assert_eq!(read_color("000255"), Some(Color::Indexed(255)));
    assert_eq!(read_color("#ABCDEF"), Some(Color::Rgb(171, 205, 239)));
    for bad in [
        "256", "", "#", "#fff", "#gggggg", "-1", "-0", "+", "+7", "#+12345", "#-12345", "#abcdeg",
        "#12345é", "1 2", "1_0", "0x10", "99999999999",
    ] {
        assert_eq!(read_color(bad), None, "{bad:?}");
    }
}

#[test]
fn every_token_name_sets_its_token() {
    let names = [
        "surface.background",
        "surface.panel",
        "surface.border",
        "surface.overlay",
        "text.primary",
        "text.secondary",
        "text.muted",
        "text.heading",
        "status.info",
        "status.success",
        "status.warning",
        "status.error",
        "status.running",
        "status.idle",
        "syntax.keyword",
        "syntax.literal",
        "syntax.string",
        "syntax.comment",
        "diff.added",
        "diff.removed",
        "diff.context",
        "diff.header",
        "agent.model_text",
        "agent.tool",
        "agent.thinking",
        "focus.active",
        "focus.inactive",
        "selection.foreground",
        "selection.background",
    ];
    for name in names {
        let theme = resolve_theme_pack(&pack("one", None, &[(name, "#010203")])).expect(name);
        assert_ne!(theme, Theme::dark(), "{name}");
    }
    let theme =
        resolve_theme_pack(&pack("one", None, &[("agent.thinking", "9")])).expect("loads");
    assert_eq!(theme.agent.thinking, Color::Indexed(9));
}
