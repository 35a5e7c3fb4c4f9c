//! Theme tokens: every color that is drawn is one of these.
use vstd::prelude::*;

verus! {

/// A terminal color.
#[derive(Clone, Copy, Debug, PartialEq, Eq, Structural)]
pub enum Color {
    Black,
    White,
    Gray,
    DarkGray,
    LightRed,
    LightGreen,
    LightYellow,
    LightBlue,
    LightMagenta,
    LightCyan,
    /// Direct color.
    Rgb(u8, u8, u8),
    /// A place in the 256-color palette.
    Indexed(u8),
}

/// How text is drawn. What is not set is left as it is underneath.
#[derive(Clone, Copy, Debug, PartialEq, Eq, Structural)]
pub struct Style {
    pub fg: Option<Color>,
    pub bg: Option<Color>,
    pub bold: bool,
    pub underlined: bool,
}

/// Backgrounds and chrome.
#[derive(Clone, Copy, Debug, PartialEq, Eq, Structural)]
pub struct SurfaceTokens {
    pub background: Color,
    pub panel: Color,
    pub border: Color,
    pub overlay: Color,
}

/// Text roles.
#[derive(Clone, Copy, Debug, PartialEq, Eq, Structural)]
pub struct TextTokens {
    pub primary: Color,
    pub secondary: Color,
    pub muted: Color,
    pub heading: Color,
}

/// Status roles.
#[derive(Clone, Copy, Debug, PartialEq, Eq, Structural)]
pub struct StatusTokens {
    pub info: Color,
    pub success: Color,
    pub warning: Color,
    pub error: Color,
    pub running: Color,
    pub idle: Color,
}

/// Syntax roles.
#[derive(Clone, Copy, Debug, PartialEq, Eq, Structural)]
pub struct SyntaxTokens {
    pub keyword: Color,
    pub literal: Color,
    pub string: Color,
    pub comment: Color,
}

/// Diff roles.
#[derive(Clone, Copy, Debug, PartialEq, Eq, Structural)]
pub struct DiffTokens {
    pub added: Color,
    pub removed: Color,
    pub context: Color,
    pub header: Color,
}

/// Agent roles.
#[derive(Clone, Copy, Debug, PartialEq, Eq, Structural)]
pub struct AgentTokens {
    pub model_text: Color,
    pub tool: Color,
    pub thinking: Color,
}

/// Focus indication.
#[derive(Clone, Copy, Debug, PartialEq, Eq, Structural)]
pub struct FocusTokens {
    pub active: Color,
    pub inactive: Color,
}

/// Selection highlight.
#[derive(Clone, Copy, Debug, PartialEq, Eq, Structural)]
pub struct SelectionTokens {
    pub foreground: Color,
    pub background: Color,
}

/// A complete set of tokens.
#[derive(Clone, Copy, Debug, PartialEq, Eq, Structural)]
pub struct Theme {
    pub surface: SurfaceTokens,
    pub text: TextTokens,
    pub status: StatusTokens,
    pub syntax: SyntaxTokens,
    pub diff: DiffTokens,
    pub agent: AgentTokens,
    pub focus: FocusTokens,
    pub selection: SelectionTokens,
}

/// How many colors a terminal has.
#[derive(Clone, Copy, Debug, PartialEq, Eq, Structural)]
pub enum ColorDepth {
    /// Direct color.
    TrueColor,
    /// The 256 indexed colors.
    Ansi256,
    /// The sixteen basic colors.
    Ansi16,
    /// None.
    Monochrome,
}

/// A built-in theme.
#[derive(Clone, Copy, Debug, PartialEq, Eq, Structural)]
pub enum ThemeVariant {
    Dark,
    Light,
    HighContrast,
    ColorBlindSafe,
    Ansi256,
    Ansi16,
    Monochrome,
}

/// What the user prefers.
#[derive(Clone, Copy, Debug, PartialEq, Eq, Structural)]
pub struct ThemePreferences {
    /// Prefer high contrast.
    pub high_contrast: bool,
    /// Prefer colors that color-blind readers tell apart.
    pub color_blind_safe: bool,
    /// Prefer a bright background.
    pub prefer_light: bool,
    /// Take this one, whatever else holds.
    pub override_variant: Option<ThemeVariant>,
}

impl Default for ThemePreferences {
    fn default() -> (r: Self)
        ensures
            !r.high_contrast,
            !r.color_blind_safe,
            !r.prefer_light,
            r.override_variant is None,
    {
        ThemePreferences {
            high_contrast: false,
            color_blind_safe: false,
            prefer_light: false,
            override_variant: None,
        }
    }
}

/// The dark theme.
pub open spec fn dark_theme() -> Theme {
    Theme {
        surface: SurfaceTokens {
            background: Color::Rgb(0x12, 0x14, 0x18),
            panel: Color::Rgb(0x1a, 0x1d, 0x23),
            border: Color::Rgb(0x33, 0x38, 0x42),
            overlay: Color::Rgb(0x22, 0x26, 0x2e),
        },
        text: TextTokens {
            primary: Color::Rgb(0xe6, 0xe9, 0xef),
            secondary: Color::Rgb(0xb4, 0xba, 0xc6),
            muted: Color::Rgb(0x7a, 0x82, 0x91),
            heading: Color::Rgb(0xf2, 0xf4, 0xf8),
        },
        status: StatusTokens {
            info: Color::Rgb(0x5c, 0x9d, 0xff),
            success: Color::Rgb(0x5d, 0xd6, 0x9a),
            warning: Color::Rgb(0xe6, 0xb4, 0x50),
            error: Color::Rgb(0xef, 0x6d, 0x6d),
            running: Color::Rgb(0x74, 0xc0, 0xf0),
            idle: Color::Rgb(0x8a, 0x93, 0xa3),
        },
        syntax: SyntaxTokens {
            keyword: Color::Rgb(0xc6, 0x92, 0xff),
            literal: Color::Rgb(0xe6, 0xb4, 0x50),
            string: Color::Rgb(0x9c, 0xd6, 0x7a),
            comment: Color::Rgb(0x6b, 0x74, 0x84),
        },
        diff: DiffTokens {
            added: Color::Rgb(0x5d, 0xd6, 0x9a),
            removed: Color::Rgb(0xef, 0x6d, 0x6d),
            context: Color::Rgb(0x9a, 0xa2, 0xb1),
            header: Color::Rgb(0x5c, 0x9d, 0xff),
        },
        agent: AgentTokens {
            model_text: Color::Rgb(0xd7, 0xdc, 0xe4),
            tool: Color::Rgb(0x74, 0xc0, 0xf0),
            thinking: Color::Rgb(0x8a, 0x93, 0xa3),
        },
        focus: FocusTokens {
            active: Color::Rgb(0x5c, 0x9d, 0xff),
            inactive: Color::Rgb(0x33, 0x38, 0x42),
        },
        selection: SelectionTokens {
            foreground: Color::Rgb(0x12, 0x14, 0x18),
            background: Color::Rgb(0x5c, 0x9d, 0xff),
        },
    }
}

/// The light theme, for bright terminals.
pub open spec fn light_theme() -> Theme {
    Theme {
        surface: SurfaceTokens {
            background: Color::Rgb(0xfa, 0xfb, 0xfc),
            panel: Color::Rgb(0xff, 0xff, 0xff),
            border: Color::Rgb(0xd0, 0xd7, 0xde),
            overlay: Color::Rgb(0xf0, 0xf2, 0xf5),
        },
        text: TextTokens {
            primary: Color::Rgb(0x1f, 0x23, 0x28),
            secondary: Color::Rgb(0x4a, 0x52, 0x5e),
            muted: Color::Rgb(0x7a, 0x82, 0x91),
            heading: Color::Rgb(0x0d, 0x11, 0x17),
        },
        status: StatusTokens {
            info: Color::Rgb(0x0a, 0x5a, 0xd0),
            success: Color::Rgb(0x1a, 0x7f, 0x4b),
            warning: Color::Rgb(0x9a, 0x6b, 0x00),
            error: Color::Rgb(0xc0, 0x2a, 0x2a),
            running: Color::Rgb(0x0a, 0x6a, 0xa8),
            idle: Color::Rgb(0x6b, 0x73, 0x82),
        },
        syntax: SyntaxTokens {
            keyword: Color::Rgb(0x7a, 0x30, 0xc0),
            literal: Color::Rgb(0x9a, 0x6b, 0x00),
            string: Color::Rgb(0x1a, 0x7f, 0x4b),
            comment: Color::Rgb(0x8a, 0x92, 0xa1),
        },
        diff: DiffTokens {
            added: Color::Rgb(0x1a, 0x7f, 0x4b),
            removed: Color::Rgb(0xc0, 0x2a, 0x2a),
            context: Color::Rgb(0x4a, 0x52, 0x5e),
            header: Color::Rgb(0x0a, 0x5a, 0xd0),
        },
        agent: AgentTokens {
            model_text: Color::Rgb(0x1f, 0x23, 0x28),
            tool: Color::Rgb(0x0a, 0x6a, 0xa8),
            thinking: Color::Rgb(0x6b, 0x73, 0x82),
        },
        focus: FocusTokens {
            active: Color::Rgb(0x0a, 0x5a, 0xd0),
            inactive: Color::Rgb(0xd0, 0xd7, 0xde),
        },
        selection: SelectionTokens {
            foreground: Color::Rgb(0xff, 0xff, 0xff),
            background: Color::Rgb(0x0a, 0x5a, 0xd0),
        },
    }
}

/// The high-contrast theme: white on black, and saturated status colors.
pub open spec fn high_contrast_theme() -> Theme {
    Theme {
        surface: SurfaceTokens {
            background: Color::Rgb(0x00, 0x00, 0x00),
            panel: Color::Rgb(0x00, 0x00, 0x00),
            border: Color::Rgb(0xff, 0xff, 0xff),
            overlay: Color::Rgb(0x0a, 0x0a, 0x0a),
        },
        text: TextTokens {
            primary: Color::Rgb(0xff, 0xff, 0xff),
            secondary: Color::Rgb(0xe0, 0xe0, 0xe0),
            muted: Color::Rgb(0xc0, 0xc0, 0xc0),
            heading: Color::Rgb(0xff, 0xff, 0xff),
        },
        status: StatusTokens {
            info: Color::Rgb(0x00, 0xd7, 0xff),
            success: Color::Rgb(0x00, 0xff, 0x5f),
            warning: Color::Rgb(0xff, 0xd7, 0x00),
            error: Color::Rgb(0xff, 0x30, 0x30),
            running: Color::Rgb(0x00, 0xd7, 0xff),
            idle: Color::Rgb(0xc0, 0xc0, 0xc0),
        },
        syntax: SyntaxTokens {
            keyword: Color::Rgb(0xff, 0x80, 0xff),
            literal: Color::Rgb(0xff, 0xd7, 0x00),
            string: Color::Rgb(0x00, 0xff, 0x5f),
            comment: Color::Rgb(0xc0, 0xc0, 0xc0),
        },
        diff: DiffTokens {
            added: Color::Rgb(0x00, 0xff, 0x5f),
            removed: Color::Rgb(0xff, 0x30, 0x30),
            context: Color::Rgb(0xe0, 0xe0, 0xe0),
            header: Color::Rgb(0x00, 0xd7, 0xff),
        },
        agent: AgentTokens {
            model_text: Color::Rgb(0xff, 0xff, 0xff),
            tool: Color::Rgb(0x00, 0xd7, 0xff),
            thinking: Color::Rgb(0xc0, 0xc0, 0xc0),
        },
        focus: FocusTokens {
            active: Color::Rgb(0xff, 0xff, 0x00),
            inactive: Color::Rgb(0x80, 0x80, 0x80),
        },
        selection: SelectionTokens {
            foreground: Color::Rgb(0x00, 0x00, 0x00),
            background: Color::Rgb(0xff, 0xff, 0x00),
        },
    }
}

/// The color-blind-safe theme, of the Okabe–Ito palette: added and removed are bluish green and vermillion.
pub open spec fn color_blind_safe_theme() -> Theme {
    Theme {
        surface: SurfaceTokens {
            background: Color::Rgb(0x11, 0x13, 0x17),
            panel: Color::Rgb(0x1b, 0x1e, 0x24),
            border: Color::Rgb(0x3a, 0x40, 0x4a),
            overlay: Color::Rgb(0x23, 0x27, 0x2f),
        },
        text: TextTokens {
            primary: Color::Rgb(0xed, 0xf0, 0xf5),
            secondary: Color::Rgb(0xbc, 0xc2, 0xce),
            muted: Color::Rgb(0x86, 0x8e, 0x9d),
            heading: Color::Rgb(0xf5, 0xf7, 0xfb),
        },
        status: StatusTokens {
            info: Color::Rgb(0x56, 0xb4, 0xe9),
            success: Color::Rgb(0x00, 0x9e, 0x73),
            warning: Color::Rgb(0xe6, 0x9f, 0x00),
            error: Color::Rgb(0xd5, 0x5e, 0x00),
            running: Color::Rgb(0x56, 0xb4, 0xe9),
            idle: Color::Rgb(0x94, 0x9c, 0xac),
        },
        syntax: SyntaxTokens {
            keyword: Color::Rgb(0xcc, 0x79, 0xa7),
            literal: Color::Rgb(0xe6, 0x9f, 0x00),
            string: Color::Rgb(0x00, 0x9e, 0x73),
            comment: Color::Rgb(0x86, 0x8e, 0x9d),
        },
        diff: DiffTokens {
            added: Color::Rgb(0x00, 0x9e, 0x73),
            removed: Color::Rgb(0xd5, 0x5e, 0x00),
            context: Color::Rgb(0xbc, 0xc2, 0xce),
            header: Color::Rgb(0x56, 0xb4, 0xe9),
        },
        agent: AgentTokens {
            model_text: Color::Rgb(0xed, 0xf0, 0xf5),
            tool: Color::Rgb(0x56, 0xb4, 0xe9),
            thinking: Color::Rgb(0x94, 0x9c, 0xac),
        },
        focus: FocusTokens {
            active: Color::Rgb(0x56, 0xb4, 0xe9),
            inactive: Color::Rgb(0x3a, 0x40, 0x4a),
        },
        selection: SelectionTokens {
            foreground: Color::Rgb(0x11, 0x13, 0x17),
            background: Color::Rgb(0x56, 0xb4, 0xe9),
        },
    }
}

/// The theme of the 256 indexed colors.
pub open spec fn ansi256_theme() -> Theme {
    Theme {
        surface: SurfaceTokens {
            background: Color::Indexed(234),
            panel: Color::Indexed(235),
            border: Color::Indexed(240),
            overlay: Color::Indexed(237),
        },
        text: TextTokens {
            primary: Color::Indexed(253),
            secondary: Color::Indexed(250),
            muted: Color::Indexed(244),
            heading: Color::Indexed(255),
        },
        status: StatusTokens {
            info: Color::Indexed(75),
            success: Color::Indexed(78),
            warning: Color::Indexed(179),
            error: Color::Indexed(203),
            running: Color::Indexed(81),
            idle: Color::Indexed(245),
        },
        syntax: SyntaxTokens {
            keyword: Color::Indexed(141),
            literal: Color::Indexed(179),
            string: Color::Indexed(114),
            comment: Color::Indexed(242),
        },
        diff: DiffTokens {
            added: Color::Indexed(78),
            removed: Color::Indexed(203),
            context: Color::Indexed(249),
            header: Color::Indexed(75),
        },
        agent: AgentTokens {
            model_text: Color::Indexed(252),
            tool: Color::Indexed(81),
            thinking: Color::Indexed(245),
        },
        focus: FocusTokens {
            active: Color::Indexed(75),
            inactive: Color::Indexed(240),
        },
        selection: SelectionTokens {
            foreground: Color::Indexed(234),
            background: Color::Indexed(75),
        },
    }
}

/// The theme of the sixteen basic colors.
pub open spec fn ansi16_theme() -> Theme {
    Theme {
        surface: SurfaceTokens {
            background: Color::Black,
            panel: Color::Black,
            border: Color::DarkGray,
            overlay: Color::Black,
        },
        text: TextTokens {
            primary: Color::White,
            secondary: Color::Gray,
            muted: Color::DarkGray,
            heading: Color::White,
        },
        status: StatusTokens {
            info: Color::LightBlue,
            success: Color::LightGreen,
            warning: Color::LightYellow,
            error: Color::LightRed,
            running: Color::LightCyan,
            idle: Color::Gray,
        },
        syntax: SyntaxTokens {
            keyword: Color::LightMagenta,
            literal: Color::LightYellow,
            string: Color::LightGreen,
            comment: Color::DarkGray,
        },
        diff: DiffTokens {
            added: Color::LightGreen,
            removed: Color::LightRed,
            context: Color::Gray,
            header: Color::LightBlue,
        },
        agent: AgentTokens {
            model_text: Color::White,
            tool: Color::LightCyan,
            thinking: Color::Gray,
        },
        focus: FocusTokens {
            active: Color::LightBlue,
            inactive: Color::DarkGray,
        },
        selection: SelectionTokens {
            foreground: Color::Black,
            background: Color::LightBlue,
        },
    }
}

/// The theme without color: white, grays and black.
pub open spec fn monochrome_theme() -> Theme {
    Theme {
        surface: SurfaceTokens {
            background: Color::Black,
            panel: Color::Black,
            border: Color::Gray,
            overlay: Color::Black,
        },
        text: TextTokens {
            primary: Color::White,
            secondary: Color::Gray,
            muted: Color::DarkGray,
            heading: Color::White,
        },
        status: StatusTokens {
            info: Color::White,
            success: Color::White,
            warning: Color::Gray,
            error: Color::White,
            running: Color::White,
            idle: Color::DarkGray,
        },
        syntax: SyntaxTokens {
            keyword: Color::White,
            literal: Color::Gray,
            string: Color::Gray,
            comment: Color::DarkGray,
        },
        diff: DiffTokens {
            added: Color::White,
            removed: Color::Gray,
            context: Color::DarkGray,
            header: Color::White,
        },
        agent: AgentTokens {
            model_text: Color::White,
            tool: Color::Gray,
            thinking: Color::DarkGray,
        },
        focus: FocusTokens {
            active: Color::White,
            inactive: Color::DarkGray,
        },
        selection: SelectionTokens {
            foreground: Color::Black,
            background: Color::White,
        },
    }
}

/// The theme of each variant.
pub open spec fn variant_theme(v: ThemeVariant) -> Theme {
    match v {
        ThemeVariant::Dark => dark_theme(),
        ThemeVariant::Light => light_theme(),
        ThemeVariant::HighContrast => high_contrast_theme(),
        ThemeVariant::ColorBlindSafe => color_blind_safe_theme(),
        ThemeVariant::Ansi256 => ansi256_theme(),
        ThemeVariant::Ansi16 => ansi16_theme(),
        ThemeVariant::Monochrome => monochrome_theme(),
    }
}

/// The variant that is taken: the override, if there is one. Without color, the monochrome
/// one. Else high contrast where it is preferred. Else by the number of colors; only with
/// direct color do the other preferences count, color blindness before brightness.
pub open spec fn chosen(depth: ColorDepth, prefs: ThemePreferences) -> ThemeVariant {
    if prefs.override_variant is Some {
        prefs.override_variant->0
    } else if depth == ColorDepth::Monochrome {
        ThemeVariant::Monochrome
    } else if prefs.high_contrast {
        ThemeVariant::HighContrast
    } else if depth == ColorDepth::Ansi256 {
        ThemeVariant::Ansi256
    } else if depth == ColorDepth::Ansi16 {
        ThemeVariant::Ansi16
    } else if prefs.color_blind_safe {
        ThemeVariant::ColorBlindSafe
    } else if prefs.prefer_light {
        ThemeVariant::Light
    } else {
        ThemeVariant::Dark
    }
}

impl Theme {
    /// The dark theme.
    #[must_use]
    pub fn dark() -> (r: Self)
        ensures
            r == dark_theme(),
    {
        Theme {
            surface: SurfaceTokens {
                background: Color::Rgb(0x12, 0x14, 0x18),
                panel: Color::Rgb(0x1a, 0x1d, 0x23),
                border: Color::Rgb(0x33, 0x38, 0x42),
                overlay: Color::Rgb(0x22, 0x26, 0x2e),
            },
            text: TextTokens {
                primary: Color::Rgb(0xe6, 0xe9, 0xef),
                secondary: Color::Rgb(0xb4, 0xba, 0xc6),
                muted: Color::Rgb(0x7a, 0x82, 0x91),
                heading: Color::Rgb(0xf2, 0xf4, 0xf8),
            },
            status: StatusTokens {
                info: Color::Rgb(0x5c, 0x9d, 0xff),
                success: Color::Rgb(0x5d, 0xd6, 0x9a),
                warning: Color::Rgb(0xe6, 0xb4, 0x50),
                error: Color::Rgb(0xef, 0x6d, 0x6d),
                running: Color::Rgb(0x74, 0xc0, 0xf0),
                idle: Color::Rgb(0x8a, 0x93, 0xa3),
            },
            syntax: SyntaxTokens {
                keyword: Color::Rgb(0xc6, 0x92, 0xff),
                literal: Color::Rgb(0xe6, 0xb4, 0x50),
                string: Color::Rgb(0x9c, 0xd6, 0x7a),
                comment: Color::Rgb(0x6b, 0x74, 0x84),
            },
            diff: DiffTokens {
                added: Color::Rgb(0x5d, 0xd6, 0x9a),
                removed: Color::Rgb(0xef, 0x6d, 0x6d),
                context: Color::Rgb(0x9a, 0xa2, 0xb1),
                header: Color::Rgb(0x5c, 0x9d, 0xff),
            },
            agent: AgentTokens {
                model_text: Color::Rgb(0xd7, 0xdc, 0xe4),
                tool: Color::Rgb(0x74, 0xc0, 0xf0),
                thinking: Color::Rgb(0x8a, 0x93, 0xa3),
            },
            focus: FocusTokens {
                active: Color::Rgb(0x5c, 0x9d, 0xff),
                inactive: Color::Rgb(0x33, 0x38, 0x42),
            },
            selection: SelectionTokens {
                foreground: Color::Rgb(0x12, 0x14, 0x18),
                background: Color::Rgb(0x5c, 0x9d, 0xff),
            },
        }
    }

    /// The light theme, for bright terminals.
    #[must_use]
    pub fn light() -> (r: Self)
        ensures
            r == light_theme(),
    {
        Theme {
            surface: SurfaceTokens {
                background: Color::Rgb(0xfa, 0xfb, 0xfc),
                panel: Color::Rgb(0xff, 0xff, 0xff),
                border: Color::Rgb(0xd0, 0xd7, 0xde),
                overlay: Color::Rgb(0xf0, 0xf2, 0xf5),
            },
            text: TextTokens {
                primary: Color::Rgb(0x1f, 0x23, 0x28),
                secondary: Color::Rgb(0x4a, 0x52, 0x5e),
                muted: Color::Rgb(0x7a, 0x82, 0x91),
                heading: Color::Rgb(0x0d, 0x11, 0x17),
            },
            status: StatusTokens {
                info: Color::Rgb(0x0a, 0x5a, 0xd0),
                success: Color::Rgb(0x1a, 0x7f, 0x4b),
                warning: Color::Rgb(0x9a, 0x6b, 0x00),
                error: Color::Rgb(0xc0, 0x2a, 0x2a),
                running: Color::Rgb(0x0a, 0x6a, 0xa8),
                idle: Color::Rgb(0x6b, 0x73, 0x82),
            },
            syntax: SyntaxTokens {
                keyword: Color::Rgb(0x7a, 0x30, 0xc0),
                literal: Color::Rgb(0x9a, 0x6b, 0x00),
                string: Color::Rgb(0x1a, 0x7f, 0x4b),
                comment: Color::Rgb(0x8a, 0x92, 0xa1),
            },
            diff: DiffTokens {
                added: Color::Rgb(0x1a, 0x7f, 0x4b),
                removed: Color::Rgb(0xc0, 0x2a, 0x2a),
                context: Color::Rgb(0x4a, 0x52, 0x5e),
                header: Color::Rgb(0x0a, 0x5a, 0xd0),
            },
            agent: AgentTokens {
                model_text: Color::Rgb(0x1f, 0x23, 0x28),
                tool: Color::Rgb(0x0a, 0x6a, 0xa8),
                thinking: Color::Rgb(0x6b, 0x73, 0x82),
            },
            focus: FocusTokens {
                active: Color::Rgb(0x0a, 0x5a, 0xd0),
                inactive: Color::Rgb(0xd0, 0xd7, 0xde),
            },
            selection: SelectionTokens {
                foreground: Color::Rgb(0xff, 0xff, 0xff),
                background: Color::Rgb(0x0a, 0x5a, 0xd0),
            },
        }
    }

    /// The high-contrast theme: white on black, and saturated status colors.
    #[must_use]
    pub fn high_contrast() -> (r: Self)
        ensures
            r == high_contrast_theme(),
    {
        Theme {
            surface: SurfaceTokens {
                background: Color::Rgb(0x00, 0x00, 0x00),
                panel: Color::Rgb(0x00, 0x00, 0x00),
                border: Color::Rgb(0xff, 0xff, 0xff),
                overlay: Color::Rgb(0x0a, 0x0a, 0x0a),
            },
            text: TextTokens {
                primary: Color::Rgb(0xff, 0xff, 0xff),
                secondary: Color::Rgb(0xe0, 0xe0, 0xe0),
                muted: Color::Rgb(0xc0, 0xc0, 0xc0),
                heading: Color::Rgb(0xff, 0xff, 0xff),
            },
            status: StatusTokens {
                info: Color::Rgb(0x00, 0xd7, 0xff),
                success: Color::Rgb(0x00, 0xff, 0x5f),
                warning: Color::Rgb(0xff, 0xd7, 0x00),
                error: Color::Rgb(0xff, 0x30, 0x30),
                running: Color::Rgb(0x00, 0xd7, 0xff),
                idle: Color::Rgb(0xc0, 0xc0, 0xc0),
            },
            syntax: SyntaxTokens {
                keyword: Color::Rgb(0xff, 0x80, 0xff),
                literal: Color::Rgb(0xff, 0xd7, 0x00),
                string: Color::Rgb(0x00, 0xff, 0x5f),
                comment: Color::Rgb(0xc0, 0xc0, 0xc0),
            },
            diff: DiffTokens {
                added: Color::Rgb(0x00, 0xff, 0x5f),
                removed: Color::Rgb(0xff, 0x30, 0x30),
                context: Color::Rgb(0xe0, 0xe0, 0xe0),
                header: Color::Rgb(0x00, 0xd7, 0xff),
            },
            agent: AgentTokens {
                model_text: Color::Rgb(0xff, 0xff, 0xff),
                tool: Color::Rgb(0x00, 0xd7, 0xff),
                thinking: Color::Rgb(0xc0, 0xc0, 0xc0),
            },
            focus: FocusTokens {
                active: Color::Rgb(0xff, 0xff, 0x00),
                inactive: Color::Rgb(0x80, 0x80, 0x80),
            },
            selection: SelectionTokens {
                foreground: Color::Rgb(0x00, 0x00, 0x00),
                background: Color::Rgb(0xff, 0xff, 0x00),
            },
        }
    }

    /// The color-blind-safe theme, of the Okabe–Ito palette: added and removed are bluish green and vermillion.
    #[must_use]
    pub fn color_blind_safe() -> (r: Self)
        ensures
            r == color_blind_safe_theme(),
    {
        Theme {
            surface: SurfaceTokens {
                background: Color::Rgb(0x11, 0x13, 0x17),
                panel: Color::Rgb(0x1b, 0x1e, 0x24),
                border: Color::Rgb(0x3a, 0x40, 0x4a),
                overlay: Color::Rgb(0x23, 0x27, 0x2f),
            },
            text: TextTokens {
                primary: Color::Rgb(0xed, 0xf0, 0xf5),
                secondary: Color::Rgb(0xbc, 0xc2, 0xce),
                muted: Color::Rgb(0x86, 0x8e, 0x9d),
                heading: Color::Rgb(0xf5, 0xf7, 0xfb),
            },
            status: StatusTokens {
                info: Color::Rgb(0x56, 0xb4, 0xe9),
                success: Color::Rgb(0x00, 0x9e, 0x73),
                warning: Color::Rgb(0xe6, 0x9f, 0x00),
                error: Color::Rgb(0xd5, 0x5e, 0x00),
                running: Color::Rgb(0x56, 0xb4, 0xe9),
                idle: Color::Rgb(0x94, 0x9c, 0xac),
            },
            syntax: SyntaxTokens {
                keyword: Color::Rgb(0xcc, 0x79, 0xa7),
                literal: Color::Rgb(0xe6, 0x9f, 0x00),
                string: Color::Rgb(0x00, 0x9e, 0x73),
                comment: Color::Rgb(0x86, 0x8e, 0x9d),
            },
            diff: DiffTokens {
                added: Color::Rgb(0x00, 0x9e, 0x73),
                removed: Color::Rgb(0xd5, 0x5e, 0x00),
                context: Color::Rgb(0xbc, 0xc2, 0xce),
                header: Color::Rgb(0x56, 0xb4, 0xe9),
            },
            agent: AgentTokens {
                model_text: Color::Rgb(0xed, 0xf0, 0xf5),
                tool: Color::Rgb(0x56, 0xb4, 0xe9),
                thinking: Color::Rgb(0x94, 0x9c, 0xac),
            },
            focus: FocusTokens {
                active: Color::Rgb(0x56, 0xb4, 0xe9),
                inactive: Color::Rgb(0x3a, 0x40, 0x4a),
            },
            selection: SelectionTokens {
                foreground: Color::Rgb(0x11, 0x13, 0x17),
                background: Color::Rgb(0x56, 0xb4, 0xe9),
            },
        }
    }

    /// The theme of the 256 indexed colors.
    #[must_use]
    pub fn ansi256() -> (r: Self)
        ensures
            r == ansi256_theme(),
    {
        Theme {
            surface: SurfaceTokens {
                background: Color::Indexed(234),
                panel: Color::Indexed(235),
                border: Color::Indexed(240),
                overlay: Color::Indexed(237),
            },
            text: TextTokens {
                primary: Color::Indexed(253),
                secondary: Color::Indexed(250),
                muted: Color::Indexed(244),
                heading: Color::Indexed(255),
            },
            status: StatusTokens {
                info: Color::Indexed(75),
                success: Color::Indexed(78),
                warning: Color::Indexed(179),
                error: Color::Indexed(203),
                running: Color::Indexed(81),
                idle: Color::Indexed(245),
            },
            syntax: SyntaxTokens {
                keyword: Color::Indexed(141),
                literal: Color::Indexed(179),
                string: Color::Indexed(114),
                comment: Color::Indexed(242),
            },
            diff: DiffTokens {
                added: Color::Indexed(78),
                removed: Color::Indexed(203),
                context: Color::Indexed(249),
                header: Color::Indexed(75),
            },
            agent: AgentTokens {
                model_text: Color::Indexed(252),
                tool: Color::Indexed(81),
                thinking: Color::Indexed(245),
            },
            focus: FocusTokens {
                active: Color::Indexed(75),
                inactive: Color::Indexed(240),
            },
            selection: SelectionTokens {
                foreground: Color::Indexed(234),
                background: Color::Indexed(75),
            },
        }
    }

    /// The theme of the sixteen basic colors.
    #[must_use]
    pub fn ansi16() -> (r: Self)
        ensures
            r == ansi16_theme(),
    {
        Theme {
            surface: SurfaceTokens {
                background: Color::Black,
                panel: Color::Black,
                border: Color::DarkGray,
                overlay: Color::Black,
            },
            text: TextTokens {
                primary: Color::White,
                secondary: Color::Gray,
                muted: Color::DarkGray,
                heading: Color::White,
            },
            status: StatusTokens {
                info: Color::LightBlue,
                success: Color::LightGreen,
                warning: Color::LightYellow,
                error: Color::LightRed,
                running: Color::LightCyan,
                idle: Color::Gray,
            },
            syntax: SyntaxTokens {
                keyword: Color::LightMagenta,
                literal: Color::LightYellow,
                string: Color::LightGreen,
                comment: Color::DarkGray,
            },
            diff: DiffTokens {
                added: Color::LightGreen,
                removed: Color::LightRed,
                context: Color::Gray,
                header: Color::LightBlue,
            },
            agent: AgentTokens {
                model_text: Color::White,
                tool: Color::LightCyan,
                thinking: Color::Gray,
            },
            focus: FocusTokens {
                active: Color::LightBlue,
                inactive: Color::DarkGray,
            },
            selection: SelectionTokens {
                foreground: Color::Black,
                background: Color::LightBlue,
            },
        }
    }

    /// The theme without color: white, grays and black.
    #[must_use]
    pub fn monochrome() -> (r: Self)
        ensures
            r == monochrome_theme(),
    {
        Theme {
            surface: SurfaceTokens {
                background: Color::Black,
                panel: Color::Black,
                border: Color::Gray,
                overlay: Color::Black,
            },
            text: TextTokens {
                primary: Color::White,
                secondary: Color::Gray,
                muted: Color::DarkGray,
                heading: Color::White,
            },
            status: StatusTokens {
                info: Color::White,
                success: Color::White,
                warning: Color::Gray,
                error: Color::White,
                running: Color::White,
                idle: Color::DarkGray,
            },
            syntax: SyntaxTokens {
                keyword: Color::White,
                literal: Color::Gray,
                string: Color::Gray,
                comment: Color::DarkGray,
            },
            diff: DiffTokens {
                added: Color::White,
                removed: Color::Gray,
                context: Color::DarkGray,
                header: Color::White,
            },
            agent: AgentTokens {
                model_text: Color::White,
                tool: Color::Gray,
                thinking: Color::DarkGray,
            },
            focus: FocusTokens {
                active: Color::White,
                inactive: Color::DarkGray,
            },
            selection: SelectionTokens {
                foreground: Color::Black,
                background: Color::White,
            },
        }
    }

    /// The theme of a variant.
    #[must_use]
    pub fn variant(v: ThemeVariant) -> (r: Self)
        ensures
            r == variant_theme(v),
    {
        match v {
            ThemeVariant::Dark => Self::dark(),
            ThemeVariant::Light => Self::light(),
            ThemeVariant::HighContrast => Self::high_contrast(),
            ThemeVariant::ColorBlindSafe => Self::color_blind_safe(),
            ThemeVariant::Ansi256 => Self::ansi256(),
            ThemeVariant::Ansi16 => Self::ansi16(),
            ThemeVariant::Monochrome => Self::monochrome(),
        }
    }

    /// The best theme for a terminal and its user.
    #[must_use]
    pub fn select(depth: ColorDepth, prefs: ThemePreferences) -> (r: Self)
        ensures
            r == variant_theme(chosen(depth, prefs)),
    {
        if let Some(override_variant) = prefs.override_variant {
            return Self::variant(override_variant);
        }
        match depth {
            ColorDepth::Monochrome => {
                return Self::monochrome();
            },
            _ => {},
        }
        if prefs.high_contrast {
            return Self::high_contrast();
        }
        match depth {
            ColorDepth::TrueColor => {
                if prefs.color_blind_safe {
                    Self::color_blind_safe()
                } else if prefs.prefer_light {
                    Self::light()
                } else {
                    Self::dark()
                }
            },
            ColorDepth::Ansi256 => Self::ansi256(),
            ColorDepth::Ansi16 => Self::ansi16(),
            ColorDepth::Monochrome => Self::monochrome(),
        }
    }

    /// How pane bodies are drawn.
    #[must_use]
    pub fn panel_style(&self) -> (r: Style)
        ensures
            r == (Style {
                fg: Some(self.text.primary),
                bg: Some(self.surface.panel),
                bold: false,
                underlined: false,
            }),
    {
        Style {
            fg: Some(self.text.primary),
            bg: Some(self.surface.panel),
            bold: false,
            underlined: false,
        }
    }

    /// The color of a pane's border.
    pub open spec fn border(self, focused: bool) -> Color {
        if focused {
            self.focus.active
        } else {
            self.focus.inactive
        }
    }

    /// The color of a pane's border.
    #[must_use]
    pub fn border_color(&self, focused: bool) -> (r: Color)
        ensures
            r == self.border(focused),
    {
        if focused {
            self.focus.active
        } else {
            self.focus.inactive
        }
    }

    /// How the selected row is drawn.
    pub open spec fn selected(self) -> Style {
        Style {
            fg: Some(self.selection.foreground),
            bg: Some(self.selection.background),
            bold: true,
            underlined: false,
        }
    }

    /// How the selected row is drawn.
    #[must_use]
    pub fn selection_style(&self) -> (r: Style)
        ensures
            r == self.selected(),
    {
        Style {
            fg: Some(self.selection.foreground),
            bg: Some(self.selection.background),
            bold: true,
            underlined: false,
        }
    }
}

impl Default for Theme {
    fn default() -> (r: Self)
        ensures
            r == dark_theme(),
    {
        Theme::dark()
    }
}

/// An ASCII letter in lower case; any other character as it is.
pub open spec fn ascii_lower(c: char) -> char {
    if 'A' <= c <= 'Z' {
        ((c as u32) + 32) as char
    } else {
        c
    }
}

/// Whether two texts are the same but for the case of ASCII letters.
pub open spec fn same_but_case(a: Seq<char>, b: Seq<char>) -> bool {
    &&& a.len() == b.len()
    &&& forall|i: int| #![trigger a[i]] #![trigger b[i]] 0 <= i < a.len() ==> ascii_lower(a[i]) == ascii_lower(b[i])
}

/// The color depth that the environment announces. A non-empty `NO_COLOR` means none.
/// Else a `COLORTERM` of `truecolor` or `24bit` means direct color. Else `TERM` decides:
/// without one there are sixteen colors, an empty or `dumb` one means none, `256color`
/// anywhere in it means so many, and any other sixteen.
pub open spec fn announced(
    no_color: Option<&str>,
    colorterm: Option<&str>,
    term: Option<&str>,
) -> ColorDepth {
    if no_color is Some && no_color->0@.len() > 0 {
        ColorDepth::Monochrome
    } else if colorterm is Some && (same_but_case(colorterm->0@, "truecolor"@) || same_but_case(
        colorterm->0@,
        "24bit"@,
    )) {
        ColorDepth::TrueColor
    } else if term is None {
        ColorDepth::Ansi16
    } else if term->0@.len() == 0 || term->0@ == "dumb"@ {
        ColorDepth::Monochrome
    } else if crate::text::occurs(term->0@, "256color"@) {
        ColorDepth::Ansi256
    } else {
        ColorDepth::Ansi16
    }
}

fn lower(c: char) -> (r: char)
    ensures
        r == ascii_lower(c),
{
    if 'A' <= c && c <= 'Z' {
        ((c as u8) + 32) as char
    } else {
        c
    }
}

fn equal_but_case(a: &str, b: &str) -> (r: bool)
    ensures
        r == same_but_case(a@, b@),
{
    let x: Vec<char> = crate::text::char_vec(a);
    let y: Vec<char> = crate::text::char_vec(b);
    if x.len() != y.len() {
        return false;
    }
    let mut i: usize = 0;
    while i < x.len()
        invariant
            i <= x@.len(),
            x@ == a@,
            y@ == b@,
            x@.len() == y@.len(),
            forall|k: int| 0 <= k < i ==> ascii_lower(#[trigger] a@[k]) == ascii_lower(b@[k]),
        decreases x@.len() - i,
    {
        if lower(x[i]) != lower(y[i]) {
            proof {
                assert(ascii_lower(a@[i as int]) != ascii_lower(b@[i as int]));
            }
            return false;
        }
        i = i + 1;
    }
    true
}

impl ColorDepth {
    /// The color depth that the values of `NO_COLOR`, `COLORTERM` and `TERM` announce.
    #[must_use]
    pub fn from_env(no_color: Option<&str>, colorterm: Option<&str>, term: Option<&str>) -> (r: Self)
        ensures
            r == announced(no_color, colorterm, term),
    {
        if let Some(value) = no_color {
            if value.unicode_len() != 0 {
                return ColorDepth::Monochrome;
            }
        }
        if let Some(value) = colorterm {
            if equal_but_case(value, "truecolor") || equal_but_case(value, "24bit") {
                return ColorDepth::TrueColor;
            }
        }
        match term {
            None => ColorDepth::Ansi16,
            Some(t) => {
                if t.unicode_len() == 0 || crate::text::same_text(t, "dumb") {
                    ColorDepth::Monochrome
                } else if crate::text::contains_text(t, "256color") {
                    ColorDepth::Ansi256
                } else {
                    ColorDepth::Ansi16
                }
            },
        }
    }
}

/// In every theme body text shows against panel and background, selected text against its
/// highlight, and a focused pane against others.
pub proof fn law_every_theme_is_legible(v: ThemeVariant)
    ensures
        variant_theme(v).text.primary != variant_theme(v).surface.panel,
        variant_theme(v).text.primary != variant_theme(v).surface.background,
        variant_theme(v).selection.foreground != variant_theme(v).selection.background,
        variant_theme(v).focus.active != variant_theme(v).focus.inactive,
{
}

/// In every theme with color, added differs from removed, and success from error.
pub proof fn law_colored_themes_keep_pairs_apart(v: ThemeVariant)
    requires
        v != ThemeVariant::Monochrome,
    ensures
        variant_theme(v).diff.added != variant_theme(v).diff.removed,
        variant_theme(v).status.success != variant_theme(v).status.error,
{
}

/// Whether a color is a shade of gray.
pub open spec fn gray(c: Color) -> bool {
    c == Color::White || c == Color::Gray || c == Color::DarkGray || c == Color::Black
}

/// Whether every token of a theme is a shade of gray.
pub open spec fn all_gray(t: Theme) -> bool {
    &&& gray(t.surface.background) && gray(t.surface.panel) && gray(t.surface.border) && gray(
        t.surface.overlay,
    )
    &&& gray(t.text.primary) && gray(t.text.secondary) && gray(t.text.muted) && gray(t.text.heading)
    &&& gray(t.status.info) && gray(t.status.success) && gray(t.status.warning) && gray(
        t.status.error,
    ) && gray(t.status.running) && gray(t.status.idle)
    &&& gray(t.syntax.keyword) && gray(t.syntax.literal) && gray(t.syntax.string) && gray(
        t.syntax.comment,
    )
    &&& gray(t.diff.added) && gray(t.diff.removed) && gray(t.diff.context) && gray(t.diff.header)
    &&& gray(t.agent.model_text) && gray(t.agent.tool) && gray(t.agent.thinking)
    &&& gray(t.focus.active) && gray(t.focus.inactive)
    &&& gray(t.selection.foreground) && gray(t.selection.background)
}

/// A terminal without color is given no color, unless the user overrides.
pub proof fn law_no_color_means_gray(prefs: ThemePreferences)
    requires
        prefs.override_variant is None,
    ensures
        all_gray(variant_theme(chosen(ColorDepth::Monochrome, prefs))),
{
}

/// A manual override always wins.
pub proof fn law_an_override_wins(depth: ColorDepth, prefs: ThemePreferences, v: ThemeVariant)
    requires
        prefs.override_variant == Some(v),
    ensures
        chosen(depth, prefs) == v,
{
}

/// High contrast, where it is preferred, comes before the depth and the other preferences,
/// wherever there is color.
pub proof fn law_accessibility_comes_first(depth: ColorDepth, prefs: ThemePreferences)
    requires
        prefs.override_variant is None,
        prefs.high_contrast,
        depth != ColorDepth::Monochrome,
    ensures
        chosen(depth, prefs) == ThemeVariant::HighContrast,
{
}

/// A non-empty `NO_COLOR` decides alone.
pub proof fn law_no_color_overrides_everything(
    no_color: &str,
    colorterm: Option<&str>,
    term: Option<&str>,
)
    requires
        no_color@.len() > 0,
    ensures
        announced(Some(no_color), colorterm, term) == ColorDepth::Monochrome,
{
}

} // verus!
