//! Producer text made fit for a terminal.
use codypendent::lines::{cut, lines, words, Separator};
use codypendent::tui::cells::{
    cell_width, pad_cells, pad_text, sanitize_terminal_text, truncate_cells, truncate_clusters,
    wrap_cells, wrap_tokens, Cluster, Token,
};
use codypendent::tui::summary::textwrap_summary;
use codypendent::tui::view::{truncate, widen};

#[test]
fn strips_terminal_and_bidi_controls() {
    assert_eq!(
        sanitize_terminal_text("ok\u{1b}[31m red\u{7}\u{061c}\u{200e}\u{200f}\u{202e}x\r\ny"),
        "ok redx\ny"
    );
}

#[test]
fn wrapping_obeys_cell_width_and_graphemes() {
    let lines = wrap_cells("alpha 界界 omega", 7);
    assert!(lines.iter().all(|line| cell_width(line) <= 7));
    assert_eq!(lines, ["alpha", "界界", "omega"]);
    let family = "👨‍👩‍👧‍👦";
    assert_eq!(wrap_cells(family, 2), [family]);
}

#[test]
fn truncation_uses_cells_not_bytes() {
    assert_eq!(truncate_cells("ab界cd", 5), "ab界…");
    assert_eq!(pad_cells("界", 4), "界  ");
}

#[test]
fn operating_system_commands_are_swallowed_whole() {
    assert_eq!(sanitize_terminal_text("a\u{1b}]0;title\u{7}b"), "ab");
    assert_eq!(sanitize_terminal_text("a\u{1b}]8;;u\u{1b}\\b"), "ab");
    assert_eq!(sanitize_terminal_text("a\u{1b}]never ended"), "a");
    assert_eq!(sanitize_terminal_text("a\u{1b}]x\\y\u{1b}\\z"), "az");
}

#[test]
fn control_sequences_end_at_their_final_character() {
    assert_eq!(sanitize_terminal_text("\u{1b}[1;31mred\u{1b}[0m"), "red");
    assert_eq!(sanitize_terminal_text("x\u{1b}[31"), "x");
    assert_eq!(sanitize_terminal_text("x\u{1b}cy"), "xy");
    assert_eq!(sanitize_terminal_text("x\u{1b}"), "x");
}

#[test]
fn line_ends_and_tabs_are_normalized() {
    assert_eq!(sanitize_terminal_text("a\rb\r\nc\nd"), "a\nb\nc\nd");
    assert_eq!(sanitize_terminal_text("a\tb"), "a    b");
    assert_eq!(sanitize_terminal_text("a\u{7f}\u{9f}\u{0}b"), "ab");
    assert_eq!(sanitize_terminal_text("\u{2066}\u{2069}\u{202a}"), "");
}

#[test]
fn sanitizing_twice_changes_nothing() {
    let once = sanitize_terminal_text("x\u{1b}[1m\ty\u{200f}\r\nz");
    assert_eq!(sanitize_terminal_text(&once), once);
}

#[test]
fn widths_are_counted_in_cells() {
    assert_eq!(cell_width(""), 0);
    assert_eq!(cell_width("abc"), 3);
    assert_eq!(cell_width("界"), 2);
    assert_eq!(cell_width("e\u{301}"), 1);
}

#[test]
fn no_cells_hold_nothing() {
    assert!(wrap_cells("abc", 0).is_empty());
    assert_eq!(truncate_cells("abc", 0), "");
    assert_eq!(truncate_cells("", 0), "");
    assert_eq!(wrap_cells("", 5), [""]);
    assert_eq!(wrap_cells("a\n\nb", 5), ["a", "", "b"]);
}

#[test]
fn long_words_are_cut_between_clusters() {
    assert_eq!(wrap_cells("abcdefgh", 3), ["abc", "def", "gh"]);
    assert_eq!(wrap_cells("e\u{301}e\u{301}e\u{301}", 2), ["e\u{301}e\u{301}", "e\u{301}"]);
    // A cluster wider than the line is left out.
    assert_eq!(wrap_cells("a界b", 1), ["a", "b"]);
}

fn cluster(text: &str, width: usize) -> Cluster {
    Cluster {
        text: text.to_owned(),
        width,
    }
}

fn token(text: &str, width: usize, clusters: Vec<Cluster>) -> Token {
    Token {
        text: text.to_owned(),
        width,
        clusters,
    }
}

#[test]
fn measured_stretches_are_wrapped_by_their_widths() {
    let line = vec![
        token("aa", 2, vec![]),
        token(" ", 1, vec![]),
        token("bb", 2, vec![]),
        token("\u{301}", 0, vec![]),
    ];
    assert_eq!(wrap_tokens(&vec![line], 3), ["aa", "bb\u{301}"]);
    let long = vec![token(
        "wxyz",
        9,
        vec![cluster("w", 4), cluster("x", 9), cluster("yz", 3)],
    )];
    assert_eq!(wrap_tokens(&vec![long], 5), ["w", "yz"]);
    assert_eq!(wrap_tokens(&vec![vec![]], 5), [""]);
}

#[test]
fn measured_clusters_are_kept_while_they_fit() {
    let clusters = vec![cluster("a", 1), cluster("B", 2), cluster("c", 1)];
    let text = "aBc".to_owned();
    assert_eq!(truncate_clusters(&text, 4, &clusters, 1, 4), "aBc");
    assert_eq!(truncate_clusters(&text, 4, &clusters, 1, 3), "a…");
    assert_eq!(truncate_clusters(&text, 5, &clusters, 1, 4), "aB…");
    assert_eq!(truncate_clusters(&text, 4, &clusters, 2, 1), "…");
    assert_eq!(truncate_clusters(&text, 4, &clusters, 1, 0), "");
}

#[test]
fn padding_fills_what_is_missing() {
    assert_eq!(pad_text(&"ab".to_owned(), 2, 5), "ab   ");
    assert_eq!(pad_text(&"ab".to_owned(), 7, 5), "ab");
    assert_eq!(pad_cells("abcdef", 4), "abc…");
}

#[test]
fn text_is_cut_into_pieces_lines_and_words() {
    assert_eq!(cut("a\nb\n", Separator::LineFeed), ["a", "b", ""]);
    assert_eq!(cut("", Separator::LineFeed), [""]);
    for sample in ["", "a", "a\n", "a\r\nb\r", "\n\n", "x\r\n\r\ny"] {
        let expected: Vec<&str> = sample.lines().collect();
        assert_eq!(lines(sample), expected, "{sample:?}");
    }
    for sample in ["", "  ", " a  b\tc\u{3000}d ", "one"] {
        let expected: Vec<&str> = sample.split_whitespace().collect();
        assert_eq!(words(sample), expected, "{sample:?}");
    }
}

#[test]
fn clipping_and_widening_count_characters() {
    assert_eq!(truncate("héllo", 5), "héllo");
    assert_eq!(truncate("héllo!", 5), "héll…");
    assert_eq!(truncate("ab", 0), "…");
    assert_eq!(widen("ab", 4), "ab  ");
    assert_eq!(widen("abcdef", 4), "abcdef");
    assert_eq!(widen("é", 3), format!("{:<3}", "é"));
}

#[test]
fn summaries_are_wrapped_at_forty_eight_characters() {
    assert_eq!(textwrap_summary(""), ["(empty)"]);
    assert!(textwrap_summary("   ").is_empty());
    assert_eq!(textwrap_summary("one  two"), ["one two"]);
    let wide = "x".repeat(48);
    assert_eq!(
        textwrap_summary(&format!("{wide} y")),
        [wide.as_str(), "y"]
    );
    let long = "z".repeat(100);
    let cut = textwrap_summary(&format!("a {long} b"));
    assert_eq!(cut, ["a".to_owned(), "z".repeat(48), "z".repeat(48), "zzzz b".to_owned()]);
    assert_eq!(textwrap_summary(&"q".repeat(96)), ["q".repeat(48), "q".repeat(48)]);
    let sentence = "the quick brown fox jumps over the lazy dog again and again";
    assert_eq!(
        textwrap_summary(sentence),
        ["the quick brown fox jumps over the lazy dog", "again and again"]
    );
}

#[test]
fn wrapping_loses_nothing_but_white_space() {
    let solid = |s: &str| -> String { s.chars().filter(|c| !c.is_whitespace()).collect() };
    for sample in [
        "the quick  brown fox\n\n  jumps over \tthe lazy dog ",
        "alpha 界界 omega-abcdefghijklmnop",
        "e\u{301}e\u{301} 👨‍👩‍👧‍👦 x\r\ny",
        "",
        " ",
    ] {
        let text = sanitize_terminal_text(sample);
        for width in [2, 3, 7, 40] {
            let wrapped = wrap_cells(sample, width);
            assert!(wrapped.len() >= 1 + text.matches('\n').count(), "{sample:?}");
            assert!(wrapped.iter().all(|line| !line.contains('\n')), "{sample:?}");
            assert!(wrapped.iter().all(|line| line.trim_end() == line), "{sample:?}");
            assert_eq!(solid(&wrapped.concat()), solid(&text), "{sample:?} in {width}");
        }
    }
    // A cluster wider than a line is lost.
    assert_eq!(solid(&wrap_cells("a界b", 1).concat()), "ab");
}

#[test]
fn padded_text_takes_exactly_the_cells_asked_for() {
    for sample in ["", "界", "ab界cd", "abcdef", "e\u{301}", "👨‍👩‍👧‍👦!", "a\tb"] {
        for width in 0..12 {
            let padded = pad_cells(sample, width);
            assert_eq!(cell_width(&padded), width, "{sample:?} in {width}");
            assert!(padded.starts_with(&truncate_cells(sample, width)));
        }
    }
    for sample in ["", "界", "لا", "❤\u{fe0f}"] {
        let spaced = format!("{sample}   ");
        assert_eq!(cell_width(&spaced), cell_width(sample) + 3, "{sample:?}");
    }
}

/// Whether no character of `text` joins with its neighbors.
fn stands_apart(text: &str) -> bool {
    text.chars().all(|c| {
        !matches!(
            c,
            '\r' | '\u{622}'..='\u{882}' | '\u{17d2}' | '\u{200d}' | '\u{2d7f}'
                | '\u{a4fc}'..='\u{a4fd}' | '\u{fe0e}'..='\u{fe0f}' | '\u{1f3fb}'..='\u{1f3ff}'
        )
    })
}

fn one_by_one(text: &str) -> usize {
    text.chars().map(|c| cell_width(&c.to_string())).sum()
}

#[test]
fn characters_that_stand_apart_are_measured_one_by_one() {
    assert_eq!(cell_width("…"), 1);
    for sample in [
        "",
        "plain text, 123 #*\u{a0}",
        "e\u{301}\u{34f}\u{308}x",
        "界한글ｗｉｄｅ",
        "🚀🇩🇪🇫a⌚✅",
        "\u{5d0}\u{5dc}\u{34f}\u{5dc}",
        "\u{1a15}\u{1a17}\u{1a10}\u{2d31}\u{2d32}\u{1780}\u{17d8}",
        "a\nb\n界",
    ] {
        assert!(stands_apart(sample), "{sample:?}");
        assert_eq!(cell_width(sample), one_by_one(sample), "{sample:?}");
    }
    for (joined, cells) in [("لا", 1), ("👨\u{200d}👩", 2), ("❤\u{fe0f}", 2), ("👍\u{1f3fd}", 2)] {
        assert!(!stands_apart(joined), "{joined:?}");
        assert_eq!(cell_width(joined), cells, "{joined:?}");
        assert_ne!(cell_width(joined), one_by_one(joined), "{joined:?}");
    }
}

#[test]
fn every_character_is_measured_alike_beside_its_neighbors() {
    let neighbors = [
        '7', '界', '\u{301}', '\u{34f}', '\u{5dc}', '\u{1780}', '\u{1a10}', '\u{2d31}', '🚀', '🇩', '\n',
    ];
    for c in (0x20..=0x1_ffff_u32).filter_map(char::from_u32) {
        let alone = c.to_string();
        if stands_apart(&alone) {
            for n in neighbors {
                let text: String = [n, c, n].into_iter().collect();
                let cells = cell_width(&alone) + 2 * cell_width(&n.to_string());
                assert_eq!(cell_width(&text), cells, "{text:?}");
            }
        }
    }
}

#[test]
fn lines_of_characters_that_stand_apart_never_run_over() {
    for sample in [
        "the quick  brown fox\n\n  jumps over \tthe lazy dog ",
        "alpha 界界 omega-abcdefghijklmnop 🚀🚀🇩🇪",
        "e\u{301}e\u{301} x\r\ny",
        "a界b",
    ] {
        assert!(stands_apart(&sanitize_terminal_text(sample)), "{sample:?}");
        for width in 0..12 {
            for line in wrap_cells(sample, width) {
                assert!(cell_width(&line) <= width, "{line:?} in {width}");
                assert_eq!(cell_width(&line), one_by_one(&line), "{line:?}");
            }
            let short = truncate_cells(sample, width);
            assert!(cell_width(&short) <= width, "{short:?} in {width}");
            assert_eq!(cell_width(&pad_cells(sample, width)), width, "{sample:?} in {width}");
        }
    }
}

#[test]
fn the_pieces_on_a_line_fit_by_their_measured_widths() {
    // The widths are those that were measured, not those of the characters.
    let lines = vec![vec![
        token("ab", 3, vec![cluster("a", 2), cluster("b", 1)]),
        token(" ", 1, vec![cluster(" ", 1)]),
        token("cdef", 6, vec![cluster("cd", 2), cluster("e", 3), cluster("f", 1)]),
        token("!", 0, vec![cluster("!", 0)]),
    ]];
    // ab and the space fill four cells; cd, then e and f with the mark behind them.
    assert_eq!(wrap_tokens(&lines, 4), ["ab", "cd", "ef!"]);
    // cd and e fill five cells together.
    assert_eq!(wrap_tokens(&lines, 5), ["ab", "cde", "f!"]);
}
