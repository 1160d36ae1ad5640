use termux_theme::text::trim;

#[test]
fn trim_drops_spaces_on_both_sides() {
    assert_eq!(trim("  3  "), "3");
    assert_eq!(trim("3"), "3");
    assert_eq!(trim(" q"), "q");
    assert_eq!(trim("r "), "r");
}

#[test]
fn trim_drops_the_line_break() {
    assert_eq!(trim("12\n"), "12");
    assert_eq!(trim("12\r\n"), "12");
    assert_eq!(trim("\t12\t\n"), "12");
}

#[test]
fn trim_of_nothing_but_whitespace_is_empty() {
    assert_eq!(trim(""), "");
    assert_eq!(trim(" "), "");
    assert_eq!(trim(" \t\r\n  "), "");
}

#[test]
fn trim_keeps_whitespace_inside() {
    assert_eq!(trim("  1 2  "), "1 2");
    assert_eq!(trim("a\tb\n"), "a\tb");
}

#[test]
fn trim_counts_characters_not_bytes() {
    assert_eq!(trim("\u{a0}\u{3000}é\u{2003}"), "é");
    assert_eq!(trim(" äöü "), "äöü");
    assert_eq!(trim("\u{2028}日本語\u{85}"), "日本語");
}

#[test]
fn trim_agrees_with_the_standard_library() {
    let samples = [
        "",
        " ",
        "x",
        " x",
        "x ",
        "  x  y  ",
        "\n",
        "\r\n",
        "\u{b}\u{c}1\u{1c}",
        "\u{1680}a\u{180e}",
        "\u{200b}b\u{200a}",
        "\u{202f}c\u{205f}\u{feff}",
        "15\n",
    ];
    for sample in samples {
        assert_eq!(trim(sample), sample.trim());
    }
}

#[test]
fn trim_twice_is_trim_once() {
    for sample in ["  3  ", "\tq\n", "   ", "a b ", "\u{a0}r"] {
        assert_eq!(trim(trim(sample)), trim(sample));
    }
}
