use axum_negotiator::text::{is_space_char, split_text, trim_text};

#[test]
fn trim_removes_unicode_white_space() {
    assert_eq!(trim_text("  a b\t"), "a b");
    assert_eq!(trim_text("\u{3000}\u{a0}x\u{2028}\n"), "x");
    assert_eq!(trim_text(" \t "), "");
    assert_eq!(trim_text(""), "");
    assert_eq!(trim_text("\u{200b}x"), "\u{200b}x");
}

#[test]
fn space_chars_match_std() {
    for c in ['\t', '\n', '\u{b}', '\u{c}', '\r', ' ', '\u{85}', '\u{a0}', '\u{1680}', '\u{2000}', '\u{200a}', '\u{2028}', '\u{2029}', '\u{202f}', '\u{205f}', '\u{3000}', 'a', '\u{200b}', '\u{180e}', '\u{feff}'] {
        assert_eq!(is_space_char(c), c.is_whitespace(), "{:?}", c);
    }
}

#[test]
fn split_yields_one_more_piece_than_separators() {
    assert_eq!(split_text("a,b", ','), vec!["a", "b"]);
    assert_eq!(split_text("", ','), vec![""]);
    assert_eq!(split_text(",", ','), vec!["", ""]);
    assert_eq!(split_text("a,,b,", ','), vec!["a", "", "b", ""]);
    assert_eq!(split_text("héllo;wörld", ';'), vec!["héllo", "wörld"]);
}
