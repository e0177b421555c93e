use wordle::text::{chars_of, is_whitespace, trim};

#[test]
fn whitespace_is_what_std_calls_whitespace() {
    for code in 0..=0x10FFFFu32 {
        if let Some(c) = char::from_u32(code) {
            assert_eq!(is_whitespace(c), c.is_whitespace(), "U+{:04X}", code);
        }
    }
}

#[test]
fn trim_drops_what_surrounds() {
    assert_eq!(trim("spare"), "spare");
    assert_eq!(trim("  spare"), "spare");
    assert_eq!(trim("spare\n"), "spare");
    assert_eq!(trim("\t spare \r\n"), "spare");
    assert_eq!(trim("sp are"), "sp are");
    assert_eq!(trim(" sp  are "), "sp  are");
    assert_eq!(trim(""), "");
    assert_eq!(trim(" \n\t "), "");
    assert_eq!(trim("\u{2003}é\u{3000}"), "é");
}

#[test]
fn trim_agrees_with_std() {
    let samples = [
        "",
        " ",
        "a",
        " a",
        "a ",
        " a b ",
        "\n\nline\n",
        "\u{a0}nbsp\u{a0}",
        "\u{200b}zero width\u{200b}",
        "\u{1680}ogham\u{2028}",
        "  ünï cödé\t",
        "\u{feff}bom ",
    ];
    for s in samples {
        assert_eq!(trim(s), s.trim(), "{:?}", s);
    }
}

#[test]
fn chars_of_gives_the_characters() {
    assert_eq!(chars_of("spare"), vec!['s', 'p', 'a', 'r', 'e']);
    assert_eq!(chars_of("é\u{3000}z"), vec!['é', '\u{3000}', 'z']);
    assert_eq!(chars_of(""), Vec::<char>::new());
}
