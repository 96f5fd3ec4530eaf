use commit_message::text::{
    char_ascii_lower, char_is_ascii_alphabetic, char_is_whitespace, chars_of, join, parse_number,
    same_text, split_lines, starts_with, string_of, to_decimal, to_lowercase, trim, trim_start,
};

fn text(s: &str) -> Vec<char> {
    s.chars().collect()
}

#[test]
fn whitespace_is_what_the_standard_library_calls_whitespace() {
    for code in 0u32..=0x10FFFF {
        if let Some(c) = char::from_u32(code) {
            assert_eq!(char_is_whitespace(c), c.is_whitespace(), "U+{:04X}", code);
        }
    }
}

#[test]
fn letters_are_the_ascii_letters() {
    for code in 0u32..=0x10FFFF {
        if let Some(c) = char::from_u32(code) {
            assert_eq!(char_is_ascii_alphabetic(c), c.is_ascii_alphabetic(), "U+{:04X}", code);
        }
    }
}

#[test]
fn ascii_lower_folds_capital_letters_only() {
    for code in 0u32..=0x10FFFF {
        if let Some(c) = char::from_u32(code) {
            assert_eq!(char_ascii_lower(c), c.to_ascii_lowercase(), "U+{:04X}", code);
        }
    }
    assert_eq!(to_lowercase(&text("NoNe É")), text("none É"));
}

#[test]
fn chars_and_strings_convert_both_ways() {
    assert_eq!(chars_of("a✨b"), vec!['a', '✨', 'b']);
    assert_eq!(string_of(&['a', '✨', 'b']), "a✨b");
    assert_eq!(chars_of(""), Vec::<char>::new());
    assert_eq!(string_of(&[]), "");
}

#[test]
fn trim_removes_whitespace_at_both_ends() {
    for sample in ["", "   ", "a", "  a b  ", "\t\r\n x \u{3000}", "\u{a0}y\u{2003}", "x\n"] {
        assert_eq!(string_of(&trim(&text(sample))), sample.trim(), "{:?}", sample);
        assert_eq!(string_of(&trim_start(&text(sample))), sample.trim_start(), "{:?}", sample);
    }
}

#[test]
fn lines_end_at_line_feeds() {
    let samples = [
        "",
        "one",
        "one\n",
        "one\ntwo",
        "one\r\ntwo\r\n",
        "one\rtwo",
        "one\r",
        "\n",
        "\n\n",
        "a\n\nb",
        "a\r\r\nb",
        "\r\n",
    ];
    for sample in samples {
        let got: Vec<String> = split_lines(&text(sample)).iter().map(|l| string_of(l)).collect();
        let want: Vec<String> = sample.lines().map(String::from).collect();
        assert_eq!(got, want, "{:?}", sample);
    }
}

#[test]
fn join_puts_the_separator_between_parts() {
    let parts = vec![text("a"), text(""), text("bc")];
    assert_eq!(string_of(&join(&parts, &text(", "))), "a, , bc");
    assert_eq!(string_of(&join(&vec![text("only")], &text("\n"))), "only");
    assert_eq!(string_of(&join(&Vec::new(), &text("\n"))), "");
}

#[test]
fn prefixes_and_equality() {
    assert!(starts_with(&text("SUBJECT: x"), &text("SUBJECT:")));
    assert!(!starts_with(&text("SUB"), &text("SUBJECT:")));
    assert!(starts_with(&text("abc"), &text("")));
    assert!(!starts_with(&text("xbc"), &text("a")));
    assert!(same_text(&text("none"), &text("none")));
    assert!(!same_text(&text("none"), &text("nonE")));
    assert!(!same_text(&text("none"), &text("non")));
}

#[test]
fn decimal_writes_numbers_as_the_standard_library_does() {
    for n in [0u64, 1, 9, 10, 11, 99, 100, 429, 500, 65535, 1_000_000, u64::MAX] {
        assert_eq!(string_of(&to_decimal(n)), n.to_string());
    }
}

#[test]
fn numbers_are_read_as_the_standard_library_reads_them() {
    let samples = [
        "", "+", "0", "7", "+7", "007", "120", " 120", "120 ", "-1", "1.5", "12a", "++1",
        "18446744073709551615", "18446744073709551616", "99999999999999999999999", "4294967295",
        "4294967296", "٣",
    ];
    for sample in samples {
        assert_eq!(
            parse_number(&text(sample), u64::MAX),
            sample.parse::<u64>().ok(),
            "{:?}",
            sample
        );
        assert_eq!(
            parse_number(&text(sample), u32::MAX as u64),
            sample.parse::<u32>().ok().map(u64::from),
            "{:?}",
            sample
        );
    }
    assert_eq!(parse_number(&text("3"), 2), None);
    assert_eq!(parse_number(&text("2"), 2), Some(2));
    assert_eq!(parse_number(&text("10"), 9), None);
}

#[test]
fn ascii_folding_finds_what_unicode_lowercasing_finds() {
    // The words that this library looks for after folding hold no letter `k`, and the
    // Kelvin sign is the only character outside ASCII whose lowercase is an ASCII letter.
    for code in 0x80u32..=0x10FFFF {
        if let Some(c) = char::from_u32(code) {
            let lower: String = c.to_lowercase().collect();
            if lower.chars().next().map_or(false, |l| l.is_ascii()) {
                assert!(lower == "k" || lower == "i\u{307}", "U+{:04X}", code);
            }
        }
    }
    for word in ["feat", "fix", "docs", "style", "refactor", "test", "chore", "perf", "ci",
        "build", "revert", "wip", "security", "deps", "release", "none", "false", "y"]
    {
        assert!(!word.contains('k'));
    }
    for sample in ["FEAT", "Fix", "nOnE", "FALSE", "Y", "Édit", "ß"] {
        let folded: String = to_lowercase(&text(sample)).iter().collect();
        assert_eq!(folded, sample.to_ascii_lowercase());
    }
}
