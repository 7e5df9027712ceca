use iradio::text::{
    blank, char_is_digit, char_is_space, chars_of, concat3, contains, count_char,
    decimal_string, find_char, format_decimal, is_decimal, join_from, less_than, parse_decimal,
    same_chars, spells, split_on, split_whitespace, string_of, subrange, to_ascii_lowercase, trim,
};

fn chars(text: &str) -> Vec<char> {
    text.chars().collect()
}

fn strings(words: &[Vec<char>]) -> Vec<String> {
    words.iter().map(|w| w.iter().collect()).collect()
}

#[test]
fn white_space_is_what_the_standard_library_says() {
    for n in 0..=0x10FFFFu32 {
        if let Some(c) = char::from_u32(n) {
            assert_eq!(char_is_space(c), c.is_whitespace(), "U+{n:04X}");
            assert_eq!(char_is_digit(c), c.is_ascii_digit(), "U+{n:04X}");
        }
    }
}

#[test]
fn strings_and_characters_convert_both_ways() {
    for text in ["", "a", "héllo wörld", "日本語", "a\u{0}b"] {
        assert_eq!(chars_of(text), chars(text));
        assert_eq!(string_of(&chars(text)), text);
    }
    assert_eq!(iradio::text::concat("ab", "cd"), "abcd");
    assert_eq!(concat3("a", "", "c"), "ac");
    assert!(spells(&chars("play"), "play"));
    assert!(!spells(&chars("play"), "plays"));
    assert!(same_chars(&chars(""), &chars("")));
    assert!(!same_chars(&chars("a"), &chars("b")));
    assert_eq!(subrange(&chars("hello"), 1, 3), chars("el"));
    assert_eq!(subrange(&chars("hello"), 2, 2), chars(""));
}

#[test]
fn trimming_and_splitting_agree_with_the_standard_library() {
    for text in [
        "",
        " ",
        "a",
        "  a  ",
        "\t a b \n",
        "a\u{a0}b",
        "\u{2003}x\u{3000}",
        " one  two\tthree ",
        "no-space",
        "  \u{85} ",
    ] {
        assert_eq!(string_of(&trim(&chars(text))), text.trim());
        assert_eq!(blank(text), text.trim().is_empty());
        let expected: Vec<String> = text.split_whitespace().map(str::to_string).collect();
        assert_eq!(strings(&split_whitespace(&chars(text))), expected);
    }
    for text in ["", ",", "a,b", ",a,,b,", "abc", "a\nb\n"] {
        let expected: Vec<String> = text.split(',').map(str::to_string).collect();
        assert_eq!(strings(&split_on(&chars(text), ',')), expected);
    }
    let words = vec![chars("/play"), chars("groove"), chars("salad")];
    assert_eq!(join_from(&words, 1, ' '), chars("groove salad"));
    assert_eq!(join_from(&words, 0, '-'), chars("/play-groove-salad"));
    assert_eq!(join_from(&words, 2, ' '), chars("salad"));
    assert_eq!(join_from(&words, 3, ' '), chars(""));
}

#[test]
fn searching_and_ordering_agree_with_the_standard_library() {
    let samples = ["", "a", "ab", "abc", "b", "ba", "abab", "É", "z", "aa", "A"];
    for hay in samples {
        for needle in samples {
            assert_eq!(contains(&chars(hay), &chars(needle)), hay.contains(needle));
            assert_eq!(less_than(&chars(hay), &chars(needle)), hay < needle);
        }
        assert_eq!(
            find_char(&chars(hay), 'b'),
            hay.chars().position(|c| c == 'b').unwrap_or(hay.chars().count())
        );
        assert_eq!(count_char(&chars(hay), 'a'), hay.chars().filter(|c| *c == 'a').count());
        assert_eq!(
            string_of(&to_ascii_lowercase(&chars(hay))),
            hay.to_ascii_lowercase()
        );
    }
    assert_eq!(string_of(&to_ascii_lowercase(&chars("AZaz@[É"))), "azaz@[É");
}

#[test]
fn numerals_agree_with_the_standard_library() {
    for text in [
        "", "+", "-", "0", "7", "+7", "-7", "007", "4294967295", "4294967296",
        "18446744073709551615", "18446744073709551616", "99999999999999999999999999", "1a",
        "a1", " 1", "1 ", "++1", "１",
    ] {
        assert_eq!(parse_decimal(&chars(text), u64::MAX), text.parse::<u64>().ok(), "{text:?}");
        assert_eq!(
            parse_decimal(&chars(text), u32::MAX as u64),
            text.parse::<u32>().ok().map(u64::from),
            "{text:?}"
        );
        let numeral = !text.is_empty()
            && text.strip_prefix('+').unwrap_or(text).chars().all(|c| c.is_ascii_digit())
            && text != "+";
        assert_eq!(is_decimal(&chars(text)), numeral, "{text:?}");
    }
    assert_eq!(parse_decimal(&chars("100"), 100), Some(100));
    assert_eq!(parse_decimal(&chars("101"), 100), None);
    assert_eq!(parse_decimal(&chars("0"), 0), Some(0));
    for n in [0u64, 1, 9, 10, 11, 99, 100, 12345, u32::MAX as u64, u64::MAX] {
        assert_eq!(decimal_string(n), n.to_string());
        assert_eq!(format_decimal(n), chars(&n.to_string()));
        assert_eq!(parse_decimal(&format_decimal(n), u64::MAX), Some(n));
    }
}
