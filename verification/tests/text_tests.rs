use pan_spicka::text::{
    chars_of, decimal_of, decimal_string, join_words, parse_i64, parse_u64, remove_char,
    replace_all, split_whitespace, str_eq,
};

fn owned(words: &[&str]) -> Vec<String> {
    words.iter().map(|w| w.to_string()).collect()
}

#[test]
fn str_eq_agrees_with_equality() {
    let samples = ["", "a", "ab", "ba", "Špička", "Spicka", "🤔", "🤓", "ai", "ai "];
    for a in samples {
        for b in samples {
            assert_eq!(str_eq(a, b), a == b, "{a:?} {b:?}");
        }
    }
}

#[test]
fn chars_of_gives_every_character() {
    assert_eq!(chars_of("Pan Špička 🤓"), "Pan Špička 🤓".chars().collect::<Vec<char>>());
    assert_eq!(chars_of(""), Vec::<char>::new());
}

#[test]
fn split_whitespace_agrees_with_std() {
    let samples = [
        "",
        " ",
        "   ",
        "kys",
        "kys rozvrh 7B +1",
        "  kys   rozvrh\t7B\n+1  ",
        "a\u{00A0}b\u{2003}c\u{3000}d",
        "!ps ai Jak se máš, pane Špičko? 🤔",
        "\r\n",
        "x\u{0085}y\u{1680}z\u{2028}w\u{2029}v\u{202F}u\u{205F}t",
        "a\u{200B}b",
    ];
    for s in samples {
        let expected: Vec<String> = s.split_whitespace().map(|w| w.to_string()).collect();
        assert_eq!(split_whitespace(s), expected, "{s:?}");
    }
}

#[test]
fn split_whitespace_exact_words() {
    assert_eq!(split_whitespace("186 obedy 2"), owned(&["186", "obedy", "2"]));
    assert_eq!(split_whitespace(" \t "), Vec::<String>::new());
}

#[test]
fn join_words_puts_single_spaces() {
    let words = owned(&["playing", "na", "hale", "🤓"]);
    assert_eq!(join_words(&words, 0), "playing na hale 🤓");
    assert_eq!(join_words(&words, 1), "na hale 🤓");
    assert_eq!(join_words(&words, 3), "🤓");
    assert_eq!(join_words(&words, 4), "");
    assert_eq!(join_words(&words, 5), "");
    assert_eq!(join_words(&words, usize::MAX), "");
    assert_eq!(join_words(&Vec::new(), 0), "");
    assert_eq!(join_words(&owned(&["", ""]), 0), " ");
}

#[test]
fn replace_all_agrees_with_std() {
    let cases = [
        ("<@1> ahoj <@1>", "<@1>", "Pan Špička"),
        ("aaaa", "aa", "b"),
        ("aaa", "aa", "b"),
        ("abc", "x", "y"),
        ("", "x", "y"),
        ("abc", "abc", ""),
        ("abcabc", "bc", "bcbc"),
        ("ab", "abc", "z"),
        ("čšččš", "čš", "-"),
    ];
    for (s, pat, to) in cases {
        assert_eq!(replace_all(s, pat, to), s.replace(pat, to), "{s:?} {pat:?} {to:?}");
    }
}

#[test]
fn replace_all_with_empty_pattern_changes_nothing() {
    assert_eq!(replace_all("abc", "", "x"), "abc");
}

#[test]
fn parse_i64_agrees_with_std() {
    let samples = [
        "0", "1", "-1", "+1", "007", "-0", "+0", "", "+", "-", "--1", "+-1", "1a", "a1", " 1",
        "1 ", "9223372036854775807", "9223372036854775808", "-9223372036854775808",
        "-9223372036854775809", "99999999999999999999999999999999999999999999", "１２", "1_000",
        "0x10", "12345678901234567890",
    ];
    for s in samples {
        assert_eq!(parse_i64(s), s.parse::<i64>().ok(), "{s:?}");
    }
}

#[test]
fn parse_i64_exact_values() {
    assert_eq!(parse_i64("42"), Some(42));
    assert_eq!(parse_i64("-9223372036854775808"), Some(i64::MIN));
    assert_eq!(parse_i64("zítra"), None);
}

#[test]
fn parse_u64_agrees_with_std() {
    let samples = [
        "0", "1", "-1", "+1", "-0", "", "+", "-", "1a", "18446744073709551615",
        "18446744073709551616", "416295343198568458", "0000000000000000000000000001",
        "340282366920938463463374607431768211456", "12 ",
    ];
    for s in samples {
        assert_eq!(parse_u64(s), s.parse::<u64>().ok(), "{s:?}");
    }
}

#[test]
fn decimal_string_agrees_with_display() {
    let samples = [0i64, 1, -1, 9, 10, 11, 99, 100, -100, 86400, i64::MAX, i64::MIN, i64::MIN + 1];
    for v in samples {
        assert_eq!(decimal_string(v), v.to_string());
    }
}

#[test]
fn decimal_of_agrees_with_display() {
    for v in [0u64, 7, 10, 1234567890, u64::MAX] {
        assert_eq!(decimal_of(v), v.to_string());
    }
}

#[test]
fn remove_char_takes_every_occurrence() {
    assert_eq!(remove_char("\"Svíčková \\\"na smetaně\\\"\"", '"'), "Svíčková \\na smetaně\\");
    assert_eq!(remove_char("", '"'), "");
    assert_eq!(remove_char("\"\"\"", '"'), "");
    assert_eq!(remove_char("abc", '"'), "abc");
}
