use nscratch::text::{integer_to_string, is_white_space, natural_to_string, split_whitespace};

#[test]
fn natural_zero_is_one_digit() {
    assert_eq!(natural_to_string(0), "0");
}

#[test]
fn natural_single_digits() {
    for n in 0u128..10 {
        assert_eq!(natural_to_string(n), n.to_string());
    }
}

#[test]
fn natural_has_no_leading_zero() {
    assert_eq!(natural_to_string(10), "10");
    assert_eq!(natural_to_string(100), "100");
    assert_eq!(natural_to_string(1000), "1000");
}

#[test]
fn natural_largest_value() {
    assert_eq!(natural_to_string(u128::MAX), "340282366920938463463374607431768211455");
}

#[test]
fn integer_positive() {
    assert_eq!(integer_to_string(42), "42");
    assert_eq!(integer_to_string(9223372036854775807), "9223372036854775807");
}

#[test]
fn integer_zero() {
    assert_eq!(integer_to_string(0), "0");
}

#[test]
fn integer_negative_has_minus_sign() {
    assert_eq!(integer_to_string(-1), "-1");
    assert_eq!(integer_to_string(-10), "-10");
    assert_eq!(integer_to_string(-907), "-907");
}

#[test]
fn integer_smallest_window_id() {
    assert_eq!(integer_to_string(i64::MIN as i128), "-9223372036854775808");
}

#[test]
fn integer_below_the_smallest_window_id() {
    assert_eq!(integer_to_string(i64::MIN as i128 - 1), "-9223372036854775809");
}

#[test]
fn integer_extremes() {
    assert_eq!(integer_to_string(i128::MAX), i128::MAX.to_string());
    assert_eq!(integer_to_string(i128::MIN), i128::MIN.to_string());
}

#[test]
fn integer_agrees_with_the_standard_rendering() {
    let mut n: i128 = -5000;
    while n <= 5000 {
        assert_eq!(integer_to_string(n), n.to_string());
        n += 1;
    }
    let mut p: i128 = 1;
    for _ in 0..126 {
        assert_eq!(integer_to_string(p), p.to_string());
        assert_eq!(integer_to_string(-p), (-p).to_string());
        assert_eq!(integer_to_string(p - 1), (p - 1).to_string());
        p *= 2;
    }
}

#[test]
fn white_space_agrees_with_the_standard_library_on_every_character() {
    let mut code: u32 = 0;
    while code <= 0x10FFFF {
        if let Some(c) = char::from_u32(code) {
            assert_eq!(is_white_space(c), c.is_whitespace(), "U+{:04X}", code);
        }
        code += 1;
    }
}

#[test]
fn white_space_examples() {
    assert!(is_white_space(' '));
    assert!(is_white_space('\t'));
    assert!(is_white_space('\n'));
    assert!(is_white_space('\u{00A0}'));
    assert!(is_white_space('\u{3000}'));
    assert!(!is_white_space('a'));
    assert!(!is_white_space('-'));
    assert!(!is_white_space('\u{200B}'));
}

#[test]
fn split_empty_text_has_no_word() {
    assert_eq!(split_whitespace(""), Vec::<String>::new());
}

#[test]
fn split_blank_text_has_no_word() {
    assert_eq!(split_whitespace("   \t\n "), Vec::<String>::new());
}

#[test]
fn split_single_word() {
    assert_eq!(split_whitespace("foo"), vec!["foo".to_string()]);
}

#[test]
fn split_program_and_argument() {
    assert_eq!(split_whitespace("foo --bar"), vec!["foo".to_string(), "--bar".to_string()]);
}

#[test]
fn split_ignores_leading_trailing_and_repeated_white_space() {
    assert_eq!(
        split_whitespace("  kitty   --class\tscratch \n -e  htop  "),
        vec![
            "kitty".to_string(),
            "--class".to_string(),
            "scratch".to_string(),
            "-e".to_string(),
            "htop".to_string(),
        ]
    );
}

#[test]
fn split_counts_characters_not_bytes() {
    assert_eq!(
        split_whitespace("caf\u{e9}\u{3000}\u{65e5}\u{672c}\u{8a9e} x"),
        vec!["caf\u{e9}".to_string(), "\u{65e5}\u{672c}\u{8a9e}".to_string(), "x".to_string()]
    );
}

#[test]
fn split_agrees_with_the_standard_library() {
    let samples = [
        "",
        " ",
        "a",
        " a",
        "a ",
        "a b",
        "a  b",
        "\u{a0}a\u{2003}b\u{85}",
        "one two three four",
        "\ttab\tseparated\t",
        "line\nbreak\r\nmore",
        "\u{1680}ogham\u{205f}math\u{202f}narrow",
        "zero\u{200b}width is no space",
    ];
    for s in samples {
        let expected: Vec<String> = s.split_whitespace().map(String::from).collect();
        assert_eq!(split_whitespace(s), expected, "{:?}", s);
    }
}
