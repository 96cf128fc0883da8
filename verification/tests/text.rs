use steamos_manager::text::{
    bytes_eq, contains, ends_with, eq_ignore_case, matches_at, parse_i32, parse_u32,
    space_width, split_fields, split_inclusive, split_lines, split_words, starts_with, to_lower,
    trim,
    trim_end, trim_end_matches, trim_start, u32_digits, u64_digits,
};

fn bytes(items: &[&str]) -> Vec<Vec<u8>> {
    items.iter().map(|s| s.as_bytes().to_vec()).collect()
}

#[test]
fn numbers_are_read() {
    assert_eq!(parse_u32(b"0"), Some(0));
    assert_eq!(parse_u32(b"15000000"), Some(15_000_000));
    assert_eq!(parse_u32(b"+7"), Some(7));
    assert_eq!(parse_u32(b"007"), Some(7));
    assert_eq!(parse_u32(b"4294967295"), Some(u32::MAX));
    assert_eq!(parse_u32(b"4294967296"), None);
    assert_eq!(parse_u32(b"99999999999999999999"), None);
    assert_eq!(parse_u32(b""), None);
    assert_eq!(parse_u32(b"+"), None);
    assert_eq!(parse_u32(b"-1"), None);
    assert_eq!(parse_u32(b"-0"), None);
    assert_eq!(parse_u32(b"1 "), None);
    assert_eq!(parse_u32(b"1a"), None);
    assert_eq!(parse_u32(b"++1"), None);

    assert_eq!(parse_i32(b"10"), Some(10));
    assert_eq!(parse_i32(b"+10"), Some(10));
    assert_eq!(parse_i32(b"-10"), Some(-10));
    assert_eq!(parse_i32(b"-0"), Some(0));
    assert_eq!(parse_i32(b"2147483647"), Some(i32::MAX));
    assert_eq!(parse_i32(b"2147483648"), None);
    assert_eq!(parse_i32(b"-2147483648"), Some(i32::MIN));
    assert_eq!(parse_i32(b"-2147483649"), None);
    assert_eq!(parse_i32(b"-"), None);
    assert_eq!(parse_i32(b""), None);
    assert_eq!(parse_i32(b"--1"), None);
    assert_eq!(parse_i32(b"+-1"), None);
}

#[test]
fn numbers_are_written() {
    assert_eq!(u32_digits(0), b"0");
    assert_eq!(u32_digits(9), b"9");
    assert_eq!(u32_digits(10), b"10");
    assert_eq!(u32_digits(1600), b"1600");
    assert_eq!(u32_digits(u32::MAX), b"4294967295");
    assert_eq!(u64_digits(u64::MAX), b"18446744073709551615");
    for n in [0u32, 1, 99, 100, 65_535, 4_294_967_295] {
        assert_eq!(parse_u32(&u32_digits(n)), Some(n));
        assert_eq!(u32_digits(n), n.to_string().into_bytes());
    }
}

#[test]
fn white_space_is_trimmed() {
    assert_eq!(trim(b"  a b \n"), b"a b");
    assert_eq!(trim(b"\t\r\n\x0b\x0c x"), b"x");
    assert_eq!(trim(b"   "), b"");
    assert_eq!(trim(b""), b"");
    assert_eq!(trim_start(b" a "), b"a ");
    assert_eq!(trim_end(b" a "), b" a");
    assert_eq!(trim(b"\xc2\xa0a"), b"a");
    assert_eq!(trim("\u{3000}a\u{2003}b\u{85}".as_bytes()), "a\u{2003}b".as_bytes());
    assert_eq!(trim(b"\xc2"), b"\xc2");
    assert_eq!(trim(b"\xe2\x80"), b"\xe2\x80");
    let texts = [
        "",
        " ",
        "a",
        " a b ",
        "\u{a0}x\u{a0}",
        "\u{1680}\u{2000}\u{200a}x\u{2028}\u{2029}\u{202f}\u{205f}\u{3000}",
        "\u{200b}x\u{200b}",
        "\u{2007}\t\u{85}\r\n",
        "é \u{a0} ü",
        "x\u{e000}\u{80}",
        "\u{180e}x",
        "\u{feff}x\u{200b} ",
    ];
    for text in texts {
        assert_eq!(trim(text.as_bytes()), text.trim().as_bytes(), "{text:?}");
        assert_eq!(trim_start(text.as_bytes()), text.trim_start().as_bytes(), "{text:?}");
        assert_eq!(trim_end(text.as_bytes()), text.trim_end().as_bytes(), "{text:?}");
        let expected: Vec<Vec<u8>> =
            text.split_whitespace().map(|word| word.as_bytes().to_vec()).collect();
        assert_eq!(split_words(text.as_bytes()), expected, "{text:?}");
    }
    assert_eq!(trim_end_matches(b"200MhzMhz", b"Mhz"), b"200");
    assert_eq!(trim_end_matches(b"Mhz", b"Mhz"), b"");
    assert_eq!(trim_end_matches(b"200", b"Mhz"), b"200");
    assert_eq!(trim_end_matches(b"200", b""), b"200");
}

#[test]
fn texts_are_compared() {
    assert!(bytes_eq(b"abc", b"abc"));
    assert!(!bytes_eq(b"abc", b"abd"));
    assert!(!bytes_eq(b"abc", b"ab"));
    assert!(eq_ignore_case(b"BIOS", b"bios"));
    assert!(eq_ignore_case(b"a_1", b"A_1"));
    assert!(!eq_ignore_case(b"@", b"`"));
    assert!(!eq_ignore_case(b"[", b"{"));
    assert!(!eq_ignore_case(b"on", b"one"));
    assert_eq!(to_lower(b"3D_FULL_SCREEN"), b"3d_full_screen");
    assert_eq!(to_lower(b"@[`{Zz"), b"@[`{zz");
    assert!(starts_with(b"policy0", b"policy"));
    assert!(!starts_with(b"polic", b"policy"));
    assert!(starts_with(b"x", b""));
    assert!(ends_with(b"plasma.desktop", b".desktop"));
    assert!(!ends_with(b"desktop", b".desktop"));
    assert!(contains(b"a-gamescope-b", b"gamescope"));
    assert!(contains(b"gamescope", b"gamescope"));
    assert!(!contains(b"gamescop", b"gamescope"));
    assert!(contains(b"", b""));
    assert!(matches_at(b"abc", b"bc", 1));
    assert!(!matches_at(b"abc", b"bc", 2));
    assert!(!matches_at(b"abc", b"bc", usize::MAX));
}

#[test]
fn texts_are_split() {
    assert_eq!(split_words(b" a  bb\tc\n"), bytes(&["a", "bb", "c"]));
    assert_eq!(split_words(b""), bytes(&[]));
    assert_eq!(split_words(b"  \n"), bytes(&[]));
    assert_eq!(split_words(b"x"), bytes(&["x"]));
    assert_eq!(split_fields(b"a b c", b' '), bytes(&["a", "b", "c"]));
    assert_eq!(split_fields(b"a  b ", b' '), bytes(&["a", "", "b", ""]));
    assert_eq!(split_fields(b"", b' '), bytes(&[""]));
    assert_eq!(split_lines(b"a\nb\r\nc"), bytes(&["a", "b", "c"]));
    assert_eq!(split_lines(b"a\n\nb\n"), bytes(&["a", "", "b"]));
    assert_eq!(split_lines(b"a\r"), bytes(&["a\r"]));
    assert_eq!(split_lines(b"\r\n"), bytes(&[""]));
    assert_eq!(split_lines(b""), bytes(&[]));
    assert_eq!(split_inclusive(b"a\nb\n", b'\n'), bytes(&["a\n", "b\n"]));
    assert_eq!(split_inclusive(b"a\nb", b'\n'), bytes(&["a\n", "b"]));
    assert_eq!(split_inclusive(b"\n", b'\n'), bytes(&["\n"]));
    assert_eq!(split_inclusive(b"", b'\n'), bytes(&[]));
    for text in ["a\nb\r\nc", "x\n\ny\n", "", "\r\n\n", "tail\r"] {
        let expected: Vec<Vec<u8>> = text.lines().map(|l| l.as_bytes().to_vec()).collect();
        assert_eq!(split_lines(text.as_bytes()), expected);
        let expected: Vec<Vec<u8>> =
            text.split_inclusive('\n').map(|l| l.as_bytes().to_vec()).collect();
        assert_eq!(split_inclusive(text.as_bytes(), b'\n'), expected);
        let expected: Vec<Vec<u8>> =
            text.split_whitespace().map(|l| l.as_bytes().to_vec()).collect();
        assert_eq!(split_words(text.as_bytes()), expected);
    }
}

#[test]
fn white_space_is_what_the_language_says() {
    for code in 0u32..=0x3100 {
        let Some(c) = char::from_u32(code) else {
            continue;
        };
        let mut buffer = [0u8; 4];
        let encoded = c.encode_utf8(&mut buffer).as_bytes();
        let expected = if c.is_whitespace() { encoded.len() } else { 0 };
        assert_eq!(space_width(encoded, 0), expected, "U+{code:04X}");
    }
    assert_eq!(space_width(b" ", 1), 0);
    assert_eq!(space_width(b"a ", 1), 1);
    assert_eq!(space_width(b"", 0), 0);
    assert_eq!(space_width(b"a", usize::MAX), 0);
}
