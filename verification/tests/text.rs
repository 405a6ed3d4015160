use task_manager::number::{parse_number, parse_u32, render_decimal};
use task_manager::text::{is_whitespace_char, to_chars, trim};

#[test]
fn whitespace_is_what_the_standard_library_calls_whitespace() {
    let mut count = 0;
    for code in 0..=0x10FFFFu32 {
        if let Some(c) = char::from_u32(code) {
            assert_eq!(is_whitespace_char(c), c.is_whitespace(), "U+{:04X}", code);
            if is_whitespace_char(c) {
                count += 1;
            }
        }
    }
    assert_eq!(count, 25);
}

#[test]
fn whitespace_examples() {
    for c in [' ', '\t', '\n', '\r', '\u{0B}', '\u{0C}', '\u{85}', '\u{A0}', '\u{3000}', '\u{2028}'] {
        assert!(is_whitespace_char(c));
    }
    for c in ['a', '0', '_', '\u{200B}', '\u{180E}', '\u{FEFF}', '\0', '\u{1F}'] {
        assert!(!is_whitespace_char(c));
    }
}

#[test]
fn to_chars_gives_each_character() {
    assert_eq!(to_chars(""), Vec::<char>::new());
    assert_eq!(to_chars("añ€😀"), vec!['a', 'ñ', '€', '😀']);
}

#[test]
fn trim_drops_the_blank_space_at_both_ends() {
    assert_eq!(trim("  Buy milk \n"), "Buy milk");
    assert_eq!(trim("Buy milk"), "Buy milk");
    assert_eq!(trim(" a  b "), "a  b");
    assert_eq!(trim(""), "");
    assert_eq!(trim(" \t\r\n"), "");
    assert_eq!(trim("\u{3000}é\u{A0}"), "é");
    assert_eq!(trim("x "), "x");
    assert_eq!(trim(" x"), "x");
}

#[test]
fn trim_agrees_with_the_standard_library() {
    let pieces = ["", " ", "\t", "\n", "a", "é", "\u{2003}", "😀", "\u{200B}", "b c"];
    for a in pieces {
        for b in pieces {
            for c in pieces {
                let s = format!("{}{}{}", a, b, c);
                assert_eq!(trim(&s), s.trim(), "{:?}", s);
            }
        }
    }
}

#[test]
fn parse_u32_reads_decimal_numbers() {
    assert_eq!(parse_u32("0"), Some(0));
    assert_eq!(parse_u32("2"), Some(2));
    assert_eq!(parse_u32("42"), Some(42));
    assert_eq!(parse_u32("+42"), Some(42));
    assert_eq!(parse_u32("0005"), Some(5));
    assert_eq!(parse_u32("4294967295"), Some(4294967295));
    assert_eq!(parse_u32("+0004294967295"), Some(4294967295));
}

#[test]
fn parse_u32_refuses_everything_else() {
    for s in [
        "", "+", "-", "-1", "-0", "++1", "+-1", "1+", "abc", "1a", "a1", " 1", "1 ", "1_000", "1.0",
        "1e3", "0x10", "4294967296", "99999999999999999999999999", "١٢٣", "１", "²",
    ] {
        assert_eq!(parse_u32(s), None, "{:?}", s);
    }
}

#[test]
fn parse_u32_agrees_with_the_standard_library() {
    let pieces = ["", "+", "-", "0", "1", "9", "42949", "67295", "67296", " ", "a", "٣"];
    for a in pieces {
        for b in pieces {
            for c in pieces {
                let s = format!("{}{}{}", a, b, c);
                assert_eq!(parse_u32(&s), s.parse::<u32>().ok(), "{:?}", s);
            }
        }
    }
}

#[test]
fn parse_number_allows_blank_space_around_the_number() {
    assert_eq!(parse_number("3\n"), Some(3));
    assert_eq!(parse_number("  17\r\n"), Some(17));
    assert_eq!(parse_number("\t+8 "), Some(8));
    assert_eq!(parse_number("1 2"), None);
    assert_eq!(parse_number("\n"), None);
    assert_eq!(parse_number("two"), None);
    assert_eq!(parse_number("-3"), None);
    assert_eq!(parse_number("4294967296"), None);
}

#[test]
fn parse_number_agrees_with_trim_and_parse() {
    for s in [" 1", "1 ", " +1 ", "\u{A0}12\u{2003}", " ", "", " x ", "1\u{200B}", "\n5\n"] {
        assert_eq!(parse_number(s), s.trim().parse::<u32>().ok(), "{:?}", s);
    }
}

#[test]
fn render_decimal_writes_the_digits() {
    assert_eq!(render_decimal(0), "0");
    assert_eq!(render_decimal(7), "7");
    assert_eq!(render_decimal(10), "10");
    assert_eq!(render_decimal(1234567890), "1234567890");
    assert_eq!(render_decimal(4294967295), "4294967295");
    assert_eq!(render_decimal(u64::MAX), "18446744073709551615");
}

#[test]
fn render_decimal_agrees_with_the_standard_library() {
    let mut n: u64 = 1;
    for _ in 0..64 {
        assert_eq!(render_decimal(n), n.to_string());
        assert_eq!(render_decimal(n - 1), (n - 1).to_string());
        n = n.wrapping_mul(2);
    }
    for n in 0..2000u64 {
        assert_eq!(render_decimal(n), n.to_string());
        assert_eq!(parse_u32(&render_decimal(n)), Some(n as u32));
    }
}
