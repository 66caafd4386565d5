use pipe_poll::text::{char_is_whitespace, render_decimal, trim};

#[test]
fn whitespace_agrees_with_std_on_every_char() {
    let mut n: u32 = 0;
    let mut whitespace = 0;
    while n <= 0x10FFFF {
        if let Some(c) = char::from_u32(n) {
            assert_eq!(char_is_whitespace(c), c.is_whitespace(), "U+{:04X}", n);
            if char_is_whitespace(c) {
                whitespace += 1;
            }
        }
        n += 1;
    }
    assert_eq!(whitespace, 25);
}

#[test]
fn whitespace_edges_of_the_ranges() {
    assert!(!char_is_whitespace('\u{8}'));
    assert!(char_is_whitespace('\t'));
    assert!(char_is_whitespace('\r'));
    assert!(!char_is_whitespace('\u{e}'));
    assert!(char_is_whitespace(' '));
    assert!(!char_is_whitespace('!'));
    assert!(char_is_whitespace('\u{85}'));
    assert!(char_is_whitespace('\u{a0}'));
    assert!(!char_is_whitespace('\u{1fff}'));
    assert!(char_is_whitespace('\u{2000}'));
    assert!(char_is_whitespace('\u{200a}'));
    assert!(!char_is_whitespace('\u{200b}'));
    assert!(char_is_whitespace('\u{3000}'));
    assert!(!char_is_whitespace('a'));
}

#[test]
fn trim_strips_both_ends() {
    assert_eq!(trim("  hello world  "), "hello world");
}

#[test]
fn trim_keeps_inner_whitespace() {
    assert_eq!(trim("\t a \n b \r\n"), "a \n b");
}

#[test]
fn trim_of_empty_text_is_empty() {
    assert_eq!(trim(""), "");
}

#[test]
fn trim_of_whitespace_alone_is_empty() {
    assert_eq!(trim(" \t\r\n\u{3000}"), "");
}

#[test]
fn trim_leaves_clean_text_alone() {
    assert_eq!(trim("x"), "x");
    assert_eq!(trim("no whitespace at the ends"), "no whitespace at the ends");
}

#[test]
fn trim_strips_one_side_only_where_needed() {
    assert_eq!(trim("  left"), "left");
    assert_eq!(trim("right  "), "right");
}

#[test]
fn trim_knows_whitespace_beyond_ascii() {
    assert_eq!(trim("\u{3000}a\u{2003}b\u{a0}\u{85}"), "a\u{2003}b");
}

#[test]
fn trim_keeps_what_only_looks_like_whitespace() {
    assert_eq!(trim("\u{200b}a\u{feff}"), "\u{200b}a\u{feff}");
}

#[test]
fn trim_counts_characters_not_bytes() {
    assert_eq!(trim(" \u{e9}t\u{e9} \u{1f600} "), "\u{e9}t\u{e9} \u{1f600}");
}

#[test]
fn trim_agrees_with_std() {
    let samples = vec![
        "",
        " ",
        "a",
        " a",
        "a ",
        " a ",
        "\n\n",
        "line one\nline two\n",
        "\u{2028}x\u{2029}",
        "  \u{1680}mixed \t content\u{205f}  ",
        "\u{202f}\u{202f}",
    ];
    for sample in samples {
        assert_eq!(trim(sample), sample.trim());
    }
}

#[test]
fn trim_is_idempotent() {
    let once = trim("  a  b  ");
    assert_eq!(trim(&once), once);
}

#[test]
fn decimal_of_small_numbers() {
    assert_eq!(render_decimal(0), "0");
    assert_eq!(render_decimal(7), "7");
    assert_eq!(render_decimal(9), "9");
    assert_eq!(render_decimal(10), "10");
    assert_eq!(render_decimal(42), "42");
    assert_eq!(render_decimal(1234567890), "1234567890");
}

#[test]
fn decimal_of_the_limits() {
    assert_eq!(render_decimal(i32::MAX), "2147483647");
    assert_eq!(render_decimal(i32::MIN), "-2147483648");
    assert_eq!(render_decimal(-1), "-1");
}

#[test]
fn decimal_agrees_with_std() {
    let mut n: i32 = -1500;
    while n <= 1500 {
        assert_eq!(render_decimal(n), n.to_string());
        n += 1;
    }
}
