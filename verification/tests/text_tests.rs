use solana_smart_stack::text::{ends_with, is_white_space_char, push_decimal, same_text, starts_with, trim};

#[test]
fn trim_matches_std_on_unicode_whitespace() {
    let samples = [
        "  hello  ",
        "\u{3000}\u{85}x y\u{2028}\t",
        "",
        "   ",
        "\u{200B}zero-width is not whitespace\u{200B}",
        "\n{\"a\":1}\r\n",
    ];
    for s in samples {
        assert_eq!(trim(s), s.trim());
    }
}

#[test]
fn whitespace_set_matches_std() {
    for u in 0u32..0x3100 {
        if let Some(c) = char::from_u32(u) {
            assert_eq!(is_white_space_char(c), c.is_whitespace(), "U+{:04X}", u);
        }
    }
}

#[test]
fn prefixes_and_suffixes() {
    assert!(starts_with("```json{}", &['`', '`', '`']));
    assert!(!starts_with("``", &['`', '`', '`']));
    assert!(ends_with("x\n```", &['\n', '`', '`', '`']));
    assert!(!ends_with("x```", &['\n', '`', '`', '`']));
}

#[test]
fn text_equality() {
    assert!(same_text("RETRY", "RETRY"));
    assert!(!same_text("RETRY", "RETRY "));
    assert!(!same_text("retry", "RETRY"));
}

#[test]
fn decimal_rendering() {
    for n in [0u64, 7, 10, 99, 100, 12_345, u64::MAX] {
        let mut s = String::from("tip=");
        push_decimal(&mut s, n);
        assert_eq!(s, format!("tip={}", n));
    }
}
