use nanocodex::text::{
    byte_len, comes_before, decimal_text, fit, is_blank, is_white_space, join, join3, same_text,
    trim, trim_end_char,
};

#[test]
fn white_space_is_that_of_unicode() {
    for code in 0..=0x10ffff_u32 {
        if let Some(c) = char::from_u32(code) {
            assert_eq!(is_white_space(c), c.is_whitespace(), "{:x}", code);
        }
    }
}

#[test]
fn blank_texts_hold_white_space_only() {
    assert!(is_blank(""));
    assert!(is_blank(" \t\n\u{3000}"));
    assert!(!is_blank(" x "));
}

#[test]
fn trimming_takes_white_space_from_both_ends() {
    for text in ["", "   ", " a b ", "\u{2003}é\u{a0}", "x"] {
        assert_eq!(trim(text), text.trim());
    }
    assert_eq!(trim_end_char("https://host//", '/'), "https://host");
    assert_eq!(trim_end_char("///", '/'), "");
    assert_eq!(trim_end_char("a/b", '/'), "a/b");
}

#[test]
fn lengths_count_bytes() {
    for text in ["", "ascii", "é", "€", "𝄞 mixed é"] {
        assert_eq!(byte_len(text), text.len());
    }
}

#[test]
fn cut_texts_end_between_characters() {
    assert_eq!(fit("aé€𝄞", 100), "aé€𝄞");
    assert_eq!(fit("aé€𝄞", 10), "aé€𝄞");
    assert_eq!(fit("aé€𝄞", 9), "aé€");
    assert_eq!(fit("aé€𝄞", 5), "aé");
    assert_eq!(fit("é", 1), "");
}

#[test]
fn texts_are_ordered_as_std_orders_them() {
    let texts = ["", "a", "aa", "ab", "b", "Z", "é", "€", "𝄞", "\u{ffff}"];
    for a in texts {
        for b in texts {
            assert_eq!(comes_before(a, b), a < b, "{} {}", a, b);
            assert_eq!(same_text(a, b), a == b);
        }
    }
}

#[test]
fn texts_are_joined() {
    assert_eq!(join("a", "b"), "ab");
    assert_eq!(join3("a", "", "c"), "ac");
    for n in [0, 9, 10, 1234567890, u64::MAX] {
        assert_eq!(decimal_text(n), n.to_string());
    }
}
