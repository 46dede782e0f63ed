use dodev::text::{
    before, decimal_string, eq_ignore_ascii_case, find_char, is_white_space, join, nth_word,
    parse_i32, push_decimal, strip_prefix, take_chars, text_eq, to_chars, trim,
};
use dodev::table::Table;

#[test]
fn white_space_is_that_of_unicode() {
    for n in 0u32..=0x10ffff {
        if let Some(c) = char::from_u32(n) {
            assert_eq!(is_white_space(c), c.is_whitespace(), "{:x}", n);
        }
    }
}

#[test]
fn trimming_and_words() {
    for s in ["", " ", "a", " a b ", "\t\u{2003}x\r\n", "no", "  é ß  ", "\u{85}q\u{85}"] {
        assert_eq!(trim(s), s.trim());
        assert_eq!(trim(trim(s)), s.trim());
        for n in 0..4 {
            assert_eq!(nth_word(s, n), s.split_whitespace().nth(n));
        }
    }
}

#[test]
fn comparing() {
    for a in ["", "abc", "ABC", "aBc", "äB", "ÄB", "Äb", "a", "[", "{"] {
        for b in ["", "abc", "ABC", "aBc", "äB", "ÄB", "Äb", "a", "[", "{"] {
            assert_eq!(text_eq(a, b), a == b);
            assert_eq!(eq_ignore_ascii_case(a, b), a.eq_ignore_ascii_case(b));
        }
    }
}

#[test]
fn numbers() {
    for n in [0u64, 1, 9, 10, 11, 99, 100, 12345, u32::MAX as u64, u64::MAX] {
        assert_eq!(decimal_string(n), n.to_string());
        let mut out = "n=".to_string();
        push_decimal(&mut out, n);
        assert_eq!(out, format!("n={}", n));
    }
    for n in [0i32, 1, 42, i32::MAX] {
        assert_eq!(parse_i32(&decimal_string(n as u64)), Some(n));
    }
}

#[test]
fn cutting_and_joining() {
    assert_eq!(before("a\nb\nc", '\n'), "a");
    assert_eq!(before("abc", '\n'), "abc");
    assert_eq!(before("", 'x'), "");
    assert_eq!(strip_prefix("quota: x", "quota:"), Some(" x"));
    assert_eq!(strip_prefix("quo", "quota:"), None);
    assert_eq!(strip_prefix("éx", "é"), Some("x"));
    assert_eq!(take_chars("héllo", 2), "hé");
    assert_eq!(take_chars("hé", 2), "hé");
    assert_eq!(take_chars("h", 2), "h");
    assert_eq!(find_char(&to_chars("a.b.c"), 2, '.'), 3);
    assert_eq!(find_char(&to_chars("abc"), 0, '.'), 3);
    let parts = vec!["a".to_string(), "".to_string(), "c".to_string()];
    assert_eq!(join(&parts, ", "), "a, , c");
    assert_eq!(join(&vec![], ", "), "");
    assert_eq!(join(&vec!["x".to_string()], ", "), "x");
}

#[test]
fn table_keeps_one_value_per_name() {
    let mut t: Table<u32> = Table::new();
    assert_eq!(t.len(), 0);
    assert_eq!(t.get("a"), None);
    assert_eq!(t.remove("a"), None);
    t.insert("a".to_string(), 1);
    t.insert("b".to_string(), 2);
    t.insert("c".to_string(), 3);
    t.insert("a".to_string(), 4);
    assert_eq!(t.len(), 3);
    assert_eq!(t.row(0), &("a".to_string(), 4));
    assert_eq!(t.get("b"), Some(&2));
    assert_eq!(t.get("B"), None);
    assert_eq!(t.remove("b"), Some(2));
    assert_eq!(t.remove("b"), None);
    assert_eq!(t.len(), 2);
    assert_eq!(t.row(1), &("c".to_string(), 3));
}
