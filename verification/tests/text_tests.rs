use lgtv_service::text::{bytes_start_with, chars_of, is_whitespace, push_decimal, same_text, trim};

#[test]
fn trim_matches_std_trim() {
    for s in ["", "   ", "abc", "  abc  ", "\tx\ny\r\n", "\u{85}k\u{a0}", "\u{200b}z", "a\u{3000}"] {
        assert_eq!(trim(s), s.trim(), "input {:?}", s);
    }
}

#[test]
fn whitespace_matches_std() {
    for c in ['\t', '\n', '\u{b}', '\u{c}', '\r', ' ', '\u{85}', '\u{a0}', '\u{1680}', '\u{2000}',
              '\u{200a}', '\u{2028}', '\u{2029}', '\u{202f}', '\u{205f}', '\u{3000}', 'a', '\u{200b}',
              '\u{feff}', '0', '\u{1f600}'] {
        assert_eq!(is_whitespace(c), c.is_whitespace(), "char {:?}", c);
    }
}

#[test]
fn chars_of_keeps_order() {
    assert_eq!(chars_of("aé€😀"), vec!['a', 'é', '€', '😀']);
}

#[test]
fn same_text_compares_contents() {
    assert!(same_text("abc", "abc"));
    assert!(!same_text("abc", "abd"));
    assert!(!same_text("abc", "ab"));
}

#[test]
fn decimal_text() {
    for n in [0u16, 7, 10, 99, 3000, 3001, 65535] {
        let mut s = String::from("x");
        push_decimal(&mut s, n);
        assert_eq!(s, format!("x{}", n));
    }
}

#[test]
fn byte_prefixes() {
    assert!(bytes_start_with(b"HTTP/1.1 101 OK", b"HTTP/1.1 101"));
    assert!(!bytes_start_with(b"HTTP", b"HTTP/1.1"));
    assert!(bytes_start_with(b"", b""));
}
