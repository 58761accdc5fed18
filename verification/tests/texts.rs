use oxidescanner::decimal;
use oxidescanner::text;

#[test]
fn whitespace_is_that_of_unicode() {
    for n in 0..=0x10ffffu32 {
        if let Some(c) = char::from_u32(n) {
            assert_eq!(text::white(c), c.is_whitespace(), "{:x}", n);
        }
    }
}

#[test]
fn trimming_agrees_with_the_standard_library() {
    for s in ["", " ", "a", " a b \u{a0}", "\r\n\tx\u{2003}", "\u{3000}é\u{85}", "a\u{200b}"] {
        assert_eq!(text::trim(s), s.trim());
        assert_eq!(text::first_word(s), s.split_whitespace().next().unwrap_or(""));
    }
}

#[test]
fn lines_agree_with_the_standard_library() {
    for s in ["", "\n", "a", "a\n", "a\r\nb", "a\r", "a\r\r\n\n\nb\r\n", "\r\n", "é\n\u{2028}x"] {
        let expected: Vec<String> = s.lines().map(|l| l.to_string()).collect();
        assert_eq!(text::lines(s), expected);
    }
}

#[test]
fn splitting_agrees_with_the_standard_library() {
    for s in ["", ",", "a", "a,b", ",a,,b,", "é,ü"] {
        let expected: Vec<String> = s.split(',').map(|l| l.to_string()).collect();
        assert_eq!(text::split(s, ','), expected);
        assert_eq!(text::join(&text::split(s, ','), ","), s);
    }
}

#[test]
fn searching_agrees_with_the_standard_library() {
    for s in ["", "a", "ab", "aab", "xaaby", "éa"] {
        for part in ["", "a", "ab", "aab", "é"] {
            assert_eq!(text::contains(s, part), s.contains(part));
            assert_eq!(text::starts_with(s, part), s.starts_with(part));
        }
    }
}

#[test]
fn joining() {
    let parts: Vec<String> = vec!["a".to_string(), String::new(), "b".to_string()];
    assert_eq!(text::join(&parts, ", "), "a, , b");
    assert_eq!(text::join(&vec![], ", "), "");
    assert_eq!(text::cat("é", "x"), "éx");
    assert!(text::same("a", "a"));
    assert!(!text::same("a", "A"));
    let chars = text::to_chars("aéb");
    assert_eq!(text::from_chars(&chars, 1, 3), "éb");
}

#[test]
fn numbers_agree_with_the_standard_library() {
    for s in [
        "", "+", "-", "0", "-0", "+0", "00", "7", "+7", "++7", "65535", "65536", "065535", " 1",
        "1 ", "1_0", "٣", "18446744073709551615", "18446744073709551616", "99999999999999999999",
    ] {
        assert_eq!(decimal::read(s, u16::MAX as u64), s.parse::<u16>().ok().map(|n| n as u64));
        assert_eq!(decimal::read(s, u8::MAX as u64), s.parse::<u8>().ok().map(|n| n as u64));
        assert_eq!(decimal::read(s, u64::MAX), s.parse::<u64>().ok());
    }
    assert_eq!(decimal::read("5", 4), None);
    for n in [0, 1, 9, 10, 99, 100, 65535, 1234567890, u64::MAX] {
        assert_eq!(decimal::write(n), n.to_string());
        assert_eq!(decimal::read(&decimal::write(n), u64::MAX), Some(n));
    }
}
