use mimik::text::{chars_of, contains, decimal, pad_right, parse_u32, take_line};

#[test]
fn decimal_renders_digits() {
    assert_eq!(decimal(0), "0");
    assert_eq!(decimal(7), "7");
    assert_eq!(decimal(10), "10");
    assert_eq!(decimal(48000), "48000");
    assert_eq!(decimal(u64::MAX), "18446744073709551615");
}

#[test]
fn parse_u32_accepts_what_std_accepts() {
    assert_eq!(parse_u32("0"), Some(0));
    assert_eq!(parse_u32("1234"), Some(1234));
    assert_eq!(parse_u32("+42"), Some(42));
    assert_eq!(parse_u32("007"), Some(7));
    assert_eq!(parse_u32("4294967295"), Some(u32::MAX));
}

#[test]
fn parse_u32_rejects_what_std_rejects() {
    for s in ["", "+", "-1", "-0", "4294967296", "99999999999", "12a", " 1", "1 ", "++1", "١"] {
        assert_eq!(parse_u32(s), None, "{s:?}");
        assert_eq!(parse_u32(s), s.parse::<u32>().ok(), "{s:?}");
    }
}

#[test]
fn parse_u32_agrees_with_std_on_samples() {
    for s in ["1", "+0", "65535", "4294967295", "4294967294", "00000000004294967295", "12345678901"] {
        assert_eq!(parse_u32(s), s.parse::<u32>().ok(), "{s:?}");
    }
}

#[test]
fn decimal_reads_back() {
    for n in [0u32, 1, 9, 10, 99, 100, 65536, u32::MAX] {
        assert_eq!(parse_u32(&decimal(n as u64)), Some(n));
    }
}

#[test]
fn pad_right_pads_to_width() {
    assert_eq!(pad_right("tom", 12), "tom         ");
    assert_eq!(pad_right("", 3), "   ");
    assert_eq!(pad_right("exactly-12ch", 12), "exactly-12ch");
    assert_eq!(pad_right("longer-than-twelve", 12), "longer-than-twelve");
    assert_eq!(pad_right("héllo", 7), format!("{:<7}", "héllo"));
}

#[test]
fn contains_finds_substrings() {
    assert!(contains("BlackHole 2ch", "BlackHole 2ch"));
    assert!(contains("Audio: BlackHole 2ch (virtual)", "BlackHole 2ch"));
    assert!(!contains("BlackHole 16ch", "BlackHole 2ch"));
    assert!(!contains("Black", "BlackHole 2ch"));
    assert!(contains("anything", ""));
    assert!(contains("", ""));
}

#[test]
fn take_line_follows_std_lines() {
    for text in ["a\nb\n", "a\r\nb", "\n\nx", "one", "", "x\r", "x\r\n\r\n", "\r\n"] {
        let chars = chars_of(text);
        let mut ours = Vec::new();
        let mut at = 0;
        while let Some((line, next)) = take_line(&chars, at) {
            ours.push(line);
            at = next;
        }
        let std_lines: Vec<String> = text.lines().map(|l| l.to_string()).collect();
        assert_eq!(ours, std_lines, "{text:?}");
    }
}

