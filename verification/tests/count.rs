use desktop_backend::count::{parse_u32, parse_u32_or_zero, u32_text};

const SAMPLES: [&str; 38] = [
    "", "+", "-", "0", "7", "10", "007", "+5", "+0", "++5", "-0", "-5", "5+", "4294967295",
    "4294967296", "+4294967295", "00004294967295", "42949672950", "99999999999999999999999", "12a",
    "a12", " 1", "1 ", "1 2", "1_000", "1,245", "1.5", "1e3", "0x10", "\u{ff11}\u{ff12}",
    "\u{661}", "abc", "+ 5", "٣", "12\n", "\t12", "000", "+000",
];

#[test]
fn parse_u32_agrees_with_std() {
    for text in SAMPLES {
        assert_eq!(parse_u32(text), text.parse::<u32>().ok(), "text {text:?}");
    }
}

#[test]
fn parse_u32_agrees_with_std_on_short_texts() {
    let alphabet = ['0', '1', '9', '+', '-', ' ', 'a', '.'];
    let mut texts = vec![String::new()];
    for _ in 0..5 {
        let mut longer = Vec::new();
        for text in &texts {
            for c in alphabet {
                longer.push(format!("{text}{c}"));
            }
        }
        for text in &longer {
            assert_eq!(parse_u32(text), text.parse::<u32>().ok(), "text {text:?}");
        }
        texts = longer;
    }
}

#[test]
fn parse_u32_examples() {
    assert_eq!(parse_u32("10"), Some(10));
    assert_eq!(parse_u32("+10"), Some(10));
    assert_eq!(parse_u32("0010"), Some(10));
    assert_eq!(parse_u32("0"), Some(0));
    assert_eq!(parse_u32("4294967295"), Some(u32::MAX));
    assert_eq!(parse_u32("4294967296"), None);
    assert_eq!(parse_u32(""), None);
    assert_eq!(parse_u32("+"), None);
    assert_eq!(parse_u32("abc"), None);
    assert_eq!(parse_u32("-1"), None);
    assert_eq!(parse_u32("1.0"), None);
    assert_eq!(parse_u32(" 1"), None);
}

#[test]
fn parse_u32_near_the_limit() {
    for n in [4294967290u64, 4294967294, 4294967295, 4294967296, 4294967297, 4294967300, 42949672950, 42949672960] {
        let text = n.to_string();
        assert_eq!(parse_u32(&text), u32::try_from(n).ok(), "text {text:?}");
    }
}

#[test]
fn parse_u32_or_zero_examples() {
    assert_eq!(parse_u32_or_zero("10"), 10);
    assert_eq!(parse_u32_or_zero("abc"), 0);
    assert_eq!(parse_u32_or_zero(""), 0);
    assert_eq!(parse_u32_or_zero("4294967296"), 0);
    assert_eq!(parse_u32_or_zero("-3"), 0);
    assert_eq!(parse_u32_or_zero("0"), 0);
}

#[test]
fn u32_text_agrees_with_std() {
    for n in [0u32, 1, 9, 10, 11, 99, 100, 101, 1245, 65535, 65536, 999999999, 1000000000, 4294967294, u32::MAX] {
        assert_eq!(u32_text(n), n.to_string());
    }
    for n in 0..3000u32 {
        assert_eq!(u32_text(n), n.to_string());
    }
}

#[test]
fn u32_text_reads_back() {
    for n in [0u32, 5, 10, 120, 4096, 123456789, u32::MAX] {
        assert_eq!(parse_u32(&u32_text(n)), Some(n));
    }
}
