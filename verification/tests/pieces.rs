use ringboard_iced::entries::{next_id, prev_id, Entry, EntryKind, Ring};
use ringboard_iced::pipeline::ImagePipeline;
use ringboard_iced::text::{
    chars_of, decimal_string, first_digit, letter_is, parse_positive_u32, parse_u64, trim,
};

fn chars(s: &str) -> Vec<char> {
    chars_of(s)
}

fn entry(id: u64) -> Entry<()> {
    Entry { id, ring: Ring::Main, kind: EntryKind::Text, payload: () }
}

#[test]
fn next_and_prev_wrap_around() {
    let list = vec![entry(5), entry(6), entry(7)];
    let nav: Vec<&Entry<()>> = list.iter().collect();
    assert_eq!(next_id(&nav, None), Some(5));
    assert_eq!(next_id(&nav, Some(5)), Some(6));
    assert_eq!(next_id(&nav, Some(7)), Some(5));
    assert_eq!(next_id(&nav, Some(99)), Some(5));
    assert_eq!(prev_id(&nav, None), Some(7));
    assert_eq!(prev_id(&nav, Some(5)), Some(7));
    assert_eq!(prev_id(&nav, Some(6)), Some(5));
    assert_eq!(prev_id(&nav, Some(99)), Some(7));
    let empty: Vec<&Entry<()>> = Vec::new();
    assert_eq!(next_id(&empty, Some(1)), None);
    assert_eq!(prev_id(&empty, None), None);
    for id in [5, 6, 7] {
        assert_eq!(prev_id(&nav, next_id(&nav, Some(id))), Some(id));
        assert_eq!(next_id(&nav, prev_id(&nav, Some(id))), Some(id));
    }
}

#[test]
fn pipeline_requests_each_image_once() {
    let mut p: ImagePipeline<u8> = ImagePipeline::new();
    assert!(p.request(1));
    assert!(!p.request(1));
    assert!(p.claim(1));
    assert!(!p.claim(1));
    assert!(p.request(1));
    p.insert(1, 10);
    assert!(!p.request(1));
    assert_eq!(p.get(1), Some(&10));
    p.remove(1);
    assert_eq!(p.get(1), None);
    assert!(p.request(1));
    assert!(p.claim(1));
}

#[test]
fn pipeline_retains_only_live_ids() {
    let mut p: ImagePipeline<u8> = ImagePipeline::new();
    p.insert(1, 10);
    p.insert(2, 20);
    p.request(3);
    p.request(4);
    p.retain(&[2, 4, 9, 2]);
    assert_eq!(p.get(1), None);
    assert_eq!(p.get(2), Some(&20));
    assert!(!p.claim(3));
    assert!(p.claim(4));
    p.clear();
    assert_eq!(p.get(2), None);
}

#[test]
fn trim_removes_unicode_white_space_at_both_ends() {
    assert_eq!(trim(&chars(" \t\u{a0}12 3\u{2003}\n")), chars("12 3"));
    assert_eq!(trim(&chars("   ")), Vec::<char>::new());
    assert_eq!(trim(&chars("x")), chars("x"));
    assert_eq!(trim(&chars("\u{200b}x")), chars("\u{200b}x"));
}

#[test]
fn numbers_parse_like_from_str() {
    assert_eq!(parse_u64(&chars("0")), Some(0));
    assert_eq!(parse_u64(&chars("+12")), Some(12));
    assert_eq!(parse_u64(&chars("007")), Some(7));
    assert_eq!(parse_u64(&chars("18446744073709551615")), Some(u64::MAX));
    assert_eq!(parse_u64(&chars("18446744073709551616")), None);
    assert_eq!(parse_u64(&chars("")), None);
    assert_eq!(parse_u64(&chars("+")), None);
    assert_eq!(parse_u64(&chars("-0")), None);
    assert_eq!(parse_u64(&chars("1_000")), None);
    assert_eq!(parse_u64(&chars("١")), None);
    assert_eq!(parse_positive_u32(&chars("4294967295")), Some(u32::MAX));
    assert_eq!(parse_positive_u32(&chars("4294967296")), None);
    assert_eq!(parse_positive_u32(&chars("0")), None);
    assert_eq!(parse_positive_u32(&chars("+0")), None);
    assert_eq!(parse_positive_u32(&chars("1")), Some(1));
    for text in ["0", "+5", "42", "4294967295", "x", "-3", " 1"] {
        assert_eq!(parse_u64(&chars(text)), text.parse::<u64>().ok());
        assert_eq!(
            parse_positive_u32(&chars(text)),
            text.parse::<std::num::NonZeroU32>().ok().map(|v| v.get())
        );
    }
}

#[test]
fn decimal_strings_match_display() {
    for n in [0u64, 7, 10, 1234, u64::MAX] {
        assert_eq!(decimal_string(n), n.to_string());
        assert_eq!(parse_u64(&chars(&decimal_string(n))), Some(n));
    }
}

#[test]
fn key_text_helpers() {
    assert!(letter_is(&chars("v"), 'v'));
    assert!(letter_is(&chars("V"), 'v'));
    assert!(!letter_is(&chars("vv"), 'v'));
    assert!(!letter_is(&chars("w"), 'v'));
    assert_eq!(first_digit(&chars("7a")), Some(7));
    assert_eq!(first_digit(&chars("a7")), None);
    assert_eq!(first_digit(&chars("")), None);
}
