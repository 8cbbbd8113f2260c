use gfn_streamer::text::{
    chars_of, contains, decimal_of, lines_of, parse_bounded, split_of, string_of, trim_prefixes_of,
    words_of,
};
use gfn_streamer::wire::{push_be_u64, u16_from_le};

fn strings(parts: Vec<Vec<char>>) -> Vec<String> {
    parts.iter().map(string_of).collect()
}

#[test]
fn lines_end_like_those_of_std() {
    for text in ["", "a", "a\n", "a\r\nb", "a\n\nb\r", "\n", "\r\n\r\n", "x\ry\n"] {
        let expected: Vec<&str> = text.lines().collect();
        assert_eq!(strings(lines_of(&chars_of(text))), expected);
    }
}

#[test]
fn splitting_like_that_of_std() {
    for text in ["", "a-b", "-a--b-", "abc"] {
        let expected: Vec<&str> = text.split('-').collect();
        assert_eq!(strings(split_of(&chars_of(text), '-')), expected);
    }
}

#[test]
fn words_like_those_of_std() {
    for text in ["", "  ", "m=audio 47998 RTP", "\ta\u{a0}b \u{3000}c", "x"] {
        let expected: Vec<&str> = text.split_whitespace().collect();
        assert_eq!(strings(words_of(&chars_of(text))), expected);
    }
}

#[test]
fn prefixes_are_trimmed_as_often_as_they_stand() {
    assert_eq!(string_of(&trim_prefixes_of(&chars_of("aaab"), &chars_of("aa"))), "ab");
    assert_eq!(string_of(&trim_prefixes_of(&chars_of("b"), &chars_of("aa"))), "b");
    assert_eq!(string_of(&trim_prefixes_of(&chars_of("abab"), &chars_of("ab"))), "");
}

#[test]
fn containing() {
    assert!(contains(&chars_of("xx typ srflx yy"), &chars_of("typ srflx")));
    assert!(contains(&chars_of("abc"), &chars_of("")));
    assert!(contains(&chars_of("abc"), &chars_of("c")));
    assert!(!contains(&chars_of("abc"), &chars_of("abcd")));
}

#[test]
fn numbers_parse_like_those_of_std() {
    for text in ["", "+", "0", "255", "256", "+7", "-1", "007", "12a", "99999999999"] {
        let expected = text.parse::<u8>().ok().map(u32::from);
        assert_eq!(parse_bounded(&chars_of(text), 255), expected);
    }
}

#[test]
fn decimals_are_read_back() {
    for n in [0u64, 7, 10, 47998, 1_000_000_007, u64::MAX] {
        assert_eq!(decimal_of(n), n.to_string());
    }
    assert_eq!(parse_bounded(&chars_of(&decimal_of(65535)), 65535), Some(65535));
}

#[test]
fn wire_numbers() {
    let mut out = vec![9];
    push_be_u64(&mut out, 0x0102030405060708);
    assert_eq!(out, vec![9, 1, 2, 3, 4, 5, 6, 7, 8]);
    assert_eq!(u16_from_le(0x0e, 0x02), 526);
}
