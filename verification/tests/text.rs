use video_transcriber::clock::{format_timestamp, get_current_timestamp};
use video_transcriber::text::{
    chars_of, count_words, find_from, glue, join_chars, join_strings, push_decimal, push_signed,
    same_text, slice_of, split_leading, string_of, trim_chars, trim_text,
};

#[test]
fn chars_and_strings_convert_back_and_forth() {
    let text = "héllo 世界 📊";
    assert_eq!(chars_of(text), text.chars().collect::<Vec<char>>());
    assert_eq!(string_of(&chars_of(text)), text);
    assert_eq!(string_of(&Vec::new()), "");
}

#[test]
fn trimming_drops_whitespace_at_both_ends_only() {
    assert_eq!(trim_text("  a b \n"), "a b");
    assert_eq!(trim_text("\u{3000}x\u{a0}"), "x");
    assert_eq!(trim_text(" \t\n"), "");
    assert_eq!(trim_text(""), "");
    assert_eq!(trim_text("solid"), "solid");
    assert_eq!(trim_chars(&chars_of(" x ")), vec!['x']);
    for text in [" a ", "a", "", "\n\na b\r\n", "\u{2003}q"] {
        assert_eq!(trim_text(text), text.trim());
    }
}

#[test]
fn words_are_runs_without_whitespace() {
    assert_eq!(count_words(&chars_of("")), 0);
    assert_eq!(count_words(&chars_of("   ")), 0);
    assert_eq!(count_words(&chars_of("one")), 1);
    assert_eq!(count_words(&chars_of(" one  two\nthree ")), 3);
    for text in ["a b c", " a", "a ", "a\u{3000}b", "x.y z"] {
        assert_eq!(count_words(&chars_of(text)), text.split_whitespace().count());
    }
}

#[test]
fn splitting_keeps_the_leading_pieces() {
    let pieces = split_leading(&chars_of("a.b..c"), '.', 3);
    assert_eq!(pieces, vec![vec!['a'], vec!['b'], vec![]]);
    assert_eq!(split_leading(&chars_of("abc"), '.', 3), vec![chars_of("abc")]);
    assert_eq!(split_leading(&chars_of(""), '.', 3), vec![Vec::<char>::new()]);
    assert_eq!(split_leading(&chars_of("a."), '.', 3), vec![vec!['a'], vec![]]);
    assert_eq!(split_leading(&chars_of("a.b"), '.', 0), Vec::<Vec<char>>::new());
    assert_eq!(find_from(&chars_of("a.b.c"), 2, '.'), 3);
    assert_eq!(find_from(&chars_of("a.b.c"), 4, '.'), 5);
    assert_eq!(slice_of(&chars_of("hello"), 1, 3), vec!['e', 'l']);
}

#[test]
fn joining_puts_the_separator_between_neighbours() {
    let parts = vec![chars_of("a"), chars_of("bc"), chars_of("")];
    assert_eq!(string_of(&join_chars(&parts, "。")), "a。bc。");
    assert_eq!(string_of(&join_chars(&Vec::new(), ", ")), "");
    let names = vec!["x".to_string(), "y".to_string()];
    assert_eq!(join_strings(&names, ", "), "x, y");
    assert_eq!(join_strings(&vec!["only".to_string()], ", "), "only");
    assert_eq!(glue("ab", "cd"), "abcd");
    assert!(same_text("wav", "wav"));
    assert!(!same_text("wav", "WAV"));
}

#[test]
fn numbers_are_written_in_decimal() {
    let mut out = vec!['#'];
    push_decimal(0, &mut out);
    push_decimal(907, &mut out);
    push_signed(-1, &mut out);
    push_signed(i32::MIN, &mut out);
    push_signed(42, &mut out);
    assert_eq!(string_of(&out), "#0907-1-214748364842");
    assert_eq!(format_timestamp(0), "0");
    assert_eq!(format_timestamp(1700000000), "1700000000");
    assert_eq!(format_timestamp(u64::MAX), "18446744073709551615");
}

#[test]
fn current_timestamp_is_a_number_of_seconds() {
    let now = get_current_timestamp();
    let seconds: u64 = now.parse().unwrap();
    assert!(seconds > 1_600_000_000);
    assert_eq!(seconds.to_string(), now);
}

#[test]
fn whitespace_is_the_twenty_five_code_points() {
    let mut found: Vec<u32> = Vec::new();
    for code in 0u32..=0x10ffff {
        if let Some(c) = char::from_u32(code) {
            let blank = count_words(&vec![c]) == 0;
            assert_eq!(blank, trim_chars(&vec![c]).is_empty());
            if blank {
                found.push(code);
            }
        }
    }
    let expected: Vec<u32> = vec![
        0x9, 0xa, 0xb, 0xc, 0xd, 0x20, 0x85, 0xa0, 0x1680, 0x2000, 0x2001, 0x2002, 0x2003,
        0x2004, 0x2005, 0x2006, 0x2007, 0x2008, 0x2009, 0x200a, 0x2028, 0x2029, 0x202f, 0x205f,
        0x3000,
    ];
    assert_eq!(found, expected);
}
