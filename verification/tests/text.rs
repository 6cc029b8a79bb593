use harness_registry::text::{
    blank, chars_of, comma_list, first_piece, parse_unsigned, reads_as, str_eq, strip_prefix,
    to_decimal, trim, white_space,
};

#[test]
fn white_space_is_what_unicode_says_it_is() {
    for n in 0..=0x10ffff_u32 {
        if let Some(c) = char::from_u32(n) {
            assert_eq!(white_space(c), c.is_whitespace(), "{n:#x}");
        }
    }
}

#[test]
fn trimming_takes_white_space_off_both_ends() {
    for s in ["", " ", "a", " a", "a ", "\t a b \n", "\u{3000}x\u{a0}", "\u{200b}x", "é ü"] {
        assert_eq!(trim(s), s.trim(), "{s:?}");
        assert_eq!(blank(s), s.trim().is_empty(), "{s:?}");
    }
}

#[test]
fn strings_are_compared_character_by_character() {
    assert!(str_eq("", ""));
    assert!(str_eq("abé", "abé"));
    assert!(!str_eq("ab", "abc"));
    assert!(!str_eq("ab", "aB"));
    assert_eq!(chars_of("aé"), vec!['a', 'é']);
}

#[test]
fn a_prefix_is_taken_off_once() {
    assert_eq!(strip_prefix("ababx", "ab"), Some("abx"));
    assert_eq!(strip_prefix("ab", "ab"), Some(""));
    assert_eq!(strip_prefix("a", "ab"), None);
    assert_eq!(strip_prefix("xab", "ab"), None);
    assert_eq!(strip_prefix("", ""), Some(""));
}

#[test]
fn the_first_piece_ends_at_the_first_separator() {
    assert_eq!(first_piece("a,b,c", ','), "a");
    assert_eq!(first_piece(",b", ','), "");
    assert_eq!(first_piece("abc", ','), "abc");
    assert_eq!(first_piece("", ','), "");
}

#[test]
fn a_list_leaves_out_what_is_blank() {
    assert_eq!(comma_list(" a , ,b,, c\t"), vec!["a", "b", "c"]);
    assert!(comma_list("").is_empty());
    assert!(comma_list(" , ,").is_empty());
    assert_eq!(comma_list("one"), vec!["one"]);
}

#[test]
fn only_ascii_letters_are_lowered() {
    assert!(reads_as("RecenT", "recent"));
    assert!(!reads_as("recent ", "recent"));
    assert!(!reads_as("É", "é"));
    assert!(!reads_as("[", "{"));
}

#[test]
fn numbers_are_written_in_decimal() {
    for n in [0, 7, 10, 64, 120, 2_000, 99_999, usize::MAX] {
        assert_eq!(to_decimal(n), n.to_string());
    }
}

#[test]
fn numbers_are_read_like_the_standard_library_reads_them() {
    for s in [
        "", "+", "-", "0", "+0", "007", "60", "+60", "-1", " 60", "60 ", "6_0", "0x1", "++1",
        "4294967295", "4294967296", "99999999999999999999", "18446744073709551615",
        "18446744073709551616", "٣",
    ] {
        assert_eq!(parse_unsigned(s, u64::MAX), s.parse::<u64>().ok(), "{s:?}");
        assert_eq!(
            parse_unsigned(s, u32::MAX as u64),
            s.parse::<u32>().ok().map(u64::from),
            "{s:?}"
        );
        assert_eq!(parse_unsigned(s, 5), s.parse::<u64>().ok().filter(|n| *n <= 5), "{s:?}");
    }
}
