use climate_bot::sources::common::{truncate_ellipsis, truncate_utf8, Coordinates};
use climate_bot::utils::numbers::{index_text, integer_text, number_text, parse_index, parse_number};
use climate_bot::utils::text::{
    chars_of, collect_somes, contains, find_first, join, replace_first, string_of,
};

#[test]
fn truncate_utf8_keeps_short_text() {
    let mut s = String::from("Wien");
    truncate_utf8(&mut s, 10);
    assert_eq!(s, "Wien");
    truncate_utf8(&mut s, 4);
    assert_eq!(s, "Wien");
}

#[test]
fn truncate_utf8_counts_characters_not_bytes() {
    let mut s = String::from("Übersee-Österreich");
    truncate_utf8(&mut s, 9);
    assert_eq!(s, "Übersee-Ö");
    truncate_utf8(&mut s, 0);
    assert_eq!(s, "");
}

#[test]
fn truncate_ellipsis_cuts_to_exact_width() {
    let mut s = "a".repeat(150);
    truncate_ellipsis(&mut s, 100, "...");
    assert_eq!(s.chars().count(), 100);
    assert!(s.ends_with("..."));
    assert_eq!(s, format!("{}...", "a".repeat(97)));
}

#[test]
fn truncate_ellipsis_leaves_fitting_text_unchanged() {
    let mut s = "b".repeat(100);
    truncate_ellipsis(&mut s, 100, "...");
    assert_eq!(s, "b".repeat(100));
    let mut t = "c".repeat(98);
    truncate_ellipsis(&mut t, 100, "...");
    assert_eq!(t, "c".repeat(98));
    let mut empty = String::new();
    truncate_ellipsis(&mut empty, 3, "...");
    assert_eq!(empty, "");
}

#[test]
fn truncate_ellipsis_cuts_one_character_over_the_width() {
    let mut s = "d".repeat(101);
    truncate_ellipsis(&mut s, 100, "...");
    assert_eq!(s, format!("{}...", "d".repeat(97)));
}

#[test]
fn truncate_ellipsis_counts_the_mark_in_characters() {
    let mut s = String::from("Österreichische Bundesländer");
    truncate_ellipsis(&mut s, 10, "…");
    assert_eq!(s, "Österreic…");
    assert_eq!(s.chars().count(), 10);
    let mut t = String::from("abcdef");
    truncate_ellipsis(&mut t, 3, "...");
    assert_eq!(t, "...");
    let mut u = String::from("abcdef");
    truncate_ellipsis(&mut u, 4, "");
    assert_eq!(u, "abcd");
}

#[test]
fn characters_go_in_and_out_of_strings() {
    let chars = chars_of("Aé🇦");
    assert_eq!(chars, vec!['A', 'é', '\u{1F1E6}']);
    assert_eq!(string_of(&chars), "Aé🇦");
    assert_eq!(string_of(&chars_of("")), "");
}

#[test]
fn collect_somes_keeps_what_is_present_in_order() {
    let a = String::from("a");
    let c = String::from("c");
    assert_eq!(
        collect_somes(&[Some(&a), None, Some(&c)]),
        Some(vec![String::from("a"), String::from("c")])
    );
    assert_eq!(collect_somes(&[None, None]), None);
    assert_eq!(collect_somes(&[]), None);
    assert_eq!(collect_somes(&[Some(&c)]), Some(vec![String::from("c")]));
}

#[test]
fn join_puts_the_separator_between_neighbours() {
    let parts = vec![String::from("Wien"), String::from("Niederösterreich"), String::from("AT")];
    assert_eq!(join(&parts, ", "), "Wien, Niederösterreich, AT");
    assert_eq!(join(&parts[..1].to_vec(), ", "), "Wien");
    assert_eq!(join(&Vec::new(), ", "), "");
    assert_eq!(join(&vec![String::new(), String::new()], "-"), "-");
}

#[test]
fn find_first_returns_the_least_position() {
    let hay = chars_of("abcabc");
    assert_eq!(find_first(&hay, &chars_of("bc")), Some(1));
    assert_eq!(find_first(&hay, &chars_of("abc")), Some(0));
    assert_eq!(find_first(&hay, &chars_of("c")), Some(2));
    assert_eq!(find_first(&hay, &chars_of("cb")), None);
    assert_eq!(find_first(&hay, &chars_of("abcabcd")), None);
    assert_eq!(find_first(&hay, &chars_of("")), Some(0));
    assert_eq!(find_first(&chars_of(""), &chars_of("")), Some(0));
    assert_eq!(find_first(&hay, &chars_of("abcabc")), Some(0));
}

#[test]
fn contains_agrees_with_the_standard_library() {
    for (hay, needle) in [("Wien", "ie"), ("Wien", "Vienna"), ("", ""), ("Wien", ""), ("", "a"), ("ääö", "äö")] {
        assert_eq!(contains(hay, needle), hay.contains(needle), "{:?} in {:?}", needle, hay);
    }
}

#[test]
fn replace_first_agrees_with_the_standard_library() {
    for (hay, needle, to) in [
        ("Wien, Wien", "Wien", "Wien (Vienna)"),
        ("Graz", "Wien", "x"),
        ("abc", "", "-"),
        ("", "", "-"),
        ("aaa", "aa", "b"),
        ("Zürich, Zürich", "Zürich", "Z"),
        ("end", "d", ""),
    ] {
        assert_eq!(replace_first(hay, needle, to), hay.replacen(needle, to, 1));
    }
    assert_eq!(replace_first("Wien, Wien", "Wien", "Wien (Vienna)"), "Wien (Vienna), Wien");
}

#[test]
fn indices_are_written_in_decimal() {
    assert_eq!(index_text(0), "0");
    assert_eq!(index_text(7), "7");
    assert_eq!(index_text(10), "10");
    assert_eq!(index_text(1234567890), "1234567890");
    assert_eq!(index_text(usize::MAX), usize::MAX.to_string());
    assert_eq!(number_text(u64::MAX), "18446744073709551615");
}

#[test]
fn integers_are_written_with_their_sign() {
    assert_eq!(integer_text(0), "0");
    assert_eq!(integer_text(-1), "-1");
    assert_eq!(integer_text(1_700_000_000), "1700000000");
    assert_eq!(integer_text(i64::MIN), "-9223372036854775808");
    assert_eq!(integer_text(i64::MAX), "9223372036854775807");
}

#[test]
fn indices_are_read_like_the_standard_library_reads_them() {
    for text in [
        "0", "7", "007", "+7", "+", "", "-0", "-7", "7a", "a7", " 7", "7 ", "１", "1_0",
        "18446744073709551615", "18446744073709551616", "99999999999999999999999", "++1", "+-1",
        "0x10",
    ] {
        assert_eq!(parse_index(text), text.parse::<usize>().ok(), "text {:?}", text);
    }
    assert_eq!(parse_index("42"), Some(42));
}

#[test]
fn written_indices_are_read_back() {
    for n in [0usize, 1, 9, 10, 99, 100, 12345, usize::MAX] {
        assert_eq!(parse_index(&index_text(n)), Some(n));
    }
}

#[test]
fn coordinates_are_equal_by_their_thousandths() {
    let a = Coordinates::new(48_208, 16_373);
    let b = Coordinates { latitude: 48_208, longitude: 16_373 };
    assert_eq!(a, b);
    assert_ne!(a, Coordinates::new(48_209, 16_373));
    assert_ne!(a, Coordinates::new(48_208, -16_373));
    let mut seen = std::collections::HashSet::new();
    seen.insert(a);
    assert!(seen.contains(&b));
}

#[test]
fn numbers_are_read_like_the_standard_library_reads_them() {
    for text in [
        "0", "42", "+42", "", "+", "-1", "4 2", "18446744073709551615", "18446744073709551616",
        "000000000000000000000000000001", "١٢٣",
    ] {
        assert_eq!(parse_number(text), text.parse::<u64>().ok(), "text {:?}", text);
    }
}

#[test]
fn truncate_ellipsis_leaves_fitting_text_unchanged_whatever_the_mark() {
    let mut s = String::from("ab");
    truncate_ellipsis(&mut s, 2, "...");
    assert_eq!(s, "ab");
    let mut empty = String::new();
    truncate_ellipsis(&mut empty, 0, "a very long mark");
    assert_eq!(empty, "");
    let mut t = String::from("Österreich");
    truncate_ellipsis(&mut t, 10, "…………………………");
    assert_eq!(t, "Österreich");
}
