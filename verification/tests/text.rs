use cktool::text::chars_of;
use cktool::text::decimal_string;
use cktool::text::find_first;
use cktool::text::find_last;
use cktool::text::matches_at;
use cktool::text::push_chars;
use cktool::text::push_decimal;
use cktool::text::push_text;
use cktool::text::slice_of;
use cktool::text::split_at_each;
use cktool::text::string_of;
use cktool::text::without;

fn chars(s: &str) -> Vec<char> {
    s.chars().collect()
}

#[test]
fn chars_and_strings_convert_both_ways() {
    assert_eq!(chars_of("añb"), vec!['a', 'ñ', 'b']);
    assert_eq!(chars_of(""), Vec::<char>::new());
    assert_eq!(string_of(&vec!['a', 'ñ', 'b']), "añb");
    assert_eq!(string_of(&Vec::new()), "");
}

#[test]
fn decimal_string_writes_numerals() {
    assert_eq!(decimal_string(0), "0");
    assert_eq!(decimal_string(7), "7");
    assert_eq!(decimal_string(10), "10");
    assert_eq!(decimal_string(1905), "1905");
    assert_eq!(decimal_string(u64::MAX as u128), "18446744073709551615");
    assert_eq!(decimal_string(u128::MAX), "340282366920938463463374607431768211455");
}

#[test]
fn pushes_append() {
    let mut out = chars("ab");
    push_text(&mut out, "cd");
    push_chars(&mut out, &chars("ef"));
    push_decimal(&mut out, 120);
    assert_eq!(string_of(&out), "abcdef120");
}

#[test]
fn slice_of_takes_a_range() {
    assert_eq!(slice_of(&chars("abcdef"), 1, 4), chars("bcd"));
    assert_eq!(slice_of(&chars("abcdef"), 2, 2), chars(""));
    assert_eq!(slice_of(&chars("abcdef"), 0, 6), chars("abcdef"));
}

#[test]
fn find_first_and_last() {
    assert_eq!(find_first(&chars("a/b/c"), '/'), 1);
    assert_eq!(find_first(&chars("abc"), '/'), 3);
    assert_eq!(find_first(&chars(""), '/'), 0);
    assert_eq!(find_last(&chars("a/b/c"), '/'), Some(3));
    assert_eq!(find_last(&chars("/"), '/'), Some(0));
    assert_eq!(find_last(&chars("abc"), '/'), None);
}

#[test]
fn matches_at_compares_in_place() {
    assert!(matches_at(&chars("hello"), 1, &chars("ell")));
    assert!(!matches_at(&chars("hello"), 2, &chars("ell")));
    assert!(!matches_at(&chars("hello"), 3, &chars("lox")));
    assert!(matches_at(&chars("hello"), 5, &chars("")));
    assert!(!matches_at(&chars("hello"), 6, &chars("")));
    assert!(!matches_at(&chars("hi"), 0, &chars("high")));
}

#[test]
fn without_removes_from_the_left() {
    assert_eq!(
        without(&chars("https://kemono.su/api/v1/patreon/user/1"), &chars("api/v1/")),
        chars("https://kemono.su/patreon/user/1")
    );
    assert_eq!(without(&chars("aaa"), &chars("aa")), chars("a"));
    assert_eq!(without(&chars("abab"), &chars("ab")), chars(""));
    assert_eq!(without(&chars("abc"), &chars("")), chars("abc"));
    assert_eq!(without(&chars("abc"), &chars("abcd")), chars("abc"));
    assert_eq!(without(&chars("xapi/v1/api/v1/y"), &chars("api/v1/")), chars("xy"));
}

#[test]
fn split_at_each_keeps_empty_pieces() {
    assert_eq!(split_at_each(&chars("a\nb\nc"), '\n'), vec!["a", "b", "c"]);
    assert_eq!(split_at_each(&chars("a\n\nb\n"), '\n'), vec!["a", "", "b", ""]);
    assert_eq!(split_at_each(&chars(""), '\n'), vec![""]);
    assert_eq!(split_at_each(&chars("\n"), '\n'), vec!["", ""]);
}
