use notion_zh::text::{chars_of, find, replace_first, splice_str};

fn chars(s: &str) -> Vec<char> {
    s.chars().collect()
}

#[test]
fn chars_of_keeps_every_character_in_order() {
    assert_eq!(chars_of("a<é中>"), vec!['a', '<', 'é', '中', '>']);
    assert_eq!(chars_of(""), Vec::<char>::new());
}

#[test]
fn find_returns_the_first_of_several_occurrences() {
    assert_eq!(find(&chars("abcabc"), &chars("bc")), Some(1));
    assert_eq!(find(&chars("aaa"), &chars("aa")), Some(0));
}

#[test]
fn find_reaches_an_occurrence_at_the_very_end() {
    assert_eq!(find(&chars("xxabc"), &chars("abc")), Some(2));
    assert_eq!(find(&chars("abc"), &chars("abc")), Some(0));
}

#[test]
fn find_reports_absence() {
    assert_eq!(find(&chars("abcabc"), &chars("cb")), None);
    assert_eq!(find(&chars("ab"), &chars("abc")), None);
    assert_eq!(find(&chars(""), &chars("a")), None);
}

#[test]
fn find_does_not_take_a_partial_match_for_an_occurrence() {
    assert_eq!(find(&chars("ababac"), &chars("abac")), Some(2));
    assert_eq!(find(&chars("aab"), &chars("ab")), Some(1));
}

#[test]
fn find_sees_the_empty_needle_at_the_start() {
    assert_eq!(find(&chars("abc"), &chars("")), Some(0));
    assert_eq!(find(&chars(""), &chars("")), Some(0));
}

#[test]
fn find_counts_characters_not_bytes() {
    assert_eq!(find(&chars("中文<p>"), &chars("<p>")), Some(2));
}

#[test]
fn splice_str_replaces_the_given_range() {
    assert_eq!(splice_str("hello world", 6, 5, "there"), "hello there");
    assert_eq!(splice_str("hello", 0, 0, ">> "), ">> hello");
    assert_eq!(splice_str("hello", 5, 0, "!"), "hello!");
    assert_eq!(splice_str("hello", 0, 5, ""), "");
}

#[test]
fn splice_str_counts_characters_not_bytes() {
    assert_eq!(splice_str("中文abc", 2, 1, "É"), "中文Ébc");
}

#[test]
fn replace_first_touches_only_the_first_occurrence() {
    assert_eq!(replace_first("a-b-c", "-", "+"), "a+b-c");
    assert_eq!(replace_first("xx", "x", "xy"), "xyx");
}

#[test]
fn replace_first_copies_a_text_without_the_needle() {
    assert_eq!(replace_first("abc", "z", "+"), "abc");
    assert_eq!(replace_first("", "z", "+"), "");
}

#[test]
fn replace_first_puts_the_replacement_in_front_for_an_empty_needle() {
    assert_eq!(replace_first("abc", "", "+"), "+abc");
}
