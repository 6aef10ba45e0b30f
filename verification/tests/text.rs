use mood::text::{
    chars_of, contains, decimal, ends_with, is_blank, remove_char, replace_all, same_text,
    split_at_char, starts_with, text_of, trim,
};

#[test]
fn chars_and_back() {
    let v = chars_of("häß 💖");
    assert_eq!(v, vec!['h', 'ä', 'ß', ' ', '💖']);
    assert_eq!(text_of(&v), "häß 💖");
    assert_eq!(text_of(&Vec::new()), "");
}

#[test]
fn same_text_compares_characters() {
    assert!(same_text("admin", "admin"));
    assert!(!same_text("admin", "Admin"));
    assert!(!same_text("admin", "admin "));
    assert!(same_text("", ""));
}

#[test]
fn concat_appends() {
    assert_eq!(mood::text::concat("ab", "cd"), "abcd");
    assert_eq!(mood::text::concat("", "x"), "x");
    assert_eq!(mood::text::concat("x", ""), "x");
}

#[test]
fn prefix_suffix_infix() {
    assert!(starts_with("ai/users", "ai"));
    assert!(starts_with("ai", "ai"));
    assert!(!starts_with("a", "ai"));
    assert!(starts_with("anything", ""));
    assert!(ends_with("x.json", ".json"));
    assert!(!ends_with("x.jsonl", ".json"));
    assert!(!ends_with("son", ".json"));
    assert!(contains("a UNIQUE b", "UNIQUE"));
    assert!(contains("UNIQUE", "UNIQUE"));
    assert!(!contains("UNIQU", "UNIQUE"));
    assert!(contains("abc", ""));
    assert!(contains("", ""));
    assert!(!contains("", "a"));
}

#[test]
fn trim_matches_std() {
    let cases = [
        "",
        " ",
        "a",
        "  a b  ",
        "\t\r\n x \u{a0}",
        "\u{3000}wide\u{2003}",
        "no-space",
        " \u{85}next line\u{2028}",
        "x ",
        " x",
    ];
    for case in cases {
        assert_eq!(trim(case), case.trim(), "case {:?}", case);
        assert_eq!(is_blank(case), case.trim().is_empty(), "case {:?}", case);
    }
}

#[test]
fn trim_keeps_inner_whitespace() {
    assert_eq!(trim("  a  b  "), "a  b");
}

#[test]
fn remove_char_takes_all_out() {
    assert_eq!(remove_char("a-b--c-", '-'), "abc");
    assert_eq!(remove_char("---", '-'), "");
    assert_eq!(remove_char("abc", '-'), "abc");
}

#[test]
fn replace_all_matches_std_for_patterns() {
    let cases = [
        ("Hallo {username}!", "{username}", "Mia"),
        ("{mood}{mood}", "{mood}", "-3"),
        ("aaa", "aa", "b"),
        ("aaaa", "aa", "b"),
        ("abc", "x", "y"),
        ("", "x", "y"),
        ("xyz", "xyz", ""),
        ("ab", "abc", "z"),
        ("{a}{a", "{a}", "{a}{a}"),
    ];
    for (s, pat, to) in cases {
        assert_eq!(replace_all(s, pat, to), s.replace(pat, to), "case {:?}", (s, pat, to));
    }
}

#[test]
fn replace_all_leaves_text_alone_for_empty_pattern() {
    assert_eq!(replace_all("abc", "", "x"), "abc");
}

#[test]
fn decimal_matches_std() {
    for v in [0, 1, -1, 9, 10, 11, -10, 99, 100, 12345, -98765, i32::MAX, i32::MIN] {
        assert_eq!(decimal(v), v.to_string());
    }
}

#[test]
fn split_gives_pieces() {
    assert_eq!(split_at_char("a\nb", '\n'), vec!["a", "b"]);
    assert_eq!(split_at_char("", '\n'), vec![""]);
    assert_eq!(split_at_char("\n", '\n'), vec!["", ""]);
    assert_eq!(split_at_char("a\n\nb\n", '\n'), vec!["a", "", "b", ""]);
    assert_eq!(split_at_char("abc", '\n'), vec!["abc"]);
}
