use git_monitor::text::{
    any_line_reads, chars_of, decimal_text, has_substring, replace_all, same_text, trim,
    whitespace,
};

#[test]
fn trim_removes_white_space_at_both_ends() {
    assert_eq!(trim("  abc \n"), "abc");
    assert_eq!(trim("\t\r\n a b \u{00A0}\u{3000}"), "a b");
}

#[test]
fn trim_keeps_inner_white_space() {
    assert_eq!(trim("a  b"), "a  b");
}

#[test]
fn trim_of_blank_text_is_empty() {
    assert_eq!(trim(""), "");
    assert_eq!(trim(" \n\t "), "");
}

#[test]
fn trim_agrees_with_the_standard_library() {
    let samples = [
        "",
        " ",
        "x",
        " x",
        "x ",
        "\u{0085}x\u{2028}",
        "\u{1680}\u{2000}y\u{200A}\u{202F}\u{205F}",
        "\u{000B}z\u{000C}",
        "\u{200B}not space\u{200B}",
        "é  ü ",
    ];
    for s in samples {
        assert_eq!(trim(s), s.trim());
    }
}

#[test]
fn whitespace_agrees_with_the_standard_library() {
    let mut n: u32 = 0;
    while n < 0x3100 {
        if let Some(c) = char::from_u32(n) {
            assert_eq!(whitespace(c), c.is_whitespace(), "U+{:04X}", n);
        }
        n += 1;
    }
}

#[test]
fn chars_of_multibyte_text() {
    assert_eq!(chars_of("aé√"), vec!['a', 'é', '√']);
    assert_eq!(chars_of(""), Vec::<char>::new());
}

#[test]
fn substring_found_anywhere() {
    assert!(has_substring("fatal: dubious ownership in repo", "dubious ownership"));
    assert!(has_substring("abc", "abc"));
    assert!(has_substring("abc", "c"));
    assert!(has_substring("abc", "a"));
    assert!(has_substring("abc", ""));
    assert!(has_substring("", ""));
}

#[test]
fn substring_absent() {
    assert!(!has_substring("abc", "abd"));
    assert!(!has_substring("ab", "abc"));
    assert!(!has_substring("", "a"));
    assert!(!has_substring("aab", "aba"));
}

#[test]
fn line_search_matches_whole_trimmed_lines() {
    let listing = "/var/www/ais/aaaa\n  /var/www/ais/bbbb  \r\n/var/www/ais/cccc";
    assert!(any_line_reads(listing, "/var/www/ais/aaaa"));
    assert!(any_line_reads(listing, "/var/www/ais/bbbb"));
    assert!(any_line_reads(listing, "/var/www/ais/cccc"));
    assert!(!any_line_reads(listing, "/var/www/ais/ccc"));
    assert!(!any_line_reads(listing, "/var/www/ais"));
    assert!(!any_line_reads(listing, "/var/www/ais/aaaa\n  /var/www/ais/bbbb"));
}

#[test]
fn line_search_on_empty_and_blank_listings() {
    assert!(!any_line_reads("", "x"));
    assert!(!any_line_reads("", ""));
    assert!(any_line_reads("\n", ""));
    assert!(!any_line_reads("x\n", ""));
    assert!(any_line_reads("x\n\n", ""));
}

#[test]
fn line_search_agrees_with_the_standard_library() {
    let texts = ["", "\n", "a", "a\n", "a\nb", " a \n\n b\r\n", "\r", "a\r\nb\r", "\n\n"];
    let wanted = ["", "a", "b", " a", "a\nb"];
    for t in texts {
        for w in wanted {
            assert_eq!(any_line_reads(t, w), t.lines().any(|l| l.trim() == w), "{:?} {:?}", t, w);
        }
    }
}

#[test]
fn replace_all_replaces_every_occurrence() {
    assert_eq!(replace_all("a-b-c", "-", "+"), "a+b+c");
    assert_eq!(replace_all("aaaa", "aa", "b"), "bb");
    assert_eq!(replace_all("aaa", "aa", "b"), "ba");
    assert_eq!(replace_all("abc", "x", "y"), "abc");
    assert_eq!(replace_all("", "x", "y"), "");
    assert_eq!(replace_all("abc", "abc", ""), "");
    assert_eq!(replace_all("ab", "abc", "x"), "ab");
}

#[test]
fn replace_all_with_empty_pattern_changes_nothing() {
    assert_eq!(replace_all("abc", "", "x"), "abc");
}

#[test]
fn replace_all_agrees_with_the_standard_library() {
    let texts = ["https://github.com/a/b.git", "https://https://x", "http://x", "héllo wörld"];
    let pairs = [("https://", "https://oauth2:t@"), ("l", "LL"), ("ö", "o"), ("x", "")];
    for t in texts {
        for (from, to) in pairs {
            assert_eq!(replace_all(t, from, to), t.replace(from, to));
        }
    }
}

#[test]
fn decimal_text_of_numbers() {
    assert_eq!(decimal_text(0), "0");
    assert_eq!(decimal_text(6), "6");
    assert_eq!(decimal_text(10), "10");
    assert_eq!(decimal_text(907), "907");
    assert_eq!(decimal_text(usize::MAX), usize::MAX.to_string());
}

#[test]
fn same_text_compares_whole_strings() {
    assert!(same_text("1", "1"));
    assert!(!same_text("1", "1 "));
    assert!(!same_text("1", "2"));
    assert!(same_text("", ""));
}
