use sanctifier::pattern::matches_pattern;
use sanctifier::text::{chars_of, split_lines, string_of, text_with_number};

#[test]
fn test_matches_pattern_exact() {
    assert!(matches_pattern("transfer", "transfer"));
    assert!(!matches_pattern("transfer", "mint"));
}

#[test]
fn test_matches_pattern_wildcard() {
    assert!(matches_pattern("unsafe_transfer", "*transfer"));
    assert!(matches_pattern("transfer_from", "transfer*"));
    assert!(matches_pattern("do_transfer_now", "*transfer*"));
}

#[test]
fn plain_pattern_is_a_substring_test() {
    assert!(matches_pattern("do_transfer_now", "transfer"));
    assert!(!matches_pattern("trans", "transfer"));
    assert!(matches_pattern("anything", ""));
}

#[test]
fn single_star_checks_prefix_and_suffix() {
    assert!(!matches_pattern("transfer_from", "*transfer"));
    assert!(!matches_pattern("unsafe_transfer", "transfer*"));
    assert!(matches_pattern("set_admin", "set*admin"));
    assert!(matches_pattern("setadmin", "set*admin"));
    assert!(!matches_pattern("set_owner", "set*admin"));
    // prefix and suffix may overlap
    assert!(matches_pattern("a", "a*a"));
    assert!(matches_pattern("", "*"));
    assert!(matches_pattern("whatever", "*"));
}

#[test]
fn several_stars_trim_and_search() {
    assert!(matches_pattern("xx_mid_yy", "**mid**"));
    assert!(!matches_pattern("xx_mi_yy", "**mid**"));
    // inner stars are kept and must occur literally
    assert!(matches_pattern("a*b", "*a*b*"));
    assert!(!matches_pattern("ab", "*a*b*"));
    assert!(matches_pattern("", "***"));
}

#[test]
fn every_pattern_matches_itself() {
    for p in ["", "*", "a*b", "*x*", "**", "plain", "a**b*"] {
        assert!(matches_pattern(p, p), "{}", p);
    }
}

#[test]
fn lines_follow_str_lines() {
    for text in ["", "a", "a\n", "a\nb", "a\r\nb\r\n", "\n\n", "x\r", "one\ntwo\r\nthree", "\r\n"] {
        let got: Vec<String> = split_lines(&chars_of(text)).iter().map(|l| string_of(l)).collect();
        let want: Vec<String> = text.lines().map(|l| l.to_string()).collect();
        assert_eq!(got, want, "{:?}", text);
    }
}

#[test]
fn numbers_are_rendered_in_decimal() {
    assert_eq!(text_with_number("line ", 0), "line 0");
    assert_eq!(text_with_number("line ", 7), "line 7");
    assert_eq!(text_with_number("line ", 10), "line 10");
    assert_eq!(text_with_number("n=", 1234567890), "n=1234567890");
    assert_eq!(text_with_number("", usize::MAX), usize::MAX.to_string());
}
