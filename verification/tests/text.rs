use hacknotts_checkin::text::{center, contains, decimal_text, replace_all, same_text, to_chars};

#[test]
fn to_chars_keeps_every_character() {
    assert_eq!(to_chars("héllo"), vec!['h', 'é', 'l', 'l', 'o']);
    assert_eq!(to_chars(""), Vec::<char>::new());
}

#[test]
fn same_text_compares_exactly() {
    assert!(same_text("Pizza Choice!", "Pizza Choice!"));
    assert!(!same_text("Pizza Choice!", "pizza choice!"));
    assert!(!same_text("Pizza Choice!", "Pizza Choice"));
    assert!(same_text("", ""));
}

#[test]
fn contains_finds_a_token_anywhere() {
    assert!(contains("Hello {{name}}", "{{name}}"));
    assert!(contains("{{name}}", "{{name}}"));
    assert!(!contains("Hello {name}", "{{name}}"));
    assert!(!contains("{{nam", "{{name}}"));
    assert!(contains("anything", ""));
    assert!(contains("", ""));
    assert!(!contains("", "x"));
}

#[test]
fn replace_all_replaces_every_occurrence() {
    assert_eq!(replace_all("a--b--c", "--", "+"), "a+b+c");
    assert_eq!(replace_all("--", "--", ""), "");
    assert_eq!(replace_all("abc", "--", "+"), "abc");
    assert_eq!(replace_all("", "--", "+"), "");
}

#[test]
fn replace_all_does_not_read_a_replacement_again() {
    assert_eq!(replace_all("aaa", "aa", "b"), "ba");
    assert_eq!(replace_all("aaaa", "aa", "a"), "aa");
    assert_eq!(replace_all("xx", "x", "xx"), "xxxx");
}

#[test]
fn replace_all_leaves_text_alone_for_an_empty_token() {
    assert_eq!(replace_all("abc", "", "+"), "abc");
}

#[test]
fn replace_all_agrees_with_the_standard_library() {
    let texts = ["", "a", "ab", "abab", "aabaab", "{{x}}{{x}}", "é{{x}}ü", "{{{x}}}", "{{x}{{x}}"];
    let tokens = ["a", "ab", "aa", "{{x}}", "b", "é"];
    let values = ["", "z", "ab", "{{x}}", "ü"];
    for text in texts {
        for token in tokens {
            for value in values {
                assert_eq!(replace_all(text, token, value), text.replace(token, value));
            }
        }
    }
}

#[test]
fn center_splits_the_padding() {
    assert_eq!(center("ab", 6), "  ab  ");
    assert_eq!(center("abc", 6), " abc  ");
    assert_eq!(center("", 3), "   ");
    assert_eq!(center("abcdef", 6), "abcdef");
    assert_eq!(center("abcdefg", 6), "abcdefg");
    assert_eq!(center("é", 4), " é  ");
}

#[test]
fn center_agrees_with_the_standard_library() {
    for text in ["", "a", "HackNotts 24", "James Harvey", "0123456789012345678901234567890123456789x"] {
        assert_eq!(center(text, 40), format!("{:^40}", text));
    }
}

#[test]
fn decimal_text_writes_numerals() {
    assert_eq!(decimal_text(0), "0");
    assert_eq!(decimal_text(7), "7");
    assert_eq!(decimal_text(10), "10");
    assert_eq!(decimal_text(111111), "111111");
    assert_eq!(decimal_text(u64::MAX), "18446744073709551615");
}
