use std::collections::HashSet;

use mutxt::editor::SyntaxHighlightRule;
use mutxt::syntax_highlight::{HighlightParams, HighlightType, HIGHLIGHT_NUMBERS, HIGHLIGHT_STRINGS};

#[test]
fn highlight_params_hold_their_switches() {
    let none = HighlightParams::empty();
    assert_eq!(none.bits(), 0);
    let strings = HighlightParams::from_bits_truncate(HIGHLIGHT_STRINGS);
    let numbers = HighlightParams::from_bits_truncate(HIGHLIGHT_NUMBERS);
    let both = HighlightParams::from_bits_truncate(HIGHLIGHT_STRINGS | HIGHLIGHT_NUMBERS);
    assert_eq!(strings.bits(), 1);
    assert_eq!(numbers.bits(), 2);
    assert_eq!(both.bits(), 3);
    assert!(both.contains(strings));
    assert!(both.contains(numbers));
    assert!(!strings.contains(numbers));
    assert!(strings.contains(none));
    assert_eq!(HighlightParams::from_bits_truncate(0xFF), both);
}

#[test]
fn syntax_rule_holds_the_elements_of_a_language() {
    let rule = SyntaxHighlightRule {
        keywords: HashSet::from([String::from("fn"), String::from("let"), String::from("fn")]),
        single_line_comment_start: HashSet::from([String::from("//")]),
        multi_line_comment_start: String::from("/*"),
        multi_line_comment_end: String::from("*/"),
        params: HighlightParams::from_bits_truncate(HIGHLIGHT_NUMBERS),
    };
    assert_eq!(rule.keywords.len(), 2);
    assert!(rule.keywords.contains("let"));
    assert!(rule.single_line_comment_start.contains("//"));
    assert_eq!(rule.multi_line_comment_start, "/*");
    assert_eq!(rule.multi_line_comment_end, "*/");
    assert_eq!(rule.params.bits(), 2);
    assert_ne!(HighlightType::SingleLineComment, HighlightType::MultiLineComment);
}
