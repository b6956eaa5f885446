use md2pdf::error::Md2PdfError;
use md2pdf::template::{
    default_css, default_rule_set, generate_html, rule_set_css, LayoutRule, LayoutRuleSet,
    RuleBehavior, Selector,
};

#[test]
fn test_default_css_not_empty() {
    let css = default_css();
    assert!(!css.is_empty());
    assert!(css.contains("@page"));
    assert!(css.contains("page-break-inside"));
}

#[test]
fn test_generate_html() {
    let content = "<h1>Test</h1><p>Content</p>";
    let css = "body { color: red; }";
    let html = generate_html(content, css);

    assert!(html.contains("<!DOCTYPE html>"));
    assert!(html.contains(content));
    assert!(html.contains(css));
}

#[test]
fn test_heading_affinity_rule() {
    // A heading followed by a paragraph: the element-after-heading
    // selector must demand no break before that element.
    let rules = default_rule_set();
    let behavior = rules.query(Selector::AfterHeading).unwrap();
    assert!(behavior.avoid_break_before);
    assert!(!behavior.avoid_break_inside);
    assert!(!behavior.avoid_break_after);
}

#[test]
fn test_default_rules_exact_table() {
    let rules = default_rule_set();
    let heading = rules.query(Selector::Heading).unwrap();
    assert!(heading.avoid_break_after && heading.avoid_break_inside);
    assert!(rules.query(Selector::TableMarker).unwrap().avoid_break_inside);
    assert!(rules.query(Selector::CodeBlockMarker).unwrap().avoid_break_inside);
    assert!(rules.query(Selector::BlockQuoteMarker).unwrap().avoid_break_inside);
    assert!(rules.query(Selector::ListContainer).unwrap().avoid_break_inside);
    let li = rules.query(Selector::ListItem).unwrap();
    assert_eq!((li.min_orphans, li.min_widows), (2, 2));
    let p = rules.query(Selector::Paragraph).unwrap();
    assert_eq!((p.min_orphans, p.min_widows), (3, 3));
    assert!(rules.query(Selector::HorizontalRule).unwrap().avoid_break_after);
    assert!(rules.query(Selector::Image).unwrap().avoid_break_inside);
}

#[test]
fn test_default_rule_set_is_valid() {
    let rules = default_rule_set();
    assert!(rules.validate().is_ok());
}

#[test]
fn test_rule_set_missing_selector_rejected() {
    let one_rule = LayoutRuleSet {
        rules: vec![LayoutRule {
            selector: Selector::Heading,
            behavior: RuleBehavior {
                avoid_break_inside: true,
                avoid_break_before: false,
                avoid_break_after: true,
                min_orphans: 0,
                min_widows: 0,
            },
        }],
    };
    let result = one_rule.validate();
    assert!(matches!(result, Err(Md2PdfError::Template(_))));
}

#[test]
fn test_rule_set_css_serialization() {
    let rules = default_rule_set();
    let css = rule_set_css(&rules);
    assert!(css.contains(
        "h1, h2, h3, h4, h5, h6 {\n    page-break-inside: avoid;\n    break-inside: avoid;\n    page-break-after: avoid;\n    break-after: avoid;\n}\n\n"
    ));
    assert!(css.contains(".table-wrapper {\n    page-break-inside: avoid;\n    break-inside: avoid;\n}\n\n"));
    assert!(css.contains("li {\n    orphans: 2;\n    widows: 2;\n}\n\n"));
    assert!(css.contains("p {\n    orphans: 3;\n    widows: 3;\n}\n\n"));
    assert!(css.contains("h1 + *, h2 + *, h3 + *, h4 + *, h5 + *, h6 + * {\n    page-break-before: avoid;\n    break-before: avoid;\n}\n\n"));
}

#[test]
fn test_query_unknown_selector_in_empty_set() {
    let empty = LayoutRuleSet { rules: vec![] };
    assert_eq!(empty.query(Selector::Paragraph), None);
}
