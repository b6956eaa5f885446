//! The layout rule set and document assembly.
//!
//! Pagination semantics live here as data: a table from selectors to
//! break behaviors, queryable and serializable to style rules. The
//! annotator's markers and this table are two halves of one contract:
//! the markers name the regions, the table says what the renderer must
//! not do to them.

use vstd::prelude::*;
use vstd::string::StringExecFns;

use crate::error::Md2PdfError;

verus! {

/// What a layout rule applies to: an element kind or one of the injected
/// marker classes.
#[derive(Clone, Copy, Debug, PartialEq, Eq, Structural)]
pub enum Selector {
    /// Any heading element, level one through six.
    Heading,
    /// The element immediately following any heading.
    AfterHeading,
    /// The injected non-splitting marker around tables.
    TableMarker,
    /// The injected non-splitting marker around code blocks.
    CodeBlockMarker,
    /// The injected non-splitting marker around block quotations.
    BlockQuoteMarker,
    /// List containers.
    ListContainer,
    /// List items.
    ListItem,
    /// Paragraphs.
    Paragraph,
    /// Horizontal rules.
    HorizontalRule,
    /// Images.
    Image,
}

/// The pagination behavior a rule demands of the renderer.
#[derive(Clone, Copy, Debug, PartialEq, Eq, Structural)]
pub struct RuleBehavior {
    /// Never break a page inside the element.
    pub avoid_break_inside: bool,
    /// Never break a page just before the element.
    pub avoid_break_before: bool,
    /// Never break a page just after the element.
    pub avoid_break_after: bool,
    /// Minimum lines kept together at the bottom of a page; zero means
    /// no constraint.
    pub min_orphans: u32,
    /// Minimum lines kept together at the top of a page; zero means no
    /// constraint.
    pub min_widows: u32,
}

/// One pagination rule.
#[derive(Clone, Copy, Debug, PartialEq, Eq, Structural)]
pub struct LayoutRule {
    pub selector: Selector,
    pub behavior: RuleBehavior,
}

/// A complete rule set: built once, read-only afterwards; a caller may
/// replace it wholesale, never merge into it.
#[derive(Clone, Debug)]
pub struct LayoutRuleSet {
    pub rules: Vec<LayoutRule>,
}

/// A behavior with every constraint off.
pub open spec fn no_behavior() -> RuleBehavior {
    RuleBehavior {
        avoid_break_inside: false,
        avoid_break_before: false,
        avoid_break_after: false,
        min_orphans: 0,
        min_widows: 0,
    }
}

/// The built-in pagination rules: headings bind to what follows them,
/// the three marked region kinds and list containers and images never
/// split, list items and paragraphs keep a minimum of lines on each side
/// of a break, and a horizontal rule keeps its successor.
pub open spec fn default_rules() -> Seq<LayoutRule> {
    seq![
        LayoutRule {
            selector: Selector::Heading,
            behavior: RuleBehavior { avoid_break_inside: true, avoid_break_after: true, ..no_behavior() },
        },
        LayoutRule {
            selector: Selector::AfterHeading,
            behavior: RuleBehavior { avoid_break_before: true, ..no_behavior() },
        },
        LayoutRule {
            selector: Selector::TableMarker,
            behavior: RuleBehavior { avoid_break_inside: true, ..no_behavior() },
        },
        LayoutRule {
            selector: Selector::CodeBlockMarker,
            behavior: RuleBehavior { avoid_break_inside: true, ..no_behavior() },
        },
        LayoutRule {
            selector: Selector::BlockQuoteMarker,
            behavior: RuleBehavior { avoid_break_inside: true, ..no_behavior() },
        },
        LayoutRule {
            selector: Selector::ListContainer,
            behavior: RuleBehavior { avoid_break_inside: true, ..no_behavior() },
        },
        LayoutRule {
            selector: Selector::ListItem,
            behavior: RuleBehavior { min_orphans: 2, min_widows: 2, ..no_behavior() },
        },
        LayoutRule {
            selector: Selector::Paragraph,
            behavior: RuleBehavior { min_orphans: 3, min_widows: 3, ..no_behavior() },
        },
        LayoutRule {
            selector: Selector::HorizontalRule,
            behavior: RuleBehavior { avoid_break_after: true, ..no_behavior() },
        },
        LayoutRule {
            selector: Selector::Image,
            behavior: RuleBehavior { avoid_break_inside: true, ..no_behavior() },
        },
    ]
}

/// The behavior the rule sequence assigns to a selector: its first
/// matching rule, if any.
pub open spec fn rules_lookup(rules: Seq<LayoutRule>, sel: Selector) -> Option<RuleBehavior>
    decreases rules.len(),
{
    if rules.len() == 0 {
        None
    } else if rules[0].selector == sel {
        Some(rules[0].behavior)
    } else {
        rules_lookup(rules.drop_first(), sel)
    }
}

/// Whether some rule speaks of the selector.
pub open spec fn rules_cover(rules: Seq<LayoutRule>, sel: Selector) -> bool {
    exists|i: int| 0 <= i < rules.len() && rules[i].selector == sel
}

/// A rule set is structurally valid when every selector of the built-in
/// table is covered; a replacement may change behaviors but must not
/// drop a selector.
pub open spec fn valid_rule_set(rules: Seq<LayoutRule>) -> bool {
    &&& rules_cover(rules, Selector::Heading)
    &&& rules_cover(rules, Selector::AfterHeading)
    &&& rules_cover(rules, Selector::TableMarker)
    &&& rules_cover(rules, Selector::CodeBlockMarker)
    &&& rules_cover(rules, Selector::BlockQuoteMarker)
    &&& rules_cover(rules, Selector::ListContainer)
    &&& rules_cover(rules, Selector::ListItem)
    &&& rules_cover(rules, Selector::Paragraph)
    &&& rules_cover(rules, Selector::HorizontalRule)
    &&& rules_cover(rules, Selector::Image)
}

impl LayoutRuleSet {
    /// The behavior this rule set assigns to a selector.
    pub fn query(&self, sel: Selector) -> (result: Option<RuleBehavior>)
        ensures
            result == rules_lookup(self.rules@, sel),
    {
        let n = self.rules.len();
        proof {
            assert(self.rules@.skip(0) =~= self.rules@);
        }
        for i in 0..n
            invariant
                n == self.rules@.len(),
                rules_lookup(self.rules@, sel) == rules_lookup(self.rules@.skip(i as int), sel),
        {
            proof {
                assert(self.rules@.skip(i as int)[0] == self.rules@[i as int]);
                assert(self.rules@.skip(i as int).drop_first() =~= self.rules@.skip(i + 1));
            }
            if self.rules[i].selector == sel {
                return Some(self.rules[i].behavior);
            }
        }
        proof {
            assert(self.rules@.skip(n as int) =~= Seq::<LayoutRule>::empty());
        }
        None
    }

    /// Whether some rule speaks of the selector.
    fn covers(&self, sel: Selector) -> (result: bool)
        ensures
            result == rules_cover(self.rules@, sel),
    {
        let n = self.rules.len();
        for i in 0..n
            invariant
                n == self.rules@.len(),
                forall|j: int| 0 <= j < i ==> self.rules@[j].selector != sel,
        {
            if self.rules[i].selector == sel {
                return true;
            }
        }
        false
    }

    /// Accepts the rule set exactly when every required selector is
    /// covered; a caller-supplied replacement that dropped one is
    /// rejected before any conversion uses it.
    pub fn validate(&self) -> (result: Result<(), Md2PdfError>)
        ensures
            result is Ok <==> valid_rule_set(self.rules@),
            result matches Err(e) ==> e matches Md2PdfError::Template(m) && m@
                == "rule set does not cover every required selector"@,
    {
        let complete = self.covers(Selector::Heading) && self.covers(Selector::AfterHeading)
            && self.covers(Selector::TableMarker) && self.covers(Selector::CodeBlockMarker)
            && self.covers(Selector::BlockQuoteMarker) && self.covers(Selector::ListContainer)
            && self.covers(Selector::ListItem) && self.covers(Selector::Paragraph) && self.covers(
            Selector::HorizontalRule,
        ) && self.covers(Selector::Image);
        if complete {
            Ok(())
        } else {
            Err(Md2PdfError::Template("rule set does not cover every required selector".to_owned()))
        }
    }
}

/// Builds the built-in rule set.
pub fn default_rule_set() -> (result: LayoutRuleSet)
    ensures
        result.rules@ == default_rules(),
{
    let mut rules: Vec<LayoutRule> = Vec::new();
    rules.push(
        LayoutRule {
            selector: Selector::Heading,
            behavior: RuleBehavior {
                avoid_break_inside: true,
                avoid_break_before: false,
                avoid_break_after: true,
                min_orphans: 0,
                min_widows: 0,
            },
        },
    );
    rules.push(
        LayoutRule {
            selector: Selector::AfterHeading,
            behavior: RuleBehavior {
                avoid_break_inside: false,
                avoid_break_before: true,
                avoid_break_after: false,
                min_orphans: 0,
                min_widows: 0,
            },
        },
    );
    rules.push(
        LayoutRule {
            selector: Selector::TableMarker,
            behavior: RuleBehavior {
                avoid_break_inside: true,
                avoid_break_before: false,
                avoid_break_after: false,
                min_orphans: 0,
                min_widows: 0,
            },
        },
    );
    rules.push(
        LayoutRule {
            selector: Selector::CodeBlockMarker,
            behavior: RuleBehavior {
                avoid_break_inside: true,
                avoid_break_before: false,
                avoid_break_after: false,
                min_orphans: 0,
                min_widows: 0,
            },
        },
    );
    rules.push(
        LayoutRule {
            selector: Selector::BlockQuoteMarker,
            behavior: RuleBehavior {
                avoid_break_inside: true,
                avoid_break_before: false,
                avoid_break_after: false,
                min_orphans: 0,
                min_widows: 0,
            },
        },
    );
    rules.push(
        LayoutRule {
            selector: Selector::ListContainer,
            behavior: RuleBehavior {
                avoid_break_inside: true,
                avoid_break_before: false,
                avoid_break_after: false,
                min_orphans: 0,
                min_widows: 0,
            },
        },
    );
    rules.push(
        LayoutRule {
            selector: Selector::ListItem,
            behavior: RuleBehavior {
                avoid_break_inside: false,
                avoid_break_before: false,
                avoid_break_after: false,
                min_orphans: 2,
                min_widows: 2,
            },
        },
    );
    rules.push(
        LayoutRule {
            selector: Selector::Paragraph,
            behavior: RuleBehavior {
                avoid_break_inside: false,
                avoid_break_before: false,
                avoid_break_after: false,
                min_orphans: 3,
                min_widows: 3,
            },
        },
    );
    rules.push(
        LayoutRule {
            selector: Selector::HorizontalRule,
            behavior: RuleBehavior {
                avoid_break_inside: false,
                avoid_break_before: false,
                avoid_break_after: true,
                min_orphans: 0,
                min_widows: 0,
            },
        },
    );
    rules.push(
        LayoutRule {
            selector: Selector::Image,
            behavior: RuleBehavior {
                avoid_break_inside: true,
                avoid_break_before: false,
                avoid_break_after: false,
                min_orphans: 0,
                min_widows: 0,
            },
        },
    );
    proof {
        assert(rules@ =~= default_rules());
    }
    LayoutRuleSet { rules }
}

/// The character of one decimal digit value.
pub open spec fn digit_char(d: nat) -> char
    recommends
        d < 10,
{
    (((d + 48) as u8) as char)
}

/// The decimal notation of a number.
pub open spec fn decimal_text(n: nat) -> Seq<char>
    decreases n,
{
    if n < 10 {
        seq![digit_char(n)]
    } else {
        decimal_text(n / 10) + seq![digit_char(n % 10)]
    }
}

/// One decimal digit as text.
fn digit_str(d: u32) -> (result: &'static str)
    requires
        d < 10,
    ensures
        result@ == seq![digit_char(d as nat)],
{
    proof {
        reveal_strlit("0");
        reveal_strlit("1");
        reveal_strlit("2");
        reveal_strlit("3");
        reveal_strlit("4");
        reveal_strlit("5");
        reveal_strlit("6");
        reveal_strlit("7");
        reveal_strlit("8");
        reveal_strlit("9");
    }
    if d == 0 {
        "0"
    } else if d == 1 {
        "1"
    } else if d == 2 {
        "2"
    } else if d == 3 {
        "3"
    } else if d == 4 {
        "4"
    } else if d == 5 {
        "5"
    } else if d == 6 {
        "6"
    } else if d == 7 {
        "7"
    } else if d == 8 {
        "8"
    } else {
        "9"
    }
}

/// Renders a number in decimal.
fn u32_decimal(n: u32) -> (result: String)
    ensures
        result@ == decimal_text(n as nat),
    decreases n,
{
    if n < 10 {
        digit_str(n).to_owned()
    } else {
        let mut text = u32_decimal(n / 10);
        text.append(digit_str(n % 10));
        text
    }
}

/// The style text a selector serializes to.
pub open spec fn selector_css_text(sel: Selector) -> Seq<char> {
    match sel {
        Selector::Heading => "h1, h2, h3, h4, h5, h6"@,
        Selector::AfterHeading => "h1 + *, h2 + *, h3 + *, h4 + *, h5 + *, h6 + *"@,
        Selector::TableMarker => ".table-wrapper"@,
        Selector::CodeBlockMarker => ".code-wrapper"@,
        Selector::BlockQuoteMarker => ".blockquote-wrapper"@,
        Selector::ListContainer => "ul, ol"@,
        Selector::ListItem => "li"@,
        Selector::Paragraph => "p"@,
        Selector::HorizontalRule => "hr"@,
        Selector::Image => "img"@,
    }
}

/// The style declarations a behavior serializes to.
pub open spec fn behavior_css_text(b: RuleBehavior) -> Seq<char> {
    (if b.avoid_break_inside {
        "    page-break-inside: avoid;\n    break-inside: avoid;\n"@
    } else {
        Seq::<char>::empty()
    }) + (if b.avoid_break_before {
        "    page-break-before: avoid;\n    break-before: avoid;\n"@
    } else {
        Seq::<char>::empty()
    }) + (if b.avoid_break_after {
        "    page-break-after: avoid;\n    break-after: avoid;\n"@
    } else {
        Seq::<char>::empty()
    }) + (if b.min_orphans > 0 {
        "    orphans: "@ + decimal_text(b.min_orphans as nat) + ";\n"@
    } else {
        Seq::<char>::empty()
    }) + (if b.min_widows > 0 {
        "    widows: "@ + decimal_text(b.min_widows as nat) + ";\n"@
    } else {
        Seq::<char>::empty()
    })
}

/// The style block one rule serializes to.
pub open spec fn rule_css_text(rule: LayoutRule) -> Seq<char> {
    selector_css_text(rule.selector) + " {\n"@ + behavior_css_text(rule.behavior) + "}\n\n"@
}

/// The style text of a whole rule sequence, in order.
pub open spec fn rules_css_text(rules: Seq<LayoutRule>) -> Seq<char>
    decreases rules.len(),
{
    if rules.len() == 0 {
        Seq::empty()
    } else {
        rules_css_text(rules.drop_last()) + rule_css_text(rules.last())
    }
}

/// The exec counterpart of [`selector_css_text`].
fn selector_css(sel: Selector) -> (result: &'static str)
    ensures
        result@ == selector_css_text(sel),
{
    match sel {
        Selector::Heading => "h1, h2, h3, h4, h5, h6",
        Selector::AfterHeading => "h1 + *, h2 + *, h3 + *, h4 + *, h5 + *, h6 + *",
        Selector::TableMarker => ".table-wrapper",
        Selector::CodeBlockMarker => ".code-wrapper",
        Selector::BlockQuoteMarker => ".blockquote-wrapper",
        Selector::ListContainer => "ul, ol",
        Selector::ListItem => "li",
        Selector::Paragraph => "p",
        Selector::HorizontalRule => "hr",
        Selector::Image => "img",
    }
}

/// The exec counterpart of [`behavior_css_text`].
fn behavior_css(b: &RuleBehavior) -> (result: String)
    ensures
        result@ == behavior_css_text(*b),
{
    let ghost piece_inside: Seq<char> = if b.avoid_break_inside {
        "    page-break-inside: avoid;\n    break-inside: avoid;\n"@
    } else {
        Seq::<char>::empty()
    };
    let ghost piece_before: Seq<char> = if b.avoid_break_before {
        "    page-break-before: avoid;\n    break-before: avoid;\n"@
    } else {
        Seq::<char>::empty()
    };
    let ghost piece_after: Seq<char> = if b.avoid_break_after {
        "    page-break-after: avoid;\n    break-after: avoid;\n"@
    } else {
        Seq::<char>::empty()
    };
    let ghost piece_orphans: Seq<char> = if b.min_orphans > 0 {
        "    orphans: "@ + decimal_text(b.min_orphans as nat) + ";\n"@
    } else {
        Seq::<char>::empty()
    };
    let ghost piece_widows: Seq<char> = if b.min_widows > 0 {
        "    widows: "@ + decimal_text(b.min_widows as nat) + ";\n"@
    } else {
        Seq::<char>::empty()
    };
    let mut text = String::new();
    if b.avoid_break_inside {
        text.append("    page-break-inside: avoid;\n    break-inside: avoid;\n");
    }
    proof {
        assert(text@ =~= piece_inside);
    }
    if b.avoid_break_before {
        text.append("    page-break-before: avoid;\n    break-before: avoid;\n");
    }
    proof {
        assert(text@ =~= piece_inside + piece_before);
    }
    if b.avoid_break_after {
        text.append("    page-break-after: avoid;\n    break-after: avoid;\n");
    }
    proof {
        assert(text@ =~= piece_inside + piece_before + piece_after);
    }
    if b.min_orphans > 0 {
        text.append("    orphans: ");
        let count = u32_decimal(b.min_orphans);
        text.append(count.as_str());
        text.append(";\n");
    }
    proof {
        assert(text@ =~= piece_inside + piece_before + piece_after + piece_orphans);
    }
    if b.min_widows > 0 {
        text.append("    widows: ");
        let count = u32_decimal(b.min_widows);
        text.append(count.as_str());
        text.append(";\n");
    }
    proof {
        assert(text@ =~= piece_inside + piece_before + piece_after + piece_orphans
            + piece_widows);
        assert(behavior_css_text(*b) == piece_inside + piece_before + piece_after + piece_orphans
            + piece_widows);
    }
    text
}

/// Serializes a rule set to style text, rule by rule, in order.
pub fn rule_set_css(rule_set: &LayoutRuleSet) -> (result: String)
    ensures
        result@ == rules_css_text(rule_set.rules@),
{
    let mut text = String::new();
    let n = rule_set.rules.len();
    for i in 0..n
        invariant
            n == rule_set.rules@.len(),
            text@ == rules_css_text(rule_set.rules@.take(i as int)),
    {
        let rule = rule_set.rules[i];
        text.append(selector_css(rule.selector));
        text.append(" {\n");
        let body = behavior_css(&rule.behavior);
        text.append(body.as_str());
        text.append("}\n\n");
        proof {
            let all = rule_set.rules@;
            assert(all.take(i + 1).drop_last() =~= all.take(i as int));
            assert(all.take(i + 1).last() == all[i as int]);
            assert(text@ =~= rules_css_text(all.take(i as int)) + rule_css_text(all[i as int]));
        }
    }
    proof {
        assert(rule_set.rules@.take(n as int) =~= rule_set.rules@);
    }
    text
}

/// The fixed presentation styles that precede the pagination rules:
/// page setup and base typography.
pub open spec fn css_preamble_text() -> Seq<char> {
    "* {\n    margin: 0;\n    padding: 0;\n    box-sizing: border-box;\n}\n\n@page {\n    size: A4;\n    margin: 2.5cm 2cm;\n}\n\nbody {\n    font-family: 'Segoe UI', 'Helvetica Neue', Arial, sans-serif;\n    font-size: 11pt;\n    line-height: 1.6;\n    color: #333;\n    background: white;\n}\n\nh1, h2, h3, h4, h5, h6 {\n    font-weight: 600;\n    line-height: 1.3;\n    margin-top: 1.5em;\n    margin-bottom: 0.5em;\n}\n\np {\n    margin-bottom: 1em;\n    text-align: justify;\n}\n\nul, ol {\n    margin-bottom: 1em;\n    margin-left: 2em;\n}\n\npre {\n    background-color: #f5f7f9;\n    border: 1px solid #e0e0e0;\n    padding: 1em;\n    margin-bottom: 1em;\n    overflow-x: auto;\n}\n\ncode {\n    font-family: 'Consolas', 'Monaco', 'Courier New', monospace;\n    font-size: 0.9em;\n}\n\nblockquote {\n    border-left: 4px solid #2c5aa0;\n    padding-left: 1em;\n    margin: 1em 0;\n    color: #555;\n}\n\ntable {\n    width: 100%;\n    border-collapse: collapse;\n    margin-bottom: 1.5em;\n}\n\nth, td {\n    padding: 0.75em;\n    text-align: left;\n    border: 1px solid #ddd;\n}\n\nimg {\n    max-width: 100%;\n    height: auto;\n}\n\n"@
}

/// The complete built-in stylesheet: presentation preamble followed by
/// the serialized built-in pagination rules.
pub open spec fn default_css_text() -> Seq<char> {
    css_preamble_text() + rules_css_text(default_rules())
}

/// Builds the complete built-in stylesheet.
pub fn default_css() -> (result: String)
    ensures
        result@ == default_css_text(),
{
    let mut text =
        "* {\n    margin: 0;\n    padding: 0;\n    box-sizing: border-box;\n}\n\n@page {\n    size: A4;\n    margin: 2.5cm 2cm;\n}\n\nbody {\n    font-family: 'Segoe UI', 'Helvetica Neue', Arial, sans-serif;\n    font-size: 11pt;\n    line-height: 1.6;\n    color: #333;\n    background: white;\n}\n\nh1, h2, h3, h4, h5, h6 {\n    font-weight: 600;\n    line-height: 1.3;\n    margin-top: 1.5em;\n    margin-bottom: 0.5em;\n}\n\np {\n    margin-bottom: 1em;\n    text-align: justify;\n}\n\nul, ol {\n    margin-bottom: 1em;\n    margin-left: 2em;\n}\n\npre {\n    background-color: #f5f7f9;\n    border: 1px solid #e0e0e0;\n    padding: 1em;\n    margin-bottom: 1em;\n    overflow-x: auto;\n}\n\ncode {\n    font-family: 'Consolas', 'Monaco', 'Courier New', monospace;\n    font-size: 0.9em;\n}\n\nblockquote {\n    border-left: 4px solid #2c5aa0;\n    padding-left: 1em;\n    margin: 1em 0;\n    color: #555;\n}\n\ntable {\n    width: 100%;\n    border-collapse: collapse;\n    margin-bottom: 1.5em;\n}\n\nth, td {\n    padding: 0.75em;\n    text-align: left;\n    border: 1px solid #ddd;\n}\n\nimg {\n    max-width: 100%;\n    height: auto;\n}\n\n".to_owned();
    let rules = default_rule_set();
    let rule_text = rule_set_css(&rules);
    text.append(rule_text.as_str());
    text
}

/// The document text before the embedded styles.
pub open spec fn html_prefix_text() -> Seq<char> {
    "<!DOCTYPE html>\n<html lang=\"en\">\n<head>\n    <meta charset=\"UTF-8\">\n    <meta name=\"viewport\" content=\"width=device-width, initial-scale=1.0\">\n    <title>Markdown to PDF</title>\n    <style>\n"@
}

/// The document text between the embedded styles and the body.
pub open spec fn html_middle_text() -> Seq<char> {
    "\n    </style>\n</head>\n<body>\n"@
}

/// The document text after the body.
pub open spec fn html_suffix_text() -> Seq<char> {
    "\n</body>\n</html>"@
}

/// A complete document: header with embedded styles, then the body.
pub open spec fn html_document_text(body: Seq<char>, css: Seq<char>) -> Seq<char> {
    html_prefix_text() + css + html_middle_text() + body + html_suffix_text()
}

/// Assembles the self-contained document handed to the rendering
/// backend: metadata, the style rules, and the body markup, in that
/// order and nothing else.
pub fn generate_html(content: &str, css: &str) -> (result: String)
    ensures
        result@ == html_document_text(content@, css@),
{
    let mut text =
        "<!DOCTYPE html>\n<html lang=\"en\">\n<head>\n    <meta charset=\"UTF-8\">\n    <meta name=\"viewport\" content=\"width=device-width, initial-scale=1.0\">\n    <title>Markdown to PDF</title>\n    <style>\n".to_owned();
    text.append(css);
    text.append("\n    </style>\n</head>\n<body>\n");
    text.append(content);
    text.append("\n</body>\n</html>");
    proof {
        assert(text@ =~= html_document_text(content@, css@));
    }
    text
}

} // verus!
