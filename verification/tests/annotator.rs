use md2pdf::events::{HeadingLevel, Phase, StructuralEvent};
use md2pdf::html::{annotate, events_to_html, sanitize_html};

const TABLE_OPEN: &str = "<div class=\"table-wrapper no-break\">";
const CODE_OPEN: &str = "<div class=\"code-wrapper no-break\">";
const QUOTE_OPEN: &str = "<div class=\"blockquote-wrapper no-break\">";
const CLOSE: &str = "</div>";

fn is_marker(e: &StructuralEvent) -> bool {
    match e {
        StructuralEvent::RawMarkup(t) => {
            t == TABLE_OPEN || t == CODE_OPEN || t == QUOTE_OPEN || t == CLOSE
        },
        _ => false,
    }
}

#[test]
fn test_annotate_empty_returns_empty() {
    let input: Vec<StructuralEvent> = vec![];
    let output = annotate(&input);
    assert_eq!(output, vec![]);
}

#[test]
fn test_annotate_table_scenario() {
    let input = vec![
        StructuralEvent::Table(Phase::Start),
        StructuralEvent::InlineText("a".to_string()),
        StructuralEvent::Table(Phase::End),
    ];
    let output = annotate(&input);
    let expected = vec![
        StructuralEvent::RawMarkup(TABLE_OPEN.to_string()),
        StructuralEvent::Table(Phase::Start),
        StructuralEvent::InlineText("a".to_string()),
        StructuralEvent::Table(Phase::End),
        StructuralEvent::RawMarkup(CLOSE.to_string()),
    ];
    assert_eq!(output, expected);
}

#[test]
fn test_annotate_code_block_markers() {
    let input = vec![
        StructuralEvent::CodeBlock(Some("rust".to_string()), Phase::Start),
        StructuralEvent::InlineText("fn main() {}".to_string()),
        StructuralEvent::CodeBlock(Some("rust".to_string()), Phase::End),
    ];
    let output = annotate(&input);
    assert_eq!(output[0], StructuralEvent::RawMarkup(CODE_OPEN.to_string()));
    assert_eq!(output[4], StructuralEvent::RawMarkup(CLOSE.to_string()));
    assert_eq!(output.len(), input.len() + 2);
}

#[test]
fn test_annotate_block_quote_markers() {
    let input = vec![
        StructuralEvent::BlockQuote(Phase::Start),
        StructuralEvent::Paragraph(Phase::Start),
        StructuralEvent::InlineText("quoted".to_string()),
        StructuralEvent::Paragraph(Phase::End),
        StructuralEvent::BlockQuote(Phase::End),
    ];
    let output = annotate(&input);
    assert_eq!(output[0], StructuralEvent::RawMarkup(QUOTE_OPEN.to_string()));
    assert_eq!(output[6], StructuralEvent::RawMarkup(CLOSE.to_string()));
    assert_eq!(output.len(), input.len() + 2);
}

#[test]
fn test_annotate_projection_restores_input() {
    let input = vec![
        StructuralEvent::DocumentBoundary(Phase::Start),
        StructuralEvent::Heading(HeadingLevel::H1, Phase::Start),
        StructuralEvent::InlineText("Title".to_string()),
        StructuralEvent::Heading(HeadingLevel::H1, Phase::End),
        StructuralEvent::Table(Phase::Start),
        StructuralEvent::InlineText("cell".to_string()),
        StructuralEvent::Table(Phase::End),
        StructuralEvent::CodeBlock(None, Phase::Start),
        StructuralEvent::InlineText("code".to_string()),
        StructuralEvent::CodeBlock(None, Phase::End),
        StructuralEvent::BlockQuote(Phase::Start),
        StructuralEvent::InlineText("quote".to_string()),
        StructuralEvent::BlockQuote(Phase::End),
        StructuralEvent::DocumentBoundary(Phase::End),
    ];
    let output = annotate(&input);
    let projected: Vec<StructuralEvent> =
        output.into_iter().filter(|e| !is_marker(e)).collect();
    assert_eq!(projected, input);
}

#[test]
fn test_annotate_length_accounting() {
    // Three region pairs: six boundary events, six injected markers.
    let input = vec![
        StructuralEvent::Table(Phase::Start),
        StructuralEvent::Table(Phase::End),
        StructuralEvent::CodeBlock(None, Phase::Start),
        StructuralEvent::CodeBlock(None, Phase::End),
        StructuralEvent::BlockQuote(Phase::Start),
        StructuralEvent::BlockQuote(Phase::End),
        StructuralEvent::Paragraph(Phase::Start),
        StructuralEvent::Paragraph(Phase::End),
    ];
    let output = annotate(&input);
    assert_eq!(output.len(), input.len() + 6);
}

#[test]
fn test_annotate_keeps_marker_adjacency() {
    let input = vec![
        StructuralEvent::Paragraph(Phase::Start),
        StructuralEvent::Paragraph(Phase::End),
        StructuralEvent::Table(Phase::Start),
        StructuralEvent::InlineText("x".to_string()),
        StructuralEvent::Table(Phase::End),
        StructuralEvent::Paragraph(Phase::Start),
        StructuralEvent::Paragraph(Phase::End),
    ];
    let output = annotate(&input);
    let start_at = output
        .iter()
        .position(|e| *e == StructuralEvent::Table(Phase::Start))
        .unwrap();
    let end_at = output
        .iter()
        .position(|e| *e == StructuralEvent::Table(Phase::End))
        .unwrap();
    assert_eq!(output[start_at - 1], StructuralEvent::RawMarkup(TABLE_OPEN.to_string()));
    assert_eq!(output[end_at + 1], StructuralEvent::RawMarkup(CLOSE.to_string()));
}

#[test]
fn test_annotate_unmatched_end_still_marked() {
    // Malformed input: a close without an open still gets its marker.
    let input = vec![StructuralEvent::Table(Phase::End)];
    let output = annotate(&input);
    let expected = vec![
        StructuralEvent::Table(Phase::End),
        StructuralEvent::RawMarkup(CLOSE.to_string()),
    ];
    assert_eq!(output, expected);
}

#[test]
fn test_annotate_passes_marker_like_text_through() {
    // Text inside a code block that looks like a marker is content, not
    // structure: it must come through untouched, byte for byte.
    let tricky = "<div class=\"table-wrapper no-break\">".to_string();
    let input = vec![
        StructuralEvent::CodeBlock(None, Phase::Start),
        StructuralEvent::InlineText(tricky.clone()),
        StructuralEvent::CodeBlock(None, Phase::End),
    ];
    let output = annotate(&input);
    assert_eq!(output[2], StructuralEvent::InlineText(tricky));
}

#[test]
fn test_events_to_html_wraps_table() {
    let input = vec![
        StructuralEvent::Table(Phase::Start),
        StructuralEvent::InlineText("x".to_string()),
        StructuralEvent::Table(Phase::End),
    ];
    let html = events_to_html(&input);
    assert_eq!(
        html,
        "<div class=\"table-wrapper no-break\"><table>x</table></div>"
    );
}

#[test]
fn test_sanitize_html_is_identity() {
    let text = "<p>unchanged &amp; kept</p>";
    assert_eq!(sanitize_html(text), text);
}
