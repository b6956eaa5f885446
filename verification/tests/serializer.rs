use md2pdf::error::Md2PdfError;
use md2pdf::events::{HeadingLevel, Phase, StructuralEvent};
use md2pdf::markup::{escape_html, event_markup, events_to_markup};

#[test]
fn test_escape_html_special_characters() {
    assert_eq!(escape_html("a<b&c>\"d'"), "a&lt;b&amp;c&gt;&quot;d&#39;");
}

#[test]
fn test_escape_html_plain_text() {
    assert_eq!(escape_html("plain text 123"), "plain text 123");
    assert_eq!(escape_html(""), "");
}

#[test]
fn test_event_markup_headings() {
    assert_eq!(
        event_markup(&StructuralEvent::Heading(HeadingLevel::H1, Phase::Start)),
        "<h1>"
    );
    assert_eq!(
        event_markup(&StructuralEvent::Heading(HeadingLevel::H6, Phase::End)),
        "</h6>"
    );
}

#[test]
fn test_event_markup_code_block_language() {
    assert_eq!(
        event_markup(&StructuralEvent::CodeBlock(Some("rust".to_string()), Phase::Start)),
        "<pre><code class=\"language-rust\">"
    );
    assert_eq!(
        event_markup(&StructuralEvent::CodeBlock(None, Phase::Start)),
        "<pre><code>"
    );
    assert_eq!(
        event_markup(&StructuralEvent::CodeBlock(None, Phase::End)),
        "</code></pre>"
    );
}

#[test]
fn test_event_markup_task_list_items() {
    assert_eq!(
        event_markup(&StructuralEvent::ListItem(None, Phase::Start)),
        "<li>"
    );
    assert_eq!(
        event_markup(&StructuralEvent::ListItem(Some(false), Phase::Start)),
        "<li><input type=\"checkbox\" disabled=\"\"/>"
    );
    assert_eq!(
        event_markup(&StructuralEvent::ListItem(Some(true), Phase::Start)),
        "<li><input type=\"checkbox\" disabled=\"\" checked=\"\"/>"
    );
    assert_eq!(
        event_markup(&StructuralEvent::ListItem(Some(true), Phase::End)),
        "</li>"
    );
}

#[test]
fn test_event_markup_document_boundary_is_silent() {
    assert_eq!(event_markup(&StructuralEvent::DocumentBoundary(Phase::Start)), "");
    assert_eq!(event_markup(&StructuralEvent::DocumentBoundary(Phase::End)), "");
}

#[test]
fn test_event_markup_raw_is_verbatim() {
    let raw = "<custom attr=\"kept & untouched\">";
    assert_eq!(
        event_markup(&StructuralEvent::RawMarkup(raw.to_string())),
        raw
    );
}

#[test]
fn test_events_to_markup_order_and_escaping() {
    let events = vec![
        StructuralEvent::Heading(HeadingLevel::H2, Phase::Start),
        StructuralEvent::InlineText("A & B".to_string()),
        StructuralEvent::Heading(HeadingLevel::H2, Phase::End),
        StructuralEvent::Paragraph(Phase::Start),
        StructuralEvent::InlineText("x < y".to_string()),
        StructuralEvent::Paragraph(Phase::End),
        StructuralEvent::BlockQuote(Phase::Start),
        StructuralEvent::InlineText("q".to_string()),
        StructuralEvent::BlockQuote(Phase::End),
    ];
    let markup = events_to_markup(&events);
    assert_eq!(
        markup,
        "<h2>A &amp; B</h2><p>x &lt; y</p><blockquote>q</blockquote>"
    );
}

#[test]
fn test_error_messages_exact() {
    let cases: Vec<(Md2PdfError, &str)> = vec![
        (
            Md2PdfError::FileRead { path: "a.md".to_string(), detail: "gone".to_string() },
            "Failed to read file: a.md",
        ),
        (
            Md2PdfError::FileWrite { path: "b.pdf".to_string(), detail: "full".to_string() },
            "Failed to write file: b.pdf",
        ),
        (Md2PdfError::InvalidPath("x".to_string()), "Invalid file path: x"),
        (
            Md2PdfError::MarkdownParse("Markdown file is empty".to_string()),
            "Markdown parsing error: Markdown file is empty",
        ),
        (Md2PdfError::HtmlGeneration("h".to_string()), "HTML generation error: h"),
        (Md2PdfError::PdfGeneration("p".to_string()), "PDF generation error: p"),
        (Md2PdfError::CssNotFound("c.css".to_string()), "CSS file not found: c.css"),
        (Md2PdfError::ChromeLaunch("no".to_string()), "Failed to launch Chrome browser: no"),
        (Md2PdfError::ChromeNavigation("nav".to_string()), "Failed to navigate to page: nav"),
        (
            Md2PdfError::ChromePdfGeneration("gen".to_string()),
            "Failed to generate PDF from Chrome: gen",
        ),
        (Md2PdfError::Template("t".to_string()), "Template error: t"),
        (Md2PdfError::NoInputFiles, "No input files provided"),
        (
            Md2PdfError::InvalidExtension("z.txt".to_string()),
            "Input file must have .md extension: z.txt",
        ),
    ];
    for (error, expected) in cases {
        assert_eq!(error.message(), expected);
    }
}
