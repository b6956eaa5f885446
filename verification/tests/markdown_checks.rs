use md2pdf::error::Md2PdfError;
use md2pdf::markdown::{has_markdown_extension, validate_markdown};

#[test]
fn test_validate_markdown_empty() {
    let result = validate_markdown("");
    assert!(result.is_err());
}

#[test]
fn test_validate_markdown_valid() {
    let result = validate_markdown("# Hello\n\nWorld");
    assert!(result.is_ok());
}

#[test]
fn test_validate_markdown_whitespace_only() {
    let result = validate_markdown(" \t\r\n\u{00A0}\u{2003}\u{3000}");
    assert!(matches!(result, Err(Md2PdfError::MarkdownParse(m)) if m == "Markdown file is empty"));
}

#[test]
fn test_validate_markdown_single_character() {
    assert!(validate_markdown("x").is_ok());
}

#[test]
fn test_has_markdown_extension() {
    assert!(has_markdown_extension("notes.md"));
    assert!(has_markdown_extension("NOTES.MD"));
    assert!(has_markdown_extension("a.tar.md"));
    assert!(!has_markdown_extension("notes.txt"));
    assert!(!has_markdown_extension("md"));
    assert!(!has_markdown_extension(".md"));
    assert!(!has_markdown_extension("dir/.md"));
    assert!(!has_markdown_extension("notes.md/inner"));
}
