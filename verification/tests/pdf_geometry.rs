use md2pdf::error::Md2PdfError;
use md2pdf::pdf::{build_data_url, validate_output_path, PdfConfig};

#[test]
fn test_pdf_config_default() {
    // Lengths are hundredths of an inch: an A4 page with 0.4-inch
    // margins at natural scale.
    let config = PdfConfig::default();
    assert_eq!(config.paper_width, 827);
    assert_eq!(config.paper_height, 1169);
    assert!(config.print_background);
    assert!(!config.display_header_footer);
    assert_eq!(config.margin_top, 40);
    assert_eq!(config.margin_bottom, 40);
    assert_eq!(config.margin_left, 40);
    assert_eq!(config.margin_right, 40);
    assert_eq!(config.scale, 100);
}

#[test]
fn test_validate_output_path_valid() {
    assert!(validate_output_path("test.pdf").is_ok());
    assert!(validate_output_path("/tmp/dir/report.pdf").is_ok());
    assert!(validate_output_path("UPPER.PDF").is_ok());
}

#[test]
fn test_validate_output_path_invalid_extension() {
    let result = validate_output_path("/tmp/test.txt");
    assert!(matches!(result, Err(Md2PdfError::InvalidPath(_))));
    assert!(validate_output_path("pdf").is_err());
    assert!(validate_output_path(".pdf").is_err());
    assert!(validate_output_path("/tmp/.pdf").is_err());
    assert!(validate_output_path("archive.pdf/inner").is_err());
}

#[test]
fn test_build_data_url_encodes_markup() {
    let url = build_data_url("<p>hi</p>");
    assert_eq!(url, "data:text/html;charset=utf-8,%3Cp%3Ehi%3C%2Fp%3E");
}

#[test]
fn test_build_data_url_keeps_safe_bytes() {
    let url = build_data_url("abcXYZ019-._~");
    assert_eq!(url, "data:text/html;charset=utf-8,abcXYZ019-._~");
}

#[test]
fn test_build_data_url_empty_document() {
    let url = build_data_url("");
    assert_eq!(url, "data:text/html;charset=utf-8,");
}

#[test]
fn test_build_data_url_multibyte_text() {
    // One two-byte character: both bytes escaped, upper-case hex.
    let url = build_data_url("\u{00E9}");
    assert_eq!(url, "data:text/html;charset=utf-8,%C3%A9");
}
