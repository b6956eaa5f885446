//! Page geometry configuration and the rendering hand-off helpers: the
//! output-path check and the data URL that carries the document to the
//! rendering backend.

use vstd::prelude::*;
use vstd::string::StringExecFns;
use vstd::string::StringSliceAdditionalSpecFns;

use crate::error::Md2PdfError;
use crate::paths::has_extension;
use crate::paths::path_has_extension;

verus! {

/// Page geometry and rendering switches handed to the rendering backend.
///
/// Lengths are in hundredths of an inch, so the defaults below spell an
/// A4 page of 8.27 by 11.69 inches with 0.4-inch margins; `scale` is in
/// percent, with 100 meaning natural size. All values are positive.
#[derive(Clone, Copy, Debug, PartialEq, Eq, Structural)]
pub struct PdfConfig {
    /// Display header and footer while rendering.
    pub display_header_footer: bool,
    /// Print background graphics.
    pub print_background: bool,
    /// Paper width, hundredths of an inch.
    pub paper_width: u32,
    /// Paper height, hundredths of an inch.
    pub paper_height: u32,
    /// Top margin, hundredths of an inch.
    pub margin_top: u32,
    /// Bottom margin, hundredths of an inch.
    pub margin_bottom: u32,
    /// Left margin, hundredths of an inch.
    pub margin_left: u32,
    /// Right margin, hundredths of an inch.
    pub margin_right: u32,
    /// Rendering scale, percent.
    pub scale: u32,
}

/// The built-in page geometry: A4 paper, 0.4-inch margins, natural scale.
pub open spec fn default_pdf_config() -> PdfConfig {
    PdfConfig {
        display_header_footer: false,
        print_background: true,
        paper_width: 827,
        paper_height: 1169,
        margin_top: 40,
        margin_bottom: 40,
        margin_left: 40,
        margin_right: 40,
        scale: 100,
    }
}

impl Default for PdfConfig {
    /// Constructing a geometry config with no overrides yields exactly
    /// the built-in defaults.
    fn default() -> (result: PdfConfig)
        ensures
            result == default_pdf_config(),
    {
        PdfConfig {
            display_header_footer: false,
            print_background: true,
            paper_width: 827,
            paper_height: 1169,
            margin_top: 40,
            margin_bottom: 40,
            margin_left: 40,
            margin_right: 40,
            scale: 100,
        }
    }
}

/// Accepts an output path exactly when it carries the `pdf` extension,
/// without regard to ASCII case.
pub fn validate_output_path(path: &str) -> (result: Result<(), Md2PdfError>)
    ensures
        result is Ok <==> has_extension(path@, "pdf"@),
        result matches Err(e) ==> e matches Md2PdfError::InvalidPath(p) && p@ == path@,
{
    if path_has_extension(path, "pdf") {
        Ok(())
    } else {
        Err(Md2PdfError::InvalidPath(path.to_owned()))
    }
}

/// Bytes that a URL carries unescaped.
pub open spec fn is_url_safe_byte(b: u8) -> bool {
    ||| (48 <= b && b <= 57)
    ||| (65 <= b && b <= 90)
    ||| (97 <= b && b <= 122)
    ||| b == 45
    ||| b == 46
    ||| b == 95
    ||| b == 126
}

/// The character for one hexadecimal digit value, upper case.
pub open spec fn hex_digit_char(n: u8) -> char
    recommends
        n < 16,
{
    if n < 10 {
        ((n + 48) as char)
    } else {
        ((n + 55) as char)
    }
}

/// The URL encoding of one byte: itself when safe, a percent escape of
/// two upper-case hexadecimal digits otherwise.
pub open spec fn encoded_byte(b: u8) -> Seq<char> {
    if is_url_safe_byte(b) {
        seq![b as char]
    } else {
        seq!['%', hex_digit_char(b / 16), hex_digit_char(b % 16)]
    }
}

/// The URL encoding of a byte sequence.
pub open spec fn percent_encoded(bytes: Seq<u8>) -> Seq<char>
    decreases bytes.len(),
{
    if bytes.len() == 0 {
        Seq::empty()
    } else {
        percent_encoded(bytes.drop_last()) + encoded_byte(bytes.last())
    }
}

/// Relies on urlencoding::encode_binary: every byte other than the ASCII
/// alphanumerics and `-`, `.`, `_`, `~` becomes a percent escape of two
/// upper-case hexadecimal digits; safe bytes pass through unchanged.
#[verifier::external_body]
fn percent_encode_bytes(data: &[u8]) -> (result: String)
    ensures
        result@ == percent_encoded(data@),
{
    urlencoding::encode_binary(data).into_owned()
}

/// The scheme and media type under which the document travels to the
/// rendering backend.
pub open spec fn data_url_prefix() -> Seq<char> {
    "data:text/html;charset=utf-8,"@
}

/// Builds the data URL the rendering backend navigates to: the prefix
/// followed by the URL encoding of the document's bytes.
pub fn build_data_url(html: &str) -> (result: String)
    ensures
        result@ == data_url_prefix() + percent_encoded(html.spec_bytes()),
{
    let mut url = "data:text/html;charset=utf-8,".to_owned();
    let encoded = percent_encode_bytes(html.as_bytes());
    url.append(encoded.as_str());
    url
}

} // verus!
