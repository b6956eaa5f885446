//! Error types for the conversion pipeline. Every failure a conversion can
//! produce is one of these variants; none is swallowed on the way to the
//! caller.

use vstd::prelude::*;
use vstd::string::StringExecFns;

verus! {

/// The error type of every conversion operation.
///
/// I/O details arrive as plain text in `detail`, filled in by the caller
/// that performed the read or write.
#[derive(Debug, Clone, PartialEq, Eq)]
pub enum Md2PdfError {
    /// A file could not be read.
    FileRead { path: String, detail: String },
    /// A file could not be written.
    FileWrite { path: String, detail: String },
    /// A path is not usable for the requested role.
    InvalidPath(String),
    /// The document text is not convertible; empty input lands here.
    MarkdownParse(String),
    /// Markup could not be generated.
    HtmlGeneration(String),
    /// The rendering step failed.
    PdfGeneration(String),
    /// A custom stylesheet path led nowhere.
    CssNotFound(String),
    /// The rendering backend could not be started.
    ChromeLaunch(String),
    /// The rendering backend could not load the document.
    ChromeNavigation(String),
    /// The rendering backend failed while producing the output bytes.
    ChromePdfGeneration(String),
    /// A caller-supplied layout rule set is structurally invalid.
    Template(String),
    /// Nothing was given to convert.
    NoInputFiles,
    /// An input file does not carry the markdown extension.
    InvalidExtension(String),
}

/// The human-readable description of an error.
pub open spec fn error_message(e: Md2PdfError) -> Seq<char> {
    match e {
        Md2PdfError::FileRead { path, .. } => "Failed to read file: "@ + path@,
        Md2PdfError::FileWrite { path, .. } => "Failed to write file: "@ + path@,
        Md2PdfError::InvalidPath(p) => "Invalid file path: "@ + p@,
        Md2PdfError::MarkdownParse(m) => "Markdown parsing error: "@ + m@,
        Md2PdfError::HtmlGeneration(m) => "HTML generation error: "@ + m@,
        Md2PdfError::PdfGeneration(m) => "PDF generation error: "@ + m@,
        Md2PdfError::CssNotFound(p) => "CSS file not found: "@ + p@,
        Md2PdfError::ChromeLaunch(m) => "Failed to launch Chrome browser: "@ + m@,
        Md2PdfError::ChromeNavigation(m) => "Failed to navigate to page: "@ + m@,
        Md2PdfError::ChromePdfGeneration(m) => "Failed to generate PDF from Chrome: "@ + m@,
        Md2PdfError::Template(m) => "Template error: "@ + m@,
        Md2PdfError::NoInputFiles => "No input files provided"@,
        Md2PdfError::InvalidExtension(p) => "Input file must have .md extension: "@ + p@,
    }
}

impl Md2PdfError {
    /// Renders the error as the message a user sees.
    pub fn message(&self) -> (result: String)
        ensures
            result@ == error_message(*self),
    {
        match self {
            Md2PdfError::FileRead { path, detail: _ } => {
                let mut m = "Failed to read file: ".to_owned();
                m.append(path.as_str());
                m
            },
            Md2PdfError::FileWrite { path, detail: _ } => {
                let mut m = "Failed to write file: ".to_owned();
                m.append(path.as_str());
                m
            },
            Md2PdfError::InvalidPath(p) => {
                let mut m = "Invalid file path: ".to_owned();
                m.append(p.as_str());
                m
            },
            Md2PdfError::MarkdownParse(d) => {
                let mut m = "Markdown parsing error: ".to_owned();
                m.append(d.as_str());
                m
            },
            Md2PdfError::HtmlGeneration(d) => {
                let mut m = "HTML generation error: ".to_owned();
                m.append(d.as_str());
                m
            },
            Md2PdfError::PdfGeneration(d) => {
                let mut m = "PDF generation error: ".to_owned();
                m.append(d.as_str());
                m
            },
            Md2PdfError::CssNotFound(p) => {
                let mut m = "CSS file not found: ".to_owned();
                m.append(p.as_str());
                m
            },
            Md2PdfError::ChromeLaunch(d) => {
                let mut m = "Failed to launch Chrome browser: ".to_owned();
                m.append(d.as_str());
                m
            },
            Md2PdfError::ChromeNavigation(d) => {
                let mut m = "Failed to navigate to page: ".to_owned();
                m.append(d.as_str());
                m
            },
            Md2PdfError::ChromePdfGeneration(d) => {
                let mut m = "Failed to generate PDF from Chrome: ".to_owned();
                m.append(d.as_str());
                m
            },
            Md2PdfError::Template(d) => {
                let mut m = "Template error: ".to_owned();
                m.append(d.as_str());
                m
            },
            Md2PdfError::NoInputFiles => "No input files provided".to_owned(),
            Md2PdfError::InvalidExtension(p) => {
                let mut m = "Input file must have .md extension: ".to_owned();
                m.append(p.as_str());
                m
            },
        }
    }
}

} // verus!
