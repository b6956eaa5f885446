//! Conversion core for a markdown-to-PDF pipeline.
//!
//! The library owns everything between parsing and rendering: it
//! validates document text, rewrites the parsed event stream so that
//! tables, code blocks and block quotations are bracketed by
//! non-splitting markers, serializes the annotated stream to markup,
//! carries the pagination rule set and page geometry, and assembles the
//! self-contained document handed to a rendering backend. Reading files,
//! parsing raw text into structural events and driving the renderer are
//! the caller's side of the boundary.

pub mod error;
pub mod events;
pub mod html;
pub mod markdown;
pub mod markup;
pub mod paths;
pub mod pdf;
pub mod template;

use vstd::prelude::*;

use error::Md2PdfError;
use events::{EventView, StructuralEvent};
use markdown::has_markdown_content;
use paths::has_extension;
use pdf::{default_pdf_config, PdfConfig};
use template::{default_css_text, html_document_text};

verus! {

/// Options shared by every conversion of a batch.
#[derive(Debug, Clone)]
pub struct ConversionOptions {
    /// Path of a custom stylesheet replacing the built-in one, if any.
    pub custom_css_path: Option<String>,
    /// Page geometry and rendering switches.
    pub pdf_config: PdfConfig,
    /// Verbose progress reporting.
    pub verbose: bool,
}

impl Default for ConversionOptions {
    /// No custom stylesheet, default geometry, quiet.
    fn default() -> (result: ConversionOptions)
        ensures
            result.custom_css_path is None,
            result.pdf_config == default_pdf_config(),
            !result.verbose,
    {
        ConversionOptions {
            custom_css_path: None,
            pdf_config: PdfConfig::default(),
            verbose: false,
        }
    }
}

/// The stylesheet a conversion uses: the caller-supplied text when one
/// was given, the built-in stylesheet otherwise.
pub open spec fn selected_css(custom: Option<Seq<char>>) -> Seq<char> {
    match custom {
        Some(css) => css,
        None => default_css_text(),
    }
}

/// What a single conversion must return, for every combination of
/// inputs: the empty-document error on a document without content, the
/// invalid-path error on an output path that is not a `pdf` file, and
/// otherwise exactly the assembled document over the annotated,
/// serialized event stream and the selected stylesheet.
pub open spec fn conversion_outcome(
    doc: Seq<char>,
    parsed: Seq<EventView>,
    output_path: Seq<char>,
    custom_css: Option<Seq<char>>,
    result: Result<String, Md2PdfError>,
) -> bool {
    if !has_markdown_content(doc) {
        &&& result matches Err(e)
        &&& e matches Md2PdfError::MarkdownParse(m)
        &&& m@ == "Markdown file is empty"@
    } else if !has_extension(output_path, "pdf"@) {
        &&& result matches Err(e)
        &&& e matches Md2PdfError::InvalidPath(p)
        &&& p@ == output_path
    } else {
        &&& result matches Ok(document)
        &&& document@ == html_document_text(
            markup::markup_of(html::annotate_view(parsed)),
            selected_css(custom_css),
        )
    }
}

/// Converts one parsed document into the final markup artifact.
///
/// `doc` is the raw document text, used only for validation; `parsed` is
/// the structural event stream an upstream parser produced from it;
/// `output_path` names the file the rendering will go to; `custom_css`
/// replaces the built-in stylesheet wholesale when given.
pub fn convert_markdown_to_pdf(
    doc: &str,
    parsed: &Vec<StructuralEvent>,
    output_path: &str,
    custom_css: &Option<String>,
) -> (result: Result<String, Md2PdfError>)
    ensures
        conversion_outcome(doc@, parsed.deep_view(), output_path@, custom_css.deep_view(), result),
{
    match markdown::validate_markdown(doc) {
        Err(e) => {
            return Err(e);
        },
        Ok(()) => {},
    }
    match pdf::validate_output_path(output_path) {
        Err(e) => {
            return Err(e);
        },
        Ok(()) => {},
    }
    let body = html::events_to_html(parsed);
    let css: String = match custom_css {
        Some(text) => text.clone(),
        None => template::default_css(),
    };
    Ok(template::generate_html(body.as_str(), css.as_str()))
}

/// One document of a batch: its text, its parsed event stream, and where
/// its rendering is to go.
#[derive(Debug, Clone)]
pub struct ConversionJob {
    pub doc: String,
    pub parsed: Vec<StructuralEvent>,
    pub output_path: String,
}

/// Converts a batch of documents, each independently: one document's
/// failure leaves every other outcome exactly what a lone conversion of
/// that document would have produced.
pub fn convert_multiple_files(
    conversions: &Vec<ConversionJob>,
    custom_css: &Option<String>,
) -> (results: Vec<Result<String, Md2PdfError>>)
    ensures
        results@.len() == conversions@.len(),
        forall|i: int|
            0 <= i < conversions@.len() ==> conversion_outcome(
                conversions@[i].doc@,
                conversions@[i].parsed.deep_view(),
                conversions@[i].output_path@,
                custom_css.deep_view(),
                #[trigger] results@[i],
            ),
{
    let mut results: Vec<Result<String, Md2PdfError>> = Vec::new();
    let n = conversions.len();
    for i in 0..n
        invariant
            n == conversions@.len(),
            results@.len() == i,
            forall|j: int|
                0 <= j < i ==> conversion_outcome(
                    conversions@[j].doc@,
                    conversions@[j].parsed.deep_view(),
                    conversions@[j].output_path@,
                    custom_css.deep_view(),
                    #[trigger] results@[j],
                ),
    {
        let job = &conversions[i];
        let outcome = convert_markdown_to_pdf(
            job.doc.as_str(),
            &job.parsed,
            job.output_path.as_str(),
            custom_css,
        );
        results.push(outcome);
    }
    results
}

/// How many outcomes of a batch succeeded.
pub open spec fn success_count(results: Seq<Result<String, Md2PdfError>>) -> nat
    decreases results.len(),
{
    if results.len() == 0 {
        0
    } else {
        success_count(results.drop_last()) + if results.last() is Ok {
            1nat
        } else {
            0nat
        }
    }
}

proof fn lemma_success_count_bound(results: Seq<Result<String, Md2PdfError>>)
    ensures
        success_count(results) <= results.len(),
    decreases results.len(),
{
    if results.len() > 0 {
        lemma_success_count_bound(results.drop_last());
    }
}

/// Counts a batch's successes and failures for the end-of-run summary.
pub fn summarize_results(results: &Vec<Result<String, Md2PdfError>>) -> (counts: (usize, usize))
    ensures
        counts.0 == success_count(results@),
        counts.1 == results@.len() - success_count(results@),
{
    let mut succeeded: usize = 0;
    let n = results.len();
    for i in 0..n
        invariant
            n == results@.len(),
            succeeded == success_count(results@.take(i as int)),
            succeeded <= i,
    {
        if results[i].is_ok() {
            succeeded = succeeded + 1;
        }
        proof {
            assert(results@.take(i + 1).drop_last() =~= results@.take(i as int));
            assert(results@.take(i + 1).last() == results@[i as int]);
        }
    }
    proof {
        assert(results@.take(n as int) =~= results@);
        lemma_success_count_bound(results@);
    }
    (succeeded, n - succeeded)
}

} // verus!
