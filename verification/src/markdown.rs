//! Document text validation: a document is convertible only if it holds
//! something besides whitespace.

use vstd::prelude::*;
use vstd::string::StrSliceExecFns;

use crate::error::Md2PdfError;
use crate::paths::has_extension;
use crate::paths::path_has_extension;

verus! {

/// The whitespace characters a trimming pass discards: the Unicode
/// White_Space set.
pub open spec fn is_document_whitespace(c: char) -> bool {
    ||| c == ' '
    ||| c == '\t'
    ||| c == '\n'
    ||| c == '\r'
    ||| c == '\u{000B}'
    ||| c == '\u{000C}'
    ||| c == '\u{0085}'
    ||| c == '\u{00A0}'
    ||| c == '\u{1680}'
    ||| (0x2000 <= c as u32 && c as u32 <= 0x200A)
    ||| c == '\u{2028}'
    ||| c == '\u{2029}'
    ||| c == '\u{202F}'
    ||| c == '\u{205F}'
    ||| c == '\u{3000}'
}

/// A document is worth converting when some character is not whitespace.
pub open spec fn has_markdown_content(s: Seq<char>) -> bool {
    exists|i: int| 0 <= i < s.len() && !is_document_whitespace(s[i])
}

/// The exec counterpart of [`is_document_whitespace`].
fn is_whitespace_char(c: char) -> (result: bool)
    ensures
        result == is_document_whitespace(c),
{
    c == ' ' || c == '\t' || c == '\n' || c == '\r' || c == '\u{000B}' || c == '\u{000C}' || c
        == '\u{0085}' || c == '\u{00A0}' || c == '\u{1680}' || (0x2000 <= c as u32 && c as u32
        <= 0x200A) || c == '\u{2028}' || c == '\u{2029}' || c == '\u{202F}' || c == '\u{205F}' || c
        == '\u{3000}'
}

/// Accepts a document exactly when it holds content beyond whitespace;
/// an empty or whitespace-only document is rejected before any annotation
/// begins.
pub fn validate_markdown(content: &str) -> (result: Result<(), Md2PdfError>)
    ensures
        result is Ok <==> has_markdown_content(content@),
        result matches Err(e) ==> e matches Md2PdfError::MarkdownParse(m) && m@
            == "Markdown file is empty"@,
{
    let n = content.unicode_len();
    for i in 0..n
        invariant
            n == content@.len(),
            forall|j: int| 0 <= j < i ==> is_document_whitespace(content@[j]),
    {
        let c = content.get_char(i);
        if !is_whitespace_char(c) {
            return Ok(());
        }
    }
    Err(Md2PdfError::MarkdownParse("Markdown file is empty".to_owned()))
}

/// Reports whether a path names a markdown file, by its extension.
pub fn has_markdown_extension(path: &str) -> (result: bool)
    ensures
        result == has_extension(path@, "md"@),
{
    path_has_extension(path, "md")
}

} // verus!
