//! The markup serializer: renders an annotated event sequence into HTML
//! text. Each event becomes one fragment; fragments are concatenated in
//! stream order. `RawMarkup` events are emitted verbatim; text content is
//! escaped character by character.

use vstd::prelude::*;
use vstd::string::StrSliceExecFns;
use vstd::string::StringExecFns;

use crate::events::{EventView, HeadingLevel, Phase, StructuralEvent};

verus! {

/// The escaped form of one character of text content.
pub open spec fn escaped_char(c: char) -> Seq<char> {
    if c == '&' {
        "&amp;"@
    } else if c == '<' {
        "&lt;"@
    } else if c == '>' {
        "&gt;"@
    } else if c == '"' {
        "&quot;"@
    } else if c == '\'' {
        "&#39;"@
    } else {
        seq![c]
    }
}

/// The escaped form of a whole text, character by character.
pub open spec fn escaped_text(s: Seq<char>) -> Seq<char>
    decreases s.len(),
{
    if s.len() == 0 {
        Seq::empty()
    } else {
        escaped_text(s.drop_last()) + escaped_char(s.last())
    }
}

/// Escapes the characters that would otherwise be read as markup.
pub fn escape_html(text: &str) -> (result: String)
    ensures
        result@ == escaped_text(text@),
{
    let mut output = String::new();
    let n = text.unicode_len();
    for i in 0..n
        invariant
            n == text@.len(),
            output@ == escaped_text(text@.take(i as int)),
    {
        let c = text.get_char(i);
        if c == '&' {
            output.append("&amp;");
        } else if c == '<' {
            output.append("&lt;");
        } else if c == '>' {
            output.append("&gt;");
        } else if c == '"' {
            output.append("&quot;");
        } else if c == '\'' {
            output.append("&#39;");
        } else {
            let piece = text.substring_char(i, i + 1);
            proof {
                assert(piece@ =~= seq![text@[i as int]]);
            }
            output.append(piece);
        }
        proof {
            assert(text@.take(i + 1).drop_last() =~= text@.take(i as int));
            assert(text@.take(i + 1).last() == text@[i as int]);
        }
    }
    proof {
        assert(text@.take(n as int) =~= text@);
    }
    output
}

/// Opening tag of a heading.
pub open spec fn heading_open_text(level: HeadingLevel) -> Seq<char> {
    match level {
        HeadingLevel::H1 => "<h1>"@,
        HeadingLevel::H2 => "<h2>"@,
        HeadingLevel::H3 => "<h3>"@,
        HeadingLevel::H4 => "<h4>"@,
        HeadingLevel::H5 => "<h5>"@,
        HeadingLevel::H6 => "<h6>"@,
    }
}

/// Closing tag of a heading.
pub open spec fn heading_close_text(level: HeadingLevel) -> Seq<char> {
    match level {
        HeadingLevel::H1 => "</h1>"@,
        HeadingLevel::H2 => "</h2>"@,
        HeadingLevel::H3 => "</h3>"@,
        HeadingLevel::H4 => "</h4>"@,
        HeadingLevel::H5 => "</h5>"@,
        HeadingLevel::H6 => "</h6>"@,
    }
}

/// The markup fragment one event serializes to.
pub open spec fn fragment_of(e: EventView) -> Seq<char> {
    match e {
        EventView::DocumentBoundary(_) => Seq::empty(),
        EventView::Heading(level, Phase::Start) => heading_open_text(level),
        EventView::Heading(level, Phase::End) => heading_close_text(level),
        EventView::Table(Phase::Start) => "<table>"@,
        EventView::Table(Phase::End) => "</table>"@,
        EventView::CodeBlock(lang, Phase::Start) => match lang {
            None => "<pre><code>"@,
            Some(l) => "<pre><code class=\"language-"@ + escaped_text(l) + "\">"@,
        },
        EventView::CodeBlock(_, Phase::End) => "</code></pre>"@,
        EventView::BlockQuote(Phase::Start) => "<blockquote>"@,
        EventView::BlockQuote(Phase::End) => "</blockquote>"@,
        EventView::Paragraph(Phase::Start) => "<p>"@,
        EventView::Paragraph(Phase::End) => "</p>"@,
        EventView::ListItem(checked, Phase::Start) => match checked {
            None => "<li>"@,
            Some(true) => "<li><input type=\"checkbox\" disabled=\"\" checked=\"\"/>"@,
            Some(false) => "<li><input type=\"checkbox\" disabled=\"\"/>"@,
        },
        EventView::ListItem(_, Phase::End) => "</li>"@,
        EventView::InlineText(t) => escaped_text(t),
        EventView::RawMarkup(t) => t,
    }
}

/// The markup of a whole event sequence: its fragments in stream order.
pub open spec fn markup_of(s: Seq<EventView>) -> Seq<char>
    decreases s.len(),
{
    if s.len() == 0 {
        Seq::empty()
    } else {
        markup_of(s.drop_last()) + fragment_of(s.last())
    }
}

/// Renders one event to its markup fragment.
pub fn event_markup(e: &StructuralEvent) -> (result: String)
    ensures
        result@ == fragment_of(e.deep_view()),
{
    match e {
        StructuralEvent::DocumentBoundary(_) => String::new(),
        StructuralEvent::Heading(level, phase) => {
            let tag = match (level, phase) {
                (HeadingLevel::H1, Phase::Start) => "<h1>",
                (HeadingLevel::H2, Phase::Start) => "<h2>",
                (HeadingLevel::H3, Phase::Start) => "<h3>",
                (HeadingLevel::H4, Phase::Start) => "<h4>",
                (HeadingLevel::H5, Phase::Start) => "<h5>",
                (HeadingLevel::H6, Phase::Start) => "<h6>",
                (HeadingLevel::H1, Phase::End) => "</h1>",
                (HeadingLevel::H2, Phase::End) => "</h2>",
                (HeadingLevel::H3, Phase::End) => "</h3>",
                (HeadingLevel::H4, Phase::End) => "</h4>",
                (HeadingLevel::H5, Phase::End) => "</h5>",
                (HeadingLevel::H6, Phase::End) => "</h6>",
            };
            tag.to_owned()
        },
        StructuralEvent::Table(Phase::Start) => "<table>".to_owned(),
        StructuralEvent::Table(Phase::End) => "</table>".to_owned(),
        StructuralEvent::CodeBlock(lang, Phase::Start) => match lang {
            None => "<pre><code>".to_owned(),
            Some(l) => {
                let mut tag = "<pre><code class=\"language-".to_owned();
                let escaped = escape_html(l.as_str());
                tag.append(escaped.as_str());
                tag.append("\">");
                tag
            },
        },
        StructuralEvent::CodeBlock(_, Phase::End) => "</code></pre>".to_owned(),
        StructuralEvent::BlockQuote(Phase::Start) => "<blockquote>".to_owned(),
        StructuralEvent::BlockQuote(Phase::End) => "</blockquote>".to_owned(),
        StructuralEvent::Paragraph(Phase::Start) => "<p>".to_owned(),
        StructuralEvent::Paragraph(Phase::End) => "</p>".to_owned(),
        StructuralEvent::ListItem(checked, Phase::Start) => match checked {
            None => "<li>".to_owned(),
            Some(true) => "<li><input type=\"checkbox\" disabled=\"\" checked=\"\"/>".to_owned(),
            Some(false) => "<li><input type=\"checkbox\" disabled=\"\"/>".to_owned(),
        },
        StructuralEvent::ListItem(_, Phase::End) => "</li>".to_owned(),
        StructuralEvent::InlineText(t) => escape_html(t.as_str()),
        StructuralEvent::RawMarkup(t) => t.clone(),
    }
}

/// Renders an event sequence into markup text, fragment by fragment, in
/// exactly the order the sequence gives.
pub fn events_to_markup(events: &Vec<StructuralEvent>) -> (result: String)
    ensures
        result@ == markup_of(events.deep_view()),
{
    let mut output = String::new();
    let n = events.len();
    for i in 0..n
        invariant
            n == events.len(),
            output@ == markup_of(events.deep_view().take(i as int)),
    {
        let fragment = event_markup(&events[i]);
        output.append(fragment.as_str());
        proof {
            let full = events.deep_view();
            assert(full.take(i + 1).drop_last() =~= full.take(i as int));
            assert(full.take(i + 1).last() == full[i as int]);
        }
    }
    proof {
        assert(events.deep_view().take(n as int) =~= events.deep_view());
    }
    output
}

} // verus!
