//! The structural event model: typed events describing document structure,
//! as produced by an upstream parser and consumed by the annotator and the
//! markup serializer.

use vstd::prelude::*;

verus! {

/// Whether an event opens or closes its element.
#[derive(Clone, Copy, Debug, PartialEq, Eq, Structural)]
pub enum Phase {
    Start,
    End,
}

/// Heading depth, one through six.
#[derive(Clone, Copy, Debug, PartialEq, Eq, Structural)]
pub enum HeadingLevel {
    H1,
    H2,
    H3,
    H4,
    H5,
    H6,
}

/// The three container kinds that must never be split across pages.
#[derive(Clone, Copy, Debug, PartialEq, Eq, Structural)]
pub enum RegionKind {
    Table,
    CodeBlock,
    BlockQuote,
}

/// One structural event of a parsed document.
///
/// Container events come in `Start`/`End` pairs; the upstream parser is
/// trusted to nest them properly, and the annotator preserves whatever it
/// is given without repairing it.
#[derive(Clone, Debug, PartialEq, Eq)]
pub enum StructuralEvent {
    /// Opens or closes the document itself.
    DocumentBoundary(Phase),
    /// A heading with its depth.
    Heading(HeadingLevel, Phase),
    /// A table container.
    Table(Phase),
    /// A fenced code block, with its language tag if one was given.
    CodeBlock(Option<String>, Phase),
    /// A block quotation.
    BlockQuote(Phase),
    /// An ordinary paragraph.
    Paragraph(Phase),
    /// A list item; `Some(checked)` marks a task-list item.
    ListItem(Option<bool>, Phase),
    /// Plain text content, to be escaped by the serializer.
    InlineText(String),
    /// Markup emitted verbatim by the serializer.
    RawMarkup(String),
}

/// The mathematical value of a [`StructuralEvent`]: the same shape with
/// text content abstracted to character sequences.
pub enum EventView {
    DocumentBoundary(Phase),
    Heading(HeadingLevel, Phase),
    Table(Phase),
    CodeBlock(Option<Seq<char>>, Phase),
    BlockQuote(Phase),
    Paragraph(Phase),
    ListItem(Option<bool>, Phase),
    InlineText(Seq<char>),
    RawMarkup(Seq<char>),
}

impl DeepView for StructuralEvent {
    type V = EventView;

    open spec fn deep_view(&self) -> EventView {
        match self {
            StructuralEvent::DocumentBoundary(p) => EventView::DocumentBoundary(*p),
            StructuralEvent::Heading(l, p) => EventView::Heading(*l, *p),
            StructuralEvent::Table(p) => EventView::Table(*p),
            StructuralEvent::CodeBlock(lang, p) => EventView::CodeBlock(lang.deep_view(), *p),
            StructuralEvent::BlockQuote(p) => EventView::BlockQuote(*p),
            StructuralEvent::Paragraph(p) => EventView::Paragraph(*p),
            StructuralEvent::ListItem(c, p) => EventView::ListItem(*c, *p),
            StructuralEvent::InlineText(t) => EventView::InlineText(t@),
            StructuralEvent::RawMarkup(t) => EventView::RawMarkup(t@),
        }
    }
}

impl StructuralEvent {
    /// Builds an identical event; used where an event must appear both in
    /// an input sequence and in an output sequence.
    pub fn duplicate(&self) -> (result: StructuralEvent)
        ensures
            result.deep_view() == self.deep_view(),
    {
        match self {
            StructuralEvent::DocumentBoundary(p) => StructuralEvent::DocumentBoundary(*p),
            StructuralEvent::Heading(l, p) => StructuralEvent::Heading(*l, *p),
            StructuralEvent::Table(p) => StructuralEvent::Table(*p),
            StructuralEvent::CodeBlock(lang, p) => {
                let lang_copy: Option<String> = match lang {
                    Some(s) => Some(s.clone()),
                    None => None,
                };
                StructuralEvent::CodeBlock(lang_copy, *p)
            },
            StructuralEvent::BlockQuote(p) => StructuralEvent::BlockQuote(*p),
            StructuralEvent::Paragraph(p) => StructuralEvent::Paragraph(*p),
            StructuralEvent::ListItem(c, p) => StructuralEvent::ListItem(*c, *p),
            StructuralEvent::InlineText(t) => StructuralEvent::InlineText(t.clone()),
            StructuralEvent::RawMarkup(t) => StructuralEvent::RawMarkup(t.clone()),
        }
    }
}

} // verus!
