//! The structural annotator: rewrites a stream of structural events into the
//! same stream with non-splitting region markers injected around tables,
//! code blocks and block quotations.
//!
//! The annotator makes a single forward pass. Every original event is kept,
//! in its original order; the only change is the insertion of a
//! [`StructuralEvent::RawMarkup`] opening marker immediately before each
//! tracked container's start event and a closing marker immediately after
//! its end event. Malformed input (an end without a start) is not repaired:
//! each tracked end event still receives its closing marker.

use vstd::prelude::*;

use crate::events::{EventView, Phase, RegionKind, StructuralEvent};

verus! {

/// Markup text of the opening non-splitting marker for a region kind.
pub open spec fn open_marker_text(kind: RegionKind) -> Seq<char> {
    match kind {
        RegionKind::Table => "<div class=\"table-wrapper no-break\">"@,
        RegionKind::CodeBlock => "<div class=\"code-wrapper no-break\">"@,
        RegionKind::BlockQuote => "<div class=\"blockquote-wrapper no-break\">"@,
    }
}

/// Markup text of the closing non-splitting marker; one text closes all
/// three region kinds.
pub open spec fn close_marker_text() -> Seq<char> {
    "</div>"@
}

/// The region kind opened by this event, if it is a tracked start event.
pub open spec fn region_start_kind(e: EventView) -> Option<RegionKind> {
    match e {
        EventView::Table(Phase::Start) => Some(RegionKind::Table),
        EventView::CodeBlock(_, Phase::Start) => Some(RegionKind::CodeBlock),
        EventView::BlockQuote(Phase::Start) => Some(RegionKind::BlockQuote),
        _ => None,
    }
}

/// Whether this event starts a tracked non-splitting region.
pub open spec fn is_region_start(e: EventView) -> bool {
    region_start_kind(e) is Some
}

/// Whether this event ends a tracked non-splitting region.
pub open spec fn is_region_end(e: EventView) -> bool {
    match e {
        EventView::Table(Phase::End) => true,
        EventView::CodeBlock(_, Phase::End) => true,
        EventView::BlockQuote(Phase::End) => true,
        _ => false,
    }
}

/// Whether an event is one of the markers the annotator injects.
pub open spec fn is_injected_marker(e: EventView) -> bool {
    match e {
        EventView::RawMarkup(t) => t == open_marker_text(RegionKind::Table) || t
            == open_marker_text(RegionKind::CodeBlock) || t == open_marker_text(
            RegionKind::BlockQuote,
        ) || t == close_marker_text(),
        _ => false,
    }
}

/// What the annotator emits for one input event: the event alone, or the
/// event together with its adjacent marker.
pub open spec fn event_expansion(e: EventView) -> Seq<EventView> {
    match region_start_kind(e) {
        Some(kind) => seq![EventView::RawMarkup(open_marker_text(kind)), e],
        None => if is_region_end(e) {
            seq![e, EventView::RawMarkup(close_marker_text())]
        } else {
            seq![e]
        },
    }
}

/// The annotated form of a whole event sequence.
pub open spec fn annotate_view(s: Seq<EventView>) -> Seq<EventView>
    decreases s.len(),
{
    if s.len() == 0 {
        Seq::empty()
    } else {
        annotate_view(s.drop_last()) + event_expansion(s.last())
    }
}

/// Number of events in the sequence that start or end a tracked region;
/// each of them receives exactly one injected marker.
pub open spec fn region_boundary_count(s: Seq<EventView>) -> nat
    decreases s.len(),
{
    if s.len() == 0 {
        0
    } else {
        region_boundary_count(s.drop_last()) + if is_region_start(s.last()) || is_region_end(
            s.last(),
        ) {
            1nat
        } else {
            0nat
        }
    }
}

/// The projection of an event sequence that removes every injected marker
/// and keeps everything else, in order.
pub open spec fn originals_of(s: Seq<EventView>) -> Seq<EventView>
    decreases s.len(),
{
    if s.len() == 0 {
        Seq::empty()
    } else {
        originals_of(s.drop_last()) + if is_injected_marker(s.last()) {
            Seq::<EventView>::empty()
        } else {
            seq![s.last()]
        }
    }
}

/// Annotation distributes over concatenation of event sequences.
pub proof fn lemma_annotate_view_concat(a: Seq<EventView>, b: Seq<EventView>)
    ensures
        annotate_view(a + b) == annotate_view(a) + annotate_view(b),
    decreases b.len(),
{
    if b.len() == 0 {
        assert(a + b =~= a);
        assert(annotate_view(a) + annotate_view(b) =~= annotate_view(a));
    } else {
        lemma_annotate_view_concat(a, b.drop_last());
        assert((a + b).drop_last() =~= a + b.drop_last());
        assert((a + b).last() == b.last());
        assert(annotate_view(a) + annotate_view(b.drop_last()) + event_expansion(b.last()) =~= annotate_view(a) + (annotate_view(b.drop_last()) + event_expansion(b.last())));
    }
}

/// The annotated sequence holds every original event plus exactly one
/// marker for each tracked region start or end: nothing else is added and
/// nothing is removed.
pub proof fn lemma_annotate_length(s: Seq<EventView>)
    ensures
        annotate_view(s).len() == s.len() + region_boundary_count(s),
    decreases s.len(),
{
    if s.len() == 0 {
    } else {
        lemma_annotate_length(s.drop_last());
    }
}

proof fn lemma_originals_single(e: EventView)
    ensures
        originals_of(seq![e]) == if is_injected_marker(e) {
            Seq::<EventView>::empty()
        } else {
            seq![e]
        },
{
    assert(seq![e].drop_last() =~= Seq::<EventView>::empty());
    assert(originals_of(seq![e]) == originals_of(Seq::<EventView>::empty()) + if is_injected_marker(
        e,
    ) {
        Seq::<EventView>::empty()
    } else {
        seq![e]
    });
    assert(Seq::<EventView>::empty() + seq![e] =~= seq![e]);
    assert(Seq::<EventView>::empty() + Seq::<EventView>::empty() =~= Seq::<EventView>::empty());
}

proof fn lemma_originals_concat(a: Seq<EventView>, b: Seq<EventView>)
    ensures
        originals_of(a + b) == originals_of(a) + originals_of(b),
    decreases b.len(),
{
    if b.len() == 0 {
        assert(a + b =~= a);
        assert(originals_of(a) + originals_of(b) =~= originals_of(a));
    } else {
        lemma_originals_concat(a, b.drop_last());
        assert((a + b).drop_last() =~= a + b.drop_last());
        assert((a + b).last() == b.last());
        let tail = if is_injected_marker(b.last()) {
            Seq::<EventView>::empty()
        } else {
            seq![b.last()]
        };
        assert(originals_of(a) + originals_of(b.drop_last()) + tail =~= originals_of(a) + (
        originals_of(b.drop_last()) + tail));
    }
}

proof fn lemma_originals_expansion(e: EventView)
    ensures
        originals_of(event_expansion(e)) == if is_injected_marker(e) {
            Seq::<EventView>::empty()
        } else {
            seq![e]
        },
{
    match region_start_kind(e) {
        Some(kind) => {
            let m = EventView::RawMarkup(open_marker_text(kind));
            assert(event_expansion(e) =~= seq![m] + seq![e]);
            lemma_originals_concat(seq![m], seq![e]);
            lemma_originals_single(m);
            lemma_originals_single(e);
            assert(Seq::<EventView>::empty() + seq![e] =~= seq![e]);
        },
        None => {
            if is_region_end(e) {
                let m = EventView::RawMarkup(close_marker_text());
                assert(event_expansion(e) =~= seq![e] + seq![m]);
                lemma_originals_concat(seq![e], seq![m]);
                lemma_originals_single(m);
                lemma_originals_single(e);
                assert(seq![e] + Seq::<EventView>::empty() =~= seq![e]);
            } else {
                lemma_originals_single(e);
            }
        },
    }
}

/// The annotator only inserts markers: projecting the injected markers out
/// of the annotated sequence gives exactly the same projection of the
/// input, so the relative order of all original events is preserved.
pub proof fn lemma_annotate_projection(s: Seq<EventView>)
    ensures
        originals_of(annotate_view(s)) == originals_of(s),
    decreases s.len(),
{
    if s.len() == 0 {
    } else {
        lemma_annotate_projection(s.drop_last());
        lemma_originals_concat(annotate_view(s.drop_last()), event_expansion(s.last()));
        lemma_originals_expansion(s.last());
    }
}

/// A sequence without injected markers projects to itself.
pub proof fn lemma_originals_identity(s: Seq<EventView>)
    requires
        forall|i: int| 0 <= i < s.len() ==> !is_injected_marker(#[trigger] s[i]),
    ensures
        originals_of(s) == s,
    decreases s.len(),
{
    if s.len() == 0 {
        assert(originals_of(s) =~= s);
    } else {
        assert forall|i: int| 0 <= i < s.drop_last().len() implies !is_injected_marker(
            #[trigger] s.drop_last()[i],
        ) by {
            assert(s.drop_last()[i] == s[i]);
        }
        lemma_originals_identity(s.drop_last());
        assert(!is_injected_marker(s.last())) by {
            assert(s.last() == s[s.len() - 1]);
        }
        assert(originals_of(s) =~= s.drop_last() + seq![s.last()]);
        assert(s.drop_last() + seq![s.last()] =~= s);
    }
}

/// For an input free of marker events, projecting the markers out of the
/// annotated output restores the input exactly.
pub proof fn lemma_annotate_projection_identity(s: Seq<EventView>)
    requires
        forall|i: int| 0 <= i < s.len() ==> !is_injected_marker(#[trigger] s[i]),
    ensures
        originals_of(annotate_view(s)) == s,
{
    lemma_annotate_projection(s);
    lemma_originals_identity(s);
}

/// The index at which input event `s[i]` appears in `annotate_view(s)`.
pub open spec fn annotated_pos(s: Seq<EventView>, i: int) -> int {
    annotate_view(s.take(i)).len() + if is_region_start(s[i]) {
        1int
    } else {
        0int
    }
}

/// Every original event appears at its annotated position; a tracked start
/// event is immediately preceded by its opening marker and a tracked end
/// event is immediately followed by the closing marker, with nothing in
/// between.
pub proof fn lemma_annotate_brackets(s: Seq<EventView>, i: int)
    requires
        0 <= i < s.len(),
    ensures
        0 <= annotated_pos(s, i) < annotate_view(s).len(),
        annotate_view(s)[annotated_pos(s, i)] == s[i],
        is_region_start(s[i]) ==> annotate_view(s)[annotated_pos(s, i) - 1] == EventView::RawMarkup(
            open_marker_text(region_start_kind(s[i])->Some_0),
        ),
        is_region_end(s[i]) ==> annotated_pos(s, i) + 1 < annotate_view(s).len() && annotate_view(
            s,
        )[annotated_pos(s, i) + 1] == EventView::RawMarkup(close_marker_text()),
{
    let head = annotate_view(s.take(i));
    let exp = event_expansion(s[i]);
    let rest = annotate_view(s.skip(i + 1));
    assert(s =~= s.take(i + 1) + s.skip(i + 1));
    lemma_annotate_view_concat(s.take(i + 1), s.skip(i + 1));
    assert(s.take(i + 1).drop_last() =~= s.take(i));
    assert(s.take(i + 1).last() == s[i]);
    assert(annotate_view(s) == head + exp + rest);
    assert(head + exp + rest =~= head + (exp + rest));
}

/// Annotated positions grow strictly with input positions: the annotator
/// reorders nothing.
pub proof fn lemma_annotate_order(s: Seq<EventView>, i: int, j: int)
    requires
        0 <= i < j < s.len(),
    ensures
        annotated_pos(s, i) < annotated_pos(s, j),
{
    let head = annotate_view(s.take(i));
    let exp = event_expansion(s[i]);
    assert(s.take(i + 1).drop_last() =~= s.take(i));
    assert(s.take(i + 1).last() == s[i]);
    assert(annotate_view(s.take(i + 1)) == head + exp);
    assert(annotated_pos(s, i) < annotate_view(s.take(i + 1)).len());
    assert(s.take(j) =~= s.take(i + 1) + s.take(j).skip(i + 1));
    lemma_annotate_view_concat(s.take(i + 1), s.take(j).skip(i + 1));
    assert(annotate_view(s.take(j)).len() >= annotate_view(s.take(i + 1)).len());
}

/// The exec counterpart of [`region_start_kind`].
fn start_region_of(e: &StructuralEvent) -> (result: Option<RegionKind>)
    ensures
        result == region_start_kind(e.deep_view()),
{
    match e {
        StructuralEvent::Table(Phase::Start) => Some(RegionKind::Table),
        StructuralEvent::CodeBlock(_, Phase::Start) => Some(RegionKind::CodeBlock),
        StructuralEvent::BlockQuote(Phase::Start) => Some(RegionKind::BlockQuote),
        _ => None,
    }
}

/// The exec counterpart of [`is_region_end`].
fn ends_region(e: &StructuralEvent) -> (result: bool)
    ensures
        result == is_region_end(e.deep_view()),
{
    match e {
        StructuralEvent::Table(Phase::End) => true,
        StructuralEvent::CodeBlock(_, Phase::End) => true,
        StructuralEvent::BlockQuote(Phase::End) => true,
        _ => false,
    }
}

/// The opening marker for a region kind, as owned markup text.
fn open_marker(kind: RegionKind) -> (result: String)
    ensures
        result@ == open_marker_text(kind),
{
    match kind {
        RegionKind::Table => "<div class=\"table-wrapper no-break\">".to_owned(),
        RegionKind::CodeBlock => "<div class=\"code-wrapper no-break\">".to_owned(),
        RegionKind::BlockQuote => "<div class=\"blockquote-wrapper no-break\">".to_owned(),
    }
}

/// Injects non-splitting region markers around every tracked container
/// event, leaving all original events in place and in order.
pub fn annotate(events: &Vec<StructuralEvent>) -> (result: Vec<StructuralEvent>)
    ensures
        result.deep_view() == annotate_view(events.deep_view()),
{
    let mut output: Vec<StructuralEvent> = Vec::new();
    let n = events.len();
    for i in 0..n
        invariant
            n == events.len(),
            output.deep_view() == annotate_view(events.deep_view().take(i as int)),
    {
        let ghost full = events.deep_view();
        let ghost prev = output.deep_view();
        let e = events[i].duplicate();
        match start_region_of(&events[i]) {
            Some(kind) => {
                output.push(StructuralEvent::RawMarkup(open_marker(kind)));
                output.push(e);
                proof {
                    assert(output.deep_view() =~= prev + event_expansion(full[i as int]));
                }
            },
            None => {
                if ends_region(&events[i]) {
                    output.push(e);
                    output.push(StructuralEvent::RawMarkup("</div>".to_owned()));
                    proof {
                        assert(output.deep_view() =~= prev + event_expansion(full[i as int]));
                    }
                } else {
                    output.push(e);
                    proof {
                        assert(output.deep_view() =~= prev + event_expansion(full[i as int]));
                    }
                }
            },
        }
        proof {
            assert(full.take(i + 1).drop_last() =~= full.take(i as int));
            assert(full.take(i + 1).last() == full[i as int]);
        }
    }
    proof {
        assert(events.deep_view().take(n as int) =~= events.deep_view());
    }
    output
}

/// Annotates an event sequence and renders it to markup: the body text of
/// the final document.
pub fn events_to_html(events: &Vec<StructuralEvent>) -> (result: String)
    ensures
        result@ == crate::markup::markup_of(annotate_view(events.deep_view())),
{
    let annotated = annotate(events);
    crate::markup::events_to_markup(&annotated)
}

/// Passes markup through unchanged: the upstream parser's output is
/// trusted, so no tags are stripped here.
pub fn sanitize_html(html: &str) -> (result: String)
    ensures
        result@ == html@,
{
    html.to_owned()
}

} // verus!
