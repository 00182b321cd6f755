//! Rich text: finding the styled span under a position of the text, and how the hovered
//! span changes as the cursor moves.
use vstd::prelude::*;

verus! {

/// The byte range `range` (start included, end excluded) contains `offset`.
pub open spec fn range_holds(range: (usize, usize), offset: usize) -> bool {
    range.0 <= offset && offset < range.1
}

/// The index of the first span whose byte range holds `offset`, as the text's spans are
/// searched for the one under the cursor; `None` when no span holds it.
pub fn span_at(ranges: &[(usize, usize)], offset: usize) -> (r: Option<usize>)
    ensures
        match r {
            Some(i) => i < ranges@.len() && range_holds(ranges@[i as int], offset) && forall|j: int|
                0 <= j < i ==> !range_holds(#[trigger] ranges@[j], offset),
            None => forall|j: int| 0 <= j < ranges@.len() ==> !range_holds(#[trigger] ranges@[j], offset),
        },
{
    let mut i: usize = 0;
    while i < ranges.len()
        invariant
            i <= ranges@.len(),
            forall|j: int| 0 <= j < i ==> !range_holds(#[trigger] ranges@[j], offset),
        decreases ranges@.len() - i,
    {
        let (start, end) = ranges[i];
        if start <= offset && offset < end {
            return Some(i);
        }
        i += 1;
    }
    None
}

/// Whether moving the cursor changes the hovered span: the span under it now differs from
/// the one before. Only then are the spans restyled and the hover handler told of the span
/// left and the span entered.
pub fn hover_moved(before: Option<usize>, now: Option<usize>) -> (r: bool)
    ensures
        r == (before != now),
{
    match (before, now) {
        (Some(a), Some(b)) => a != b,
        (None, None) => false,
        _ => true,
    }
}

/// What the hover logic needs of a span of a rich text.
#[derive(Clone, Copy, Debug, PartialEq, Eq, Structural)]
pub struct SpanInfo {
    /// The span has a style of its own while hovered.
    pub has_hover_style: bool,
    /// That hover style changes the text's geometry (font size, weight or style).
    pub hover_changes_geometry: bool,
    /// The span carries an identifier, which hover and click handlers receive.
    pub has_id: bool,
}

/// Which span of a rich text is hovered.
#[derive(Clone, Copy, Debug, PartialEq, Eq, Structural)]
pub struct SpanHover {
    /// The index of the span under the cursor.
    pub index: Option<usize>,
    /// The hovered span's identifier is held (and its geometry with it).
    pub has_id: bool,
}

/// Where the cursor moved, as the hover logic sees it.
#[derive(Clone, Copy, Debug, PartialEq, Eq, Structural)]
pub enum HoverInput {
    /// Over the laid-out text, above the span `matched` (see [`span_at`]) or none.
    OverText { matched: Option<usize> },
    /// Over the text's node before it has been laid out.
    Unmeasured,
    /// Away from the text.
    Away,
}

/// What a rich text does when the cursor moves.
#[derive(Clone, Copy, Debug, PartialEq, Eq, Structural)]
pub struct HoverActions {
    /// The text is set again with its spans restyled for the new hover.
    pub restyle: bool,
    /// The text's layout is invalidated, the hover style changing its geometry.
    pub relayout: bool,
    /// Another frame is requested.
    pub redraw: bool,
    /// The hover handler is told that the cursor left the previously hovered span.
    pub notify_left: bool,
    /// The hover handler is then told that the cursor entered the new span, unless the
    /// first call produced a message.
    pub notify_entered: bool,
}

/// The span `i` exists and has a hover style.
pub open spec fn hover_styled(spans: Seq<SpanInfo>, i: Option<usize>) -> bool {
    i matches Some(k) && k < spans.len() && spans[k as int].has_hover_style
}

/// The span `i` exists and its hover style changes the text's geometry.
pub open spec fn hover_reshapes(spans: Seq<SpanInfo>, i: Option<usize>) -> bool {
    i matches Some(k) && k < spans.len() && spans[k as int].has_hover_style
        && spans[k as int].hover_changes_geometry
}

/// The span `i` exists and carries an identifier.
pub open spec fn span_has_id(spans: Seq<SpanInfo>, i: Option<usize>) -> bool {
    i matches Some(k) && k < spans.len() && spans[k as int].has_id
}

/// Actions that do nothing.
pub open spec fn no_hover_actions() -> HoverActions {
    HoverActions { restyle: false, relayout: false, redraw: false, notify_left: false, notify_entered: false }
}

/// The next hover state of a rich text with spans `spans` in state `s` when the cursor
/// moves as `input` says, and what the text does.
pub open spec fn hover_next(spans: Seq<SpanInfo>, s: SpanHover, input: HoverInput) -> (SpanHover, HoverActions) {
    match input {
        HoverInput::OverText { matched } => if matched != s.index {
            let restyle = hover_styled(spans, s.index) || hover_styled(spans, matched);
            (
                SpanHover { index: matched, has_id: span_has_id(spans, matched) },
                HoverActions {
                    restyle,
                    relayout: restyle && (hover_reshapes(spans, s.index) || hover_reshapes(spans, matched)),
                    redraw: restyle,
                    notify_left: s.has_id,
                    notify_entered: span_has_id(spans, matched),
                },
            )
        } else {
            (s, no_hover_actions())
        },
        HoverInput::Unmeasured => (s, no_hover_actions()),
        HoverInput::Away => if s.index is Some || s.has_id {
            let restyle = hover_styled(spans, s.index);
            (
                SpanHover { index: None, has_id: false },
                HoverActions {
                    restyle,
                    relayout: restyle && hover_reshapes(spans, s.index),
                    redraw: restyle,
                    notify_left: s.has_id,
                    notify_entered: false,
                },
            )
        } else {
            (s, no_hover_actions())
        },
    }
}

/// Whether span `i` of `spans` exists and has a hover style.
fn styled_at(spans: &[SpanInfo], i: Option<usize>) -> (r: bool)
    ensures
        r == hover_styled(spans@, i),
{
    match i {
        Some(k) => k < spans.len() && spans[k].has_hover_style,
        None => false,
    }
}

/// Whether span `i` of `spans` exists and its hover style changes the geometry.
fn reshapes_at(spans: &[SpanInfo], i: Option<usize>) -> (r: bool)
    ensures
        r == hover_reshapes(spans@, i),
{
    match i {
        Some(k) => k < spans.len() && spans[k].has_hover_style && spans[k].hover_changes_geometry,
        None => false,
    }
}

/// Whether span `i` of `spans` exists and carries an identifier.
fn id_at(spans: &[SpanInfo], i: Option<usize>) -> (r: bool)
    ensures
        r == span_has_id(spans@, i),
{
    match i {
        Some(k) => k < spans.len() && spans[k].has_id,
        None => false,
    }
}

/// Tracks the hovered span of a rich text with spans `spans` when the cursor moves: a
/// change of hovered span restyles the text when either span has a hover style, and
/// tells the hover handler of the span left and the span entered.
pub fn hover_step(spans: &[SpanInfo], s: SpanHover, input: HoverInput) -> (r: (SpanHover, HoverActions))
    ensures
        r == hover_next(spans@, s, input),
{
    let none = HoverActions { restyle: false, relayout: false, redraw: false, notify_left: false, notify_entered: false };
    match input {
        HoverInput::OverText { matched } => {
            if matched != s.index {
                let restyle = styled_at(spans, s.index) || styled_at(spans, matched);
                let reshape = reshapes_at(spans, s.index) || reshapes_at(spans, matched);
                let entered = id_at(spans, matched);
                (
                    SpanHover { index: matched, has_id: entered },
                    HoverActions {
                        restyle,
                        relayout: restyle && reshape,
                        redraw: restyle,
                        notify_left: s.has_id,
                        notify_entered: entered,
                    },
                )
            } else {
                (s, none)
            }
        },
        HoverInput::Unmeasured => (s, none),
        HoverInput::Away => {
            if s.index.is_some() || s.has_id {
                let restyle = styled_at(spans, s.index);
                (
                    SpanHover { index: None, has_id: false },
                    HoverActions {
                        restyle,
                        relayout: restyle && reshapes_at(spans, s.index),
                        redraw: restyle,
                        notify_left: s.has_id,
                        notify_entered: false,
                    },
                )
            } else {
                (s, none)
            }
        },
    }
}

/// Whether a mouse release calls the span click handler: it must be released over the
/// text while a span with an identifier is hovered.
pub fn span_click_fires(released_over_text: bool, s: SpanHover) -> (r: bool)
    ensures
        r == (released_over_text && s.has_id),
{
    released_over_text && s.has_id
}

/// When the hover state holds an identifier exactly while its hovered span has one, it
/// still does after any cursor move.
pub proof fn law_hover_id_follows_span(spans: Seq<SpanInfo>, s: SpanHover, input: HoverInput)
    requires
        s.has_id == span_has_id(spans, s.index),
    ensures
        hover_next(spans, s, input).0.has_id == span_has_id(spans, hover_next(spans, s, input).0.index),
{
}

/// Leaving the text clears the hover, and the handler hears of the span left exactly when
/// that span had an identifier.
pub proof fn law_leaving_clears_hover(spans: Seq<SpanInfo>, s: SpanHover)
    requires
        s.has_id == span_has_id(spans, s.index),
    ensures
        hover_next(spans, s, HoverInput::Away).0 == (SpanHover { index: None, has_id: false }),
        hover_next(spans, s, HoverInput::Away).1.notify_left == span_has_id(spans, s.index),
        !hover_next(spans, s, HoverInput::Away).1.notify_entered,
{
}

} // verus!
