//! The interaction state behind styled views: which of hover, press, focus and disabled
//! hold, when a change of them restyles the view, and which style variants are layered
//! over the base style.
use vstd::prelude::*;

verus! {

/// The interaction state of a styled view, which picks its style variants.
#[derive(Clone, Copy, Debug, PartialEq, Eq, Structural)]
pub struct StyledViewState {
    /// The cursor is over the view's node.
    pub is_hovered: bool,
    /// A mouse button is pressed over the view's node.
    pub is_active: bool,
    /// The view's node has the input focus.
    pub is_focused: bool,
    /// The view is disabled.
    pub is_disabled: bool,
    /// A style transition is running.
    pub is_animating: bool,
}

/// A style variant layered over a view's base style.
#[derive(Clone, Copy, Debug, PartialEq, Eq, Structural)]
pub enum StyleVariant {
    Disabled,
    Focus,
    Hover,
    Active,
}

/// An event, as far as a styled view's interaction state goes.
#[derive(Clone, Copy, Debug, PartialEq, Eq, Structural)]
pub enum StyleInput {
    /// The cursor moved; `hit` when it is over the view's node.
    CursorMoved { hit: bool },
    /// A mouse button went down (`pressed`) or up; `hit` when over the view's node.
    Mouse { pressed: bool, hit: bool },
    /// A frame tick.
    Tick,
    /// Any other event.
    Other,
}

/// What a styled view does before its inner view sees an event.
#[derive(Clone, Copy, Debug, PartialEq, Eq, Structural)]
pub struct StyleStep {
    /// Compute the target style again and apply it (advancing any transition); the view
    /// records whether a transition still runs.
    pub restyle: bool,
    /// Request another frame.
    pub request_frame: bool,
}

/// The variants layered over the base style, in the order they are merged: disabled,
/// focus, hover, then active, each when its state holds.
pub open spec fn variants_of(s: StyledViewState) -> Seq<StyleVariant> {
    (if s.is_disabled {
        seq![StyleVariant::Disabled]
    } else {
        Seq::empty()
    }) + (if s.is_focused {
        seq![StyleVariant::Focus]
    } else {
        Seq::empty()
    }) + (if s.is_hovered {
        seq![StyleVariant::Hover]
    } else {
        Seq::empty()
    }) + (if s.is_active {
        seq![StyleVariant::Active]
    } else {
        Seq::empty()
    })
}

/// The interaction state once an event arrives while the node is `focused` or not.
pub open spec fn state_after_input(s: StyledViewState, focused: bool, input: StyleInput) -> StyledViewState {
    let s1 = StyledViewState { is_focused: focused, ..s };
    match input {
        StyleInput::CursorMoved { hit } => StyledViewState { is_hovered: hit, ..s1 },
        StyleInput::Mouse { pressed, hit } => StyledViewState { is_active: pressed && hit, ..s1 },
        _ => s1,
    }
}

impl StyledViewState {
    /// Creates a new unhovered, inactive, unfocused, enabled state with no transition.
    pub fn new() -> (r: Self)
        ensures
            r == (StyledViewState {
                is_hovered: false,
                is_active: false,
                is_focused: false,
                is_disabled: false,
                is_animating: false,
            }),
    {
        StyledViewState {
            is_hovered: false,
            is_active: false,
            is_focused: false,
            is_disabled: false,
            is_animating: false,
        }
    }

    /// Takes in an event before the inner view sees it, while the node is `focused` or not:
    /// the focus, hover and press states follow the event. A change of them restyles the
    /// view and requests a frame; a tick restyles a view whose transition runs.
    pub fn before_event(&mut self, focused: bool, input: StyleInput) -> (r: StyleStep)
        ensures
            *final(self) == state_after_input(*old(self), focused, input),
            r == ({
                let changed = state_after_input(*old(self), focused, input) != *old(self);
                StyleStep {
                    restyle: changed || (input == StyleInput::Tick && old(self).is_animating),
                    request_frame: changed,
                }
            }),
    {
        let mut changed = false;
        if self.is_focused != focused {
            self.is_focused = focused;
            changed = true;
        }
        match input {
            StyleInput::CursorMoved { hit } => {
                if self.is_hovered != hit {
                    self.is_hovered = hit;
                    changed = true;
                }
            },
            StyleInput::Mouse { pressed, hit } => {
                let active = pressed && hit;
                if self.is_active != active {
                    self.is_active = active;
                    changed = true;
                }
            },
            _ => {},
        }
        let tick = match input {
            StyleInput::Tick => true,
            _ => false,
        };
        StyleStep { restyle: changed || (tick && self.is_animating), request_frame: changed }
    }

    /// Takes in the focus once the inner view has seen the event: when it changed, the view
    /// is restyled and a frame requested. Returns whether it changed.
    pub fn after_event(&mut self, focused: bool) -> (r: bool)
        ensures
            r == (old(self).is_focused != focused),
            *final(self) == (StyledViewState { is_focused: focused, ..*old(self) }),
    {
        let changed = self.is_focused != focused;
        self.is_focused = focused;
        changed
    }

    /// The style variants merged over the base style, in order (see [`variants_of`]).
    pub fn variants(&self) -> (r: Vec<StyleVariant>)
        ensures
            r@ == variants_of(*self),
    {
        let mut v: Vec<StyleVariant> = Vec::new();
        if self.is_disabled {
            v.push(StyleVariant::Disabled);
        }
        if self.is_focused {
            v.push(StyleVariant::Focus);
        }
        if self.is_hovered {
            v.push(StyleVariant::Hover);
        }
        if self.is_active {
            v.push(StyleVariant::Active);
        }
        assert(v@ =~= variants_of(*self));
        v
    }
}

/// The active variant is always merged last, so that a pressed view shows its pressed
/// style over its hover and focus styles.
pub proof fn law_active_merged_last(s: StyledViewState)
    requires
        s.is_active,
    ensures
        variants_of(s).last() == StyleVariant::Active,
        variants_of(s).len() >= 1,
{
}

/// A mouse release never leaves a view active, so its active variant is dropped; a press
/// over the view makes it active, and a press elsewhere does not.
pub proof fn law_release_leaves_view_inactive(s: StyledViewState, focused: bool, hit: bool)
    ensures
        !state_after_input(s, focused, StyleInput::Mouse { pressed: false, hit }).is_active,
        !variants_of(state_after_input(s, focused, StyleInput::Mouse { pressed: false, hit })).contains(
            StyleVariant::Active,
        ),
        state_after_input(s, focused, StyleInput::Mouse { pressed: true, hit }).is_active == hit,
{
    let after = state_after_input(s, focused, StyleInput::Mouse { pressed: false, hit });
    let v = variants_of(after);
    assert forall|i: int| 0 <= i < v.len() implies v[i] != StyleVariant::Active by {}
}

/// Releasing the mouse on an active view changes its state, so that it is restyled and
/// its pressed style removed.
pub proof fn law_release_restyles_active_view(s: StyledViewState, focused: bool, hit: bool)
    requires
        s.is_active,
    ensures
        state_after_input(s, focused, StyleInput::Mouse { pressed: false, hit }) != s,
{
}

} // verus!
