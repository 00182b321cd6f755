//! Placement of floating overlays (menus, tooltips, popovers) around an anchor.
use vstd::prelude::*;

use crate::ui::event::{combined, EventResult};

verus! {

/// Target anchor alignment for floating overlay placement.
#[derive(Clone, Copy, Debug, PartialEq, Eq, Structural)]
pub enum OverlayPlacement {
    /// Placed below the anchor, aligned to its leading/left edge.
    BottomStart,
    /// Placed below the anchor, centered horizontally.
    Bottom,
    /// Placed below the anchor, aligned to its trailing/right edge.
    BottomEnd,
    /// Placed above the anchor, aligned to its leading/left edge.
    TopStart,
    /// Placed above the anchor, centered horizontally.
    Top,
    /// Placed above the anchor, aligned to its trailing/right edge.
    TopEnd,
    /// Placed to the left of the anchor, aligned to its top edge.
    LeftStart,
    /// Placed to the left of the anchor, centered vertically.
    Left,
    /// Placed to the left of the anchor, aligned to its bottom edge.
    LeftEnd,
    /// Placed to the right of the anchor, aligned to its top edge.
    RightStart,
    /// Placed to the right of the anchor, centered vertically.
    Right,
    /// Placed to the right of the anchor, aligned to its bottom edge.
    RightEnd,
}

impl Default for OverlayPlacement {
    fn default() -> (r: Self)
        ensures
            r == OverlayPlacement::BottomStart,
    {
        OverlayPlacement::BottomStart
    }
}

/// The placement on the opposite side of the anchor, with the same alignment.
pub open spec fn opposite_side(p: OverlayPlacement) -> OverlayPlacement {
    match p {
        OverlayPlacement::BottomStart => OverlayPlacement::TopStart,
        OverlayPlacement::Bottom => OverlayPlacement::Top,
        OverlayPlacement::BottomEnd => OverlayPlacement::TopEnd,
        OverlayPlacement::TopStart => OverlayPlacement::BottomStart,
        OverlayPlacement::Top => OverlayPlacement::Bottom,
        OverlayPlacement::TopEnd => OverlayPlacement::BottomEnd,
        OverlayPlacement::LeftStart => OverlayPlacement::RightStart,
        OverlayPlacement::Left => OverlayPlacement::Right,
        OverlayPlacement::LeftEnd => OverlayPlacement::RightEnd,
        OverlayPlacement::RightStart => OverlayPlacement::LeftStart,
        OverlayPlacement::Right => OverlayPlacement::Left,
        OverlayPlacement::RightEnd => OverlayPlacement::LeftEnd,
    }
}

impl OverlayPlacement {
    /// The placement used when the overlay is flipped to the other side of its anchor
    /// for lack of room: bottom and top swap, left and right swap, alignment is kept.
    pub fn flipped(self) -> (r: OverlayPlacement)
        ensures
            r == opposite_side(self),
    {
        match self {
            OverlayPlacement::BottomStart => OverlayPlacement::TopStart,
            OverlayPlacement::Bottom => OverlayPlacement::Top,
            OverlayPlacement::BottomEnd => OverlayPlacement::TopEnd,
            OverlayPlacement::TopStart => OverlayPlacement::BottomStart,
            OverlayPlacement::Top => OverlayPlacement::Bottom,
            OverlayPlacement::TopEnd => OverlayPlacement::BottomEnd,
            OverlayPlacement::LeftStart => OverlayPlacement::RightStart,
            OverlayPlacement::Left => OverlayPlacement::Right,
            OverlayPlacement::LeftEnd => OverlayPlacement::RightEnd,
            OverlayPlacement::RightStart => OverlayPlacement::LeftStart,
            OverlayPlacement::Right => OverlayPlacement::Left,
            OverlayPlacement::RightEnd => OverlayPlacement::LeftEnd,
        }
    }
}

/// What an event is, as far as dismissing an open overlay goes.
#[derive(Clone, Copy, Debug, PartialEq, Eq, Structural)]
pub enum OverlayInput {
    /// The Escape key was pressed.
    EscapePressed,
    /// A mouse button was pressed; `inside_anchor` when the anchor (or a node in it) is
    /// under the cursor, `inside_flyout` when the overlay's content is.
    MousePress { inside_anchor: bool, inside_flyout: bool },
    /// Any other event.
    Other,
}

/// Whether an overlay dismisses itself on an event: while it is open and has a dismiss
/// callback, Escape dismisses it if `close_on_escape`, and a press outside both its anchor
/// and its content dismisses it if `close_on_click_outside`.
pub fn overlay_dismisses(
    close_on_escape: bool,
    close_on_click_outside: bool,
    is_open: bool,
    has_dismiss: bool,
    input: OverlayInput,
) -> (r: bool)
    ensures
        r == (is_open && has_dismiss && ((close_on_escape && input == OverlayInput::EscapePressed)
            || (close_on_click_outside && input == (OverlayInput::MousePress {
            inside_anchor: false,
            inside_flyout: false,
        })))),
{
    if close_on_escape && is_open {
        if let OverlayInput::EscapePressed = input {
            if has_dismiss {
                return true;
            }
        }
    }
    if close_on_click_outside && is_open {
        if let OverlayInput::MousePress { inside_anchor, inside_flyout } = input {
            if !inside_anchor && !inside_flyout {
                if has_dismiss {
                    return true;
                }
            }
        }
    }
    false
}

/// Flipping twice gives back the placement it started from, and flipping always changes the side.
pub proof fn lemma_flip_involution(p: OverlayPlacement)
    ensures
        opposite_side(opposite_side(p)) == p,
        opposite_side(p) != p,
{
}

/// The state of an overlay's floating content that the decisions read.
#[derive(Clone, Copy, Debug, PartialEq, Eq, Structural)]
pub struct FlyoutState {
    /// The overlay is open.
    pub open: bool,
    /// The floating content is mounted.
    pub has_flyout: bool,
    /// Content of an earlier opening is still animating out.
    pub has_outgoing: bool,
    /// The mounted content is animating in (rather than old content animating out).
    pub entering: bool,
    /// A motion is running.
    pub animating: bool,
}

/// What happens to an overlay.
#[derive(Clone, Copy, Debug, PartialEq, Eq, Structural)]
pub enum FlyoutEvent {
    /// The overlay is rebuilt, asked to be open or not; `animated` tells whether its
    /// motion has a positive duration.
    Rebuild { open: bool, animated: bool },
    /// A frame tick, once the running motion (if any) has advanced.
    Tick { still_animating: bool, at_end: bool },
}

/// What an overlay does to its floating content, in this order.
#[derive(Clone, Copy, Debug, PartialEq, Eq, Structural)]
pub struct FlyoutActions {
    /// Rebuild the mounted content in place and keep it unclipped on top.
    pub rebuild_flyout: bool,
    /// Tear down the content still animating out and destroy its node.
    pub teardown_outgoing: bool,
    /// Build the content, keep it unclipped on top, append it and show it as the
    /// overlay of the window.
    pub build_flyout: bool,
    /// Stop showing an overlay in the window.
    pub hide_overlay: bool,
    /// Move the mounted content to the outgoing slot.
    pub retire_flyout: bool,
    /// Tear down the content just retired and destroy its node, at once.
    pub teardown_retired: bool,
    /// Restart the motion from the start (else the motion is put at its end).
    pub start_motion: bool,
    /// Place the content by the anchor for the motion's progress.
    pub update_geometry: bool,
    /// Request another frame.
    pub request_frame: bool,
}

/// No action at all.
pub open spec fn no_flyout_actions() -> FlyoutActions {
    FlyoutActions {
        rebuild_flyout: false,
        teardown_outgoing: false,
        build_flyout: false,
        hide_overlay: false,
        retire_flyout: false,
        teardown_retired: false,
        start_motion: false,
        update_geometry: false,
        request_frame: false,
    }
}

/// The next state of an overlay in state `s` on event `e`, and what it does.
pub open spec fn flyout_step(s: FlyoutState, e: FlyoutEvent) -> (FlyoutState, FlyoutActions) {
    match e {
        FlyoutEvent::Rebuild { open, animated } => if open && s.open {
            (s, FlyoutActions { rebuild_flyout: s.has_flyout, update_geometry: true, ..no_flyout_actions() })
        } else if !open && !s.open {
            (s, no_flyout_actions())
        } else if open {
            (
                FlyoutState { open: true, has_flyout: true, has_outgoing: false, entering: true, animating: animated },
                FlyoutActions {
                    teardown_outgoing: s.has_outgoing,
                    build_flyout: true,
                    start_motion: animated,
                    update_geometry: true,
                    request_frame: animated,
                    ..no_flyout_actions()
                },
            )
        } else if s.has_flyout {
            (
                FlyoutState {
                    open: false,
                    has_flyout: false,
                    has_outgoing: animated || s.has_outgoing,
                    entering: false,
                    animating: animated || s.animating,
                },
                FlyoutActions {
                    hide_overlay: true,
                    retire_flyout: animated,
                    teardown_retired: !animated,
                    start_motion: animated,
                    update_geometry: animated,
                    request_frame: animated,
                    ..no_flyout_actions()
                },
            )
        } else {
            (s, FlyoutActions { hide_overlay: true, ..no_flyout_actions() })
        },
        FlyoutEvent::Tick { still_animating, at_end } => {
            let finished = !still_animating || at_end;
            if !s.animating {
                (s, no_flyout_actions())
            } else {
                (
                    FlyoutState {
                        animating: still_animating,
                        has_outgoing: s.has_outgoing && !(finished && !s.entering),
                        ..s
                    },
                    FlyoutActions {
                        update_geometry: true,
                        teardown_outgoing: finished && !s.entering && s.has_outgoing,
                        request_frame: !finished,
                        ..no_flyout_actions()
                    },
                )
            }
        },
    }
}

impl FlyoutState {
    /// The states that the decisions keep: content is mounted exactly while the overlay
    /// is open, and old content animates out only while the overlay is closed.
    pub open spec fn wf(self) -> bool {
        &&& self.has_flyout == self.open
        &&& self.has_outgoing ==> !self.open && !self.entering
        &&& self.entering ==> self.open
    }

    /// The state of an overlay built open or closed.
    pub fn initial(open: bool) -> (r: Self)
        ensures
            r == (FlyoutState { open, has_flyout: open, has_outgoing: false, entering: false, animating: false }),
            r.wf(),
    {
        FlyoutState { open, has_flyout: open, has_outgoing: false, entering: false, animating: false }
    }

    /// Decides what the overlay does to its content on `event`, and its next state.
    pub fn step(self, event: FlyoutEvent) -> (r: (FlyoutState, FlyoutActions))
        ensures
            r == flyout_step(self, event),
    {
        let mut act = FlyoutActions {
            rebuild_flyout: false,
            teardown_outgoing: false,
            build_flyout: false,
            hide_overlay: false,
            retire_flyout: false,
            teardown_retired: false,
            start_motion: false,
            update_geometry: false,
            request_frame: false,
        };
        let mut next = self;
        match event {
            FlyoutEvent::Rebuild { open, animated } => {
                if open && self.open {
                    act.rebuild_flyout = self.has_flyout;
                    act.update_geometry = true;
                } else if !open && !self.open {
                } else if open {
                    act.teardown_outgoing = self.has_outgoing;
                    act.build_flyout = true;
                    act.update_geometry = true;
                    next = FlyoutState {
                        open: true,
                        has_flyout: true,
                        has_outgoing: false,
                        entering: true,
                        animating: animated,
                    };
                    if animated {
                        act.start_motion = true;
                        act.request_frame = true;
                    }
                } else {
                    act.hide_overlay = true;
                    if self.has_flyout {
                        next.open = false;
                        next.has_flyout = false;
                        next.entering = false;
                        if animated {
                            next.has_outgoing = true;
                            next.animating = true;
                            act.retire_flyout = true;
                            act.start_motion = true;
                            act.update_geometry = true;
                            act.request_frame = true;
                        } else {
                            act.teardown_retired = true;
                        }
                    }
                }
            },
            FlyoutEvent::Tick { still_animating, at_end } => {
                if self.animating {
                    next.animating = still_animating;
                    act.update_geometry = true;
                    let finished = !still_animating || at_end;
                    if finished {
                        if !self.entering && self.has_outgoing {
                            act.teardown_outgoing = true;
                            next.has_outgoing = false;
                        }
                    } else {
                        act.request_frame = true;
                    }
                }
            },
        }
        (next, act)
    }
}

/// How an overlay answers an event that its content answered with `flyout_result`
/// (emitting a message when `flyout_emitted`) and its anchor with `anchor_result`: a
/// message of the content wins; otherwise the event is handled when either handled it,
/// and the anchor's message, if any, is passed on. Returns the result and whether the
/// content's message (rather than the anchor's) is the one emitted.
pub fn overlay_result(flyout_result: EventResult, flyout_emitted: bool, anchor_result: EventResult) -> (r: (
    EventResult,
    bool,
))
    ensures
        r == if flyout_emitted {
            (flyout_result, true)
        } else {
            (combined(flyout_result, anchor_result), false)
        },
{
    if flyout_emitted {
        return (flyout_result, true);
    }
    (flyout_result.or(anchor_result), false)
}

/// Every decision keeps the overlay's states well formed: content is mounted exactly
/// while the overlay is open, and old content animates out only while it is closed.
pub proof fn law_flyout_step_keeps_wf(s: FlyoutState, e: FlyoutEvent)
    requires
        s.wf(),
    ensures
        flyout_step(s, e).0.wf(),
{
}

/// After a rebuild the overlay is open exactly when it was asked to be, with its content
/// mounted exactly then; closing hides the window's overlay.
pub proof fn law_flyout_follows_request(s: FlyoutState, open: bool, animated: bool)
    requires
        s.wf(),
    ensures
        ({
            let (next, act) = flyout_step(s, FlyoutEvent::Rebuild { open, animated });
            &&& next.open == open
            &&& next.has_flyout == open
            &&& (!open && s.open) ==> act.hide_overlay
            &&& act.build_flyout == (open && !s.open)
        }),
{
}

/// A motion that starts is driven by frames: whatever the state and the event, a
/// decision that starts a motion requests another frame and leaves the motion running.
pub proof fn law_flyout_started_motion_is_ticked(s: FlyoutState, e: FlyoutEvent)
    ensures
        flyout_step(s, e).1.start_motion ==> flyout_step(s, e).1.request_frame && flyout_step(s, e).0.animating,
{
}

/// Opening a closed overlay, or closing an open one, with a motion starts the motion and
/// requests a frame; opening builds the content.
pub proof fn law_flyout_change_with_motion_animates(s: FlyoutState, open: bool)
    requires
        s.wf(),
        open != s.open,
    ensures
        ({
            let (next, act) = flyout_step(s, FlyoutEvent::Rebuild { open, animated: true });
            &&& act.start_motion
            &&& act.request_frame
            &&& next.animating
            &&& open ==> act.build_flyout
        }),
{
}

} // verus!
