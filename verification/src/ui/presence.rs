//! The lifecycle of a presence container, which mounts a view while a condition holds and
//! animates it in and out: what each rebuild and each frame tick does to the mounted view,
//! to the view still animating out, and to the running motion.
use vstd::prelude::*;

verus! {

/// The state of a presence container that the decisions read.
#[derive(Clone, Copy, Debug, PartialEq, Eq, Structural)]
pub struct PresenceState {
    /// The container is asked to show its view.
    pub visible: bool,
    /// A view is mounted.
    pub has_child: bool,
    /// A view that was hidden is still animating out.
    pub has_outgoing: bool,
    /// The mounted view plays the enter motion (rather than the exit motion of the
    /// outgoing view) while a motion runs.
    pub entering: bool,
    /// A motion is running.
    pub animating: bool,
}

/// A view of a presence container: the mounted one or the one animating out.
#[derive(Clone, Copy, Debug, PartialEq, Eq, Structural)]
pub enum PresenceTarget {
    /// The mounted view, which plays the enter motion.
    Child,
    /// The view animating out, which plays the exit motion.
    Outgoing,
}

/// What happens to a presence container.
#[derive(Clone, Copy, Debug, PartialEq, Eq, Structural)]
pub enum PresenceEvent {
    /// The container is rebuilt, asked to show its view or not; `animated` tells whether
    /// its motions have a positive duration.
    Rebuild { visible: bool, animated: bool },
    /// A frame tick, once the running motion (if any) has advanced: `still_animating`
    /// tells whether it runs on, `at_end` whether its progress has reached the end.
    Tick { still_animating: bool, at_end: bool },
}

/// What a presence container does, in this order.
#[derive(Clone, Copy, Debug, PartialEq, Eq, Structural)]
pub struct PresenceActions {
    /// Rebuild the mounted view in place.
    pub rebuild_child: bool,
    /// Remove and destroy the node of the view animating out, without tearing it down.
    pub drop_outgoing: bool,
    /// Build the view, append its node and remember its positioning.
    pub build_child: bool,
    /// Move the mounted view to the outgoing slot.
    pub retire_child: bool,
    /// Remove and destroy the node of the view just retired, at once.
    pub drop_retired: bool,
    /// Restart the motion from the start and place this view at its starting point.
    pub start_motion: Option<PresenceTarget>,
    /// Show the mounted view at rest: full opacity and scale.
    pub show_at_rest: bool,
    /// Advance this view along its motion.
    pub step_motion: Option<PresenceTarget>,
    /// Restore the mounted view's positioning and show it at rest.
    pub settle_child: bool,
    /// Tear down the view animating out and destroy its node.
    pub finish_outgoing: bool,
    /// Request another frame.
    pub request_frame: bool,
}

/// No action at all.
pub open spec fn no_actions() -> PresenceActions {
    PresenceActions {
        rebuild_child: false,
        drop_outgoing: false,
        build_child: false,
        retire_child: false,
        drop_retired: false,
        start_motion: None,
        show_at_rest: false,
        step_motion: None,
        settle_child: false,
        finish_outgoing: false,
        request_frame: false,
    }
}

/// The state of a container built asked to show its view or not.
pub open spec fn presence_initial(visible: bool) -> PresenceState {
    PresenceState { visible, has_child: visible, has_outgoing: false, entering: false, animating: false }
}

/// The next state of a container in state `s` on event `e`, and what it does.
pub open spec fn presence_step(s: PresenceState, e: PresenceEvent) -> (PresenceState, PresenceActions) {
    match e {
        PresenceEvent::Rebuild { visible, animated } => if visible && s.visible {
            (s, PresenceActions { rebuild_child: s.has_child, ..no_actions() })
        } else if !visible && !s.visible {
            (s, no_actions())
        } else if visible {
            (
                PresenceState {
                    visible: true,
                    has_child: true,
                    has_outgoing: false,
                    entering: true,
                    animating: animated || s.animating,
                },
                PresenceActions {
                    drop_outgoing: s.has_outgoing,
                    build_child: true,
                    start_motion: if animated {
                        Some(PresenceTarget::Child)
                    } else {
                        None
                    },
                    show_at_rest: !animated,
                    request_frame: animated,
                    ..no_actions()
                },
            )
        } else if s.has_child {
            (
                PresenceState {
                    visible: false,
                    has_child: false,
                    has_outgoing: animated,
                    entering: false,
                    animating: animated || s.animating,
                },
                PresenceActions {
                    retire_child: true,
                    drop_retired: !animated,
                    start_motion: if animated {
                        Some(PresenceTarget::Outgoing)
                    } else {
                        None
                    },
                    request_frame: animated,
                    ..no_actions()
                },
            )
        } else {
            (s, no_actions())
        },
        PresenceEvent::Tick { still_animating, at_end } => {
            let finished = !still_animating || at_end;
            if !s.animating {
                (s, no_actions())
            } else if s.entering {
                (
                    PresenceState { animating: still_animating, ..s },
                    if s.has_child {
                        PresenceActions {
                            step_motion: Some(PresenceTarget::Child),
                            settle_child: finished,
                            request_frame: !finished,
                            ..no_actions()
                        }
                    } else {
                        no_actions()
                    },
                )
            } else if s.has_outgoing {
                (
                    PresenceState { animating: still_animating, has_outgoing: !finished, ..s },
                    PresenceActions {
                        step_motion: Some(PresenceTarget::Outgoing),
                        finish_outgoing: finished,
                        request_frame: !finished,
                        ..no_actions()
                    },
                )
            } else {
                (PresenceState { animating: still_animating, ..s }, no_actions())
            }
        },
    }
}

impl PresenceState {
    /// The states that the decisions keep: a view is mounted exactly while the container
    /// shows it, a view animates out only while the container is hidden and a motion
    /// runs, and only a shown view enters.
    pub open spec fn wf(self) -> bool {
        &&& self.has_child == self.visible
        &&& self.has_outgoing ==> !self.visible && !self.entering && self.animating
        &&& self.entering ==> self.visible
    }

    /// The state of a container built asked to show its view (`visible`) or not.
    pub fn initial(visible: bool) -> (r: Self)
        ensures
            r == presence_initial(visible),
            r.wf(),
    {
        PresenceState { visible, has_child: visible, has_outgoing: false, entering: false, animating: false }
    }

    /// Events reach the mounted view only; without one they are ignored.
    pub fn routes_events(&self) -> (r: bool)
        ensures
            r == self.has_child,
    {
        self.has_child
    }

    /// Decides what the container does on `event`, and its next state.
    pub fn step(self, event: PresenceEvent) -> (r: (PresenceState, PresenceActions))
        ensures
            r == presence_step(self, event),
    {
        let mut act = PresenceActions {
            rebuild_child: false,
            drop_outgoing: false,
            build_child: false,
            retire_child: false,
            drop_retired: false,
            start_motion: None,
            show_at_rest: false,
            step_motion: None,
            settle_child: false,
            finish_outgoing: false,
            request_frame: false,
        };
        let mut next = self;
        match event {
            PresenceEvent::Rebuild { visible, animated } => {
                if visible && self.visible {
                    act.rebuild_child = self.has_child;
                } else if !visible && !self.visible {
                } else if visible {
                    act.drop_outgoing = self.has_outgoing;
                    act.build_child = true;
                    next.has_outgoing = false;
                    next.has_child = true;
                    next.visible = true;
                    next.entering = true;
                    if animated {
                        next.animating = true;
                        act.start_motion = Some(PresenceTarget::Child);
                        act.request_frame = true;
                    } else {
                        act.show_at_rest = true;
                    }
                } else if self.has_child {
                    act.retire_child = true;
                    next.has_child = false;
                    next.visible = false;
                    next.entering = false;
                    if animated {
                        next.has_outgoing = true;
                        next.animating = true;
                        act.start_motion = Some(PresenceTarget::Outgoing);
                        act.request_frame = true;
                    } else {
                        act.drop_retired = true;
                        next.has_outgoing = false;
                    }
                }
            },
            PresenceEvent::Tick { still_animating, at_end } => {
                if self.animating {
                    next.animating = still_animating;
                    let finished = !still_animating || at_end;
                    if self.entering {
                        if self.has_child {
                            act.step_motion = Some(PresenceTarget::Child);
                            if finished {
                                act.settle_child = true;
                            } else {
                                act.request_frame = true;
                            }
                        }
                    } else if self.has_outgoing {
                        act.step_motion = Some(PresenceTarget::Outgoing);
                        if finished {
                            act.finish_outgoing = true;
                            next.has_outgoing = false;
                        } else {
                            act.request_frame = true;
                        }
                    }
                }
            },
        }
        (next, act)
    }
}

/// Every decision keeps the states well formed: a view is mounted exactly while the
/// container shows it, and a view animates out only while hidden and while a motion runs.
pub proof fn law_presence_step_keeps_wf(s: PresenceState, e: PresenceEvent)
    requires
        s.wf(),
    ensures
        presence_step(s, e).0.wf(),
{
}

/// After a rebuild the container shows its view exactly when it was asked to, and the
/// view is mounted exactly then; only a shown view is rebuilt in place.
pub proof fn law_presence_follows_request(s: PresenceState, visible: bool, animated: bool)
    requires
        s.wf(),
    ensures
        ({
            let (next, act) = presence_step(s, PresenceEvent::Rebuild { visible, animated });
            &&& next.visible == visible
            &&& next.has_child == visible
            &&& act.rebuild_child ==> visible && s.visible
            &&& act.build_child == (visible && !s.visible)
            &&& act.retire_child == (!visible && s.visible)
        }),
{
}

/// Hiding a view without a motion leaves nothing behind: the view is destroyed at once
/// and none animates out.
pub proof fn law_presence_hide_without_motion(s: PresenceState)
    requires
        s.wf(),
        s.visible,
    ensures
        ({
            let (next, act) = presence_step(s, PresenceEvent::Rebuild { visible: false, animated: false });
            &&& !next.has_child && !next.has_outgoing
            &&& act.retire_child && act.drop_retired
        }),
{
}

/// A view animating out is torn down by the first tick that finds its motion finished,
/// and until then every tick requests another frame.
pub proof fn law_presence_outgoing_finishes(s: PresenceState, still_animating: bool, at_end: bool)
    requires
        s.wf(),
        s.has_outgoing,
    ensures
        ({
            let (next, act) = presence_step(s, PresenceEvent::Tick { still_animating, at_end });
            let finished = !still_animating || at_end;
            &&& act.finish_outgoing == finished
            &&& next.has_outgoing == !finished
            &&& act.request_frame == !finished
        }),
{
}

/// A motion that starts is driven by frames: whatever the state and the event, a
/// decision that starts a motion requests another frame and leaves the motion running.
pub proof fn law_presence_started_motion_is_ticked(s: PresenceState, e: PresenceEvent)
    ensures
        presence_step(s, e).1.start_motion is Some ==> presence_step(s, e).1.request_frame
            && presence_step(s, e).0.animating,
{
}

/// Hiding a shown view with a motion retires it to the outgoing slot, starts its exit
/// motion and requests a frame; showing a hidden view with a motion builds it, starts its
/// enter motion and requests a frame.
pub proof fn law_presence_change_with_motion_animates(s: PresenceState, visible: bool)
    requires
        s.wf(),
        visible != s.visible,
    ensures
        ({
            let (next, act) = presence_step(s, PresenceEvent::Rebuild { visible, animated: true });
            &&& act.request_frame
            &&& next.animating
            &&& !visible ==> act.retire_child && act.start_motion == Some(PresenceTarget::Outgoing)
                && next.has_outgoing
            &&& visible ==> act.build_child && act.start_motion == Some(PresenceTarget::Child)
        }),
{
}

} // verus!
