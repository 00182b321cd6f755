//! The decisions of a page router, which shows the view of its current route key and
//! animates between the views when the key changes: what each rebuild and each frame tick
//! does to the current view, to the view animating out and to the running transition.
use vstd::prelude::*;

use crate::ui::transition::TransitionOrder;

verus! {

/// The state of a router that the decisions read.
#[derive(Clone, Copy, Debug, PartialEq, Eq)]
pub struct RouterState<K> {
    /// The route key whose view is current.
    pub active_key: K,
    /// The view of the previous route is still animating out.
    pub has_outgoing: bool,
}

/// What happens to a router.
#[derive(Clone, Copy, Debug, PartialEq, Eq)]
pub enum RouteEvent<K> {
    /// The router is rebuilt for the route `key`; `animated` tells whether the transition
    /// to use has a positive duration, `has_spec` whether the router chooses its
    /// transition from the pair of routes.
    Rebuild { key: K, animated: bool, has_spec: bool },
    /// A frame tick, once the running transition has advanced: `still_animating` tells
    /// whether it runs on, `at_end` whether its progress has reached the end.
    Tick { still_animating: bool, at_end: bool },
}

/// What a router does, in this order.
#[derive(Clone, Copy, Debug, PartialEq, Eq, Structural)]
pub struct RouteActions {
    /// Rebuild the current view in place.
    pub rebuild_view: bool,
    /// Settle the shared-element flights under way: put their views back in place.
    pub settle_flights: bool,
    /// Take the focus away from every view.
    pub clear_focus: bool,
    /// Remove and destroy the view still animating out from an earlier change.
    pub drop_pending: bool,
    /// Choose the transition from the previous and the new route (else the router's own).
    pub transition_from_spec: bool,
    /// Move the current view to the outgoing slot, build the new route's view, append it,
    /// and pair up its shared elements with those of the outgoing view.
    pub swap_views: bool,
    /// Start the transition and place both views at its start.
    pub start_transition: bool,
    /// Remove and destroy the outgoing view at once and show the current one at rest.
    pub finish_at_once: bool,
    /// Advance both views and the shared-element flights along the transition.
    pub step_transition: bool,
    /// Destroy the outgoing view, settle the flights and restore the current view's
    /// positioning, opacity and scale.
    pub finish_transition: bool,
    /// Request another frame.
    pub request_frame: bool,
}

/// No action at all.
pub open spec fn no_route_actions() -> RouteActions {
    RouteActions {
        rebuild_view: false,
        settle_flights: false,
        clear_focus: false,
        drop_pending: false,
        transition_from_spec: false,
        swap_views: false,
        start_transition: false,
        finish_at_once: false,
        step_transition: false,
        finish_transition: false,
        request_frame: false,
    }
}

/// The next state of a router in state `s` on event `e`, and what it does.
pub open spec fn route_step<K>(s: RouterState<K>, e: RouteEvent<K>) -> (RouterState<K>, RouteActions) {
    route_step_on(s, e, e matches RouteEvent::Rebuild { key, .. } && key == s.active_key)
}

/// The next state of a router in state `s` on event `e`, and what it does, where
/// `same_route` tells whether a rebuild is for the route already shown.
pub open spec fn route_step_on<K>(s: RouterState<K>, e: RouteEvent<K>, same_route: bool) -> (RouterState<K>, RouteActions) {
    match e {
        RouteEvent::Rebuild { key, animated, has_spec } => if same_route {
            (s, RouteActions { rebuild_view: true, ..no_route_actions() })
        } else {
            (
                RouterState { active_key: key, has_outgoing: animated },
                RouteActions {
                    settle_flights: true,
                    clear_focus: true,
                    drop_pending: s.has_outgoing,
                    transition_from_spec: has_spec,
                    swap_views: true,
                    start_transition: animated,
                    finish_at_once: !animated,
                    request_frame: animated,
                    ..no_route_actions()
                },
            )
        },
        RouteEvent::Tick { still_animating, at_end } => {
            let finished = !still_animating || at_end;
            if s.has_outgoing {
                (
                    RouterState { has_outgoing: !finished, ..s },
                    RouteActions {
                        step_transition: true,
                        finish_transition: finished,
                        request_frame: !finished,
                        ..no_route_actions()
                    },
                )
            } else {
                (s, no_route_actions())
            }
        },
    }
}

impl<K: PartialEq> RouterState<K> {
    /// The state of a router built for the route `key`.
    pub fn new(key: K) -> (r: Self)
        ensures
            r == (RouterState { active_key: key, has_outgoing: false }),
    {
        RouterState { active_key: key, has_outgoing: false }
    }

    /// Decides what the router does on `event`, and its next state. Every event is then
    /// handed on to the current view. Whether a rebuild is for the route already shown is
    /// decided by `==` on the route keys; where that `==` is equality, the outcome is
    /// [`route_step`].
    pub fn step(self, event: RouteEvent<K>) -> (r: (RouterState<K>, RouteActions))
        ensures
            r == route_step_on(self, event, true) || r == route_step_on(self, event, false),
            vstd::laws_eq::obeys_concrete_eq::<K>() ==> r == route_step(self, event),
    {
        let mut act = RouteActions {
            rebuild_view: false,
            settle_flights: false,
            clear_focus: false,
            drop_pending: false,
            transition_from_spec: false,
            swap_views: false,
            start_transition: false,
            finish_at_once: false,
            step_transition: false,
            finish_transition: false,
            request_frame: false,
        };
        match event {
            RouteEvent::Rebuild { key, animated, has_spec } => {
                proof {
                    reveal(vstd::laws_eq::obeys_concrete_eq);
                }
                if key == self.active_key {
                    act.rebuild_view = true;
                    (self, act)
                } else {
                    act.settle_flights = true;
                    act.clear_focus = true;
                    act.drop_pending = self.has_outgoing;
                    act.transition_from_spec = has_spec;
                    act.swap_views = true;
                    if animated {
                        act.start_transition = true;
                        act.request_frame = true;
                    } else {
                        act.finish_at_once = true;
                    }
                    (RouterState { active_key: key, has_outgoing: animated }, act)
                }
            },
            RouteEvent::Tick { still_animating, at_end } => {
                if self.has_outgoing {
                    let finished = !still_animating || at_end;
                    act.step_transition = true;
                    if finished {
                        act.finish_transition = true;
                    } else {
                        act.request_frame = true;
                    }
                    (RouterState { has_outgoing: !finished, ..self }, act)
                } else {
                    (self, act)
                }
            },
        }
    }
}

/// The stacking levels `(outgoing, incoming)` of the two views of a transition.
pub open spec fn stacking(order: TransitionOrder) -> (i32, i32) {
    match order {
        TransitionOrder::IncomingOnTop => (0, 1),
        TransitionOrder::OutgoingOnTop => (1, 0),
        TransitionOrder::SameLevel => (0, 0),
    }
}

/// The stacking levels `(outgoing, incoming)` that a transition gives its two views.
pub fn transition_layers(order: TransitionOrder) -> (r: (i32, i32))
    ensures
        r == stacking(order),
{
    match order {
        TransitionOrder::IncomingOnTop => (0, 1),
        TransitionOrder::OutgoingOnTop => (1, 0),
        TransitionOrder::SameLevel => (0, 0),
    }
}

/// After a rebuild the router shows the view of the route it was rebuilt for; a view is
/// swapped in exactly when the route changed, and otherwise rebuilt in place.
pub proof fn law_router_follows_route<K>(s: RouterState<K>, key: K, animated: bool, has_spec: bool)
    ensures
        ({
            let (next, act) = route_step(s, RouteEvent::Rebuild { key, animated, has_spec });
            &&& next.active_key == key
            &&& act.swap_views == (key != s.active_key)
            &&& act.rebuild_view == (key == s.active_key)
        }),
{
}

/// At most one view animates out at a time: a route change first destroys the view still
/// animating out from an earlier change, and without a transition it leaves none.
pub proof fn law_router_single_outgoing<K>(s: RouterState<K>, key: K, animated: bool, has_spec: bool)
    requires
        key != s.active_key,
    ensures
        ({
            let (next, act) = route_step(s, RouteEvent::Rebuild { key, animated, has_spec });
            &&& act.drop_pending == s.has_outgoing
            &&& next.has_outgoing == animated
            &&& act.start_transition == animated
            &&& act.finish_at_once == !animated
        }),
{
}

/// The view animating out is destroyed by the first tick that finds the transition
/// finished, and until then every tick requests another frame.
pub proof fn law_router_transition_finishes<K>(s: RouterState<K>, still_animating: bool, at_end: bool)
    requires
        s.has_outgoing,
    ensures
        ({
            let (next, act) = route_step(s, RouteEvent::Tick { still_animating, at_end });
            let finished = !still_animating || at_end;
            &&& act.finish_transition == finished
            &&& next.has_outgoing == !finished
            &&& act.request_frame == !finished
            &&& next.active_key == s.active_key
        }),
{
}

/// Each view of a transition is stacked at level 0 or 1, and the incoming view lies above
/// the outgoing one exactly for [`TransitionOrder::IncomingOnTop`].
pub proof fn law_stacking_levels(order: TransitionOrder)
    ensures
        0 <= stacking(order).0 <= 1 && 0 <= stacking(order).1 <= 1,
        (stacking(order).1 > stacking(order).0) == (order == TransitionOrder::IncomingOnTop),
{
}

/// A transition that starts is driven by frames: whatever the state and the event, a
/// decision that starts a transition requests another frame and leaves a view animating
/// out.
pub proof fn law_router_started_transition_is_ticked<K>(s: RouterState<K>, e: RouteEvent<K>)
    ensures
        route_step(s, e).1.start_transition ==> route_step(s, e).1.request_frame
            && route_step(s, e).0.has_outgoing,
{
}

/// A change of route with a motion starts the transition and requests a frame for it; a
/// change without a motion finishes at once and leaves no view animating out.
pub proof fn law_router_route_change_animates<K>(s: RouterState<K>, key: K, animated: bool, has_spec: bool)
    requires
        key != s.active_key,
    ensures
        ({
            let (next, act) = route_step(s, RouteEvent::Rebuild { key, animated, has_spec });
            &&& animated ==> act.start_transition && act.request_frame && next.has_outgoing
            &&& !animated ==> act.finish_at_once && !next.has_outgoing
        }),
{
}

} // verus!
