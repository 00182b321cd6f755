//! Layering of views that transition concurrently.
use vstd::prelude::*;

verus! {

/// Layering order for concurrently transitioning views.
#[derive(Clone, Copy, Debug, PartialEq, Eq, Structural)]
pub enum TransitionOrder {
    /// Incoming view is rendered on top of the outgoing view (push, modals).
    IncomingOnTop,
    /// Outgoing view is rendered on top of the incoming view (pop, dismiss, curtain peel).
    OutgoingOnTop,
    /// Both views share the same local stacking level (cross-fade).
    SameLevel,
}

impl Default for TransitionOrder {
    fn default() -> (r: Self)
        ensures
            r == TransitionOrder::IncomingOnTop,
    {
        TransitionOrder::IncomingOnTop
    }
}

} // verus!
