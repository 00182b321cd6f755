//! Focus wrappers: making any view focusable by Tab navigation and mouse clicks.
use vstd::prelude::*;

use crate::ui::event::EventResult;

verus! {

/// A wrapper view that registers its inner view's node as focusable and requests focus
/// on click.
pub struct Focusable<V> {
    pub(crate) inner: V,
}

impl<V> Focusable<V> {
    /// The wrapped view.
    pub closed spec fn wrapped(&self) -> V {
        self.inner
    }
}

/// Extension trait for making any view focusable via Tab navigation and mouse clicks.
pub trait FocusableExt: Sized {
    /// Registers this view as a focusable element that gains focus on mouse click and Tab navigation.
    fn focusable(self) -> (r: Focusable<Self>)
        ensures
            r.wrapped() == self,
    {
        Focusable { inner: self }
    }
}

impl<V> FocusableExt for V {

}

/// Decides how a focusable wrapper reacts to an event once its inner view has handled it
/// with `inner_result` and (if `inner_emitted`) a message: an inner message is passed on
/// untouched; otherwise a left-button press on the wrapper's node requests focus for it
/// and marks the event handled. Returns whether focus is requested and the result.
pub fn focus_on_click(inner_result: EventResult, inner_emitted: bool, left_press_on_node: bool) -> (r: (
    bool,
    EventResult,
))
    ensures
        r == if inner_emitted {
            (false, inner_result)
        } else if left_press_on_node {
            (true, EventResult::Handled)
        } else {
            (false, inner_result)
        },
{
    if inner_emitted {
        return (false, inner_result);
    }
    let mut handled = EventResult::Ignored;
    let mut request = false;
    if left_press_on_node {
        request = true;
        handled = EventResult::Handled;
    }
    (request, handled.or(inner_result))
}

} // verus!
