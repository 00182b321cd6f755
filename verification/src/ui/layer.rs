//! Event routing of layers stacked above a base view (sheets, dialogs, modal surfaces):
//! when a layer is dismissed, when its content sees an event, when it blocks the base view.
use vstd::prelude::*;

use crate::ui::event::EventResult;

verus! {

/// What an event is, as far as a layer's routing goes.
#[derive(Clone, Copy, Debug, PartialEq, Eq, Structural)]
pub enum LayerInput {
    /// The Escape key was pressed.
    EscapePressed,
    /// Any other keyboard event.
    OtherKey,
    /// A mouse button was pressed; `hit_layer` when the layer's content is under the
    /// cursor, `hit_backdrop` when the scrim or the layer's wrapper is.
    MousePress { hit_layer: bool, hit_backdrop: bool },
    /// A mouse button was released.
    MouseRelease,
    /// The cursor moved.
    CursorMoved,
    /// Any other event.
    Other,
}

/// The configuration and state of a layer that its routing depends on.
#[derive(Clone, Copy, Debug, PartialEq, Eq, Structural)]
pub struct LayerRouting {
    /// The layer is shown.
    pub is_active: bool,
    /// The layer's overlay is mounted in the tree.
    pub is_mounted: bool,
    /// The layer is the topmost active layer of the window.
    pub is_active_layer: bool,
    /// Events are kept from falling through to the base view.
    pub is_modal: bool,
    /// Escape dismisses the layer.
    pub close_on_escape: bool,
    /// A click on the backdrop dismisses the layer.
    pub close_on_backdrop: bool,
    /// A dismiss callback is set.
    pub has_dismiss: bool,
}

/// The first routing decision of a layer, before its content sees the event.
#[derive(Clone, Copy, Debug, PartialEq, Eq, Structural)]
pub enum LayerEntry {
    /// The layer is dismissed: the dismiss message is emitted and the event is handled.
    Dismiss,
    /// The event goes to the layer's content.
    ToLayer,
    /// The event goes to the base view.
    ToBase,
}

/// The routing decision of a layer after its content saw the event.
#[derive(Clone, Copy, Debug, PartialEq, Eq, Structural)]
pub enum LayerExit {
    /// The content's result and message are returned.
    FromLayer,
    /// The layer is dismissed by a backdrop click.
    Dismiss,
    /// The event is handled without a message, so that it does not reach the base view.
    Block,
    /// The event goes to the base view.
    ToBase,
}

/// Whether the layer takes part in routing at all.
pub open spec fn layer_receives(f: LayerRouting) -> bool {
    f.is_active && f.is_mounted && f.is_active_layer
}

/// A press on the backdrop outside the layer's content.
pub open spec fn backdrop_press(input: LayerInput) -> bool {
    match input {
        LayerInput::MousePress { hit_layer, hit_backdrop } => hit_backdrop && !hit_layer,
        _ => false,
    }
}

/// Decides where an event goes first: a receiving layer dismisses itself on Escape when
/// it may and has a dismiss callback, otherwise it lets its content see the event; a
/// layer that does not receive events passes them to the base view.
pub fn layer_entry(f: LayerRouting, input: LayerInput) -> (r: LayerEntry)
    ensures
        r == if !layer_receives(f) {
            LayerEntry::ToBase
        } else if f.close_on_escape && input == LayerInput::EscapePressed && f.has_dismiss {
            LayerEntry::Dismiss
        } else {
            LayerEntry::ToLayer
        },
{
    if f.is_active && f.is_mounted && f.is_active_layer {
        if f.close_on_escape {
            if let LayerInput::EscapePressed = input {
                if f.has_dismiss {
                    return LayerEntry::Dismiss;
                }
            }
        }
        LayerEntry::ToLayer
    } else {
        LayerEntry::ToBase
    }
}

/// Decides what happens after the layer's content saw the event with `result` and (if
/// `emitted`) a message: a handled event or a message is returned as is; otherwise a
/// press on the backdrop outside the content dismisses the layer when it may; otherwise
/// a modal layer swallows pointer events; anything else goes to the base view.
pub fn layer_exit(f: LayerRouting, input: LayerInput, result: EventResult, emitted: bool) -> (r: LayerExit)
    ensures
        r == if result is Handled || emitted {
            LayerExit::FromLayer
        } else if f.close_on_backdrop && f.has_dismiss && backdrop_press(input) {
            LayerExit::Dismiss
        } else if f.is_modal && (input is MousePress || input is MouseRelease || input is CursorMoved) {
            LayerExit::Block
        } else {
            LayerExit::ToBase
        },
{
    if result == EventResult::Handled || emitted {
        return LayerExit::FromLayer;
    }
    if f.close_on_backdrop {
        if let LayerInput::MousePress { hit_layer, hit_backdrop } = input {
            if hit_backdrop && !hit_layer {
                if f.has_dismiss {
                    return LayerExit::Dismiss;
                }
            }
        }
    }
    if f.is_modal {
        match input {
            LayerInput::MousePress { .. } | LayerInput::MouseRelease | LayerInput::CursorMoved => {
                return LayerExit::Block;
            },
            _ => {},
        }
    }
    LayerExit::ToBase
}

/// How the focus changes when a layer goes away.
#[derive(Clone, Copy, Debug, PartialEq, Eq, Structural)]
pub enum FocusRestore {
    /// The focus stays where it is.
    Keep,
    /// The focus goes back to the node that had it when the layer was shown.
    RestoreSaved,
    /// No node keeps the focus.
    Clear,
}

/// The focus change when a layer goes away: a focus inside the layer goes back to the
/// node saved when the layer was shown, or is cleared when none was saved.
pub open spec fn focus_on_leave(focus_inside: bool, has_saved: bool) -> FocusRestore {
    if !focus_inside {
        FocusRestore::Keep
    } else if has_saved {
        FocusRestore::RestoreSaved
    } else {
        FocusRestore::Clear
    }
}

/// Computes the focus change when a layer goes away (see [`focus_on_leave`]); a layer
/// dismissed by Escape or by its backdrop does this before emitting its message.
pub fn focus_after_leaving(focus_inside: bool, has_saved: bool) -> (r: FocusRestore)
    ensures
        r == focus_on_leave(focus_inside, has_saved),
{
    if focus_inside {
        if has_saved {
            FocusRestore::RestoreSaved
        } else {
            FocusRestore::Clear
        }
    } else {
        FocusRestore::Keep
    }
}

/// What a layer does when it is rebuilt.
#[derive(Clone, Copy, Debug, PartialEq, Eq, Structural)]
pub struct LayerChange {
    /// Append the layer's overlay to the window and remember the focused node.
    pub mount: bool,
    /// Take the focus away from every view (a modal layer being shown).
    pub clear_focus: bool,
    /// The focus change of a layer being hidden.
    pub restore: FocusRestore,
    /// Animate toward shown (or hidden) and request a frame.
    pub retarget: bool,
}

/// The result of [`layer_rebuild`].
pub open spec fn layer_rebuild_result(
    is_active: bool,
    was_active: bool,
    is_mounted: bool,
    is_modal: bool,
    focus_inside: bool,
    has_saved: bool,
) -> (bool, LayerChange) {
    if is_active == was_active {
        (is_mounted, LayerChange { mount: false, clear_focus: false, restore: FocusRestore::Keep, retarget: false })
    } else if is_active && !is_mounted {
        (true, LayerChange { mount: true, clear_focus: is_modal, restore: FocusRestore::Keep, retarget: true })
    } else if !is_active {
        (
            is_mounted,
            LayerChange {
                mount: false,
                clear_focus: false,
                restore: focus_on_leave(focus_inside, has_saved),
                retarget: true,
            },
        )
    } else {
        (is_mounted, LayerChange { mount: false, clear_focus: false, restore: FocusRestore::Keep, retarget: true })
    }
}

/// What a layer does on a rebuild that turns it `is_active` where it was `was_active`,
/// with its overlay mounted or not; `focus_inside` tells whether the focused node lies in
/// the layer and `has_saved` whether a node was focused when it was shown. Returns
/// whether the overlay is mounted afterwards and the change. Showing mounts the overlay
/// and, for a modal layer, clears the focus; hiding gives the focus back; either way the
/// animation is retargeted. A rebuild that does not change `is_active` does nothing.
pub fn layer_rebuild(
    is_active: bool,
    was_active: bool,
    is_mounted: bool,
    is_modal: bool,
    focus_inside: bool,
    has_saved: bool,
) -> (r: (bool, LayerChange))
    ensures
        r == layer_rebuild_result(is_active, was_active, is_mounted, is_modal, focus_inside, has_saved),
{
    let mut change = LayerChange { mount: false, clear_focus: false, restore: FocusRestore::Keep, retarget: false };
    let mut mounted = is_mounted;
    if is_active != was_active {
        if is_active && !is_mounted {
            change.mount = true;
            mounted = true;
            if is_modal {
                change.clear_focus = true;
            }
        } else if !is_active {
            change.restore = focus_after_leaving(focus_inside, has_saved);
        }
        change.retarget = true;
    }
    (mounted, change)
}

/// What a layer does on a frame tick.
#[derive(Clone, Copy, Debug, PartialEq, Eq, Structural)]
pub struct LayerTick {
    /// Restyle the scrim and the content for the animation's progress.
    pub restyle: bool,
    /// The focus change of a layer that finished hiding.
    pub restore: FocusRestore,
    /// Remove the layer's overlay from the window.
    pub unmount: bool,
    /// Request another frame.
    pub request_frame: bool,
}

/// The result of [`layer_tick`].
pub open spec fn layer_tick_result(
    is_active: bool,
    is_mounted: bool,
    at_start: bool,
    animating: bool,
    focus_inside: bool,
    has_saved: bool,
) -> (bool, LayerTick) {
    if !is_mounted {
        (false, LayerTick { restyle: false, restore: FocusRestore::Keep, unmount: false, request_frame: false })
    } else if !is_active && at_start {
        (
            false,
            LayerTick {
                restyle: true,
                restore: focus_on_leave(focus_inside, has_saved),
                unmount: true,
                request_frame: animating,
            },
        )
    } else {
        (true, LayerTick { restyle: true, restore: FocusRestore::Keep, unmount: false, request_frame: animating })
    }
}

/// What a layer does on a frame tick, once its animation has advanced: a mounted layer is
/// restyled for the progress; a hidden one whose animation reached its start (`at_start`)
/// gives the focus back and is unmounted; a running animation asks for another frame.
/// Returns whether the overlay is mounted afterwards and the actions.
pub fn layer_tick(
    is_active: bool,
    is_mounted: bool,
    at_start: bool,
    animating: bool,
    focus_inside: bool,
    has_saved: bool,
) -> (r: (bool, LayerTick))
    ensures
        r == layer_tick_result(is_active, is_mounted, at_start, animating, focus_inside, has_saved),
{
    if !is_mounted {
        return (false, LayerTick { restyle: false, restore: FocusRestore::Keep, unmount: false, request_frame: false });
    }
    let mut tick = LayerTick { restyle: true, restore: FocusRestore::Keep, unmount: false, request_frame: false };
    let mut mounted = true;
    if !is_active && at_start {
        tick.restore = focus_after_leaving(focus_inside, has_saved);
        tick.unmount = true;
        mounted = false;
    }
    if animating {
        tick.request_frame = true;
    }
    (mounted, tick)
}

/// The focus never stays inside a layer that goes away: whenever a layer is unmounted, or
/// hidden by a rebuild, with the focus inside it, the focus is given back or cleared.
pub proof fn law_layer_releases_focus(
    is_active: bool,
    was_active: bool,
    is_mounted: bool,
    is_modal: bool,
    at_start: bool,
    animating: bool,
    has_saved: bool,
)
    ensures
        ({
            let (_, tick) = layer_tick_result(is_active, is_mounted, at_start, animating, true, has_saved);
            tick.unmount ==> tick.restore != FocusRestore::Keep
        }),
        !is_active && was_active ==> layer_rebuild_result(is_active, was_active, is_mounted, is_modal, true, has_saved).1.restore
            != FocusRestore::Keep,
{
}

} // verus!
