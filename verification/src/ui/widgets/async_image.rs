//! Images streamed from disk in the background: when an image view attaches the decoded
//! image of its path, when it starts loading it, and how it answers clicks.
use vstd::prelude::*;

use crate::ui::event::EventResult;

verus! {

/// What an image view does with the image cache.
#[derive(Clone, Copy, Debug, PartialEq, Eq, Structural)]
pub enum ImageAction {
    /// Nothing: the right image is attached, or it is being loaded.
    Keep,
    /// Attach the cached image (taking its aspect ratio when the view has none) and
    /// mark the view for redrawing.
    Attach,
    /// Start loading the image in the background; the window is asked to redraw when it
    /// arrives.
    StartLoad,
}

/// What an image view built for a path does, where `cached` is the id of the image the
/// cache holds for it, if any; returns the id of the attached image and the action.
pub open spec fn image_on_build(cached: Option<u64>) -> (Option<u64>, ImageAction) {
    match cached {
        Some(id) => (Some(id), ImageAction::Attach),
        None => (None, ImageAction::StartLoad),
    }
}

/// What an image view does on a rebuild: `path_changed` when its path differs from the
/// one it shows, `attached` the id of the image attached so far, `cached` the id of the
/// image the cache holds for the path, if any, and `loading` whether the cache is loading
/// it. Returns the id of the attached image and the action.
pub open spec fn image_on_rebuild(path_changed: bool, attached: Option<u64>, cached: Option<u64>, loading: bool) -> (
    Option<u64>,
    ImageAction,
) {
    let current = if path_changed {
        None
    } else {
        attached
    };
    match cached {
        Some(id) => if current == Some(id) {
            (current, ImageAction::Keep)
        } else {
            (Some(id), ImageAction::Attach)
        },
        None => (current, if loading {
            ImageAction::Keep
        } else {
            ImageAction::StartLoad
        }),
    }
}

/// Decides what an image view built for a path does (see [`image_on_build`]).
pub fn image_build(cached: Option<u64>) -> (r: (Option<u64>, ImageAction))
    ensures
        r == image_on_build(cached),
{
    match cached {
        Some(id) => (Some(id), ImageAction::Attach),
        None => (None, ImageAction::StartLoad),
    }
}

/// Decides what an image view does on a rebuild (see [`image_on_rebuild`]).
pub fn image_rebuild(path_changed: bool, attached: Option<u64>, cached: Option<u64>, loading: bool) -> (r: (
    Option<u64>,
    ImageAction,
))
    ensures
        r == image_on_rebuild(path_changed, attached, cached, loading),
{
    let current = if path_changed {
        None
    } else {
        attached
    };
    match cached {
        Some(id) => {
            let same = match current {
                Some(c) => c == id,
                None => false,
            };
            if same {
                (current, ImageAction::Keep)
            } else {
                (Some(id), ImageAction::Attach)
            }
        },
        None => if loading {
            (current, ImageAction::Keep)
        } else {
            (current, ImageAction::StartLoad)
        },
    }
}

/// An event, as far as a clickable image goes.
#[derive(Clone, Copy, Debug, PartialEq, Eq, Structural)]
pub enum ImagePointer {
    /// The cursor moved; `hit` when it is over the image.
    CursorMoved { hit: bool },
    /// A mouse button went down (`pressed`) or up; `hit` when over the image.
    Mouse { pressed: bool, hit: bool },
    /// Any other event.
    Other,
}

/// The pointer state of an image view.
#[derive(Clone, Copy, Debug, PartialEq, Eq, Structural)]
pub struct ImagePointerState {
    pub pressed: bool,
    pub hovered: bool,
}

/// How a clickable image answers an event: the result, whether it emits its click
/// message, and whether it is redrawn.
#[derive(Clone, Copy, Debug, PartialEq, Eq, Structural)]
pub struct ImageClick {
    pub result: EventResult,
    pub click: bool,
    pub redraw: bool,
}

/// The next pointer state of an image view with a click message (`clickable`) or not,
/// and its answer to `input`. A press on the image followed by a release on it is a
/// click; a release elsewhere only clears the press.
pub open spec fn image_pointer_next(clickable: bool, s: ImagePointerState, input: ImagePointer) -> (
    ImagePointerState,
    ImageClick,
) {
    let nothing = ImageClick { result: EventResult::Ignored, click: false, redraw: false };
    if !clickable {
        (s, nothing)
    } else {
        match input {
            ImagePointer::CursorMoved { hit } => if hit != s.hovered {
                (ImagePointerState { hovered: hit, ..s }, ImageClick { redraw: true, ..nothing })
            } else {
                (s, nothing)
            },
            ImagePointer::Mouse { pressed, hit } => if hit {
                if pressed {
                    (
                        ImagePointerState { pressed: true, ..s },
                        ImageClick { result: EventResult::Handled, click: false, redraw: true },
                    )
                } else if s.pressed {
                    (
                        ImagePointerState { pressed: false, ..s },
                        ImageClick { result: EventResult::Handled, click: true, redraw: true },
                    )
                } else {
                    (s, nothing)
                }
            } else if !pressed && s.pressed {
                (ImagePointerState { pressed: false, ..s }, ImageClick { redraw: true, ..nothing })
            } else {
                (s, nothing)
            },
            ImagePointer::Other => (s, nothing),
        }
    }
}

/// Decides how an image view answers a pointer event (see [`image_pointer_next`]).
pub fn image_pointer(clickable: bool, s: ImagePointerState, input: ImagePointer) -> (r: (ImagePointerState, ImageClick))
    ensures
        r == image_pointer_next(clickable, s, input),
{
    let nothing = ImageClick { result: EventResult::Ignored, click: false, redraw: false };
    if !clickable {
        return (s, nothing);
    }
    match input {
        ImagePointer::CursorMoved { hit } => {
            if hit != s.hovered {
                (ImagePointerState { hovered: hit, ..s }, ImageClick { redraw: true, ..nothing })
            } else {
                (s, nothing)
            }
        },
        ImagePointer::Mouse { pressed, hit } => {
            if hit {
                if pressed {
                    (
                        ImagePointerState { pressed: true, ..s },
                        ImageClick { result: EventResult::Handled, click: false, redraw: true },
                    )
                } else if s.pressed {
                    (
                        ImagePointerState { pressed: false, ..s },
                        ImageClick { result: EventResult::Handled, click: true, redraw: true },
                    )
                } else {
                    (s, nothing)
                }
            } else if !pressed && s.pressed {
                (ImagePointerState { pressed: false, ..s }, ImageClick { redraw: true, ..nothing })
            } else {
                (s, nothing)
            }
        },
        ImagePointer::Other => (s, nothing),
    }
}

/// After a rebuild the attached image is the one the cache holds for the view's path
/// whenever the cache holds one, and loading starts only when the cache neither holds
/// nor is loading it.
pub proof fn law_image_follows_cache(path_changed: bool, attached: Option<u64>, cached: Option<u64>, loading: bool)
    ensures
        ({
            let (now, action) = image_on_rebuild(path_changed, attached, cached, loading);
            &&& cached is Some ==> now == cached
            &&& (action == ImageAction::StartLoad) == (cached is None && !loading)
            &&& path_changed && cached is None ==> now is None
        }),
{
}

} // verus!
