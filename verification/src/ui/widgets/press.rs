//! How clickable widgets (buttons, switches, checkboxes, radio buttons) react to the
//! pointer, the keyboard and accessibility actions: a press on the widget followed by a
//! release on it activates it, as does an activation key while it has the focus.
use vstd::prelude::*;

use crate::ui::event::EventResult;

verus! {

/// A key, as clickable widgets tell keys apart.
#[derive(Clone, Copy, Debug, PartialEq, Eq, Structural)]
pub enum PressKey {
    /// The Enter key.
    Enter,
    /// The named Space key.
    Space,
    /// A key whose character is a space.
    SpaceText,
    /// Any other key.
    Other,
}

/// An accessibility action.
#[derive(Clone, Copy, Debug, PartialEq, Eq, Structural)]
pub enum AccessAction {
    Click,
    Focus,
    Other,
}

/// An event, as far as a clickable widget goes.
#[derive(Clone, Copy, Debug, PartialEq, Eq, Structural)]
pub enum PressInput {
    /// The cursor moved; `hit` when it is over the widget.
    CursorMoved { hit: bool },
    /// A mouse button went down (`pressed`) or up; `hit` when the cursor is over the widget.
    Mouse { pressed: bool, hit: bool },
    /// A key went down (`pressed`) or up, while the widget has the focus or not.
    Key { focused: bool, pressed: bool, key: PressKey },
    /// An accessibility action, aimed at the widget or not.
    Access { on_node: bool, action: AccessAction },
    /// Any other event.
    Other,
}

/// The kinds of clickable widget, which differ in the keys and actions they answer.
#[derive(Clone, Copy, Debug, PartialEq, Eq, Structural)]
pub enum PressKind {
    /// Tracks hover, shrinks while pressed, activates on Enter and Space.
    Button,
    /// Activates on Enter and Space.
    Switch,
    /// Activates on Enter and on a space character, and on the accessibility click
    /// (checkboxes and radio buttons).
    Check,
}

/// The state of a clickable widget.
#[derive(Clone, Copy, Debug, PartialEq, Eq, Structural)]
pub struct PressState {
    /// A press began on the widget and has not been released.
    pub pressed: bool,
    /// The cursor is over the widget (buttons only).
    pub hovered: bool,
}

/// How a clickable widget answers an event.
#[derive(Clone, Copy, Debug, PartialEq, Eq, Structural)]
pub struct PressOutcome {
    pub result: EventResult,
    /// The widget is activated: it emits its click, toggle or select message, if set.
    pub activate: bool,
    /// The widget asks for the focus.
    pub request_focus: bool,
    /// The widget's look changes (hover colour, pressed scale).
    pub restyle: bool,
    /// Another frame is needed.
    pub redraw: bool,
}

/// An outcome with `result` and nothing else.
pub open spec fn plain(result: EventResult) -> PressOutcome {
    PressOutcome { result, activate: false, request_focus: false, restyle: false, redraw: false }
}

/// Whether a key activates a widget of this kind.
pub open spec fn activates(kind: PressKind, key: PressKey) -> bool {
    match kind {
        PressKind::Check => key == PressKey::Enter || key == PressKey::SpaceText,
        _ => key == PressKey::Enter || key == PressKey::Space,
    }
}

/// The next state of a clickable widget of `kind` in state `s` on `input`, and its answer.
pub open spec fn press_next(kind: PressKind, disabled: bool, s: PressState, input: PressInput) -> (PressState, PressOutcome) {
    let button = kind == PressKind::Button;
    if disabled {
        (s, plain(EventResult::Ignored))
    } else {
        match input {
            PressInput::CursorMoved { hit } => if button && hit != s.hovered {
                (
                    PressState { hovered: hit, ..s },
                    PressOutcome { restyle: true, redraw: true, ..plain(EventResult::Ignored) },
                )
            } else {
                (s, plain(EventResult::Ignored))
            },
            PressInput::Mouse { pressed, hit } => if hit && pressed {
                (
                    PressState { pressed: true, ..s },
                    PressOutcome {
                        request_focus: true,
                        restyle: button,
                        redraw: button,
                        ..plain(EventResult::Handled)
                    },
                )
            } else if !pressed && s.pressed {
                (
                    PressState { pressed: false, ..s },
                    PressOutcome { activate: hit, restyle: button, redraw: button, ..plain(EventResult::Handled) },
                )
            } else {
                (s, plain(EventResult::Ignored))
            },
            PressInput::Key { focused, pressed, key } => if focused && pressed && activates(kind, key) {
                (s, PressOutcome { activate: true, ..plain(EventResult::Handled) })
            } else {
                (s, plain(EventResult::Ignored))
            },
            PressInput::Access { on_node, action } => if kind == PressKind::Check && on_node {
                match action {
                    AccessAction::Click => (s, PressOutcome { activate: true, ..plain(EventResult::Handled) }),
                    AccessAction::Focus => (s, PressOutcome { request_focus: true, ..plain(EventResult::Handled) }),
                    AccessAction::Other => (s, plain(EventResult::Ignored)),
                }
            } else {
                (s, plain(EventResult::Ignored))
            },
            PressInput::Other => (s, plain(EventResult::Ignored)),
        }
    }
}

/// Decides how a clickable widget of `kind` answers `input` in state `s`, and its next
/// state. A disabled widget ignores every event.
pub fn press_step(kind: PressKind, disabled: bool, s: PressState, input: PressInput) -> (r: (PressState, PressOutcome))
    ensures
        r == press_next(kind, disabled, s, input),
{
    let ignored = PressOutcome {
        result: EventResult::Ignored,
        activate: false,
        request_focus: false,
        restyle: false,
        redraw: false,
    };
    let handled = PressOutcome { result: EventResult::Handled, ..ignored };
    let button = match kind {
        PressKind::Button => true,
        _ => false,
    };
    if disabled {
        return (s, ignored);
    }
    match input {
        PressInput::CursorMoved { hit } => {
            if button && hit != s.hovered {
                (PressState { hovered: hit, ..s }, PressOutcome { restyle: true, redraw: true, ..ignored })
            } else {
                (s, ignored)
            }
        },
        PressInput::Mouse { pressed, hit } => {
            if hit && pressed {
                (
                    PressState { pressed: true, ..s },
                    PressOutcome { request_focus: true, restyle: button, redraw: button, ..handled },
                )
            } else if !pressed && s.pressed {
                (PressState { pressed: false, ..s }, PressOutcome { activate: hit, restyle: button, redraw: button, ..handled })
            } else {
                (s, ignored)
            }
        },
        PressInput::Key { focused, pressed, key } => {
            let on_key = match kind {
                PressKind::Check => match key {
                    PressKey::Enter | PressKey::SpaceText => true,
                    _ => false,
                },
                _ => match key {
                    PressKey::Enter | PressKey::Space => true,
                    _ => false,
                },
            };
            if focused && pressed && on_key {
                (s, PressOutcome { activate: true, ..handled })
            } else {
                (s, ignored)
            }
        },
        PressInput::Access { on_node, action } => {
            let check = match kind {
                PressKind::Check => true,
                _ => false,
            };
            if check && on_node {
                match action {
                    AccessAction::Click => (s, PressOutcome { activate: true, ..handled }),
                    AccessAction::Focus => (s, PressOutcome { request_focus: true, ..handled }),
                    AccessAction::Other => (s, ignored),
                }
            } else {
                (s, ignored)
            }
        },
        PressInput::Other => (s, ignored),
    }
}

/// A pointer release activates a widget only when a press on it came first and the
/// release is on it too; a disabled widget is never activated.
pub proof fn law_release_activates_after_press(kind: PressKind, disabled: bool, s: PressState, pressed: bool, hit: bool)
    ensures
        ({
            let (next, out) = press_next(kind, disabled, s, PressInput::Mouse { pressed, hit });
            &&& out.activate ==> !disabled && s.pressed && !pressed && hit
            &&& out.activate ==> !next.pressed
        }),
        disabled ==> !press_next(kind, disabled, s, PressInput::Mouse { pressed, hit }).1.activate,
{
}

/// A press on an enabled widget followed by a release on it activates it exactly once.
pub proof fn law_click_activates(kind: PressKind, s: PressState)
    ensures
        ({
            let (mid, down) = press_next(kind, false, s, PressInput::Mouse { pressed: true, hit: true });
            let (end, up) = press_next(kind, false, mid, PressInput::Mouse { pressed: false, hit: true });
            &&& !down.activate && down.request_focus
            &&& up.activate
            &&& !end.pressed
        }),
{
}

} // verus!
