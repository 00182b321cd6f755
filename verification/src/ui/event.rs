//! Event consumption results, interaction kinds, and the decisions that event listeners
//! take: when a listener fires, how hover and press tracking evolve, how drag gestures
//! advance, and when a keyboard listener runs.
use std::marker::PhantomData;
use std::rc::Rc;

use vstd::prelude::*;

verus! {

/// Categorizes high-level user interaction gesture triggers.
#[derive(Clone, Copy, Debug, PartialEq, Eq, Hash, Structural)]
pub enum EventKind {
    /// Triggered on mouse button release while the cursor is over the view.
    Click,
    /// Triggered when the mouse cursor enters the view's layout bounds.
    HoverIn,
    /// Triggered when the mouse cursor exits the view's layout bounds.
    HoverOut,
    /// Triggered when a mouse button is pressed down over the view.
    Press,
    /// Triggered when a mouse button is released over the view.
    Release,
    /// Triggered when the user submits input (e.g., pressing Enter in a focused input field).
    Submit,
    /// Triggered when a scrollbar thumb is dragged or scrolled.
    ThumbScroll,
    /// Triggered when the view loses focus (e.g., on outside click or blur).
    FocusLost,
    /// Triggered when the view is scrolled.
    Scroll,
}

/// Indicates whether a view processed or ignored an incoming event.
#[derive(Debug, Clone, Copy, PartialEq, Eq, Structural)]
pub enum EventResult {
    /// The event was processed by the view.
    Handled,
    /// The event was not consumed by the view and may propagate further.
    Ignored,
}

/// The combination of two results: handled when either one is.
pub open spec fn combined(a: EventResult, b: EventResult) -> EventResult {
    if a is Handled || b is Handled {
        EventResult::Handled
    } else {
        EventResult::Ignored
    }
}

impl EventResult {
    /// Combines two results: [`EventResult::Handled`] if either result is handled.
    pub fn or(self, other: EventResult) -> (r: EventResult)
        ensures
            r == combined(self, other),
    {
        match (self, other) {
            (EventResult::Handled, _) | (_, EventResult::Handled) => EventResult::Handled,
            _ => EventResult::Ignored,
        }
    }
}

/// Combining results does not depend on their order.
pub proof fn lemma_or_commutative(a: EventResult, b: EventResult)
    ensures
        combined(a, b) == combined(b, a),
{
}

/// Combining results is associative, so a sequence of children can be folded in any grouping.
pub proof fn lemma_or_associative(a: EventResult, b: EventResult, c: EventResult)
    ensures
        combined(combined(a, b), c) == combined(a, combined(b, c)),
{
}

/// An ignored result is neutral and a handled result absorbs any other.
pub proof fn lemma_or_identity_and_absorption(a: EventResult)
    ensures
        combined(a, EventResult::Ignored) == a,
        combined(EventResult::Ignored, a) == a,
        combined(a, EventResult::Handled) == EventResult::Handled,
        combined(EventResult::Handled, a) == EventResult::Handled,
{
}

/// Whether a sequence of children passes an event on to its next child: frame ticks reach
/// every child, other events only until one child handles the event or emits a message.
pub fn routes_to_next_child(is_tick: bool, handled: EventResult, emitted: bool) -> (r: bool)
    ensures
        r == ((is_tick || handled is Ignored) && !emitted),
{
    (is_tick || handled == EventResult::Ignored) && !emitted
}

/// What an event is, as far as an event listener's decision goes.
#[derive(Clone, Copy, Debug, PartialEq, Eq, Structural)]
pub enum ListenerEvent {
    /// Focus left the node named in the event; `on_self` when that is the listener's node.
    FocusLost { on_self: bool },
    /// The cursor moved; `over_self` when the listener's node is under it.
    CursorMoved { over_self: bool },
    /// A mouse button was pressed or released; `over_self` when over the listener's node.
    MouseInput { pressed: bool, over_self: bool },
    /// A key was pressed or released while `self_focused` tells whether the listener's node
    /// has focus; `is_enter` when the key is Enter (or produces a line break).
    KeyboardInput { pressed: bool, self_focused: bool, is_enter: bool },
    /// Any other event.
    Other,
}

/// Whether an event that the inner view already handled may still reach the listener:
/// a submit on a key press, a click or release on a mouse release after a press, a focus loss.
pub open spec fn passes_handled(kind: EventKind, ev: ListenerEvent, pressed: bool) -> bool {
    match ev {
        ListenerEvent::KeyboardInput { .. } => kind == EventKind::Submit,
        ListenerEvent::MouseInput { pressed: false, .. } => pressed && (kind == EventKind::Release
            || kind == EventKind::Click),
        ListenerEvent::FocusLost { .. } => kind == EventKind::FocusLost,
        _ => false,
    }
}

/// Whether a listener of `kind` fires on `ev`, given the hover and press state it tracked.
pub open spec fn listener_fires(kind: EventKind, ev: ListenerEvent, hovered: bool, pressed: bool) -> bool {
    match ev {
        ListenerEvent::FocusLost { on_self } => kind == EventKind::FocusLost && on_self,
        ListenerEvent::CursorMoved { over_self } => over_self != hovered && ((over_self && kind
            == EventKind::HoverIn) || (!over_self && kind == EventKind::HoverOut)),
        ListenerEvent::MouseInput { pressed: true, over_self } => over_self && kind
            == EventKind::Press,
        ListenerEvent::MouseInput { pressed: false, over_self } => pressed && ((over_self && (kind
            == EventKind::Click || kind == EventKind::Release)) || (!over_self && kind
            == EventKind::Release)),
        ListenerEvent::KeyboardInput { pressed, self_focused, is_enter } => kind
            == EventKind::Submit && pressed && self_focused && is_enter,
        ListenerEvent::Other => false,
    }
}

/// What an event listener decided about one event.
#[derive(Clone, Copy, Debug, PartialEq, Eq, Structural)]
pub struct ListenerOutcome {
    /// Whether the listener's handler runs; its message, if any, is emitted.
    pub fire: bool,
    /// The result reported for the event.
    pub result: EventResult,
}

/// `after` is the listener state `before` once the listener answered `r` to `ev`, for an
/// interaction `kind`, after the inner view answered `inner_result` (emitting a message
/// when `inner_emitted`).
pub open spec fn listener_responded<VEl>(
    before: EventElement<VEl>,
    after: EventElement<VEl>,
    kind: EventKind,
    ev: ListenerEvent,
    inner_result: EventResult,
    inner_emitted: bool,
    r: ListenerOutcome,
) -> bool {
    &&& after.inner() == before.inner()
    &&& if inner_emitted || (inner_result is Handled && !passes_handled(
        kind,
        ev,
        before.pressed(),
    )) {
        &&& !r.fire
        &&& r.result == inner_result
        &&& after.hovered() == before.hovered()
        &&& after.pressed() == (before.pressed() && !(ev matches ListenerEvent::MouseInput { pressed: false, .. }))
    } else {
        &&& r.fire == listener_fires(kind, ev, before.hovered(), before.pressed())
        &&& r.result == if r.fire {
            EventResult::Handled
        } else {
            inner_result
        }
        &&& after.hovered() == match ev {
            ListenerEvent::CursorMoved { over_self } => over_self,
            _ => before.hovered(),
        }
        &&& after.pressed() == match ev {
            ListenerEvent::MouseInput { pressed: true, over_self } => before.pressed()
                || over_self,
            ListenerEvent::MouseInput { pressed: false, .. } => false,
            _ => before.pressed(),
        }
    }
}

/// Persistent state of an event listener: the inner view's element and the hover and
/// press state tracked for the listener's node.
pub struct EventElement<VEl> {
    pub(crate) inner_element: VEl,
    pub(crate) is_hovered: bool,
    pub(crate) is_pressed: bool,
}

impl<VEl> EventElement<VEl> {
    /// Whether the cursor was last seen over the listener's node.
    pub closed spec fn hovered(&self) -> bool {
        self.is_hovered
    }

    /// Whether a press on the listener's node awaits its release.
    pub closed spec fn pressed(&self) -> bool {
        self.is_pressed
    }

    /// The inner view's element.
    pub closed spec fn inner(&self) -> VEl {
        self.inner_element
    }

    /// Wraps the inner view's element; nothing is hovered or pressed yet.
    pub fn new(inner_element: VEl) -> (r: Self)
        ensures
            r.inner() == inner_element,
            !r.hovered(),
            !r.pressed(),
    {
        EventElement { inner_element, is_hovered: false, is_pressed: false }
    }

    /// Records a press on the listener's node before the inner view sees the event, so
    /// that a release can be matched even when the inner view handles the press.
    pub fn note_press(&mut self, ev: ListenerEvent)
        ensures
            final(self).pressed() == (old(self).pressed() || ev == (ListenerEvent::MouseInput {
                pressed: true,
                over_self: true,
            })),
            final(self).hovered() == old(self).hovered(),
            final(self).inner() == old(self).inner(),
    {
        if let ListenerEvent::MouseInput { pressed, over_self } = ev {
            if pressed && over_self {
                self.is_pressed = true;
            }
        }
    }

    /// Decides, after the inner view handled the event with `inner_result` and
    /// (if `inner_emitted`) a message, whether a listener of `kind` fires and what it reports.
    /// An inner message always wins; an inner `Handled` only lets through what
    /// [`passes_handled`] allows.
    pub fn respond(
        &mut self,
        kind: EventKind,
        ev: ListenerEvent,
        inner_result: EventResult,
        inner_emitted: bool,
    ) -> (r: ListenerOutcome)
        ensures
            listener_responded(*old(self), *final(self), kind, ev, inner_result, inner_emitted, r),
    {
        let is_release = match ev {
            ListenerEvent::MouseInput { pressed, .. } => !pressed,
            _ => false,
        };
        if inner_emitted {
            if is_release {
                self.is_pressed = false;
            }
            return ListenerOutcome { fire: false, result: inner_result };
        }
        if inner_result == EventResult::Handled {
            let allow_outer_processing = match ev {
                ListenerEvent::KeyboardInput { .. } => kind == EventKind::Submit,
                ListenerEvent::MouseInput { pressed: false, .. } => self.is_pressed && (kind
                    == EventKind::Release || kind == EventKind::Click),
                ListenerEvent::FocusLost { .. } => kind == EventKind::FocusLost,
                _ => false,
            };
            if !allow_outer_processing {
                if is_release {
                    self.is_pressed = false;
                }
                return ListenerOutcome { fire: false, result: inner_result };
            }
        }
        let mut fire = false;
        match ev {
            ListenerEvent::FocusLost { on_self } => {
                if kind == EventKind::FocusLost && on_self {
                    fire = true;
                }
            },
            ListenerEvent::CursorMoved { over_self } => {
                let newly_hovered = over_self;
                if newly_hovered != self.is_hovered {
                    self.is_hovered = newly_hovered;
                    if newly_hovered && kind == EventKind::HoverIn {
                        fire = true;
                    } else if !newly_hovered && kind == EventKind::HoverOut {
                        fire = true;
                    }
                }
            },
            ListenerEvent::MouseInput { pressed, over_self } => {
                let is_hit = over_self;
                if pressed {
                    if is_hit {
                        self.is_pressed = true;
                        if kind == EventKind::Press {
                            fire = true;
                        }
                    }
                } else if self.is_pressed {
                    self.is_pressed = false;
                    if is_hit {
                        if kind == EventKind::Click || kind == EventKind::Release {
                            fire = true;
                        }
                    } else if kind == EventKind::Release {
                        fire = true;
                    }
                }
            },
            ListenerEvent::KeyboardInput { pressed, self_focused, is_enter } => {
                if kind == EventKind::Submit && pressed {
                    if self_focused && is_enter {
                        fire = true;
                    }
                }
            },
            ListenerEvent::Other => {},
        }
        let handled = if fire {
            EventResult::Handled
        } else {
            EventResult::Ignored
        };
        ListenerOutcome { fire, result: handled.or(inner_result) }
    }
}

/// Lifecycle phase of an active drag gesture.
#[derive(Clone, Copy, Debug, PartialEq, Eq, Structural)]
pub enum DragPhase {
    /// Initial pointer press down starting the drag gesture.
    Start,
    /// Continuous pointer motion during drag.
    Move,
    /// Pointer button released terminating the drag gesture.
    End,
}

/// What an event is, as far as a drag gesture goes.
#[derive(Clone, Copy, Debug, PartialEq, Eq, Structural)]
pub enum DragEvent {
    /// A mouse button changed state; `left` for the left button, `over_self` when the
    /// drag handler's node is under the cursor.
    MouseInput { left: bool, pressed: bool, over_self: bool },
    /// The cursor moved.
    CursorMoved,
    /// Any other event.
    Other,
}

/// Advances a drag gesture: a left press on the node starts one, a cursor move continues
/// it, a left release ends it. Returns whether a drag is active afterwards and the phase
/// reported to the handler, if any. When the inner view emitted a message nothing changes.
pub fn drag_transition(is_dragging: bool, ev: DragEvent, inner_emitted: bool) -> (r: (
    bool,
    Option<DragPhase>,
))
    ensures
        r == if inner_emitted {
            (is_dragging, None)
        } else {
            match ev {
                DragEvent::MouseInput { left: true, pressed: true, over_self: true } => if !is_dragging {
                    (true, Some(DragPhase::Start))
                } else {
                    (is_dragging, None)
                },
                DragEvent::MouseInput { left: true, pressed: false, .. } => if is_dragging {
                    (false, Some(DragPhase::End))
                } else {
                    (is_dragging, None)
                },
                DragEvent::CursorMoved => if is_dragging {
                    (true, Some(DragPhase::Move))
                } else {
                    (is_dragging, None)
                },
                _ => (is_dragging, None),
            }
        },
{
    if inner_emitted {
        return (is_dragging, None);
    }
    match ev {
        DragEvent::MouseInput { left, pressed, over_self } => {
            if left {
                if pressed {
                    if over_self && !is_dragging {
                        return (true, Some(DragPhase::Start));
                    }
                } else if is_dragging {
                    return (false, Some(DragPhase::End));
                }
            }
            (is_dragging, None)
        },
        DragEvent::CursorMoved => {
            if is_dragging {
                (true, Some(DragPhase::Move))
            } else {
                (is_dragging, None)
            }
        },
        DragEvent::Other => (is_dragging, None),
    }
}

/// Action trigger kind for keyboard handlers.
#[derive(Clone, Copy, Debug, PartialEq, Eq, Structural)]
pub enum KeyActionKind {
    /// Fired when key is initially pressed down (excluding repeat).
    Down,
    /// Fired when key is released.
    Up,
    /// Fired on initial press and auto-repeat keystrokes.
    Press,
}

/// Scope of keyboard listening.
#[derive(Clone, Copy, Debug, PartialEq, Eq, Structural)]
pub enum KeyScope {
    /// Fired only when the attached view's node has keyboard focus.
    Focused,
    /// Fired globally across the window regardless of focus.
    Global,
}

/// Whether a keyboard listener runs its handler for a key event: the scope must admit the
/// event (a focused listener needs its node focused) and the key state must match the action.
pub fn key_listener_fires(
    action: KeyActionKind,
    scope: KeyScope,
    node_focused: bool,
    pressed: bool,
    repeat: bool,
) -> (r: bool)
    ensures
        r == ((scope == KeyScope::Global || node_focused) && match action {
            KeyActionKind::Down => pressed && !repeat,
            KeyActionKind::Up => !pressed,
            KeyActionKind::Press => pressed,
        }),
{
    let scope_ok = match scope {
        KeyScope::Focused => node_focused,
        KeyScope::Global => true,
    };
    if scope_ok {
        match action {
            KeyActionKind::Down => pressed && !repeat,
            KeyActionKind::Up => !pressed,
            KeyActionKind::Press => pressed,
        }
    } else {
        false
    }
}

/// Describes the input origin that initiated or sustained a scroll action.
#[derive(Clone, Copy, Debug, PartialEq, Eq, Hash, Structural)]
pub enum ScrollSource {
    /// Generated by mouse wheel interaction.
    Wheel,
    /// Generated by direct touchpad gesture pan/swipe.
    Touchpad,
    /// Generated by dragging or scrubbing a scrollbar thumb.
    Thumb,
    /// Generated by decaying kinetic momentum / fling physics after gesture release.
    Kinetic,
}

/// The kinds of listener that answer events aimed at their node.
#[derive(Clone, Copy, Debug, PartialEq, Eq, Structural)]
pub enum ListenerKind {
    /// A scroll or thumb-scroll listener: it answers every scroll event aimed at its node.
    Scroll,
    /// A frame tick listener: it answers a tick only when its handler emits a message.
    Tick,
}

/// How a listener answers an event once its inner view has.
#[derive(Clone, Copy, Debug, PartialEq, Eq, Structural)]
pub enum ListenerReply {
    /// The inner view's result and message.
    Inner,
    /// Handled, with the handler's message.
    Handler,
    /// The inner view's result, without a message.
    InnerResult,
}

/// Whether a listener runs its handler: only when the inner view emitted no message and
/// the event is aimed at the listener (a scroll of its node, or a tick).
pub fn listener_calls(inner_emitted: bool, addressed: bool) -> (r: bool)
    ensures
        r == (!inner_emitted && addressed),
{
    !inner_emitted && addressed
}

/// How a listener of `kind` answers an event: the inner view's answer when it emitted a
/// message; otherwise, for an event aimed at the listener, the handler's answer (for a
/// tick listener only when the handler emitted a message, `handler_emitted`); otherwise
/// the inner view's result alone.
pub fn listener_reply(kind: ListenerKind, inner_emitted: bool, addressed: bool, handler_emitted: bool) -> (r: ListenerReply)
    ensures
        r == if inner_emitted {
            ListenerReply::Inner
        } else if addressed && (kind == ListenerKind::Scroll || handler_emitted) {
            ListenerReply::Handler
        } else {
            ListenerReply::InnerResult
        },
{
    if inner_emitted {
        return ListenerReply::Inner;
    }
    if addressed {
        match kind {
            ListenerKind::Scroll => {
                return ListenerReply::Handler;
            },
            ListenerKind::Tick => {
                if handler_emitted {
                    return ListenerReply::Handler;
                }
            },
        }
    }
    ListenerReply::InnerResult
}

/// The code of the ASCII lower-case form of `c`; other characters keep their code.
pub open spec fn ascii_lower(c: char) -> u32 {
    if 'A' <= c && c <= 'Z' {
        ((c as u32) + 32) as u32
    } else {
        c as u32
    }
}

/// `a` and `b` are equal once ASCII letters are folded to lower case.
pub open spec fn eq_ignoring_ascii_case(a: Seq<char>, b: Seq<char>) -> bool {
    a.len() == b.len() && forall|i: int| 0 <= i < a.len() ==> ascii_lower(#[trigger] a[i]) == ascii_lower(b[i])
}

/// The code of the ASCII lower-case form of `c`, computed.
fn to_ascii_lower(c: char) -> (r: u32)
    ensures
        r == ascii_lower(c),
{
    if 'A' <= c && c <= 'Z' {
        (c as u32) + 32
    } else {
        c as u32
    }
}

/// Whether `a` and `b` are equal once ASCII letters are folded to lower case, as
/// `str::eq_ignore_ascii_case` answers.
pub fn ascii_case_insensitive_eq(a: &str, b: &str) -> (r: bool)
    ensures
        r == eq_ignoring_ascii_case(a@, b@),
{
    let mut v: Vec<char> = Vec::new();
    for c in it: a.chars()
        invariant
            it.seq() == a@,
            v@ == a@.take(it.index() as int),
    {
        assert(a@.take(it.index() + 1) =~= a@.take(it.index() as int).push(c));
        v.push(c);
    }
    assert(a@.take(a@.len() as int) =~= a@);
    let mut i: usize = 0;
    for c in it: b.chars()
        invariant
            it.seq() == b@,
            i == it.index(),
            i <= v@.len(),
            v@ == a@,
            forall|j: int| 0 <= j < i ==> ascii_lower(#[trigger] a@[j]) == ascii_lower(b@[j]),
    {
        if i >= v.len() {
            assert(a@.len() != b@.len());
            return false;
        }
        if to_ascii_lower(v[i]) != to_ascii_lower(c) {
            assert(ascii_lower(a@[i as int]) != ascii_lower(b@[i as int]));
            return false;
        }
        i += 1;
    }
    i == v.len()
}

/// The logical key of a key event: the character it produces, the name of a named key
/// (`"Escape"`, `"Enter"`, `"Tab"`, ...), or a key that could not be identified.
#[derive(Clone, Debug, PartialEq, Eq)]
pub enum LogicalKey {
    Character(String),
    Named(String),
    Unidentified,
}

/// The modifier keys held during a key event.
#[derive(Clone, Copy, Debug, PartialEq, Eq, Structural)]
pub struct Modifiers {
    pub shift: bool,
    pub control: bool,
    pub alt: bool,
    /// Super, Meta, Windows or Command.
    pub meta: bool,
}

#[verifier::external_type_specification]
#[verifier::external_body]
pub struct ExPhysicalKey(winit::keyboard::PhysicalKey);

/// `PhysicalKey` is `Copy` and derives `Clone`: a clone is the key itself.
pub assume_specification[ <winit::keyboard::PhysicalKey as std::clone::Clone>::clone ](
    key: &winit::keyboard::PhysicalKey,
) -> (r: winit::keyboard::PhysicalKey)
    ensures
        r == *key,
;

/// Contextual payload passed to keyboard event listeners.
#[derive(Clone, Debug)]
pub struct KeyEventContext {
    /// The resolved logical key representation (character or named key).
    pub logical_key: LogicalKey,
    /// Physical scancode on the hardware keyboard, independent of OS keyboard layout.
    pub physical_key: winit::keyboard::PhysicalKey,
    /// UTF-8 text representation generated by this key event, if any.
    pub text: Option<String>,
    /// `true` if generated by the OS key-repeat timer while holding down the key.
    pub repeat: bool,
    /// Active keyboard modifier state (Shift, Ctrl, Alt, Meta).
    pub modifiers: Modifiers,
}

/// The logical key is the named key `name`.
pub open spec fn is_named(key: LogicalKey, name: Seq<char>) -> bool {
    key matches LogicalKey::Named(n) && n@ == name
}

impl KeyEventContext {
    /// Returns `true` if the logical key matches `key_str`, ignoring ASCII case: the
    /// character of a character key, or the name of a named key.
    pub fn key_matches(&self, key_str: &str) -> (r: bool)
        ensures
            r == match self.logical_key {
                LogicalKey::Character(c) => eq_ignoring_ascii_case(c@, key_str@),
                LogicalKey::Named(n) => eq_ignoring_ascii_case(n@, key_str@),
                LogicalKey::Unidentified => false,
            },
    {
        match &self.logical_key {
            LogicalKey::Character(c) => ascii_case_insensitive_eq(c.as_str(), key_str),
            LogicalKey::Named(n) => ascii_case_insensitive_eq(n.as_str(), key_str),
            LogicalKey::Unidentified => false,
        }
    }

    /// Returns `true` if the Escape key was pressed.
    pub fn is_escape(&self) -> (r: bool)
        ensures
            r == is_named(self.logical_key, seq!['E', 's', 'c', 'a', 'p', 'e']),
    {
        match &self.logical_key {
            LogicalKey::Named(n) => {
                let escape = "Escape";
                proof {
                    reveal_strlit("Escape");
                    assert(escape@ =~= seq!['E', 's', 'c', 'a', 'p', 'e']);
                }
                crate::ui::widgets::utf8::same_text(n.as_str(), escape)
            },
            _ => false,
        }
    }

    /// Returns `true` if the Enter or Return key was pressed: the named Enter key, or a
    /// key that produces a line break.
    pub fn is_enter(&self) -> (r: bool)
        ensures
            r == (is_named(self.logical_key, seq!['E', 'n', 't', 'e', 'r']) || (self.text matches Some(
                t,
            ) && (t@ == seq!['\r'] || t@ == seq!['\n']))),
    {
        let named = match &self.logical_key {
            LogicalKey::Named(n) => {
                let enter = "Enter";
                proof {
                    reveal_strlit("Enter");
                    assert(enter@ =~= seq!['E', 'n', 't', 'e', 'r']);
                }
                crate::ui::widgets::utf8::same_text(n.as_str(), enter)
            },
            _ => false,
        };
        if named {
            return true;
        }
        match &self.text {
            Some(t) => {
                let cr = "\r";
                let lf = "\n";
                proof {
                    reveal_strlit("\r");
                    reveal_strlit("\n");
                    assert(cr@ =~= seq!['\r']);
                    assert(lf@ =~= seq!['\n']);
                }
                crate::ui::widgets::utf8::same_text(t.as_str(), cr)
                    || crate::ui::widgets::utf8::same_text(t.as_str(), lf)
            },
            None => false,
        }
    }

    /// Returns `true` if the Space key was pressed: a character key producing a space.
    pub fn is_space(&self) -> (r: bool)
        ensures
            r == (self.logical_key matches LogicalKey::Character(c) && c@ == seq![' ']),
    {
        match &self.logical_key {
            LogicalKey::Character(c) => {
                let space = " ";
                proof {
                    reveal_strlit(" ");
                    assert(space@ =~= seq![' ']);
                }
                crate::ui::widgets::utf8::same_text(c.as_str(), space)
            },
            _ => false,
        }
    }

    /// Returns `true` if the Tab key was pressed.
    pub fn is_tab(&self) -> (r: bool)
        ensures
            r == is_named(self.logical_key, seq!['T', 'a', 'b']),
    {
        match &self.logical_key {
            LogicalKey::Named(n) => {
                let tab = "Tab";
                proof {
                    reveal_strlit("Tab");
                    assert(tab@ =~= seq!['T', 'a', 'b']);
                }
                crate::ui::widgets::utf8::same_text(n.as_str(), tab)
            },
            _ => false,
        }
    }

    /// Returns `true` if the Control key is currently held.
    pub fn with_ctrl(&self) -> (r: bool)
        ensures
            r == self.modifiers.control,
    {
        self.modifiers.control
    }

    /// Returns `true` if the Shift key is currently held.
    pub fn with_shift(&self) -> (r: bool)
        ensures
            r == self.modifiers.shift,
    {
        self.modifiers.shift
    }

    /// Returns `true` if the Alt / Option key is currently held.
    pub fn with_alt(&self) -> (r: bool)
        ensures
            r == self.modifiers.alt,
    {
        self.modifiers.alt
    }

    /// Returns `true` if the Super / Meta / Windows / Command key is currently held.
    pub fn with_super(&self) -> (r: bool)
        ensures
            r == self.modifiers.meta,
    {
        self.modifiers.meta
    }
}

/// How the cursor behaves while a drag gesture runs.
#[derive(Clone, Copy, Debug, PartialEq, Eq, Structural)]
pub enum CursorGrabPolicy {
    /// The cursor moves freely; positions are absolute.
    Normal,
    /// The cursor is locked in place; motion is reported relative to the press.
    Locked,
}

/// A wrapper view that runs a handler when an interaction of a given kind happens on its
/// inner view (see [`EventElement::respond`]).
pub struct EventHandler<State, V, F> {
    pub(crate) inner: V,
    pub(crate) kind: EventKind,
    pub(crate) handler: Rc<F>,
    pub(crate) _marker: PhantomData<State>,
}

/// A wrapper view that runs a handler through the phases of a drag gesture on its inner
/// view (see [`drag_transition`]).
pub struct DragHandler<State, V, F> {
    pub(crate) inner: V,
    pub(crate) policy: CursorGrabPolicy,
    pub(crate) handler: Rc<F>,
    pub(crate) _marker: PhantomData<State>,
}

/// A wrapper view that runs a handler on key events (see [`key_listener_fires`]).
pub struct KeyHandler<State, V, F> {
    pub(crate) inner: V,
    pub(crate) action: KeyActionKind,
    pub(crate) scope: KeyScope,
    pub(crate) handler: Rc<F>,
    pub(crate) _marker: PhantomData<State>,
}

/// A wrapper view that runs a handler on every frame tick (see [`listener_reply`]).
pub struct TickHandler<State, V, F> {
    pub(crate) inner: V,
    pub(crate) handler: Rc<F>,
    pub(crate) _marker: PhantomData<State>,
}

/// A wrapper view that runs a handler when a scroll bar thumb of its node is dragged or
/// scrolled (see [`listener_reply`]).
pub struct ThumbScrollHandler<State, V, F> {
    pub(crate) inner: V,
    pub(crate) handler: Rc<F>,
    pub(crate) _marker: PhantomData<State>,
}

/// A wrapper view that runs a handler when its node is scrolled (see [`listener_reply`]).
pub struct ScrollHandler<State, V, F> {
    pub(crate) inner: V,
    pub(crate) handler: Rc<F>,
    pub(crate) _marker: PhantomData<State>,
}

impl<State, V, F> EventHandler<State, V, F> {
    /// The wrapped view.
    pub closed spec fn wrapped(&self) -> V {
        self.inner
    }

    /// The interaction the handler runs on.
    pub closed spec fn trigger(&self) -> EventKind {
        self.kind
    }

    /// The handler.
    pub closed spec fn callback(&self) -> F {
        *self.handler
    }

    /// Decides, for an event that the inner view answered with `inner_result` (emitting a
    /// message when `inner_emitted`), whether the handler runs and what the result is,
    /// updating the hover and press state in `element` (see [`EventElement::respond`]).
    pub fn respond<VEl>(
        &self,
        element: &mut EventElement<VEl>,
        ev: ListenerEvent,
        inner_result: EventResult,
        inner_emitted: bool,
    ) -> (r: ListenerOutcome)
        ensures
            listener_responded(*old(element), *final(element), self.trigger(), ev, inner_result, inner_emitted, r),
    {
        element.respond(self.kind, ev, inner_result, inner_emitted)
    }
}

impl<State, V, F> DragHandler<State, V, F> {
    /// The wrapped view.
    pub closed spec fn wrapped(&self) -> V {
        self.inner
    }

    /// How the cursor behaves while the drag runs.
    pub closed spec fn grab(&self) -> CursorGrabPolicy {
        self.policy
    }

    /// The handler.
    pub closed spec fn callback(&self) -> F {
        *self.handler
    }

    /// How the cursor behaves while the drag runs.
    pub fn cursor_policy(&self) -> (r: CursorGrabPolicy)
        ensures
            r == self.grab(),
    {
        self.policy
    }
}

impl<State, V, F> KeyHandler<State, V, F> {
    /// The wrapped view.
    pub closed spec fn wrapped(&self) -> V {
        self.inner
    }

    /// The key transition the handler runs on.
    pub closed spec fn key_action(&self) -> KeyActionKind {
        self.action
    }

    /// Where the handler listens.
    pub closed spec fn key_scope(&self) -> KeyScope {
        self.scope
    }

    /// The handler.
    pub closed spec fn callback(&self) -> F {
        *self.handler
    }

    /// Whether the handler runs for a key event while the view's node is focused or not,
    /// for a press or a release, repeated or not (see [`key_listener_fires`]).
    pub fn fires(&self, node_focused: bool, pressed: bool, repeat: bool) -> (r: bool)
        ensures
            r == ((self.key_scope() == KeyScope::Global || node_focused) && match self.key_action() {
                KeyActionKind::Down => pressed && !repeat,
                KeyActionKind::Up => !pressed,
                KeyActionKind::Press => pressed,
            }),
    {
        key_listener_fires(self.action, self.scope, node_focused, pressed, repeat)
    }
}

impl<State, V, F> TickHandler<State, V, F> {
    /// The wrapped view.
    pub closed spec fn wrapped(&self) -> V {
        self.inner
    }

    /// The handler.
    pub closed spec fn callback(&self) -> F {
        *self.handler
    }
}

impl<State, V, F> ThumbScrollHandler<State, V, F> {
    /// The wrapped view.
    pub closed spec fn wrapped(&self) -> V {
        self.inner
    }

    /// The handler.
    pub closed spec fn callback(&self) -> F {
        *self.handler
    }
}

impl<State, V, F> ScrollHandler<State, V, F> {
    /// The wrapped view.
    pub closed spec fn wrapped(&self) -> V {
        self.inner
    }

    /// The handler.
    pub closed spec fn callback(&self) -> F {
        *self.handler
    }
}

/// Extension trait providing event handling combinators on any view.
pub trait ViewEventExt<State>: Sized {
    /// Attaches a handler that runs when an interaction of kind `event` happens on this view.
    fn on_event<F>(self, event: EventKind, handler: F) -> (r: EventHandler<State, Self, F>)
        ensures
            r.wrapped() == self,
            r.trigger() == event,
            r.callback() == handler,
    {
        EventHandler { inner: self, kind: event, handler: Rc::new(handler), _marker: PhantomData }
    }

    /// Attaches a drag gesture handler; the cursor moves freely.
    fn on_drag<F>(self, handler: F) -> (r: DragHandler<State, Self, F>)
        ensures
            r.wrapped() == self,
            r.grab() == CursorGrabPolicy::Normal,
            r.callback() == handler,
    {
        DragHandler { inner: self, policy: CursorGrabPolicy::Normal, handler: Rc::new(handler), _marker: PhantomData }
    }

    /// Attaches a drag gesture handler with the cursor locked, for relative motion.
    fn on_drag_relative<F>(self, handler: F) -> (r: DragHandler<State, Self, F>)
        ensures
            r.wrapped() == self,
            r.grab() == CursorGrabPolicy::Locked,
            r.callback() == handler,
    {
        DragHandler { inner: self, policy: CursorGrabPolicy::Locked, handler: Rc::new(handler), _marker: PhantomData }
    }

    /// Attaches a handler for first presses of keys while this view has the focus.
    fn on_key_down<F>(self, handler: F) -> (r: KeyHandler<State, Self, F>)
        ensures
            r.wrapped() == self,
            r.key_action() == KeyActionKind::Down,
            r.key_scope() == KeyScope::Focused,
            r.callback() == handler,
    {
        KeyHandler {
            inner: self,
            action: KeyActionKind::Down,
            scope: KeyScope::Focused,
            handler: Rc::new(handler),
            _marker: PhantomData,
        }
    }

    /// Attaches a handler for key releases while this view has the focus.
    fn on_key_up<F>(self, handler: F) -> (r: KeyHandler<State, Self, F>)
        ensures
            r.wrapped() == self,
            r.key_action() == KeyActionKind::Up,
            r.key_scope() == KeyScope::Focused,
            r.callback() == handler,
    {
        KeyHandler {
            inner: self,
            action: KeyActionKind::Up,
            scope: KeyScope::Focused,
            handler: Rc::new(handler),
            _marker: PhantomData,
        }
    }

    /// Attaches a handler for key presses, repeats included, while this view has the focus.
    fn on_key_press<F>(self, handler: F) -> (r: KeyHandler<State, Self, F>)
        ensures
            r.wrapped() == self,
            r.key_action() == KeyActionKind::Press,
            r.key_scope() == KeyScope::Focused,
            r.callback() == handler,
    {
        KeyHandler {
            inner: self,
            action: KeyActionKind::Press,
            scope: KeyScope::Focused,
            handler: Rc::new(handler),
            _marker: PhantomData,
        }
    }

    /// Attaches a handler for first presses of keys anywhere in the window.
    fn on_global_key_down<F>(self, handler: F) -> (r: KeyHandler<State, Self, F>)
        ensures
            r.wrapped() == self,
            r.key_action() == KeyActionKind::Down,
            r.key_scope() == KeyScope::Global,
            r.callback() == handler,
    {
        KeyHandler {
            inner: self,
            action: KeyActionKind::Down,
            scope: KeyScope::Global,
            handler: Rc::new(handler),
            _marker: PhantomData,
        }
    }

    /// Attaches a handler that runs on every frame tick.
    fn on_tick<F>(self, handler: F) -> (r: TickHandler<State, Self, F>)
        ensures
            r.wrapped() == self,
            r.callback() == handler,
    {
        TickHandler { inner: self, handler: Rc::new(handler), _marker: PhantomData }
    }

    /// Attaches a handler for scroll bar thumb drags of this view's node.
    fn on_thumb_scroll<F>(self, handler: F) -> (r: ThumbScrollHandler<State, Self, F>)
        ensures
            r.wrapped() == self,
            r.callback() == handler,
    {
        ThumbScrollHandler { inner: self, handler: Rc::new(handler), _marker: PhantomData }
    }

    /// Attaches a handler for scrolls of this view's node.
    fn on_scroll<F>(self, handler: F) -> (r: ScrollHandler<State, Self, F>)
        ensures
            r.wrapped() == self,
            r.callback() == handler,
    {
        ScrollHandler { inner: self, handler: Rc::new(handler), _marker: PhantomData }
    }

    /// Attaches a handler that runs when this view loses the focus.
    fn on_focus_lost<F>(self, handler: F) -> (r: EventHandler<State, Self, F>)
        ensures
            r.wrapped() == self,
            r.trigger() == EventKind::FocusLost,
            r.callback() == handler,
    {
        EventHandler { inner: self, kind: EventKind::FocusLost, handler: Rc::new(handler), _marker: PhantomData }
    }

    /// Alias of [`on_focus_lost`](ViewEventExt::on_focus_lost).
    fn on_blur<F>(self, handler: F) -> (r: EventHandler<State, Self, F>)
        ensures
            r.wrapped() == self,
            r.trigger() == EventKind::FocusLost,
            r.callback() == handler,
    {
        self.on_focus_lost(handler)
    }
}

impl<State, V> ViewEventExt<State> for V {

}

} // verus!
