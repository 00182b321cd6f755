//! A text input field backed by an [`Editor`](crate::ui::widgets::editor::Editor): how
//! key presses, input-method events and mouse presses edit the text and move the focus.
use vstd::prelude::*;

use crate::ui::event::EventResult;
use crate::ui::widgets::editor::{word_left, word_right, Editor};
use crate::ui::widgets::editor_laws::{law_word_left_moves_back, law_word_right_moves_forward};
use crate::ui::widgets::utf8::{
    byte_offset, is_boundary, lemma_offset_end, lemma_offset_injective, lemma_offset_mono, max_text_bytes, utf8_len,
};

verus! {

/// A text input field.
pub struct TextInput {
    pub(crate) captures_tab: bool,
}

impl TextInput {
    /// Whether the Tab key inserts a tab character instead of moving focus.
    pub closed spec fn takes_tab(&self) -> bool {
        self.captures_tab
    }

    /// Configures whether this input captures the `Tab` key to insert a tab character.
    pub fn captures_tab(self, captures: bool) -> (r: Self)
        ensures
            r.takes_tab() == captures,
    {
        let mut s = self;
        s.captures_tab = captures;
        s
    }
}

/// Creates a text input that lets Tab move the focus.
pub fn text_input() -> (r: TextInput)
    ensures
        !r.takes_tab(),
{
    TextInput { captures_tab: false }
}

/// Whether `c` is a control character, of Unicode general category `Cc`: the code
/// points U+0000 to U+001F and U+007F to U+009F (what `char::is_control` answers).
pub open spec fn char_is_control(c: char) -> bool {
    (c as u32) <= 0x1f || (0x7f <= (c as u32) && (c as u32) <= 0x9f)
}

/// Whether `c` is a control character (see [`char_is_control`]).
pub(crate) fn is_control(c: char) -> (r: bool)
    ensures
        r == char_is_control(c),
{
    let v = c as u32;
    v <= 0x1f || (0x7f <= v && v <= 0x9f)
}

/// A key, as a text input tells keys apart.
pub enum EditKey {
    ArrowLeft,
    ArrowRight,
    Backspace,
    Delete,
    Home,
    End,
    Tab,
    /// A key that stands for the characters it carries (such as `"a"`).
    Character(String),
    /// Any other key.
    Other,
}

/// What a key press does to a focused text input.
#[derive(Clone, Copy, Debug, PartialEq, Eq, Structural)]
pub enum EditAction {
    MoveLeft { by_word: bool },
    MoveRight { by_word: bool },
    DeleteBackward { by_word: bool },
    DeleteForward { by_word: bool },
    MoveToStart,
    MoveToEnd,
    SelectAll,
    /// Types the key's text (see [`typed_text`]).
    Insert,
    FocusNext,
    FocusPrevious,
    /// The key is left to the views around the input.
    PassOn,
    /// The key is consumed and changes nothing.
    Nothing,
}

/// Where the focus goes after an event.
#[derive(Clone, Copy, Debug, PartialEq, Eq, Structural)]
pub enum FocusMove {
    Keep,
    Next,
    Previous,
    /// Focus is requested for this input.
    Request,
    /// Focus is taken away from every view.
    Clear,
}

/// How a text input answers an event: whether it consumed it, whether the text changed
/// (the input then emits its display text), where the focus goes, and whether a new
/// frame is needed.
#[derive(Clone, Copy, Debug, PartialEq, Eq, Structural)]
pub struct InputResponse {
    pub result: EventResult,
    pub text_changed: bool,
    pub focus: FocusMove,
    pub redraw: bool,
}

/// The response to an event that the input does not react to.
pub open spec fn unanswered() -> InputResponse {
    InputResponse { result: EventResult::Ignored, text_changed: false, focus: FocusMove::Keep, redraw: false }
}

/// The characters of an optional string.
pub open spec fn opt_view(text: Option<&str>) -> Option<Seq<char>> {
    match text {
        Some(t) => Some(t@),
        None => None,
    }
}

/// `s` is the letter that selects all text together with Ctrl or Alt.
pub open spec fn is_select_all_letter(s: Seq<char>) -> bool {
    s == seq!['a'] || s == seq!['A']
}

/// `s` is text that a key press may type: not empty and free of control characters.
pub open spec fn is_typeable(s: Seq<char>) -> bool {
    s.len() > 0 && forall|i: int| 0 <= i < s.len() ==> !char_is_control(#[trigger] s[i])
}

/// The action of a key press on a focused input that `takes_tab` or not, where `text` is
/// the text that the key produces and `ctrl_alt` tells whether Ctrl or Alt is held.
pub open spec fn key_action(
    takes_tab: bool,
    key: EditKey,
    text: Option<Seq<char>>,
    shift: bool,
    ctrl_alt: bool,
) -> EditAction {
    let typing = match text {
        Some(t) => if is_typeable(t) && !ctrl_alt {
            EditAction::Insert
        } else {
            EditAction::Nothing
        },
        None => EditAction::Nothing,
    };
    match key {
        EditKey::ArrowLeft => EditAction::MoveLeft { by_word: ctrl_alt },
        EditKey::ArrowRight => EditAction::MoveRight { by_word: ctrl_alt },
        EditKey::Backspace => EditAction::DeleteBackward { by_word: ctrl_alt },
        EditKey::Delete => EditAction::DeleteForward { by_word: ctrl_alt },
        EditKey::Home => EditAction::MoveToStart,
        EditKey::End => EditAction::MoveToEnd,
        EditKey::Tab => if ctrl_alt {
            EditAction::PassOn
        } else if takes_tab {
            EditAction::Insert
        } else if shift {
            EditAction::FocusPrevious
        } else {
            EditAction::FocusNext
        },
        EditKey::Character(s) => if ctrl_alt && is_select_all_letter(s@) {
            EditAction::SelectAll
        } else {
            typing
        },
        EditKey::Other => typing,
    }
}

/// The text that an [`EditAction::Insert`] of this key types: a tab for the Tab key,
/// otherwise the key's text.
pub open spec fn typed_text(key: EditKey, text: Option<Seq<char>>) -> Seq<char> {
    match key {
        EditKey::Tab => seq!['\t'],
        _ => match text {
            Some(t) => t,
            None => Seq::empty(),
        },
    }
}

/// How a focused input answers a key press with `action`.
pub open spec fn key_response(action: EditAction) -> InputResponse {
    match action {
        EditAction::PassOn => InputResponse {
            result: EventResult::Ignored,
            text_changed: false,
            focus: FocusMove::Keep,
            redraw: false,
        },
        EditAction::Nothing => InputResponse {
            result: EventResult::Handled,
            text_changed: false,
            focus: FocusMove::Keep,
            redraw: false,
        },
        EditAction::FocusNext => InputResponse {
            result: EventResult::Handled,
            text_changed: false,
            focus: FocusMove::Next,
            redraw: false,
        },
        EditAction::FocusPrevious => InputResponse {
            result: EventResult::Handled,
            text_changed: false,
            focus: FocusMove::Previous,
            redraw: false,
        },
        EditAction::DeleteBackward { .. } | EditAction::DeleteForward { .. } | EditAction::Insert => InputResponse {
            result: EventResult::Handled,
            text_changed: true,
            focus: FocusMove::Keep,
            redraw: true,
        },
        _ => InputResponse {
            result: EventResult::Handled,
            text_changed: false,
            focus: FocusMove::Keep,
            redraw: true,
        },
    }
}

/// `after` is `before` edited by `action`, typing `t` for an insertion; `shift` tells
/// whether the moves extend the selection.
pub open spec fn edited(before: Editor, after: Editor, action: EditAction, shift: bool, t: Seq<char>) -> bool {
    let s = before.content();
    let k = before.caret() as int;
    match action {
        EditAction::MoveLeft { by_word } => before.moved_to(
            after,
            shift,
            if by_word {
                word_left(s, k) as nat
            } else {
                before.left_of_caret()
            },
            true,
            false,
        ),
        EditAction::MoveRight { by_word } => before.moved_to(
            after,
            shift,
            if by_word {
                word_right(s, k) as nat
            } else {
                before.right_of_caret()
            },
            true,
            true,
        ),
        EditAction::DeleteBackward { by_word } => before.deleted(
            after,
            if by_word {
                word_left(s, k) as nat
            } else {
                before.left_of_caret()
            },
            before.caret(),
        ),
        EditAction::DeleteForward { by_word } => before.deleted(
            after,
            before.caret(),
            if by_word {
                word_right(s, k) as nat
            } else {
                before.right_of_caret()
            },
        ),
        EditAction::MoveToStart => before.moved_to(after, shift, 0, false, false),
        EditAction::MoveToEnd => before.moved_to(after, shift, s.len(), false, false),
        EditAction::SelectAll => before.all_selected(after),
        EditAction::Insert => before.typed(after, t) && after.composition() == before.composition(),
        _ => after == before,
    }
}

/// Whether `s` is the one-letter text `lower` or `upper`.
pub(crate) fn letter_key(s: &str, lower: char, upper: char) -> (r: bool)
    ensures
        r == (s@ == seq![lower] || s@ == seq![upper]),
{
    let mut first: Option<char> = None;
    for c in it: s.chars()
        invariant
            it.seq() == s@,
            it.index() <= 1,
            first == if it.index() == 0 {
                None
            } else {
                Some(s@[0])
            },
    {
        if first.is_some() {
            assert(s@.len() >= 2);
            assert(s@ != seq![lower] && s@ != seq![upper]) by {
                assert(seq![lower].len() == 1 && seq![upper].len() == 1);
            }
            return false;
        }
        first = Some(c);
    }
    match first {
        Some(c) => {
            assert(s@ =~= seq![c]);
            assert(seq![c] == seq![lower] ==> c == lower) by {
                if seq![c] == seq![lower] {
                    assert(seq![c][0] == seq![lower][0]);
                }
            }
            assert(seq![c] == seq![upper] ==> c == upper) by {
                if seq![c] == seq![upper] {
                    assert(seq![c][0] == seq![upper][0]);
                }
            }
            c == lower || c == upper
        },
        None => {
            assert(seq![lower].len() == 1 && seq![upper].len() == 1);
            false
        },
    }
}

/// Whether a key press may type `s`: it is not empty and holds no control character.
fn typeable(s: &str) -> (r: bool)
    ensures
        r == is_typeable(s@),
{
    let mut any = false;
    for c in it: s.chars()
        invariant
            it.seq() == s@,
            any == (it.index() > 0),
            forall|i: int| 0 <= i < it.index() ==> !char_is_control(#[trigger] s@[i]),
    {
        if is_control(c) {
            return false;
        }
        any = true;
    }
    any
}

impl TextInput {
    /// The action of a key press on this input while it has the focus, where `text` is
    /// the text that the key produces and `ctrl_alt` tells whether Ctrl or Alt is held.
    pub fn action_for_key(&self, key: &EditKey, text: Option<&str>, shift: bool, ctrl_alt: bool) -> (r: EditAction)
        ensures
            r == key_action(self.takes_tab(), *key, opt_view(text), shift, ctrl_alt),
    {
        let typing = match text {
            Some(t) => if typeable(t) && !ctrl_alt {
                EditAction::Insert
            } else {
                EditAction::Nothing
            },
            None => EditAction::Nothing,
        };
        match key {
            EditKey::ArrowLeft => EditAction::MoveLeft { by_word: ctrl_alt },
            EditKey::ArrowRight => EditAction::MoveRight { by_word: ctrl_alt },
            EditKey::Backspace => EditAction::DeleteBackward { by_word: ctrl_alt },
            EditKey::Delete => EditAction::DeleteForward { by_word: ctrl_alt },
            EditKey::Home => EditAction::MoveToStart,
            EditKey::End => EditAction::MoveToEnd,
            EditKey::Tab => if ctrl_alt {
                EditAction::PassOn
            } else if self.captures_tab {
                EditAction::Insert
            } else if shift {
                EditAction::FocusPrevious
            } else {
                EditAction::FocusNext
            },
            EditKey::Character(s) => if ctrl_alt && letter_key(s.as_str(), 'a', 'A') {
                EditAction::SelectAll
            } else {
                typing
            },
            EditKey::Other => typing,
        }
    }
}

/// How a focused input answers a key press with `action`, computed.
pub(crate) fn response_for(action: EditAction) -> (r: InputResponse)
    ensures
        r == key_response(action),
{
    match action {
        EditAction::PassOn => InputResponse {
            result: EventResult::Ignored,
            text_changed: false,
            focus: FocusMove::Keep,
            redraw: false,
        },
        EditAction::Nothing => InputResponse {
            result: EventResult::Handled,
            text_changed: false,
            focus: FocusMove::Keep,
            redraw: false,
        },
        EditAction::FocusNext => InputResponse {
            result: EventResult::Handled,
            text_changed: false,
            focus: FocusMove::Next,
            redraw: false,
        },
        EditAction::FocusPrevious => InputResponse {
            result: EventResult::Handled,
            text_changed: false,
            focus: FocusMove::Previous,
            redraw: false,
        },
        EditAction::DeleteBackward { .. } | EditAction::DeleteForward { .. } | EditAction::Insert => InputResponse {
            result: EventResult::Handled,
            text_changed: true,
            focus: FocusMove::Keep,
            redraw: true,
        },
        _ => InputResponse {
            result: EventResult::Handled,
            text_changed: false,
            focus: FocusMove::Keep,
            redraw: true,
        },
    }
}

/// The response to an event that the input does not react to, computed.
fn no_response() -> (r: InputResponse)
    ensures
        r == unanswered(),
{
    InputResponse { result: EventResult::Ignored, text_changed: false, focus: FocusMove::Keep, redraw: false }
}

/// Edits `editor` by `action`: moves extend the selection when `shift` is held, and an
/// insertion types `typed`.
pub fn apply_edit(editor: &mut Editor, action: EditAction, shift: bool, typed: &str)
    requires
        old(editor).wf(),
        action is Insert ==> old(editor).fits(typed@),
    ensures
        edited(*old(editor), *final(editor), action, shift, typed@),
        final(editor).wf(),
{
    match action {
        EditAction::MoveLeft { by_word } => {
            if by_word {
                editor.move_word_left(shift);
            } else {
                editor.move_left(shift);
            }
        },
        EditAction::MoveRight { by_word } => {
            if by_word {
                editor.move_word_right(shift);
            } else {
                editor.move_right(shift);
            }
        },
        EditAction::DeleteBackward { by_word } => {
            if by_word {
                editor.delete_word_backward();
            } else {
                editor.delete_backward();
            }
        },
        EditAction::DeleteForward { by_word } => {
            if by_word {
                editor.delete_word_forward();
            } else {
                editor.delete_forward();
            }
        },
        EditAction::MoveToStart => editor.move_to_start(shift),
        EditAction::MoveToEnd => editor.move_to_end(shift),
        EditAction::SelectAll => editor.select_all(),
        EditAction::Insert => editor.insert(typed),
        _ => {},
    }
}

impl TextInput {
    /// Handles a keyboard event: a press of `key` producing `text`, while Shift (`shift`)
    /// and Ctrl or Alt (`ctrl_alt`) are held or not. Only a press (`pressed`) while the
    /// input has the focus (`focused`) is handled: the editor is then edited by the key's
    /// action (see [`key_action`]). When the response says the text changed, the input
    /// emits its display text.
    pub fn handle_key(
        &self,
        editor: &mut Editor,
        key: &EditKey,
        text: Option<&str>,
        focused: bool,
        pressed: bool,
        shift: bool,
        ctrl_alt: bool,
    ) -> (r: InputResponse)
        requires
            old(editor).wf(),
            focused && pressed && key_action(self.takes_tab(), *key, opt_view(text), shift, ctrl_alt)
                is Insert ==> old(editor).fits(typed_text(*key, opt_view(text))),
        ensures
            final(editor).wf(),
            if focused && pressed {
                let a = key_action(self.takes_tab(), *key, opt_view(text), shift, ctrl_alt);
                &&& r == key_response(a)
                &&& edited(*old(editor), *final(editor), a, shift, typed_text(*key, opt_view(text)))
            } else {
                &&& r == unanswered()
                &&& *final(editor) == *old(editor)
            },
    {
        if !(focused && pressed) {
            return no_response();
        }
        let action = self.action_for_key(key, text, shift, ctrl_alt);
        match key {
            EditKey::Tab => {
                let tab = "\t";
                proof {
                    reveal_strlit("\t");
                    assert(tab@ =~= seq!['\t']);
                }
                apply_edit(editor, action, shift, tab);
            },
            _ => match text {
                Some(t) => apply_edit(editor, action, shift, t),
                None => {
                    let empty = "";
                    proof {
                        reveal_strlit("");
                        assert(empty@ =~= Seq::<char>::empty());
                    }
                    apply_edit(editor, action, shift, empty);
                },
            },
        }
        response_for(action)
    }
}

/// An input-method event.
pub enum ImeEvent {
    /// The input method became active.
    Enabled,
    /// The text being composed, with its cursor range; an empty text ends the composition.
    Preedit(String, Option<(usize, usize)>),
    /// The composed text is final and is to be typed.
    Commit(String),
    /// The input method became inactive.
    Disabled,
}

/// `after` is `before` once a focused input answered `r` to the input-method event `ime`
/// (see [`handle_ime`]).
pub open spec fn ime_answered(before: Editor, after: Editor, ime: ImeEvent, r: InputResponse) -> bool {
    match ime {
        ImeEvent::Enabled => r == unanswered() && after == before,
        ImeEvent::Preedit(t, c) => {
            &&& r == (InputResponse {
                result: EventResult::Handled,
                text_changed: false,
                focus: FocusMove::Keep,
                redraw: true,
            })
            &&& after.content() == before.content()
            &&& after.caret() == before.caret()
            &&& after.anchor() == before.anchor()
            &&& after.composition() == if t@.len() == 0 {
                None
            } else {
                Some((t@, c))
            }
        },
        ImeEvent::Commit(t) => {
            &&& r == (InputResponse {
                result: EventResult::Handled,
                text_changed: true,
                focus: FocusMove::Keep,
                redraw: true,
            })
            &&& before.typed(after, t@)
            &&& after.composition() is None
        },
        ImeEvent::Disabled => {
            &&& r == (InputResponse {
                result: EventResult::Ignored,
                text_changed: false,
                focus: FocusMove::Keep,
                redraw: true,
            })
            &&& after.content() == before.content()
            &&& after.caret() == before.caret()
            &&& after.anchor() == before.anchor()
            &&& after.composition() is None
        },
    }
}

/// Handles an input-method event; only a focused input reacts. A composition is shown
/// at the cursor, a commit types its text (and the input emits its display text), and
/// disabling the input method drops the composition without consuming the event.
pub fn handle_ime(editor: &mut Editor, ime: ImeEvent, focused: bool) -> (r: InputResponse)
    requires
        old(editor).wf(),
        focused ==> (ime matches ImeEvent::Commit(t) ==> old(editor).fits(t@)),
    ensures
        final(editor).wf(),
        !focused ==> r == unanswered() && *final(editor) == *old(editor),
        focused ==> ime_answered(*old(editor), *final(editor), ime, r),
{
    if !focused {
        return no_response();
    }
    match ime {
        ImeEvent::Enabled => no_response(),
        ImeEvent::Preedit(t, c) => {
            editor.set_ime_preedit(t, c);
            InputResponse { result: EventResult::Handled, text_changed: false, focus: FocusMove::Keep, redraw: true }
        },
        ImeEvent::Commit(t) => {
            editor.commit_ime(t.as_str());
            InputResponse { result: EventResult::Handled, text_changed: true, focus: FocusMove::Keep, redraw: true }
        },
        ImeEvent::Disabled => {
            editor.set_ime_preedit(String::new(), None);
            InputResponse { result: EventResult::Ignored, text_changed: false, focus: FocusMove::Keep, redraw: true }
        },
    }
}

/// The byte index `b` clamped to the byte length of `s`.
pub open spec fn clamped_byte(s: Seq<char>, b: int) -> nat {
    if b <= utf8_len(s) {
        b as nat
    } else {
        utf8_len(s)
    }
}

/// `after` is `before` once a mouse press, the `count`-th in a row, lands at the byte
/// index `index` (clamped to the text): a double press selects the word found by one word
/// step left and then one right from the press; three or more select the whole text; a
/// single press moves the cursor there, extending the selection when `shift` is held.
pub open spec fn pressed_at(before: Editor, after: Editor, index: usize, count: u8, shift: bool) -> bool {
    let s = before.content();
    &&& after.wf()
    &&& after.content() == s
    &&& after.composition() == before.composition()
    &&& if count >= 3 {
        after.anchor() == Some(0nat) && after.caret() == s.len()
    } else {
        forall|k: int|
            0 <= k <= s.len() && #[trigger] byte_offset(s, k) == clamped_byte(s, index as int) ==> if count
                == 2 {
                let start = word_left(s, k);
                after.anchor() == Some(start as nat) && after.caret() == word_right(s, start) as nat
            } else if shift {
                after.anchor() == Some(before.held_anchor()) && after.caret() == k
            } else {
                after.anchor() is None && after.caret() == k
            }
    }
}

/// How many presses in a row a new press makes, given the previous count and the
/// milliseconds since the previous press, if there was one: presses less than 500 ms
/// apart continue a row.
pub fn next_click_count(count: u8, since_last_ms: Option<u128>) -> (r: u8)
    requires
        (since_last_ms matches Some(ms) && ms < 500) ==> count < u8::MAX,
    ensures
        r == if since_last_ms matches Some(ms) && ms < 500 {
            (count + 1) as u8
        } else {
            1u8
        },
{
    match since_last_ms {
        Some(ms) => if ms < 500 {
            count + 1
        } else {
            1
        },
        None => 1,
    }
}

/// Updates the cursor and the selection for a mouse press, the `count`-th in a row, at the
/// byte index `index` of the text (see [`pressed_at`]).
pub fn select_on_press(editor: &mut Editor, index: usize, count: u8, shift: bool)
    requires
        old(editor).wf(),
        index >= utf8_len(old(editor).content()) || is_boundary(old(editor).content(), index as int),
    ensures
        pressed_at(*old(editor), *final(editor), index, count, shift),
{
    let ghost s = editor.content();
    proof {
        lemma_offset_end(s);
    }
    if count == 2 {
        editor.set_cursor(index);
        editor.set_selection_anchor(Some(index));
        let ghost k0 = editor.caret();
        proof {
            editor.lemma_positions_in_text();
            lemma_offset_injective(s, editor.anchor()->0 as int, k0 as int);
        }
        editor.move_word_left(false);
        let start = editor.cursor();
        let ghost ws = editor.caret();
        proof {
            editor.lemma_positions_in_text();
            lemma_offset_mono(s, ws as int, s.len() as int);
        }
        assert(byte_offset(editor.content(), ws as int) == start);
        editor.move_word_right(true);
        let end = editor.cursor();
        let ghost we = editor.caret();
        proof {
            editor.lemma_positions_in_text();
            lemma_offset_mono(s, we as int, s.len() as int);
        }
        assert(byte_offset(editor.content(), we as int) == end);
        editor.set_selection_anchor(Some(start));
        editor.set_cursor(end);
        proof {
            editor.lemma_positions_in_text();
            lemma_offset_injective(s, editor.anchor()->0 as int, ws as int);
            lemma_offset_injective(s, editor.caret() as int, we as int);
            law_word_left_moves_back(s, k0 as int);
            law_word_right_moves_forward(s, word_left(s, k0 as int));
            assert forall|k: int|
                0 <= k <= s.len() && #[trigger] byte_offset(s, k) == clamped_byte(s, index as int) implies k == k0 by {
                lemma_offset_injective(s, k, k0 as int);
            }
        }
    } else if count >= 3 {
        editor.select_all();
    } else {
        if shift {
            if editor.selection_anchor().is_none() {
                let c = editor.cursor();
                let ghost k1 = editor.caret();
                proof {
                    editor.lemma_positions_in_text();
                    lemma_offset_mono(s, k1 as int, s.len() as int);
                }
                assert(byte_offset(editor.content(), k1 as int) == c);
                editor.set_selection_anchor(Some(c));
                proof {
                    editor.lemma_positions_in_text();
                    lemma_offset_injective(s, editor.anchor()->0 as int, k1 as int);
                }
            }
            editor.set_cursor(index);
        } else {
            editor.set_selection_anchor(None);
            editor.set_cursor(index);
        }
        proof {
            editor.lemma_positions_in_text();
            let kc = editor.caret();
            assert forall|k: int|
                0 <= k <= s.len() && #[trigger] byte_offset(s, k) == clamped_byte(s, index as int) implies k == kc by {
                lemma_offset_injective(s, k, kc as int);
            }
        }
    }
}

/// Handles a mouse button event at the byte index `index` of the text, where `index` is
/// `None` when the input has no laid-out geometry yet. A press on the input (`hit`)
/// requests the focus and updates the selection (see [`select_on_press`]), counting
/// presses in a row in `clicks` (see [`next_click_count`]); a press elsewhere takes the
/// focus away from a focused input without consuming the event. Releases are ignored.
pub fn handle_press(
    editor: &mut Editor,
    clicks: &mut u8,
    pressed: bool,
    hit: bool,
    focused: bool,
    index: Option<usize>,
    since_last_ms: Option<u128>,
    shift: bool,
) -> (r: InputResponse)
    requires
        old(editor).wf(),
        pressed && hit ==> (index matches Some(i) ==> (i >= utf8_len(old(editor).content())
            || is_boundary(old(editor).content(), i as int))),
        pressed && hit ==> (index is Some && (since_last_ms matches Some(ms) && ms < 500)
            ==> *old(clicks) < u8::MAX),
    ensures
        final(editor).wf(),
        if pressed && hit {
            &&& r == (InputResponse {
                result: EventResult::Handled,
                text_changed: false,
                focus: FocusMove::Request,
                redraw: index is Some,
            })
            &&& match index {
                Some(i) => {
                    &&& *final(clicks) == if since_last_ms matches Some(ms) && ms < 500 {
                        (*old(clicks) + 1) as u8
                    } else {
                        1u8
                    }
                    &&& pressed_at(*old(editor), *final(editor), i, *final(clicks), shift)
                },
                None => *final(clicks) == *old(clicks) && *final(editor) == *old(editor),
            }
        } else {
            &&& r == (InputResponse {
                result: EventResult::Ignored,
                text_changed: false,
                focus: if pressed && focused {
                    FocusMove::Clear
                } else {
                    FocusMove::Keep
                },
                redraw: false,
            })
            &&& *final(clicks) == *old(clicks)
            &&& *final(editor) == *old(editor)
        },
{
    if pressed && hit {
        match index {
            Some(i) => {
                let count = next_click_count(*clicks, since_last_ms);
                *clicks = count;
                select_on_press(editor, i, count, shift);
                InputResponse { result: EventResult::Handled, text_changed: false, focus: FocusMove::Request, redraw: true }
            },
            None => InputResponse {
                result: EventResult::Handled,
                text_changed: false,
                focus: FocusMove::Request,
                redraw: false,
            },
        }
    } else {
        let focus = if pressed && focused {
            FocusMove::Clear
        } else {
            FocusMove::Keep
        };
        InputResponse { result: EventResult::Ignored, text_changed: false, focus, redraw: false }
    }
}

/// On a frame tick, brings the editor in line with the application's text `state` when
/// they differ: the text is replaced and the cursor put at its end. Returns whether that
/// happened, in which case a new frame is needed.
pub fn sync_with_state(editor: &mut Editor, state: &str, is_tick: bool) -> (r: bool)
    requires
        old(editor).wf(),
        utf8_len(state@) <= max_text_bytes(),
    ensures
        final(editor).wf(),
        r == (is_tick && old(editor).content() != state@),
        r ==> {
            &&& final(editor).content() == state@
            &&& final(editor).caret() == state@.len()
            &&& final(editor).anchor() is None
            &&& final(editor).composition() == old(editor).composition()
        },
        !r ==> *final(editor) == *old(editor),
{
    if is_tick && !editor.has_text(state) {
        editor.set_text(state);
        true
    } else {
        false
    }
}

/// A key press never types a control character: whatever a focused input types for a key
/// other than Tab is non-empty text free of control characters, and typing is never done
/// with Ctrl or Alt held.
pub proof fn law_typed_text_has_no_controls(
    takes_tab: bool,
    key: EditKey,
    text: Option<Seq<char>>,
    shift: bool,
    ctrl_alt: bool,
)
    requires
        key_action(takes_tab, key, text, shift, ctrl_alt) == EditAction::Insert,
        !(key is Tab),
    ensures
        is_typeable(typed_text(key, text)),
        !ctrl_alt,
{
}

/// The byte index at which the cursor is drawn in the display text of `e`: inside the
/// composition when one is under way.
pub open spec fn shown_cursor(e: Editor) -> int {
    match e.composition() {
        Some((p, Some((start, _)))) => e.byte_at(e.caret()) + start,
        Some((p, None)) => (e.byte_at(e.caret()) + utf8_len(p)) as int,
        None => e.byte_at(e.caret()) as int,
    }
}

/// The byte range of the composition of `e` in its display text, if any.
pub open spec fn shown_preedit(e: Editor) -> Option<(usize, usize)> {
    match e.composition() {
        Some((p, _)) => Some((e.byte_at(e.caret()) as usize, (e.byte_at(e.caret()) + utf8_len(p)) as usize)),
        None => None,
    }
}

/// What is drawn over the text of an input: the cursor, the selection and the
/// composition, as byte indices of the display text.
#[derive(Clone, Copy, Debug, PartialEq, Eq)]
pub struct RenderMarks {
    pub cursor: Option<usize>,
    pub selection: Option<(usize, usize)>,
    pub preedit: Option<(usize, usize)>,
}

/// What an input draws over its text while it is `focused` or not, and while it shows
/// its placeholder in place of an empty text or not: the cursor and the selection only
/// with the focus (over a placeholder the cursor stands at 0 and nothing is selected),
/// and the composition unless the placeholder is shown.
pub fn render_marks(editor: &Editor, focused: bool, placeholder: bool) -> (r: RenderMarks)
    requires
        editor.wf(),
        0 <= shown_cursor(*editor) <= usize::MAX,
        editor.composition() matches Some((p, _)) ==> editor.byte_at(editor.caret()) + utf8_len(p)
            <= usize::MAX,
    ensures
        r.cursor == if focused && !placeholder {
            Some(shown_cursor(*editor) as usize)
        } else if focused {
            Some(0usize)
        } else {
            None
        },
        r.selection == if focused && !placeholder {
            match crate::ui::widgets::editor::selection_span(editor.caret(), editor.anchor()) {
                Some((a, b)) => Some((editor.byte_at(a) as usize, editor.byte_at(b) as usize)),
                None => None,
            }
        } else {
            None
        },
        r.preedit == if placeholder {
            None
        } else {
            shown_preedit(*editor)
        },
{
    let cursor = if focused && !placeholder {
        Some(editor.display_cursor())
    } else if focused {
        Some(0)
    } else {
        None
    };
    let selection = if focused && !placeholder {
        editor.selection()
    } else {
        None
    };
    let preedit = if placeholder {
        None
    } else {
        editor.preedit_range()
    };
    RenderMarks { cursor, selection, preedit }
}

/// Handles the loss of focus: when it is this input's node that lost it, the selection is
/// dropped and the event is handled; otherwise it is ignored.
pub fn handle_focus_lost(editor: &mut Editor, on_self: bool) -> (r: InputResponse)
    requires
        old(editor).wf(),
    ensures
        final(editor).wf(),
        on_self ==> {
            &&& r == (InputResponse {
                result: EventResult::Handled,
                text_changed: false,
                focus: FocusMove::Keep,
                redraw: true,
            })
            &&& final(editor).content() == old(editor).content()
            &&& final(editor).caret() == old(editor).caret()
            &&& final(editor).anchor() is None
            &&& final(editor).composition() == old(editor).composition()
        },
        !on_self ==> r == unanswered() && *final(editor) == *old(editor),
{
    if on_self {
        editor.set_selection_anchor(None);
        InputResponse { result: EventResult::Handled, text_changed: false, focus: FocusMove::Keep, redraw: true }
    } else {
        no_response()
    }
}

} // verus!
