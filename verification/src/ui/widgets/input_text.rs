//! A single-line text input: the keys it adds to a plain text input (clipboard, history),
//! the cleaning of line breaks out of text put into it, and mouse selection by dragging.
use vstd::prelude::*;

use crate::ui::event::EventResult;
use crate::ui::widgets::editor::Editor;
use crate::ui::widgets::into_string;
use crate::ui::widgets::text_input::{
    apply_edit, char_is_control, handle_ime, ime_answered, letter_key, opt_view, response_for,
    EditAction, EditKey, FocusMove, ImeEvent, InputResponse,
};
use crate::ui::widgets::utf8::{
    byte_offset, is_boundary, lemma_offset_injective, lemma_offset_mono, max_text_bytes,
    utf8_len,
};

verus! {

/// A single-line text input widget with cursor, selection and clipboard support.
pub struct InputText {
    pub(crate) captures_tab: bool,
    pub(crate) placeholder: Option<String>,
}

/// Creates a new `InputText` widget, without a placeholder, that lets Tab move the focus.
pub fn input_text() -> (r: InputText)
    ensures
        !r.takes_tab(),
        r.placeholder_text() is None,
{
    InputText { captures_tab: false, placeholder: None }
}

impl InputText {
    /// Whether the Tab key inserts spaces instead of moving focus.
    pub closed spec fn takes_tab(&self) -> bool {
        self.captures_tab
    }

    /// The prompt shown while the input is empty, if any.
    pub closed spec fn placeholder_text(&self) -> Option<Seq<char>> {
        match self.placeholder {
            Some(p) => Some(p@),
            None => None,
        }
    }

    /// Configures whether this input captures the `Tab` key to insert four spaces.
    pub fn captures_tab(self, captures: bool) -> (r: Self)
        ensures
            r.takes_tab() == captures,
            r.placeholder_text() == self.placeholder_text(),
    {
        InputText { captures_tab: captures, placeholder: self.placeholder }
    }

    /// Sets the prompt displayed while the input field is empty.
    pub fn placeholder<S: Into<String>>(self, placeholder: S) -> (r: Self)
        ensures
            r.takes_tab() == self.takes_tab(),
            exists|p: String| call_ensures(S::into, (placeholder,), p) && r.placeholder_text() == Some(p@),
    {
        let p = into_string(placeholder);
        let r = InputText { captures_tab: self.captures_tab, placeholder: Some(p) };
        assert(call_ensures(S::into, (placeholder,), p) && r.placeholder_text() == Some(p@));
        r
    }

    /// Whether the placeholder is shown for a display text of `display_len` bytes: it is
    /// when the text is empty and a placeholder is set. The cursor then stands at 0 and no
    /// selection or composition is drawn.
    pub fn shows_placeholder(&self, display_len: usize) -> (r: bool)
        ensures
            r == (display_len == 0 && self.placeholder_text() is Some),
    {
        display_len == 0 && self.placeholder.is_some()
    }
}

/// The characters of `s` from index `i` on, with each line break (`"\r\n"`, `'\n'` or
/// `'\r'`) replaced by a single space.
pub open spec fn single_line_from(s: Seq<char>, i: int) -> Seq<char>
    decreases s.len() - i,
{
    if i < 0 || i >= s.len() {
        Seq::empty()
    } else if s[i] == '\r' && i + 1 < s.len() && s[i + 1] == '\n' {
        seq![' '] + single_line_from(s, i + 2)
    } else if s[i] == '\n' || s[i] == '\r' {
        seq![' '] + single_line_from(s, i + 1)
    } else {
        seq![s[i]] + single_line_from(s, i + 1)
    }
}

/// `s` with each line break replaced by a single space.
pub open spec fn single_line(s: Seq<char>) -> Seq<char> {
    single_line_from(s, 0)
}

/// Replaces each line break of `s` (`"\r\n"`, `'\n'` or `'\r'`) by a single space, so that
/// pasted or committed text stays on one line.
pub fn to_single_line(s: &str) -> (r: String)
    requires
        utf8_len(s@) <= max_text_bytes(),
    ensures
        r@ == single_line(s@),
{
    let mut v: Vec<char> = Vec::new();
    for c in it: s.chars()
        invariant
            it.seq() == s@,
            v@ == s@.take(it.index() as int),
    {
        assert(s@.take(it.index() + 1) =~= s@.take(it.index() as int).push(c));
        v.push(c);
    }
    assert(s@.take(s@.len() as int) =~= s@);
    let mut out = String::new();
    let mut i: usize = 0;
    proof {
        lemma_single_line_len(v@, 0);
        lemma_single_line_bytes(v@, 0);
    }
    while i < v.len()
        invariant
            i <= v@.len(),
            v@ == s@,
            utf8_len(s@) <= max_text_bytes(),
            out@ + single_line_from(v@, i as int) == single_line(v@),
            utf8_len(out@) + utf8_len(single_line_from(v@, i as int)) <= utf8_len(v@),
        decreases v.len() - i,
    {
        let c = v[i];
        let ghost rest = single_line_from(v@, i as int);
        if c == '\r' && i + 1 < v.len() && v[i + 1] == '\n' {
            proof {
                lemma_utf8_len_prepend(' ', single_line_from(v@, i + 2));
                lemma_utf8_len_push(out@, ' ');
                assert(out@.push(' ') + single_line_from(v@, i + 2) =~= out@ + rest);
            }
            out.push(' ');
            i += 2;
        } else if c == '\n' || c == '\r' {
            proof {
                lemma_utf8_len_prepend(' ', single_line_from(v@, i + 1));
                lemma_utf8_len_push(out@, ' ');
                assert(out@.push(' ') + single_line_from(v@, i + 1) =~= out@ + rest);
            }
            out.push(' ');
            i += 1;
        } else {
            proof {
                lemma_utf8_len_prepend(c, single_line_from(v@, i + 1));
                lemma_utf8_len_push(out@, c);
                assert(out@.push(c) + single_line_from(v@, i + 1) =~= out@ + rest);
            }
            out.push(c);
            i += 1;
        }
    }
    assert(single_line_from(v@, i as int) =~= Seq::<char>::empty());
    assert(out@ + Seq::<char>::empty() =~= out@);
    out
}

/// The UTF-8 length of a character followed by `s`.
proof fn lemma_utf8_len_prepend(c: char, s: Seq<char>)
    ensures
        utf8_len(seq![c] + s) == crate::ui::widgets::utf8::char_utf8_len(c) + utf8_len(s),
{
    crate::ui::widgets::utf8::lemma_utf8_len_concat(seq![c], s);
    crate::ui::widgets::utf8::lemma_utf8_len_single(c);
}

/// The UTF-8 length of `s` followed by a character.
proof fn lemma_utf8_len_push(s: Seq<char>, c: char)
    ensures
        utf8_len(s.push(c)) == utf8_len(s) + crate::ui::widgets::utf8::char_utf8_len(c),
{
    assert(s.push(c).drop_last() =~= s);
}

/// Cleaning line breaks never lengthens a text.
proof fn lemma_single_line_len(s: Seq<char>, i: int)
    requires
        0 <= i <= s.len(),
    ensures
        single_line_from(s, i).len() <= s.len() - i,
    decreases s.len() - i,
{
    if i < s.len() {
        if s[i] == '\r' && i + 1 < s.len() && s[i + 1] == '\n' {
            lemma_single_line_len(s, i + 2);
        } else {
            lemma_single_line_len(s, i + 1);
        }
    }
}

/// Cleaning line breaks never makes a text longer in bytes.
proof fn lemma_single_line_bytes(s: Seq<char>, i: int)
    requires
        0 <= i <= s.len(),
    ensures
        utf8_len(single_line_from(s, i)) <= utf8_len(s.skip(i)),
    decreases s.len() - i,
{
    if i < s.len() {
        assert(s.skip(i) =~= seq![s[i]] + s.skip(i + 1));
        lemma_utf8_len_prepend(s[i], s.skip(i + 1));
        if s[i] == '\r' && i + 1 < s.len() && s[i + 1] == '\n' {
            lemma_single_line_bytes(s, i + 2);
            assert(s.skip(i + 1) =~= seq![s[i + 1]] + s.skip(i + 2));
            lemma_utf8_len_prepend(s[i + 1], s.skip(i + 2));
            lemma_utf8_len_prepend(' ', single_line_from(s, i + 2));
        } else if s[i] == '\n' || s[i] == '\r' {
            lemma_single_line_bytes(s, i + 1);
            lemma_utf8_len_prepend(' ', single_line_from(s, i + 1));
        } else {
            lemma_single_line_bytes(s, i + 1);
            lemma_utf8_len_prepend(s[i], single_line_from(s, i + 1));
        }
    } else {
        assert(s.skip(i) =~= Seq::<char>::empty());
    }
}

/// Text cleaned of line breaks holds no line break, and is no longer than the text it came from.
pub proof fn law_single_line_has_no_breaks(s: Seq<char>)
    ensures
        forall|k: int|
            0 <= k < single_line(s).len() ==> #[trigger] single_line(s)[k] != '\n' && single_line(s)[k]
                != '\r',
        single_line(s).len() <= s.len(),
{
    lemma_no_breaks_from(s, 0);
    lemma_single_line_len(s, 0);
}

/// No line break remains from index `i` on.
proof fn lemma_no_breaks_from(s: Seq<char>, i: int)
    requires
        0 <= i <= s.len(),
    ensures
        forall|k: int|
            0 <= k < single_line_from(s, i).len() ==> #[trigger] single_line_from(s, i)[k] != '\n'
                && single_line_from(s, i)[k] != '\r',
    decreases s.len() - i,
{
    if i < s.len() {
        let j = if s[i] == '\r' && i + 1 < s.len() && s[i + 1] == '\n' {
            i + 2
        } else {
            i + 1
        };
        lemma_no_breaks_from(s, j);
        let head = if s[i] == '\n' || s[i] == '\r' {
            ' '
        } else {
            s[i]
        };
        let out = single_line_from(s, i);
        let tail = single_line_from(s, j);
        assert(out =~= seq![head] + tail);
        assert forall|k: int| 0 <= k < out.len() implies #[trigger] out[k] != '\n' && out[k] != '\r' by {
            if k > 0 {
                assert(out[k] == tail[k - 1]);
            }
        }
    }
}

/// `s` is text that a key press may type into a single line: not empty, and free of
/// control characters and line breaks.
pub open spec fn is_line_typeable(s: Seq<char>) -> bool {
    s.len() > 0 && forall|i: int|
        0 <= i < s.len() ==> !char_is_control(#[trigger] s[i]) && s[i] != '\n' && s[i] != '\r'
}

/// Whether a key press may type `s` into a single line.
fn line_typeable(s: &str) -> (r: bool)
    ensures
        r == is_line_typeable(s@),
{
    let mut any = false;
    for c in it: s.chars()
        invariant
            it.seq() == s@,
            any == (it.index() > 0),
            forall|i: int|
                0 <= i < it.index() ==> !char_is_control(#[trigger] s@[i]) && s@[i] != '\n' && s@[i]
                    != '\r',
    {
        if crate::ui::widgets::text_input::is_control(c) || c == '\n' || c == '\r' {
            return false;
        }
        any = true;
    }
    any
}

/// What a key press does to a focused single-line input: the actions of a plain text
/// input, and the clipboard and history keys held with Ctrl or Alt.
#[derive(Clone, Copy, Debug, PartialEq, Eq, Structural)]
pub enum LineAction {
    /// An action of a plain text input (see [`EditAction`]).
    Edit(EditAction),
    /// Copies the selection.
    Copy,
    /// Copies the selection and deletes it.
    Cut,
    /// Types the clipboard's text, cleaned of line breaks.
    Paste,
    /// Takes back the last edit.
    Undo,
    /// Makes again the last edit taken back.
    Redo,
}

/// The action of a key press on a focused single-line input that `takes_tab` or not,
/// where `text` is the text that the key produces.
pub open spec fn line_key_action(
    takes_tab: bool,
    key: EditKey,
    text: Option<Seq<char>>,
    shift: bool,
    ctrl_alt: bool,
) -> LineAction {
    let typing = match text {
        Some(t) => if is_line_typeable(t) && !ctrl_alt {
            LineAction::Edit(EditAction::Insert)
        } else {
            LineAction::Edit(EditAction::Nothing)
        },
        None => LineAction::Edit(EditAction::Nothing),
    };
    match key {
        EditKey::ArrowLeft => LineAction::Edit(EditAction::MoveLeft { by_word: ctrl_alt }),
        EditKey::ArrowRight => LineAction::Edit(EditAction::MoveRight { by_word: ctrl_alt }),
        EditKey::Backspace => LineAction::Edit(EditAction::DeleteBackward { by_word: ctrl_alt }),
        EditKey::Delete => LineAction::Edit(EditAction::DeleteForward { by_word: ctrl_alt }),
        EditKey::Home => LineAction::Edit(EditAction::MoveToStart),
        EditKey::End => LineAction::Edit(EditAction::MoveToEnd),
        EditKey::Tab => if ctrl_alt {
            LineAction::Edit(EditAction::PassOn)
        } else if takes_tab {
            LineAction::Edit(EditAction::Insert)
        } else if shift {
            LineAction::Edit(EditAction::FocusPrevious)
        } else {
            LineAction::Edit(EditAction::FocusNext)
        },
        EditKey::Character(s) => if ctrl_alt && (s@ == seq!['a'] || s@ == seq!['A']) {
            LineAction::Edit(EditAction::SelectAll)
        } else if ctrl_alt && (s@ == seq!['c'] || s@ == seq!['C']) {
            LineAction::Copy
        } else if ctrl_alt && (s@ == seq!['x'] || s@ == seq!['X']) {
            LineAction::Cut
        } else if ctrl_alt && (s@ == seq!['z'] || s@ == seq!['Z']) {
            if shift {
                LineAction::Redo
            } else {
                LineAction::Undo
            }
        } else if ctrl_alt && (s@ == seq!['y'] || s@ == seq!['Y']) {
            LineAction::Redo
        } else if ctrl_alt && (s@ == seq!['v'] || s@ == seq!['V']) {
            LineAction::Paste
        } else {
            typing
        },
        EditKey::Other => typing,
    }
}

/// The text that an insertion of this key types into a single line: four spaces for the
/// Tab key, otherwise the key's text.
pub open spec fn line_typed_text(key: EditKey, text: Option<Seq<char>>) -> Seq<char> {
    match key {
        EditKey::Tab => seq![' ', ' ', ' ', ' '],
        _ => match text {
            Some(t) => t,
            None => Seq::empty(),
        },
    }
}

impl InputText {
    /// The action of a key press on this input while it has the focus, where `text` is
    /// the text that the key produces and `ctrl_alt` tells whether Ctrl or Alt is held.
    pub fn line_action_for_key(&self, key: &EditKey, text: Option<&str>, shift: bool, ctrl_alt: bool) -> (r: LineAction)
        ensures
            r == line_key_action(self.takes_tab(), *key, opt_view(text), shift, ctrl_alt),
    {
        let typing = match text {
            Some(t) => if line_typeable(t) && !ctrl_alt {
                LineAction::Edit(EditAction::Insert)
            } else {
                LineAction::Edit(EditAction::Nothing)
            },
            None => LineAction::Edit(EditAction::Nothing),
        };
        match key {
            EditKey::ArrowLeft => LineAction::Edit(EditAction::MoveLeft { by_word: ctrl_alt }),
            EditKey::ArrowRight => LineAction::Edit(EditAction::MoveRight { by_word: ctrl_alt }),
            EditKey::Backspace => LineAction::Edit(EditAction::DeleteBackward { by_word: ctrl_alt }),
            EditKey::Delete => LineAction::Edit(EditAction::DeleteForward { by_word: ctrl_alt }),
            EditKey::Home => LineAction::Edit(EditAction::MoveToStart),
            EditKey::End => LineAction::Edit(EditAction::MoveToEnd),
            EditKey::Tab => if ctrl_alt {
                LineAction::Edit(EditAction::PassOn)
            } else if self.captures_tab {
                LineAction::Edit(EditAction::Insert)
            } else if shift {
                LineAction::Edit(EditAction::FocusPrevious)
            } else {
                LineAction::Edit(EditAction::FocusNext)
            },
            EditKey::Character(s) => {
                let s = s.as_str();
                if ctrl_alt && letter_key(s, 'a', 'A') {
                    LineAction::Edit(EditAction::SelectAll)
                } else if ctrl_alt && letter_key(s, 'c', 'C') {
                    LineAction::Copy
                } else if ctrl_alt && letter_key(s, 'x', 'X') {
                    LineAction::Cut
                } else if ctrl_alt && letter_key(s, 'z', 'Z') {
                    if shift {
                        LineAction::Redo
                    } else {
                        LineAction::Undo
                    }
                } else if ctrl_alt && letter_key(s, 'y', 'Y') {
                    LineAction::Redo
                } else if ctrl_alt && letter_key(s, 'v', 'V') {
                    LineAction::Paste
                } else {
                    typing
                }
            },
            EditKey::Other => typing,
        }
    }
}

/// Whether a focused single-line input takes the application's text `state` into its
/// editor before handling an event: only while it does not have the focus, and only when
/// the texts differ. Returns whether it did.
pub fn sync_unfocused(editor: &mut Editor, state: &str, focused: bool) -> (r: bool)
    requires
        old(editor).wf(),
        utf8_len(state@) <= max_text_bytes(),
    ensures
        final(editor).wf(),
        r == (!focused && old(editor).content() != state@),
        r ==> {
            &&& final(editor).content() == state@
            &&& final(editor).caret() == state@.len()
            &&& final(editor).anchor() is None
            &&& final(editor).composition() == old(editor).composition()
        },
        !r ==> *final(editor) == *old(editor),
{
    if !focused && !editor.has_text(state) {
        editor.set_text(state);
        true
    } else {
        false
    }
}

/// Extends the selection to the byte index `index` while the mouse is dragged with its
/// button held: the anchor stays where it was (or is set at the cursor) and the cursor
/// moves to `index`, clamped to the text. Returns whether a new frame is needed.
pub fn drag_to(editor: &mut Editor, dragging: bool, index: Option<usize>) -> (r: bool)
    requires
        old(editor).wf(),
        dragging ==> (index matches Some(i) ==> (i >= utf8_len(old(editor).content()) || is_boundary(
            old(editor).content(),
            i as int,
        ))),
    ensures
        final(editor).wf(),
        r == (dragging && index is Some),
        !r ==> *final(editor) == *old(editor),
        r ==> {
            let s = old(editor).content();
            &&& final(editor).content() == s
            &&& final(editor).composition() == old(editor).composition()
            &&& final(editor).anchor() == Some(old(editor).held_anchor())
            &&& final(editor).byte_at(final(editor).caret()) == if index->0 <= utf8_len(s) {
                index->0 as nat
            } else {
                utf8_len(s)
            }
        },
{
    if !dragging {
        return false;
    }
    match index {
        Some(i) => {
            let ghost s = editor.content();
            if editor.selection_anchor().is_none() {
                let c = editor.cursor();
                let ghost k1 = editor.caret();
                proof {
                    editor.lemma_positions_in_text();
                    lemma_offset_mono(s, k1 as int, s.len() as int);
                }
                assert(byte_offset(editor.content(), k1 as int) == c);
                editor.set_selection_anchor(Some(c));
                proof {
                    editor.lemma_positions_in_text();
                    lemma_offset_injective(s, editor.anchor()->0 as int, k1 as int);
                }
            }
            editor.set_cursor(i);
            true
        },
        None => false,
    }
}

/// How a single-line input answers a key press: as a plain text input does, and for the
/// clipboard keys the byte range of the display text to put on the clipboard.
#[derive(Clone, Copy, Debug, PartialEq, Eq)]
pub struct LineResponse {
    pub response: InputResponse,
    pub copy: Option<(usize, usize)>,
}

/// The byte range of the selection to copy from a display text of `display_len` bytes,
/// when there is a selection that lies within it.
pub open spec fn copy_range(sel: Option<(usize, usize)>, display_len: usize) -> Option<(usize, usize)> {
    match sel {
        Some((start, end)) => if start < display_len && end <= display_len {
            Some((start, end))
        } else {
            None
        },
        None => None,
    }
}

/// The selection of `e` as byte offsets, ordered.
pub open spec fn selected_bytes(e: Editor) -> Option<(usize, usize)> {
    match crate::ui::widgets::editor::selection_span(e.caret(), e.anchor()) {
        Some((a, b)) => Some((e.byte_at(a) as usize, e.byte_at(b) as usize)),
        None => None,
    }
}

/// How a focused single-line input answers a key press with `action`, where the selection
/// in bytes is `sel`, the display text is `display_len` bytes long and the clipboard holds
/// `pasted`.
pub open spec fn line_response(
    action: LineAction,
    sel: Option<(usize, usize)>,
    display_len: usize,
    pasted: Option<Seq<char>>,
) -> LineResponse {
    let handled = InputResponse {
        result: EventResult::Handled,
        text_changed: false,
        focus: FocusMove::Keep,
        redraw: false,
    };
    let changed = InputResponse { text_changed: true, redraw: true, ..handled };
    match action {
        LineAction::Edit(a) => LineResponse {
            response: crate::ui::widgets::text_input::key_response(a),
            copy: None,
        },
        LineAction::Copy => LineResponse { response: handled, copy: copy_range(sel, display_len) },
        LineAction::Cut => match copy_range(sel, display_len) {
            Some(r) => LineResponse { response: changed, copy: Some(r) },
            None => LineResponse { response: handled, copy: None },
        },
        LineAction::Paste => LineResponse {
            response: if pasted is Some {
                changed
            } else {
                handled
            },
            copy: None,
        },
        LineAction::Undo | LineAction::Redo => LineResponse {
            response: InputResponse { redraw: true, ..handled },
            copy: None,
        },
    }
}

/// `after` is `before` edited by `action`, typing `t` for an insertion and pasting
/// `pasted` cleaned of line breaks, and cutting only when `cut_ok`.
pub open spec fn line_edited(
    before: Editor,
    after: Editor,
    action: LineAction,
    shift: bool,
    t: Seq<char>,
    pasted: Option<Seq<char>>,
    cut_ok: bool,
) -> bool {
    match action {
        LineAction::Edit(a) => crate::ui::widgets::text_input::edited(before, after, a, shift, t),
        LineAction::Cut => if cut_ok {
            before.deleted(after, before.left_of_caret(), before.caret())
        } else {
            after == before
        },
        LineAction::Paste => match pasted {
            Some(p) => before.typed(after, single_line(p)) && after.composition() == before.composition(),
            None => after == before,
        },
        _ => after == before,
    }
}

impl InputText {
    /// Handles a keyboard event on this input: a press of `key` producing `text`, while
    /// the clipboard holds `pasted` and the display text is `display_len` bytes long. Only
    /// a press while the input has the focus is handled (see [`line_key_action`]): the
    /// editing keys act as in a plain text input, Tab types four spaces when captured,
    /// copying hands out the selection, cutting also deletes it, and pasting types the
    /// clipboard's text cleaned of line breaks. The editor keeps no history, so the
    /// history keys only ask for a new frame.
    pub fn handle_line_key(
        &self,
        editor: &mut Editor,
        key: &EditKey,
        text: Option<&str>,
        pasted: Option<&str>,
        display_len: usize,
        focused: bool,
        pressed: bool,
        shift: bool,
        ctrl_alt: bool,
    ) -> (r: LineResponse)
        requires
            old(editor).wf(),
            pasted matches Some(p) ==> utf8_len(p@) <= max_text_bytes(),
            focused && pressed ==> ({
                let a = line_key_action(self.takes_tab(), *key, opt_view(text), shift, ctrl_alt);
                &&& a == LineAction::Edit(EditAction::Insert) ==> old(editor).fits(line_typed_text(*key, opt_view(text)))
                &&& (a == LineAction::Paste && pasted is Some) ==> old(editor).fits(single_line(pasted->0@))
            }),
        ensures
            final(editor).wf(),
            if focused && pressed {
                let a = line_key_action(self.takes_tab(), *key, opt_view(text), shift, ctrl_alt);
                let sel = selected_bytes(*old(editor));
                &&& r == line_response(a, sel, display_len, opt_view(pasted))
                &&& line_edited(
                    *old(editor),
                    *final(editor),
                    a,
                    shift,
                    line_typed_text(*key, opt_view(text)),
                    opt_view(pasted),
                    copy_range(sel, display_len) is Some,
                )
            } else {
                &&& r == (LineResponse {
                    response: crate::ui::widgets::text_input::unanswered(),
                    copy: None,
                })
                &&& *final(editor) == *old(editor)
            },
    {
        let handled = InputResponse {
            result: EventResult::Handled,
            text_changed: false,
            focus: FocusMove::Keep,
            redraw: false,
        };
        let changed = InputResponse { result: EventResult::Handled, text_changed: true, focus: FocusMove::Keep, redraw: true };
        if !(focused && pressed) {
            return LineResponse {
                response: InputResponse {
                    result: EventResult::Ignored,
                    text_changed: false,
                    focus: FocusMove::Keep,
                    redraw: false,
                },
                copy: None,
            };
        }
        let action = self.line_action_for_key(key, text, shift, ctrl_alt);
        match action {
            LineAction::Edit(a) => {
                match key {
                    EditKey::Tab => {
                        let spaces = "    ";
                        proof {
                            reveal_strlit("    ");
                            assert(spaces@ =~= seq![' ', ' ', ' ', ' ']);
                        }
                        apply_edit(editor, a, shift, spaces);
                    },
                    _ => match text {
                        Some(t) => apply_edit(editor, a, shift, t),
                        None => {
                            let empty = "";
                            proof {
                                reveal_strlit("");
                                assert(empty@ =~= Seq::<char>::empty());
                            }
                            apply_edit(editor, a, shift, empty);
                        },
                    },
                }
                LineResponse { response: response_for(a), copy: None }
            },
            LineAction::Copy => {
                let sel = editor.selection();
                let copy = match sel {
                    Some((start, end)) => if start < display_len && end <= display_len {
                        Some((start, end))
                    } else {
                        None
                    },
                    None => None,
                };
                LineResponse { response: handled, copy }
            },
            LineAction::Cut => {
                let sel = editor.selection();
                match sel {
                    Some((start, end)) => if start < display_len && end <= display_len {
                        editor.delete_backward();
                        LineResponse { response: changed, copy: Some((start, end)) }
                    } else {
                        LineResponse { response: handled, copy: None }
                    },
                    None => LineResponse { response: handled, copy: None },
                }
            },
            LineAction::Paste => match pasted {
                Some(p) => {
                    let clean = to_single_line(p);
                    editor.insert(clean.as_str());
                    LineResponse { response: changed, copy: None }
                },
                None => LineResponse { response: handled, copy: None },
            },
            LineAction::Undo | LineAction::Redo => LineResponse {
                response: InputResponse {
                    result: EventResult::Handled,
                    text_changed: false,
                    focus: FocusMove::Keep,
                    redraw: true,
                },
                copy: None,
            },
        }
    }
}

/// Nothing typed or pasted into a single-line input holds a line break: a key types
/// four spaces or text free of control characters and line breaks, and pasted text is
/// cleaned of its line breaks.
pub proof fn law_single_line_input_stays_single_line(
    takes_tab: bool,
    key: EditKey,
    text: Option<Seq<char>>,
    shift: bool,
    ctrl_alt: bool,
    pasted: Seq<char>,
)
    requires
        line_key_action(takes_tab, key, text, shift, ctrl_alt) == LineAction::Edit(EditAction::Insert),
    ensures
        forall|k: int|
            0 <= k < line_typed_text(key, text).len() ==> #[trigger] line_typed_text(key, text)[k] != '\n'
                && line_typed_text(key, text)[k] != '\r',
        forall|k: int|
            0 <= k < single_line(pasted).len() ==> #[trigger] single_line(pasted)[k] != '\n' && single_line(
                pasted,
            )[k] != '\r',
{
    law_single_line_has_no_breaks(pasted);
    if key is Tab {
        let t = line_typed_text(key, text);
        assert(t == seq![' ', ' ', ' ', ' ']);
    }
}

/// Whether a single-line input is being dragged over after a mouse button event: a press
/// on the input starts a drag, a press elsewhere leaves it as it was, a release ends it.
pub fn dragging_after(dragging: bool, pressed: bool, hit: bool) -> (r: bool)
    ensures
        r == if pressed {
            hit || dragging
        } else {
            false
        },
{
    if pressed {
        hit || dragging
    } else {
        false
    }
}

/// Handles an input-method event on a single-line input: as a plain text input does,
/// except that committed text is cleaned of line breaks before it is typed.
pub fn handle_line_ime(editor: &mut Editor, ime: ImeEvent, focused: bool) -> (r: InputResponse)
    requires
        old(editor).wf(),
        ime matches ImeEvent::Commit(t) ==> utf8_len(t@) <= max_text_bytes(),
        focused ==> (ime matches ImeEvent::Commit(t) ==> old(editor).fits(single_line(t@))),
    ensures
        final(editor).wf(),
        !focused ==> r == crate::ui::widgets::text_input::unanswered() && *final(editor) == *old(editor),
        focused ==> match ime {
            ImeEvent::Commit(t) => {
                &&& r == (InputResponse {
                    result: EventResult::Handled,
                    text_changed: true,
                    focus: FocusMove::Keep,
                    redraw: true,
                })
                &&& old(editor).typed(*final(editor), single_line(t@))
                &&& final(editor).composition() is None
            },
            _ => ime_answered(*old(editor), *final(editor), ime, r),
        },
{
    match ime {
        ImeEvent::Commit(t) => {
            let clean = to_single_line(t.as_str());
            handle_ime(editor, ImeEvent::Commit(clean), focused)
        },
        other => handle_ime(editor, other, focused),
    }
}

} // verus!
