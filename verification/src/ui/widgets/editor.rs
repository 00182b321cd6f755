//! A headless text editor: the state of a single-line or multi-line text input.
//!
//! It handles UTF-8 safe cursor navigation, selection through an anchor, and text
//! mutations such as insertion and backspace/delete. It knows nothing about rendering.
//! Positions handed in and out are byte offsets into the UTF-8 text, as for `str`.
use vstd::prelude::*;

use crate::ui::widgets::utf8::{
    byte_offset, char_utf8_len, index_of_byte, is_boundary, lemma_offset_end, lemma_offset_mono,
    lemma_offset_prefix, lemma_offset_step, lemma_utf8_len_concat, lemma_utf8_len_encode,
    lemma_utf8_len_ge_len, lemma_utf8_len_single, lemma_utf8_len_split, max_text_bytes,
    str_byte_len, utf8_len, utf8_width,
};

verus! {

/// What `char::is_alphanumeric` answers for `c` (Unicode `Alphabetic` or `Numeric`).
pub uninterp spec fn char_is_alphanumeric(c: char) -> bool;

/// Calls `char::is_alphanumeric`; the result is the Unicode property named by
/// [`char_is_alphanumeric`], which the contract does not spell out.
#[verifier::external_body]
fn is_alphanumeric(c: char) -> (r: bool)
    ensures
        r == char_is_alphanumeric(c),
{
    c.is_alphanumeric()
}

/// Index at which a backward scan from `k` over non-alphanumeric characters stops:
/// either 0 or just after an alphanumeric character.
pub open spec fn back_over_non_alnum(s: Seq<char>, k: int) -> int
    decreases k,
{
    if k <= 0 {
        0
    } else if char_is_alphanumeric(s[k - 1]) {
        k
    } else {
        back_over_non_alnum(s, k - 1)
    }
}

/// Index at which a backward scan from `k` over alphanumeric characters stops.
pub open spec fn back_over_alnum(s: Seq<char>, k: int) -> int
    decreases k,
{
    if k <= 0 {
        0
    } else if char_is_alphanumeric(s[k - 1]) {
        back_over_alnum(s, k - 1)
    } else {
        k
    }
}

/// Index at which a forward scan from `k` over alphanumeric characters stops.
pub open spec fn fwd_over_alnum(s: Seq<char>, k: int) -> int
    decreases s.len() - k,
{
    if k >= s.len() || k < 0 {
        if k < 0 { 0 } else { s.len() as int }
    } else if char_is_alphanumeric(s[k]) {
        fwd_over_alnum(s, k + 1)
    } else {
        k
    }
}

/// Index at which a forward scan from `k` over non-alphanumeric characters stops.
pub open spec fn fwd_over_non_alnum(s: Seq<char>, k: int) -> int
    decreases s.len() - k,
{
    if k >= s.len() || k < 0 {
        if k < 0 { 0 } else { s.len() as int }
    } else if !char_is_alphanumeric(s[k]) {
        fwd_over_non_alnum(s, k + 1)
    } else {
        k
    }
}

/// Character index reached by one word step to the left from `k`: trailing
/// non-alphanumeric characters are skipped, then the alphanumeric run before them.
pub open spec fn word_left(s: Seq<char>, k: int) -> int {
    let j = back_over_non_alnum(s, k);
    if j <= 0 {
        0
    } else {
        back_over_alnum(s, j - 1)
    }
}

/// Character index reached by one word step to the right from `k`: an alphanumeric run
/// is skipped; if there is none, the non-alphanumeric run ahead is skipped.
pub open spec fn word_right(s: Seq<char>, k: int) -> int {
    let j = fwd_over_alnum(s, k);
    if j > k {
        j
    } else if k < s.len() {
        fwd_over_non_alnum(s, k + 1)
    } else {
        s.len() as int
    }
}

/// The selected character range, ordered, when an anchor is set apart from the cursor.
pub open spec fn selection_span(caret: nat, anchor: Option<nat>) -> Option<(nat, nat)> {
    match anchor {
        Some(a) => if a < caret {
            Some((a, caret))
        } else if a > caret {
            Some((caret, a))
        } else {
            None
        },
        None => None,
    }
}

/// `s` with the characters of the index range `[start, end)` removed.
pub open spec fn cut(s: Seq<char>, start: nat, end: nat) -> Seq<char> {
    s.take(start as int) + s.skip(end as int)
}

/// `s` with `ins` inserted at character index `at`.
pub open spec fn paste(s: Seq<char>, at: nat, ins: Seq<char>) -> Seq<char> {
    s.take(at as int) + ins + s.skip(at as int)
}

/// The text left by deleting the selection, if any.
pub open spec fn text_without_selection(s: Seq<char>, caret: nat, anchor: Option<nat>) -> Seq<char> {
    match selection_span(caret, anchor) {
        Some((a, b)) => cut(s, a, b),
        None => s,
    }
}

/// The cursor left by deleting the selection, if any.
pub open spec fn caret_without_selection(caret: nat, anchor: Option<nat>) -> nat {
    match selection_span(caret, anchor) {
        Some((a, _)) => a,
        None => caret,
    }
}

/// A headless text editor state: the text, a cursor, an optional selection anchor
/// and the text that an input method is composing.
#[derive(Debug, Clone, PartialEq, Eq)]
pub struct Editor {
    /// The underlying text buffer.
    text: String,
    /// The characters of `text`, for indexed access.
    chars: Vec<char>,
    /// The byte index of the cursor within `text`.
    cursor: usize,
    /// The character index of the cursor within `text`.
    cursor_index: usize,
    /// The byte index where a selection began; `None` when nothing is selected.
    /// It stays fixed while the cursor moves with Shift held.
    selection_anchor: Option<usize>,
    /// The character index of the selection anchor, meaningful while it is set.
    anchor_index: usize,
    /// Text being composed by the input method, with its own cursor range.
    ime_preedit: Option<(String, Option<(usize, usize)>)>,
}

impl Default for Editor {
    fn default() -> (r: Self)
        ensures
            r.wf(),
            r.content() == Seq::<char>::empty(),
            r.caret() == 0,
            r.anchor() is None,
            r.composition() is None,
    {
        Self::new()
    }
}

/// Builds a `String` holding the characters of `v`.
fn string_from_chars(v: &Vec<char>) -> (s: String)
    requires
        utf8_len(v@) <= max_text_bytes(),
    ensures
        s@ == v@,
{
    let mut s = String::new();
    let mut i: usize = 0;
    while i < v.len()
        invariant
            i <= v.len(),
            s@ == v@.take(i as int),
            utf8_len(v@) <= max_text_bytes(),
        decreases v.len() - i,
    {
        proof {
            lemma_offset_step(v@, i as int);
            lemma_offset_mono(v@, i as int + 1, v@.len() as int);
            assert(v@.take(i as int + 1) =~= v@.take(i as int).push(v@[i as int]));
        }
        s.push(v[i]);
        i += 1;
    }
    assert(v@.take(v@.len() as int) =~= v@);
    s
}

/// Returns `v` with its elements `[start, end)` replaced by `ins`.
fn spliced(v: &Vec<char>, start: usize, end: usize, ins: &Vec<char>) -> (r: Vec<char>)
    requires
        start <= end <= v@.len(),
    ensures
        r@ == v@.take(start as int) + ins@ + v@.skip(end as int),
{
    let mut r: Vec<char> = Vec::new();
    let mut i: usize = 0;
    while i < start
        invariant
            i <= start <= v@.len(),
            r@ == v@.take(i as int),
        decreases start - i,
    {
        assert(v@.take(i as int + 1) =~= v@.take(i as int).push(v@[i as int]));
        r.push(v[i]);
        i += 1;
    }
    let mut j: usize = 0;
    while j < ins.len()
        invariant
            j <= ins.len(),
            start <= v@.len(),
            r@ == v@.take(start as int) + ins@.take(j as int),
        decreases ins.len() - j,
    {
        assert(ins@.take(j as int + 1) =~= ins@.take(j as int).push(ins@[j as int]));
        assert(v@.take(start as int) + ins@.take(j as int + 1) =~= (v@.take(start as int)
            + ins@.take(j as int)).push(ins@[j as int]));
        r.push(ins[j]);
        j += 1;
    }
    assert(ins@.take(ins@.len() as int) =~= ins@);
    let mut k: usize = end;
    while k < v.len()
        invariant
            start <= end <= k <= v@.len(),
            r@ == v@.take(start as int) + ins@ + v@.subrange(end as int, k as int),
        decreases v@.len() - k,
    {
        assert(v@.subrange(end as int, k as int + 1) =~= v@.subrange(end as int, k as int).push(
            v@[k as int],
        ));
        assert(v@.take(start as int) + ins@ + v@.subrange(end as int, k as int + 1) =~= (v@.take(
            start as int,
        ) + ins@ + v@.subrange(end as int, k as int)).push(v@[k as int]));
        r.push(v[k]);
        k += 1;
    }
    assert(v@.subrange(end as int, v@.len() as int) =~= v@.skip(end as int));
    r
}

/// Collects the characters of `s` and their UTF-8 byte length.
fn chars_of(s: &str) -> (r: (Vec<char>, usize))
    requires
        utf8_len(s@) <= max_text_bytes(),
    ensures
        r.0@ == s@,
        r.1 == utf8_len(s@),
{
    let mut v: Vec<char> = Vec::new();
    let mut n: usize = 0;
    for c in it: s.chars()
        invariant
            it.seq() == s@,
            v@ == s@.take(it.index() as int),
            n == utf8_len(v@),
            utf8_len(s@) <= max_text_bytes(),
    {
        proof {
            let i = it.index() as int;
            lemma_offset_step(s@, i);
            lemma_offset_mono(s@, i + 1, s@.len() as int);
            assert(s@.take(i + 1) =~= s@.take(i).push(c));
            assert(s@.take(i + 1).drop_last() =~= s@.take(i));
        }
        let w = utf8_width(c);
        v.push(c);
        n = n + w;
    }
    assert(s@.take(s@.len() as int) =~= s@);
    (v, n)
}

impl Editor {
    /// The well-formedness of the editor state: the two views of the text agree, the
    /// cursor and the anchor stand on character boundaries, and the text fits a `String`.
    pub closed spec fn wf(&self) -> bool {
        &&& self.text@ == self.chars@
        &&& self.cursor_index <= self.chars@.len()
        &&& self.cursor == byte_offset(self.chars@, self.cursor_index as int)
        &&& (self.selection_anchor matches Some(a) ==> {
            &&& self.anchor_index <= self.chars@.len()
            &&& a == byte_offset(self.chars@, self.anchor_index as int)
        })
        &&& (self.selection_anchor is None ==> self.anchor_index == 0)
        &&& utf8_len(self.chars@) <= max_text_bytes()
    }

    /// The characters of the text buffer (without any input-method composition).
    pub closed spec fn content(&self) -> Seq<char> {
        self.chars@
    }

    /// The character index of the cursor.
    pub closed spec fn caret(&self) -> nat {
        self.cursor_index as nat
    }

    /// The character index of the selection anchor, if one is set.
    pub closed spec fn anchor(&self) -> Option<nat> {
        match self.selection_anchor {
            Some(_) => Some(self.anchor_index as nat),
            None => None,
        }
    }

    /// The input-method composition: its characters and its cursor range.
    pub closed spec fn composition(&self) -> Option<(Seq<char>, Option<(usize, usize)>)> {
        match self.ime_preedit {
            Some((t, c)) => Some((t@, c)),
            None => None,
        }
    }

    /// The byte offset of character index `k` of the text.
    pub open spec fn byte_at(&self, k: nat) -> nat {
        byte_offset(self.content(), k as int)
    }

    /// In a well-formed editor the cursor and the anchor lie within the text, and the
    /// text fits a `String`.
    pub proof fn lemma_positions_in_text(&self)
        requires
            self.wf(),
        ensures
            self.caret() <= self.content().len(),
            self.anchor() matches Some(a) ==> a <= self.content().len(),
            utf8_len(self.content()) <= max_text_bytes(),
    {
    }

    /// The character index one step to the left of the cursor (0 at the start).
    pub open spec fn left_of_caret(&self) -> nat {
        if self.caret() > 0 {
            (self.caret() - 1) as nat
        } else {
            0
        }
    }

    /// The character index one step to the right of the cursor (the end at the end).
    pub open spec fn right_of_caret(&self) -> nat {
        if self.caret() < self.content().len() {
            self.caret() + 1
        } else {
            self.caret()
        }
    }

    /// Where the anchor stands once the cursor moves with Shift held: where it was, or
    /// at the old cursor when none was set.
    pub open spec fn held_anchor(&self) -> nat {
        match self.anchor() {
            Some(a) => a,
            None => self.caret(),
        }
    }

    /// `after` is this editor with the cursor moved to `target`. With `shift` the anchor
    /// is held (see [`held_anchor`](Editor::held_anchor)); without it the anchor is
    /// cleared, and when `collapse` holds a selection collapses to its start (or, with
    /// `to_end`, its end) in place of the move. The text does not change.
    pub open spec fn moved_to(&self, after: Editor, shift: bool, target: nat, collapse: bool, to_end: bool) -> bool {
        &&& after.wf()
        &&& after.content() == self.content()
        &&& after.composition() == self.composition()
        &&& if shift {
            &&& after.anchor() == Some(self.held_anchor())
            &&& after.caret() == target
        } else {
            &&& after.anchor() is None
            &&& after.caret() == match selection_span(self.caret(), self.anchor()) {
                Some(span) => if collapse {
                    if to_end {
                        span.1
                    } else {
                        span.0
                    }
                } else {
                    target
                },
                None => target,
            }
        }
    }

    /// `after` is this editor with the selection deleted if there is one, and otherwise
    /// the characters `[lo, hi)` deleted, the cursor left where the deletion began.
    pub open spec fn deleted(&self, after: Editor, lo: nat, hi: nat) -> bool {
        &&& after.wf()
        &&& after.anchor() is None
        &&& after.composition() == self.composition()
        &&& match selection_span(self.caret(), self.anchor()) {
            Some((a, b)) => after.content() == cut(self.content(), a, b) && after.caret() == a,
            None => after.content() == cut(self.content(), lo, hi) && after.caret() == lo,
        }
    }

    /// Typing `t` into this editor still fits a `String`.
    pub open spec fn fits(&self, t: Seq<char>) -> bool {
        utf8_len(text_without_selection(self.content(), self.caret(), self.anchor())) + utf8_len(t)
            <= max_text_bytes()
    }

    /// `after` is this editor with `t` typed at the cursor, in place of the selection if
    /// there is one; the cursor ends just after `t`.
    pub open spec fn typed(&self, after: Editor, t: Seq<char>) -> bool {
        &&& after.wf()
        &&& after.content() == paste(
            text_without_selection(self.content(), self.caret(), self.anchor()),
            caret_without_selection(self.caret(), self.anchor()),
            t,
        )
        &&& after.caret() == caret_without_selection(self.caret(), self.anchor()) + t.len()
        &&& after.anchor() is None
    }

    /// `after` is this editor with the whole text selected.
    pub open spec fn all_selected(&self, after: Editor) -> bool {
        &&& after.wf()
        &&& after.content() == self.content()
        &&& after.anchor() == Some(0nat)
        &&& after.caret() == self.content().len()
        &&& after.composition() == self.composition()
    }

    /// Creates a new, empty editor.
    pub fn new() -> (r: Self)
        ensures
            r.wf(),
            r.content() == Seq::<char>::empty(),
            r.caret() == 0,
            r.anchor() is None,
            r.composition() is None,
    {
        let r = Editor {
            text: String::new(),
            chars: Vec::new(),
            cursor: 0,
            cursor_index: 0,
            selection_anchor: None,
            anchor_index: 0,
            ime_preedit: None,
        };
        assert(r.chars@.take(0) =~= Seq::<char>::empty());
        r
    }

    /// Replaces the characters `[start, end)` with `ins`, leaves the cursor just after the
    /// inserted characters and clears the selection anchor.
    fn splice(&mut self, start: usize, end: usize, start_byte: usize, ins: &Vec<char>, ins_bytes: usize)
        requires
            old(self).wf(),
            start <= end <= old(self).chars@.len(),
            start_byte == byte_offset(old(self).chars@, start as int),
            ins_bytes == utf8_len(ins@),
            start_byte + ins_bytes + utf8_len(old(self).chars@.skip(end as int)) <= max_text_bytes(),
        ensures
            final(self).wf(),
            final(self).content() == old(self).content().take(start as int) + ins@ + old(self).content().skip(end as int),
            final(self).caret() == start + ins@.len(),
            final(self).cursor == start_byte + ins_bytes,
            final(self).anchor() is None,
            final(self).composition() == old(self).composition(),
    {
        let ghost old_chars = self.chars@;
        let v = spliced(&self.chars, start, end, ins);
        proof {
            let p = old_chars.take(start as int) + ins@;
            let q = old_chars.skip(end as int);
            lemma_utf8_len_concat(old_chars.take(start as int), ins@);
            lemma_utf8_len_concat(p, q);
            assert(v@ =~= p + q);
            lemma_offset_prefix(p, q, p.len() as int);
            assert(p.take(p.len() as int) =~= p);
            lemma_utf8_len_ge_len(ins@);
            lemma_offset_mono(old_chars, 0, start as int);
        }
        self.text = string_from_chars(&v);
        self.chars = v;
        self.cursor_index = start + ins.len();
        self.cursor = start_byte + ins_bytes;
        self.selection_anchor = None;
        self.anchor_index = 0;
    }

    /// Returns the text buffer, without any input-method composition.
    pub fn text(&self) -> (r: &str)
        requires
            self.wf(),
        ensures
            r@ == self.content(),
    {
        self.text.as_str()
    }

    /// Returns the text to display: the buffer with the input-method composition, if any,
    /// inserted at the cursor.
    pub fn display_text(&self) -> (r: String)
        requires
            self.wf(),
            self.composition() matches Some((p, _)) ==> utf8_len(self.content()) + utf8_len(p)
                <= max_text_bytes(),
        ensures
            r@ == match self.composition() {
                Some((p, _)) => paste(self.content(), self.caret(), p),
                None => self.content(),
            },
    {
        if let Some((preedit_text, _)) = &self.ime_preedit {
            let (pv, _) = chars_of(preedit_text.as_str());
            let v = spliced(&self.chars, self.cursor_index, self.cursor_index, &pv);
            proof {
                let s = self.chars@;
                let c = self.cursor_index as int;
                lemma_utf8_len_split(s, c);
                lemma_utf8_len_concat(s.take(c), pv@);
                lemma_utf8_len_concat(s.take(c) + pv@, s.skip(c));
            }
            string_from_chars(&v)
        } else {
            self.text.clone()
        }
    }

    /// Sets the input-method composition; an empty `text` clears it.
    pub fn set_ime_preedit(&mut self, text: String, cursor_pos: Option<(usize, usize)>)
        requires
            old(self).wf(),
        ensures
            final(self).wf(),
            final(self).content() == old(self).content(),
            final(self).caret() == old(self).caret(),
            final(self).anchor() == old(self).anchor(),
            final(self).composition() == if text@.len() == 0 {
                None
            } else {
                Some((text@, cursor_pos))
            },
    {
        if text.as_str().is_empty() {
            self.ime_preedit = None;
        } else {
            self.ime_preedit = Some((text, cursor_pos));
        }
    }

    /// Commits `text` from the input method: the composition is cleared and `text`
    /// is inserted as [`insert`](Editor::insert) does.
    pub fn commit_ime(&mut self, text: &str)
        requires
            old(self).wf(),
            old(self).fits(text@),
        ensures
            old(self).typed(*final(self), text@),
            final(self).composition() is None,
    {
        self.ime_preedit = None;
        self.insert(text);
    }

    /// Returns the byte range of the composition within [`display_text`](Editor::display_text),
    /// or `None` when nothing is being composed.
    pub fn preedit_range(&self) -> (r: Option<(usize, usize)>)
        requires
            self.wf(),
            self.composition() matches Some((p, _)) ==> self.byte_at(self.caret()) + utf8_len(p)
                <= usize::MAX,
        ensures
            r == match self.composition() {
                Some((p, _)) => Some(
                    (
                        self.byte_at(self.caret()) as usize,
                        (self.byte_at(self.caret()) + utf8_len(p)) as usize,
                    ),
                ),
                None => None,
            },
    {
        match &self.ime_preedit {
            Some((text, _)) => {
                proof {
                    lemma_utf8_len_encode(text@);
                }
                Some((self.cursor, self.cursor + text.as_str().len()))
            },
            None => None,
        }
    }

    /// Whether the text buffer holds exactly the characters of `t`.
    pub fn has_text(&self, t: &str) -> (r: bool)
        requires
            self.wf(),
        ensures
            r == (self.content() == t@),
    {
        let mut i: usize = 0;
        for c in it: t.chars()
            invariant
                it.seq() == t@,
                i == it.index(),
                i <= self.chars@.len(),
                forall|j: int| 0 <= j < i ==> self.chars@[j] == t@[j],
        {
            if i >= self.chars.len() {
                assert(self.chars@.len() != t@.len());
                return false;
            }
            if self.chars[i] != c {
                assert(self.chars@[i as int] != t@[i as int]);
                return false;
            }
            i += 1;
        }
        if i == self.chars.len() {
            assert(self.chars@ =~= t@);
            true
        } else {
            false
        }
    }

    /// Returns the byte index of the cursor in the text buffer.
    pub fn cursor(&self) -> (r: usize)
        requires
            self.wf(),
        ensures
            r == self.byte_at(self.caret()),
    {
        self.cursor
    }

    /// Returns the cursor mapped into [`display_text`](Editor::display_text): inside the
    /// composition at its own cursor, or after it when it has none.
    pub fn display_cursor(&self) -> (r: usize)
        requires
            self.wf(),
            self.composition() matches Some((p, pos)) ==> match pos {
                Some((start, _)) => self.byte_at(self.caret()) + start <= usize::MAX,
                None => self.byte_at(self.caret()) + utf8_len(p) <= usize::MAX,
            },
        ensures
            r == match self.composition() {
                Some((p, Some((start, _)))) => (self.byte_at(self.caret()) + start) as usize,
                Some((p, None)) => (self.byte_at(self.caret()) + utf8_len(p)) as usize,
                None => self.byte_at(self.caret()) as usize,
            },
    {
        if let Some((text, cursor_pos)) = &self.ime_preedit {
            if let Some((start, _)) = cursor_pos {
                self.cursor + *start
            } else {
                proof {
                    lemma_utf8_len_encode(text@);
                }
                self.cursor + text.as_str().len()
            }
        } else {
            self.cursor
        }
    }

    /// Returns the selection as ordered byte indices `(start, end)`, `start < end`,
    /// or `None` when nothing is selected.
    pub fn selection(&self) -> (r: Option<(usize, usize)>)
        requires
            self.wf(),
        ensures
            r == match selection_span(self.caret(), self.anchor()) {
                Some((a, b)) => Some((self.byte_at(a) as usize, self.byte_at(b) as usize)),
                None => None,
            },
    {
        proof {
            lemma_offset_mono(self.chars@, 0, self.chars@.len() as int);
        }
        match self.selection_anchor {
            Some(anchor) => {
                proof {
                    let s = self.chars@;
                    let a = self.anchor_index as int;
                    let c = self.cursor_index as int;
                    if a < c {
                        lemma_offset_mono(s, a, c);
                    } else if c < a {
                        lemma_offset_mono(s, c, a);
                    }
                }
                if anchor < self.cursor {
                    Some((anchor, self.cursor))
                } else if anchor > self.cursor {
                    Some((self.cursor, anchor))
                } else {
                    None
                }
            },
            None => None,
        }
    }

    /// Returns `true` if the text buffer is empty.
    pub fn is_empty(&self) -> (r: bool)
        requires
            self.wf(),
        ensures
            r == (self.content().len() == 0),
    {
        self.text.as_str().is_empty()
    }

    /// Replaces the whole text, clears the selection and puts the cursor at the end.
    pub fn set_text(&mut self, text: &str)
        requires
            utf8_len(text@) <= max_text_bytes(),
        ensures
            final(self).wf(),
            final(self).content() == text@,
            final(self).caret() == text@.len(),
            final(self).anchor() is None,
            final(self).composition() == old(self).composition(),
    {
        let (v, n) = chars_of(text);
        proof {
            lemma_offset_end(v@);
            lemma_utf8_len_ge_len(v@);
        }
        self.text = text.to_owned();
        self.chars = v;
        self.cursor_index = self.chars.len();
        self.cursor = n;
        self.selection_anchor = None;
        self.anchor_index = 0;
    }

    /// Sets the cursor to the byte index `cursor`, or to the end when it lies beyond.
    pub fn set_cursor(&mut self, cursor: usize)
        requires
            old(self).wf(),
            cursor >= utf8_len(old(self).content()) || is_boundary(old(self).content(), cursor as int),
        ensures
            final(self).wf(),
            final(self).content() == old(self).content(),
            final(self).caret() <= final(self).content().len(),
            final(self).byte_at(final(self).caret()) == if cursor <= utf8_len(old(self).content()) {
                cursor as nat
            } else {
                utf8_len(old(self).content())
            },
            final(self).anchor() == old(self).anchor(),
            final(self).composition() == old(self).composition(),
    {
        let len = str_byte_len(self.text.as_str());
        let c = if cursor < len { cursor } else { len };
        proof {
            lemma_offset_end(self.chars@);
            if c == len {
                assert(byte_offset(self.chars@, self.chars@.len() as int) == c);
            }
        }
        self.cursor_index = index_of_byte(&self.chars, c);
        self.cursor = c;
    }

    /// Returns the byte index of the selection anchor, if one is set.
    pub fn selection_anchor(&self) -> (r: Option<usize>)
        requires
            self.wf(),
        ensures
            r == match self.anchor() {
                Some(a) => Some(self.byte_at(a) as usize),
                None => None,
            },
    {
        self.selection_anchor
    }

    /// Sets the selection anchor to the byte index `anchor` (clamped to the end of the
    /// text), or clears it.
    pub fn set_selection_anchor(&mut self, anchor: Option<usize>)
        requires
            old(self).wf(),
            anchor matches Some(a) ==> (a >= utf8_len(old(self).content()) || is_boundary(
                old(self).content(),
                a as int,
            )),
        ensures
            final(self).wf(),
            final(self).content() == old(self).content(),
            final(self).caret() == old(self).caret(),
            final(self).composition() == old(self).composition(),
            match anchor {
                Some(a) => final(self).anchor() matches Some(k) && k <= final(self).content().len()
                    && final(self).byte_at(k) == if a <= utf8_len(old(self).content()) {
                    a as nat
                } else {
                    utf8_len(old(self).content())
                },
                None => final(self).anchor() is None,
            },
    {
        if let Some(a) = anchor {
            let len = str_byte_len(self.text.as_str());
            let c = if a < len { a } else { len };
            proof {
                lemma_offset_end(self.chars@);
                if c == len {
                    assert(byte_offset(self.chars@, self.chars@.len() as int) == c);
                }
            }
            self.anchor_index = index_of_byte(&self.chars, c);
            self.selection_anchor = Some(c);
        } else {
            self.selection_anchor = None;
            self.anchor_index = 0;
        }
    }

    /// Inserts `text` at the cursor, replacing the selection if there is one.
    pub fn insert(&mut self, text: &str)
        requires
            old(self).wf(),
            old(self).fits(text@),
        ensures
            old(self).typed(*final(self), text@),
            final(self).composition() == old(self).composition(),
    {
        self.delete_selection();
        let (v, n) = chars_of(text);
        proof {
            lemma_utf8_len_split(self.chars@, self.cursor_index as int);
        }
        self.splice(self.cursor_index, self.cursor_index, self.cursor, &v, n);
    }

    /// Inserts the character `ch` at the cursor, replacing the selection if there is one.
    pub fn insert_char(&mut self, ch: char)
        requires
            old(self).wf(),
            utf8_len(text_without_selection(old(self).content(), old(self).caret(), old(self).anchor()))
                + char_utf8_len(ch) <= max_text_bytes(),
        ensures
            final(self).wf(),
            final(self).content() == paste(
                text_without_selection(old(self).content(), old(self).caret(), old(self).anchor()),
                caret_without_selection(old(self).caret(), old(self).anchor()),
                seq![ch],
            ),
            final(self).caret() == caret_without_selection(old(self).caret(), old(self).anchor())
                + 1,
            final(self).anchor() is None,
            final(self).composition() == old(self).composition(),
    {
        self.delete_selection();
        let w = utf8_width(ch);
        let v = vec![ch];
        proof {
            lemma_utf8_len_split(self.chars@, self.cursor_index as int);
            lemma_utf8_len_single(ch);
            assert(v@ =~= seq![ch]);
        }
        self.splice(self.cursor_index, self.cursor_index, self.cursor, &v, w);
    }

    /// Removes the characters `[start, end)`, leaving the cursor at `start`.
    fn remove_range(&mut self, start: usize, end: usize, start_byte: usize)
        requires
            old(self).wf(),
            start <= end <= old(self).chars@.len(),
            start_byte == byte_offset(old(self).chars@, start as int),
        ensures
            final(self).wf(),
            final(self).content() == cut(old(self).content(), start as nat, end as nat),
            final(self).caret() == start,
            final(self).anchor() is None,
            final(self).composition() == old(self).composition(),
    {
        let empty: Vec<char> = Vec::new();
        proof {
            let s = self.chars@;
            lemma_utf8_len_split(s, end as int);
            lemma_offset_mono(s, start as int, end as int);
            assert(utf8_len(empty@) == 0);
        }
        self.splice(start, end, start_byte, &empty, 0);
        assert(self.chars@ =~= cut(old(self).chars@, start as nat, end as nat));
    }

    /// Deletes the character before the cursor (Backspace), or the selection if there is one.
    pub fn delete_backward(&mut self)
        requires
            old(self).wf(),
        ensures
            old(self).deleted(*final(self), old(self).left_of_caret(), old(self).caret()),
    {
        if self.delete_selection() {
            return ;
        }
        if self.cursor > 0 {
            proof {
                if self.cursor_index == 0 {
                    assert(self.chars@.take(0) =~= Seq::<char>::empty());
                }
                lemma_offset_step(self.chars@, self.cursor_index - 1);
            }
            let prev_char = self.chars[self.cursor_index - 1];
            let len = utf8_width(prev_char);
            let start = self.cursor_index - 1;
            let start_byte = self.cursor - len;
            self.remove_range(start, start + 1, start_byte);
        } else {
            proof {
                if self.cursor_index > 0 {
                    lemma_offset_mono(self.chars@, 0, self.cursor_index as int);
                }
                assert(cut(self.chars@, 0, 0) =~= self.chars@);
            }
        }
    }

    /// Deletes the character after the cursor (Delete), or the selection if there is one.
    pub fn delete_forward(&mut self)
        requires
            old(self).wf(),
        ensures
            old(self).deleted(*final(self), old(self).caret(), old(self).right_of_caret()),
    {
        if self.delete_selection() {
            return ;
        }
        let len = str_byte_len(self.text.as_str());
        proof {
            lemma_offset_end(self.chars@);
            if self.cursor_index < self.chars@.len() {
                lemma_offset_mono(self.chars@, self.cursor_index as int, self.chars@.len() as int);
            } else {
                assert(self.cursor_index == self.chars@.len());
            }
        }
        if self.cursor < len {
            let start = self.cursor_index;
            assert(start < self.chars@.len());
            proof {
                lemma_utf8_len_ge_len(self.chars@);
            }
            self.remove_range(start, start + 1, self.cursor);
        } else {
            assert(cut(self.chars@, self.cursor_index as nat, self.cursor_index as nat) =~= self.chars@);
        }
    }

    /// Deletes the selection, if there is one, and clears the anchor either way.
    /// Returns `true` if text was deleted.
    pub fn delete_selection(&mut self) -> (r: bool)
        requires
            old(self).wf(),
        ensures
            final(self).wf(),
            r == selection_span(old(self).caret(), old(self).anchor()) is Some,
            final(self).content() == text_without_selection(
                old(self).content(),
                old(self).caret(),
                old(self).anchor(),
            ),
            final(self).caret() == caret_without_selection(old(self).caret(), old(self).anchor()),
            final(self).anchor() is None,
            final(self).composition() == old(self).composition(),
    {
        proof {
            if let Some((a, b)) = selection_span(self.caret(), self.anchor()) {
                lemma_offset_mono(self.chars@, a as int, b as int);
            }
        }
        if let Some((start, end)) = self.selection() {
            if start != end {
                let (si, ei) = if self.anchor_index < self.cursor_index {
                    (self.anchor_index, self.cursor_index)
                } else {
                    (self.cursor_index, self.anchor_index)
                };
                self.remove_range(si, ei, start);
                return true;
            }
        }
        self.selection_anchor = None;
        self.anchor_index = 0;
        false
    }

    /// Selects the whole text.
    pub fn select_all(&mut self)
        requires
            old(self).wf(),
        ensures
            old(self).all_selected(*final(self)),
    {
        proof {
            lemma_offset_end(self.chars@);
            assert(self.chars@.take(0) =~= Seq::<char>::empty());
        }
        self.selection_anchor = Some(0);
        self.anchor_index = 0;
        self.cursor = str_byte_len(self.text.as_str());
        self.cursor_index = self.chars.len();
    }

    /// Steps the cursor one character to the left.
    fn step_left(&mut self)
        requires
            old(self).wf(),
        ensures
            final(self).wf(),
            final(self).content() == old(self).content(),
            final(self).caret() == if old(self).caret() > 0 {
                (old(self).caret() - 1) as nat
            } else {
                0
            },
            final(self).anchor() == old(self).anchor(),
            final(self).composition() == old(self).composition(),
    {
        proof {
            if self.cursor_index > 0 {
                lemma_offset_mono(self.chars@, 0, self.cursor_index as int);
                lemma_offset_step(self.chars@, self.cursor_index - 1);
            } else {
                assert(self.chars@.take(0) =~= Seq::<char>::empty());
            }
        }
        if self.cursor > 0 {
            let prev_char = self.chars[self.cursor_index - 1];
            self.cursor = self.cursor - utf8_width(prev_char);
            self.cursor_index = self.cursor_index - 1;
        }
    }

    /// Steps the cursor one character to the right.
    fn step_right(&mut self)
        requires
            old(self).wf(),
        ensures
            final(self).wf(),
            final(self).content() == old(self).content(),
            final(self).caret() == if old(self).caret() < old(self).content().len() {
                old(self).caret() + 1
            } else {
                old(self).caret()
            },
            final(self).anchor() == old(self).anchor(),
            final(self).composition() == old(self).composition(),
    {
        let len = str_byte_len(self.text.as_str());
        proof {
            lemma_offset_end(self.chars@);
            lemma_utf8_len_ge_len(self.chars@);
            if self.cursor_index < self.chars@.len() {
                lemma_offset_step(self.chars@, self.cursor_index as int);
                lemma_offset_mono(self.chars@, self.cursor_index as int + 1, self.chars@.len() as int);
            }
        }
        if self.cursor < len {
            let next_char = self.chars[self.cursor_index];
            self.cursor = self.cursor + utf8_width(next_char);
            self.cursor_index = self.cursor_index + 1;
        }
    }

    /// Steps the cursor one word to the left, as [`word_left`] describes.
    fn step_word_left(&mut self)
        requires
            old(self).wf(),
        ensures
            final(self).wf(),
            final(self).content() == old(self).content(),
            final(self).caret() == word_left(old(self).content(), old(self).caret() as int),
            final(self).caret() <= old(self).caret(),
            final(self).anchor() == old(self).anchor(),
            final(self).composition() == old(self).composition(),
    {
        let ghost s = self.chars@;
        let ghost k0 = self.cursor_index as int;
        let mut k = self.cursor_index;
        let mut b = self.cursor;
        // Skip the non-alphanumeric characters before the cursor.
        while k > 0 && !is_alphanumeric(self.chars[k - 1])
            invariant
                self.wf(),
                self.chars@ == s,
                k0 == self.cursor_index,
                0 <= k <= k0 <= s.len(),
                b == byte_offset(s, k as int),
                back_over_non_alnum(s, k as int) == back_over_non_alnum(s, k0),
            decreases k,
        {
            proof {
                lemma_offset_step(s, k - 1);
            }
            b = b - utf8_width(self.chars[k - 1]);
            k = k - 1;
        }
        let ghost j = k as int;
        assert(j == back_over_non_alnum(s, k0));
        if k > 0 {
            // Step over the alphanumeric character that ended the scan, then over the
            // alphanumeric characters before it.
            proof {
                lemma_offset_step(s, k - 1);
            }
            b = b - utf8_width(self.chars[k - 1]);
            k = k - 1;
            let ghost k1 = k as int;
            while k > 0 && is_alphanumeric(self.chars[k - 1])
                invariant
                    self.wf(),
                    self.chars@ == s,
                    k0 == self.cursor_index,
                    0 <= k <= k1,
                    k1 == j - 1,
                    j <= k0 <= s.len(),
                    b == byte_offset(s, k as int),
                    back_over_alnum(s, k as int) == back_over_alnum(s, k1),
                decreases k,
            {
                proof {
                    lemma_offset_step(s, k - 1);
                }
                b = b - utf8_width(self.chars[k - 1]);
                k = k - 1;
            }
        }
        self.cursor = b;
        self.cursor_index = k;
    }

    /// Steps the cursor one word to the right, as [`word_right`] describes.
    fn step_word_right(&mut self)
        requires
            old(self).wf(),
        ensures
            final(self).wf(),
            final(self).content() == old(self).content(),
            final(self).caret() == word_right(old(self).content(), old(self).caret() as int),
            final(self).caret() >= old(self).caret(),
            final(self).anchor() == old(self).anchor(),
            final(self).composition() == old(self).composition(),
    {
        let ghost s = self.chars@;
        let ghost k0 = self.cursor_index as int;
        let n = self.chars.len();
        let mut k = self.cursor_index;
        let mut b = self.cursor;
        // Skip the alphanumeric characters after the cursor.
        while k < n && is_alphanumeric(self.chars[k])
            invariant
                self.wf(),
                self.chars@ == s,
                n == s.len(),
                k0 == self.cursor_index,
                k0 <= k <= n,
                b == byte_offset(s, k as int),
                fwd_over_alnum(s, k as int) == fwd_over_alnum(s, k0),
            decreases n - k,
        {
            proof {
                lemma_offset_step(s, k as int);
                lemma_offset_mono(s, k as int + 1, n as int);
            }
            b = b + utf8_width(self.chars[k]);
            k = k + 1;
        }
        let mut skipped_any = k > self.cursor_index;
        if !skipped_any && k < n {
            // No word ahead: step over the non-alphanumeric run instead.
            proof {
                lemma_offset_step(s, k as int);
                lemma_offset_mono(s, k as int + 1, n as int);
            }
            b = b + utf8_width(self.chars[k]);
            k = k + 1;
            skipped_any = true;
            while k < n && !is_alphanumeric(self.chars[k])
                invariant
                    self.wf(),
                    self.chars@ == s,
                    n == s.len(),
                    k0 == self.cursor_index,
                    k0 < k <= n,
                    b == byte_offset(s, k as int),
                    fwd_over_non_alnum(s, k as int) == fwd_over_non_alnum(s, k0 + 1),
                decreases n - k,
            {
                proof {
                    lemma_offset_step(s, k as int);
                    lemma_offset_mono(s, k as int + 1, n as int);
                }
                b = b + utf8_width(self.chars[k]);
                k = k + 1;
            }
        }
        self.cursor = b;
        self.cursor_index = k;
        if !skipped_any {
            self.step_right();
        }
    }

    /// Moves the cursor one character to the left. With `shift` the selection is
    /// extended; without it, a selection collapses to its start.
    pub fn move_left(&mut self, shift: bool)
        requires
            old(self).wf(),
        ensures
            old(self).moved_to(*final(self), shift, old(self).left_of_caret(), true, false),
    {
        if shift {
            if self.selection_anchor.is_none() {
                self.selection_anchor = Some(self.cursor);
                self.anchor_index = self.cursor_index;
            }
            self.step_left();
        } else {
            proof {
                if let Some((a, b)) = selection_span(self.caret(), self.anchor()) {
                    lemma_offset_mono(self.chars@, a as int, b as int);
                }
            }
            if let Some((start, end)) = self.selection() {
                if start != end {
                    if start != self.cursor {
                        self.cursor_index = self.anchor_index;
                    }
                    self.cursor = start;
                    self.selection_anchor = None;
                    self.anchor_index = 0;
                    return ;
                }
            }
            self.selection_anchor = None;
            self.anchor_index = 0;
            self.step_left();
        }
    }

    /// Moves the cursor one character to the right. With `shift` the selection is
    /// extended; without it, a selection collapses to its end.
    pub fn move_right(&mut self, shift: bool)
        requires
            old(self).wf(),
        ensures
            old(self).moved_to(*final(self), shift, old(self).right_of_caret(), true, true),
    {
        if shift {
            if self.selection_anchor.is_none() {
                self.selection_anchor = Some(self.cursor);
                self.anchor_index = self.cursor_index;
            }
            self.step_right();
        } else {
            proof {
                if let Some((a, b)) = selection_span(self.caret(), self.anchor()) {
                    lemma_offset_mono(self.chars@, a as int, b as int);
                }
            }
            if let Some((start, end)) = self.selection() {
                if start != end {
                    if end != self.cursor {
                        self.cursor_index = self.anchor_index;
                    }
                    self.cursor = end;
                    self.selection_anchor = None;
                    self.anchor_index = 0;
                    return ;
                }
            }
            self.selection_anchor = None;
            self.anchor_index = 0;
            self.step_right();
        }
    }

    /// Moves the cursor one word to the left (see [`word_left`]). With `shift` the
    /// selection is extended; without it, a selection collapses to its start.
    pub fn move_word_left(&mut self, shift: bool)
        requires
            old(self).wf(),
        ensures
            old(self).moved_to(*final(self), shift, word_left(old(self).content(), old(self).caret() as int) as nat, true, false),
    {
        if shift {
            if self.selection_anchor.is_none() {
                self.selection_anchor = Some(self.cursor);
                self.anchor_index = self.cursor_index;
            }
            self.step_word_left();
        } else {
            proof {
                if let Some((a, b)) = selection_span(self.caret(), self.anchor()) {
                    lemma_offset_mono(self.chars@, a as int, b as int);
                }
            }
            if let Some((start, end)) = self.selection() {
                if start != end {
                    if start != self.cursor {
                        self.cursor_index = self.anchor_index;
                    }
                    self.cursor = start;
                    self.selection_anchor = None;
                    self.anchor_index = 0;
                    return ;
                }
            }
            self.selection_anchor = None;
            self.anchor_index = 0;
            self.step_word_left();
        }
    }

    /// Moves the cursor one word to the right (see [`word_right`]). With `shift` the
    /// selection is extended; without it, a selection collapses to its end.
    pub fn move_word_right(&mut self, shift: bool)
        requires
            old(self).wf(),
        ensures
            old(self).moved_to(*final(self), shift, word_right(old(self).content(), old(self).caret() as int) as nat, true, true),
    {
        if shift {
            if self.selection_anchor.is_none() {
                self.selection_anchor = Some(self.cursor);
                self.anchor_index = self.cursor_index;
            }
            self.step_word_right();
        } else {
            proof {
                if let Some((a, b)) = selection_span(self.caret(), self.anchor()) {
                    lemma_offset_mono(self.chars@, a as int, b as int);
                }
            }
            if let Some((start, end)) = self.selection() {
                if start != end {
                    if end != self.cursor {
                        self.cursor_index = self.anchor_index;
                    }
                    self.cursor = end;
                    self.selection_anchor = None;
                    self.anchor_index = 0;
                    return ;
                }
            }
            self.selection_anchor = None;
            self.anchor_index = 0;
            self.step_word_right();
        }
    }

    /// Moves the cursor to the start of the text, extending the selection with `shift`.
    pub fn move_to_start(&mut self, shift: bool)
        requires
            old(self).wf(),
        ensures
            old(self).moved_to(*final(self), shift, 0, false, false),
    {
        proof {
            lemma_offset_end(self.chars@);
            assert(self.chars@.take(0) =~= Seq::<char>::empty());
        }
        if shift {
            if self.selection_anchor.is_none() {
                self.selection_anchor = Some(self.cursor);
                self.anchor_index = self.cursor_index;
            }
        } else {
            self.selection_anchor = None;
            self.anchor_index = 0;
        }
        self.cursor = 0;
        self.cursor_index = 0;
    }

    /// Moves the cursor to the end of the text, extending the selection with `shift`.
    pub fn move_to_end(&mut self, shift: bool)
        requires
            old(self).wf(),
        ensures
            old(self).moved_to(*final(self), shift, old(self).content().len(), false, false),
    {
        proof {
            lemma_offset_end(self.chars@);
            assert(self.chars@.take(0) =~= Seq::<char>::empty());
        }
        if shift {
            if self.selection_anchor.is_none() {
                self.selection_anchor = Some(self.cursor);
                self.anchor_index = self.cursor_index;
            }
        } else {
            self.selection_anchor = None;
            self.anchor_index = 0;
        }
        self.cursor = str_byte_len(self.text.as_str());
        self.cursor_index = self.chars.len();
    }

    /// Deletes the word before the cursor (Ctrl+Backspace), or the selection if there is one.
    pub fn delete_word_backward(&mut self)
        requires
            old(self).wf(),
        ensures
            old(self).deleted(*final(self), word_left(old(self).content(), old(self).caret() as int) as nat, old(self).caret()),
    {
        if self.delete_selection() {
            return ;
        }
        let end = self.cursor_index;
        self.step_word_left();
        let start = self.cursor_index;
        if start < end {
            self.remove_range(start, end, self.cursor);
        } else {
            assert(cut(self.chars@, start as nat, end as nat) =~= self.chars@);
        }
    }

    /// Deletes the word after the cursor (Ctrl+Delete), or the selection if there is one.
    pub fn delete_word_forward(&mut self)
        requires
            old(self).wf(),
        ensures
            old(self).deleted(*final(self), old(self).caret(), word_right(old(self).content(), old(self).caret() as int) as nat),
    {
        if self.delete_selection() {
            return ;
        }
        let start = self.cursor_index;
        let start_byte = self.cursor;
        self.step_word_right();
        let end = self.cursor_index;
        if start < end {
            proof {
                lemma_offset_mono(self.chars@, start as int, end as int);
            }
            self.remove_range(start, end, start_byte);
        } else {
            assert(cut(self.chars@, start as nat, end as nat) =~= self.chars@);
        }
    }
}

} // verus!
