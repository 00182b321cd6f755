//! Properties of the editor's operations taken together: what one edit undoes of
//! another, and where word motion may land.
use vstd::prelude::*;

use crate::ui::widgets::editor::{
    back_over_alnum, back_over_non_alnum, caret_without_selection, cut, fwd_over_alnum,
    fwd_over_non_alnum, paste, selection_span, text_without_selection, word_left, word_right,
};

verus! {

/// Typing a character with nothing selected and then pressing Backspace gives back the
/// text and the cursor from before: `insert_char` followed by `delete_backward`.
pub proof fn law_backspace_undoes_insert_char(s: Seq<char>, caret: nat, anchor: Option<nat>, c: char)
    requires
        caret <= s.len(),
        selection_span(caret, anchor) is None,
    ensures
        ({
            let typed = paste(
                text_without_selection(s, caret, anchor),
                caret_without_selection(caret, anchor),
                seq![c],
            );
            let typed_caret = caret_without_selection(caret, anchor) + 1;
            &&& selection_span(typed_caret, None) is None
            &&& typed_caret > 0
            &&& cut(typed, (typed_caret - 1) as nat, typed_caret) == s
            &&& (typed_caret - 1) as nat == caret
        }),
{
    let typed = paste(s, caret, seq![c]);
    assert(cut(typed, caret, caret + 1) =~= s);
}

/// Typing a text with nothing selected puts the cursor just after it, and deleting the
/// characters between the old and the new cursor gives back the text from before:
/// `insert` followed by as many `delete_backward` as characters were typed.
pub proof fn law_delete_span_undoes_insert(s: Seq<char>, caret: nat, anchor: Option<nat>, t: Seq<char>)
    requires
        caret <= s.len(),
        selection_span(caret, anchor) is None,
    ensures
        ({
            let typed = paste(
                text_without_selection(s, caret, anchor),
                caret_without_selection(caret, anchor),
                t,
            );
            let typed_caret = caret_without_selection(caret, anchor) + t.len();
            &&& typed_caret == caret + t.len()
            &&& cut(typed, caret, typed_caret) == s
        }),
{
    let typed = paste(s, caret, t);
    assert(cut(typed, caret, caret + t.len()) =~= s);
}

/// Selecting all and then pressing Backspace (or Delete) leaves an empty text with the
/// cursor at 0: `select_all` followed by `delete_backward` or `delete_selection`.
pub proof fn law_select_all_then_delete_clears(s: Seq<char>)
    ensures
        match selection_span(s.len(), Some(0nat)) {
            Some((a, b)) => a == 0 && cut(s, a, b) == Seq::<char>::empty(),
            None => s == Seq::<char>::empty(),
        },
        text_without_selection(s, s.len(), Some(0nat)) == Seq::<char>::empty(),
        caret_without_selection(s.len(), Some(0nat)) == 0,
{
    if s.len() > 0 {
        assert(cut(s, 0, s.len()) =~= Seq::<char>::empty());
    } else {
        assert(s =~= Seq::<char>::empty());
    }
}

/// Without a selection, moving left and then right (neither with Shift) brings the cursor
/// back where it was, unless it started at the beginning of the text.
pub proof fn law_left_then_right_returns(len: nat, caret: nat, anchor: Option<nat>)
    requires
        0 < caret <= len,
        selection_span(caret, anchor) is None,
    ensures
        ({
            let left = (caret - 1) as nat;
            &&& selection_span(left, None) is None
            &&& left < len
            &&& left + 1 == caret
        }),
{
}

/// A backward scan over non-alphanumeric characters stays within `[0, k]`.
pub proof fn lemma_back_over_non_alnum_bounds(s: Seq<char>, k: int)
    requires
        0 <= k <= s.len(),
    ensures
        0 <= back_over_non_alnum(s, k) <= k,
    decreases k,
{
    if k > 0 {
        lemma_back_over_non_alnum_bounds(s, k - 1);
    }
}

/// A backward scan over alphanumeric characters stays within `[0, k]`.
pub proof fn lemma_back_over_alnum_bounds(s: Seq<char>, k: int)
    requires
        0 <= k <= s.len(),
    ensures
        0 <= back_over_alnum(s, k) <= k,
    decreases k,
{
    if k > 0 {
        lemma_back_over_alnum_bounds(s, k - 1);
    }
}

/// A forward scan over alphanumeric characters stays within `[k, len]`.
pub proof fn lemma_fwd_over_alnum_bounds(s: Seq<char>, k: int)
    requires
        0 <= k <= s.len(),
    ensures
        k <= fwd_over_alnum(s, k) <= s.len(),
    decreases s.len() - k,
{
    if k < s.len() {
        lemma_fwd_over_alnum_bounds(s, k + 1);
    }
}

/// A forward scan over non-alphanumeric characters stays within `[k, len]`.
pub proof fn lemma_fwd_over_non_alnum_bounds(s: Seq<char>, k: int)
    requires
        0 <= k <= s.len(),
    ensures
        k <= fwd_over_non_alnum(s, k) <= s.len(),
    decreases s.len() - k,
{
    if k < s.len() {
        lemma_fwd_over_non_alnum_bounds(s, k + 1);
    }
}

/// A word step to the left stays in the text, and moves the cursor whenever it is not
/// already at the start.
pub proof fn law_word_left_moves_back(s: Seq<char>, k: int)
    requires
        0 <= k <= s.len(),
    ensures
        0 <= word_left(s, k) <= k,
        k > 0 ==> word_left(s, k) < k,
{
    lemma_back_over_non_alnum_bounds(s, k);
    let j = back_over_non_alnum(s, k);
    if j > 0 {
        lemma_back_over_alnum_bounds(s, j - 1);
    }
}

/// A word step to the right stays in the text, and moves the cursor whenever it is not
/// already at the end.
pub proof fn law_word_right_moves_forward(s: Seq<char>, k: int)
    requires
        0 <= k <= s.len(),
    ensures
        k <= word_right(s, k) <= s.len(),
        k < s.len() ==> word_right(s, k) > k,
{
    lemma_fwd_over_alnum_bounds(s, k);
    if k < s.len() {
        lemma_fwd_over_non_alnum_bounds(s, k + 1);
    }
}

} // verus!
