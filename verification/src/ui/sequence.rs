//! How a list of child views and an optional child view are rebuilt, and which children
//! of a list an event reaches.
use vstd::prelude::*;

use crate::ui::event::{combined, EventResult};

verus! {

/// How a child view answers an event that reaches it.
#[derive(Clone, Copy, Debug, PartialEq, Eq, Structural)]
pub struct ChildAnswer {
    pub result: EventResult,
    /// The child emits a message.
    pub emits: bool,
}

/// How an event offered to a list of children went.
#[derive(Clone, Copy, Debug, PartialEq, Eq, Structural)]
pub struct Dispatch {
    /// The combination of the results of the children the event reached.
    pub result: EventResult,
    /// The child whose message the list emits, if one emitted.
    pub emitter: Option<usize>,
    /// How many children, from the first on, the event reached.
    pub reached: usize,
}

/// The result, emitting child and number of children reached when an event is offered in
/// order to children that answer `answers`: frame ticks go on to the next child until one
/// emits a message, other events until one handles the event or emits a message.
pub open spec fn dispatched(is_tick: bool, answers: Seq<ChildAnswer>) -> (EventResult, Option<int>, int)
    decreases answers.len(),
{
    if answers.len() == 0 {
        (EventResult::Ignored, None, 0)
    } else {
        let before = dispatched(is_tick, answers.drop_last());
        let i = answers.len() - 1;
        if (is_tick || before.0 is Ignored) && before.1 is None {
            (
                combined(before.0, answers[i].result),
                if answers[i].emits {
                    Some(i)
                } else {
                    None
                },
                before.2 + 1,
            )
        } else {
            before
        }
    }
}

/// Offers an event to the children of a list in order, where `answers[i]` is how child
/// `i` answers when the event reaches it, and reports the list's answer.
pub fn dispatch_to_children(is_tick: bool, answers: &[ChildAnswer]) -> (d: Dispatch)
    ensures
        d.result == dispatched(is_tick, answers@).0,
        d.reached == dispatched(is_tick, answers@).2,
        match d.emitter {
            Some(i) => dispatched(is_tick, answers@).1 == Some(i as int),
            None => dispatched(is_tick, answers@).1 is None,
        },
{
    let mut result = EventResult::Ignored;
    let mut emitter: Option<usize> = None;
    let mut reached: usize = 0;
    let mut i: usize = 0;
    while i < answers.len()
        invariant
            i <= answers@.len(),
            reached <= i,
            result == dispatched(is_tick, answers@.take(i as int)).0,
            reached == dispatched(is_tick, answers@.take(i as int)).2,
            match emitter {
                Some(k) => dispatched(is_tick, answers@.take(i as int)).1 == Some(k as int),
                None => dispatched(is_tick, answers@.take(i as int)).1 is None,
            },
        decreases answers@.len() - i,
    {
        assert(answers@.take(i + 1).drop_last() =~= answers@.take(i as int));
        let routes = match result {
            EventResult::Ignored => true,
            EventResult::Handled => is_tick,
        };
        if routes && emitter.is_none() {
            let answer = answers[i];
            result = result.or(answer.result);
            if answer.emits {
                emitter = Some(i);
            }
            reached = reached + 1;
        }
        i = i + 1;
    }
    assert(answers@.take(answers@.len() as int) =~= answers@);
    Dispatch { result, emitter, reached }
}

/// An event offered to a list reaches its children from the first on, and stops only at
/// a child that emits a message or, unless it is a frame tick, handles the event. Every
/// child it reached before that one ignored it, or (for a tick) emitted nothing. The list
/// handles the event when a reached child did, and emits the message of the last child
/// reached, when that child emitted one.
pub proof fn law_dispatch_stops_at_first_answer(is_tick: bool, answers: Seq<ChildAnswer>)
    ensures
        ({
            let (result, emitter, reached) = dispatched(is_tick, answers);
            &&& 0 <= reached <= answers.len()
            &&& forall|j: int|
                0 <= j < reached - 1 ==> !(#[trigger] answers[j]).emits && (is_tick
                    || answers[j].result is Ignored)
            &&& reached < answers.len() ==> reached > 0 && (answers[reached - 1].emits || (
            !is_tick && answers[reached - 1].result is Handled))
            &&& (result is Handled <==> exists|j: int|
                0 <= j < reached && (#[trigger] answers[j]).result is Handled)
            &&& match emitter {
                Some(i) => i == reached - 1 && answers[i].emits,
                None => forall|j: int| 0 <= j < reached ==> !(#[trigger] answers[j]).emits,
            }
        }),
    decreases answers.len(),
{
    if answers.len() > 0 {
        let front = answers.drop_last();
        let i = answers.len() - 1;
        law_dispatch_stops_at_first_answer(is_tick, front);
        let (result, emitter, reached) = dispatched(is_tick, front);
        assert forall|j: int| #![trigger front[j]] #![trigger answers[j]] 0 <= j < front.len() implies front[j] == answers[j] by {}
        if (is_tick || result is Ignored) && emitter is None {
            // The event went through the whole front part and reaches the last child.
            if reached < front.len() {
                assert(!front[reached - 1].emits);
                assert(false);
            }
            assert(reached == i);
            let res = combined(result, answers[i].result);
            if res is Handled {
                if answers[i].result is Handled {
                    assert(answers[i].result is Handled);
                } else {
                    let k = choose|k: int| 0 <= k < reached && (#[trigger] front[k]).result is Handled;
                    assert(answers[k].result is Handled);
                }
            }
            if !is_tick {
                assert forall|j: int| 0 <= j < i implies (#[trigger] answers[j]).result is Ignored by {
                    if answers[j].result is Handled {
                        assert(front[j].result is Handled);
                    }
                }
            }
        } else if reached == front.len() {
            // The last child of the front part stopped the event.
            assert(reached > 0);
            if emitter is None {
                assert(!is_tick && result is Handled);
                let k = choose|k: int| 0 <= k < reached && (#[trigger] front[k]).result is Handled;
                if k < reached - 1 {
                    assert(front[k].result is Ignored);
                }
            }
        }
    }
}

/// A frame tick reaches every child of a list, up to the first that emits a message.
pub proof fn law_tick_reaches_children_until_message(answers: Seq<ChildAnswer>)
    ensures
        ({
            let (result, emitter, reached) = dispatched(true, answers);
            reached == answers.len() || (emitter is Some && answers[reached - 1].emits)
        }),
{
    law_dispatch_stops_at_first_answer(true, answers);
}

/// How a list of child views is rebuilt against the previous list: the children both
/// lists have are rebuilt in place, the new list's extra children are built, and the old
/// list's extra children are torn down.
#[derive(Clone, Copy, Debug, PartialEq, Eq, Structural)]
pub struct ListRebuild {
    pub rebuilt: usize,
    pub built: usize,
    pub torn_down: usize,
}

/// Plans the rebuild of a list of `new_len` children that had `prev_len`; afterwards the
/// list holds one element per new child.
pub fn list_rebuild(prev_len: usize, new_len: usize) -> (r: ListRebuild)
    ensures
        r.rebuilt == if prev_len < new_len { prev_len } else { new_len },
        r.built == new_len - r.rebuilt,
        r.torn_down == prev_len - r.rebuilt,
        r.rebuilt + r.built == new_len,
{
    let rebuilt = if prev_len < new_len { prev_len } else { new_len };
    ListRebuild { rebuilt, built: new_len - rebuilt, torn_down: prev_len - rebuilt }
}

/// What happens to the element of an optional child view on a rebuild.
#[derive(Clone, Copy, Debug, PartialEq, Eq, Structural)]
pub enum SlotChange {
    /// The view is shown before and after: its element is rebuilt in place.
    Rebuild,
    /// The view is shown and has no element: one is built and attached.
    Build,
    /// The view is no longer shown: its element is detached and torn down.
    Remove,
    /// Nothing changes.
    Keep,
}

/// The change to the element of an optional view that `shows` now, `showed` before, and
/// `has_element` or not.
pub open spec fn slot_change_for(shows: bool, showed: bool, has_element: bool) -> SlotChange {
    if shows && showed && has_element {
        SlotChange::Rebuild
    } else if shows && !has_element {
        SlotChange::Build
    } else if !shows && showed && has_element {
        SlotChange::Remove
    } else {
        SlotChange::Keep
    }
}

/// Whether the slot holds an element after `change`, when it held one before or not.
pub open spec fn holds_element_after(change: SlotChange, had: bool) -> bool {
    match change {
        SlotChange::Rebuild | SlotChange::Build => true,
        SlotChange::Remove => false,
        SlotChange::Keep => had,
    }
}

/// Decides how the element of the optional view `view` is rebuilt, given the previous view
/// `prev` and the element the slot holds.
pub fn slot_change<A, B, E>(view: &Option<A>, prev: &Option<B>, element: &Option<E>) -> (r: SlotChange)
    ensures
        r == slot_change_for(view is Some, prev is Some, element is Some),
{
    match (view, prev, element) {
        (Some(_), Some(_), Some(_)) => SlotChange::Rebuild,
        (Some(_), _, None) => SlotChange::Build,
        (None, Some(_), Some(_)) => SlotChange::Remove,
        _ => SlotChange::Keep,
    }
}

/// When an optional view's slot holds an element exactly while the view was shown, it
/// still does after a rebuild: it holds one exactly when the new view is shown.
pub proof fn law_slot_follows_view(shows: bool, showed: bool, has_element: bool)
    requires
        has_element == showed,
    ensures
        holds_element_after(slot_change_for(shows, showed, has_element), has_element) == shows,
{
}

} // verus!
