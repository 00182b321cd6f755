use mtk::ui::event::EventResult;
use mtk::ui::sequence::{dispatch_to_children, list_rebuild, slot_change, ChildAnswer, SlotChange};

fn ignores() -> ChildAnswer {
    ChildAnswer { result: EventResult::Ignored, emits: false }
}

fn handles() -> ChildAnswer {
    ChildAnswer { result: EventResult::Handled, emits: false }
}

fn emits() -> ChildAnswer {
    ChildAnswer { result: EventResult::Handled, emits: true }
}

#[test]
fn test_event_stops_at_first_handling_child() {
    let answers = [ignores(), handles(), emits(), ignores()];
    let d = dispatch_to_children(false, &answers);
    assert_eq!(d.result, EventResult::Handled);
    assert_eq!(d.reached, 2);
    assert_eq!(d.emitter, None);
}

#[test]
fn test_tick_reaches_children_past_handling_ones() {
    let answers = [handles(), ignores(), emits(), handles()];
    let d = dispatch_to_children(true, &answers);
    assert_eq!(d.result, EventResult::Handled);
    assert_eq!(d.reached, 3);
    assert_eq!(d.emitter, Some(2));

    let quiet = [handles(), ignores(), handles()];
    let d = dispatch_to_children(true, &quiet);
    assert_eq!(d.reached, 3);
    assert_eq!(d.emitter, None);
}

#[test]
fn test_ignored_event_reaches_every_child() {
    let answers = [ignores(), ignores(), ignores()];
    let d = dispatch_to_children(false, &answers);
    assert_eq!(d.result, EventResult::Ignored);
    assert_eq!(d.reached, 3);
    assert_eq!(d.emitter, None);

    let none: [ChildAnswer; 0] = [];
    let d = dispatch_to_children(false, &none);
    assert_eq!(d.result, EventResult::Ignored);
    assert_eq!(d.reached, 0);
}

#[test]
fn test_message_from_ignoring_child_stops_the_event() {
    let answers = [ignores(), ChildAnswer { result: EventResult::Ignored, emits: true }, handles()];
    let d = dispatch_to_children(false, &answers);
    assert_eq!(d.result, EventResult::Ignored);
    assert_eq!(d.reached, 2);
    assert_eq!(d.emitter, Some(1));
}

#[test]
fn test_list_rebuild_grows_and_shrinks() {
    let grow = list_rebuild(2, 5);
    assert_eq!((grow.rebuilt, grow.built, grow.torn_down), (2, 3, 0));
    let shrink = list_rebuild(4, 1);
    assert_eq!((shrink.rebuilt, shrink.built, shrink.torn_down), (1, 0, 3));
    let same = list_rebuild(3, 3);
    assert_eq!((same.rebuilt, same.built, same.torn_down), (3, 0, 0));
}

#[test]
fn test_optional_view_slot_changes() {
    let el = Some(());
    let no_el: Option<()> = None;
    assert_eq!(slot_change(&Some(1), &Some(0), &el), SlotChange::Rebuild);
    assert_eq!(slot_change(&Some(1), &None::<i32>, &no_el), SlotChange::Build);
    assert_eq!(slot_change(&None::<i32>, &Some(0), &el), SlotChange::Remove);
    assert_eq!(slot_change(&None::<i32>, &None::<i32>, &no_el), SlotChange::Keep);
    // A shown view whose slot lost its element gets a new one.
    assert_eq!(slot_change(&Some(1), &Some(0), &no_el), SlotChange::Build);
}
