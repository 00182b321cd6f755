use mtk::ui::event::EventResult;
use mtk::ui::keyed::{keyed, keyed_sequence, Keyed, KeyedRebuild, KeyedViewSequence};
use mtk::ui::sequence::{dispatch_to_children, ChildAnswer};
use mtk::ui::widgets::press::{press_step, PressInput, PressKind, PressOutcome, PressState};

fn seq_of(keys: &[u32]) -> KeyedViewSequence<u32, &'static str> {
    keyed_sequence(keys.iter().map(|k| keyed(*k, "view")).collect())
}

#[test]
fn unchanged_keys_rebuild_in_place() {
    let a = seq_of(&[1, 2, 3]);
    let b = seq_of(&[1, 2, 3]);
    assert_eq!(b.plan_rebuild(&a), KeyedRebuild::InPlace);
}

#[test]
fn appended_and_truncated_keys_take_fast_paths() {
    let a = seq_of(&[1, 2]);
    let b = seq_of(&[1, 2, 3]);
    assert_eq!(b.plan_rebuild(&a), KeyedRebuild::Append);
    assert_eq!(a.plan_rebuild(&b), KeyedRebuild::Truncate);
}

#[test]
fn reordered_keys_reuse_elements_by_key() {
    let prev = seq_of(&[1, 2, 3]);
    let next = seq_of(&[3, 1, 4]);
    match next.plan_rebuild(&prev) {
        KeyedRebuild::Reconcile { sources, removed } => {
            assert_eq!(sources, vec![Some(2), Some(0), None]);
            assert_eq!(removed, vec![1]);
        }
        other => panic!("unexpected plan {:?}", other),
    }
}

#[test]
fn duplicate_keys_reuse_the_last_previous_item_once() {
    let prev = seq_of(&[7, 5, 7]);
    let next = seq_of(&[5, 7, 7]);
    match next.plan_rebuild(&prev) {
        KeyedRebuild::Reconcile { sources, removed } => {
            assert_eq!(sources, vec![Some(1), Some(2), None]);
            assert!(removed.is_empty());
        }
        other => panic!("unexpected plan {:?}", other),
    }
}

#[test]
fn keyed_items_and_sequences() {
    let item: Keyed<&str, u8> = Keyed::from(("k", 3u8));
    assert_eq!(item.key, "k");
    assert_eq!(item.view, 3);
    let s = KeyedViewSequence::new(vec![keyed(1, 'a'), keyed(2, 'b')]);
    assert_eq!(s.len(), 2);
    assert!(!s.is_empty());
    assert!(KeyedViewSequence::<u8, u8>::new(Vec::new()).is_empty());
}

fn reconcile(prev: &[u32], next: &[u32]) -> (Vec<Option<usize>>, Vec<usize>) {
    match seq_of(next).plan_rebuild(&seq_of(prev)) {
        KeyedRebuild::Reconcile { sources, removed } => (sources, removed),
        other => panic!("unexpected plan {:?}", other),
    }
}

#[test]
fn test_keyed_sequence_reorder_preserves_node_identities() {
    let (sources, removed) = reconcile(&[1, 2, 3], &[3, 1, 2]);
    assert_eq!(sources.len(), 3);
    assert_eq!(sources[0], Some(2));
    assert_eq!(sources[1], Some(0));
    assert_eq!(sources[2], Some(1));
    assert!(removed.is_empty());
}

#[test]
fn test_keyed_sequence_insert_at_head() {
    let (sources, removed) = reconcile(&[2, 3], &[1, 2, 3]);
    assert_eq!(sources.len(), 3);
    assert_eq!(sources[0], None);
    assert_eq!(sources[1], Some(0));
    assert_eq!(sources[2], Some(1));
    assert!(removed.is_empty());
}

#[test]
fn test_keyed_sequence_remove_middle() {
    let (sources, removed) = reconcile(&[1, 2, 3], &[1, 3]);
    assert_eq!(sources.len(), 2);
    assert_eq!(sources[0], Some(0));
    assert_eq!(sources[1], Some(2));
    assert_eq!(removed, vec![1]);
}

#[test]
fn test_keyed_sequence_preserves_input_text_state() {
    let (sources, removed) = reconcile(&[1, 2], &[2, 1]);
    assert_eq!(sources.len(), 2);
    assert_eq!(sources[0], Some(1));
    assert_eq!(sources[1], Some(0));
    assert!(removed.is_empty());
}

#[test]
fn test_keyed_sequence_complex_shuffle() {
    let keys_init = [1, 2, 3, 4, 5, 6, 7, 8];
    let keys_target = [8, 3, 10, 5, 1, 9, 7];
    let (sources, removed) = reconcile(&keys_init, &keys_target);
    assert_eq!(sources.len(), 7);
    assert_eq!(sources[0], Some(7));
    assert_eq!(sources[1], Some(2));
    assert_eq!(sources[3], Some(4));
    assert_eq!(sources[4], Some(0));
    assert_eq!(sources[6], Some(6));
    assert_eq!(sources[2], None);
    assert_eq!(sources[5], None);
    let removed_keys: Vec<u32> = removed.iter().map(|&j| keys_init[j]).collect();
    assert_eq!(removed_keys, vec![2, 4, 6]);
}

/// Offers a mouse event to the buttons of a keyed sequence, whose press states are
/// `states` (the first child is under the cursor), and returns the message emitted, if any.
fn click_first(
    seq: &KeyedViewSequence<&str, i32>,
    states: &mut Vec<PressState>,
    pressed: bool,
) -> (EventResult, Option<i32>) {
    let outcomes: Vec<(PressState, PressOutcome)> = (0..states.len())
        .map(|i| press_step(PressKind::Button, false, states[i], PressInput::Mouse { pressed, hit: i == 0 }))
        .collect();
    let answers: Vec<ChildAnswer> = outcomes
        .iter()
        .map(|(_, o)| ChildAnswer { result: o.result, emits: o.activate })
        .collect();
    let d = dispatch_to_children(false, &answers);
    for i in 0..d.reached {
        states[i] = outcomes[i].0;
    }
    (d.result, d.emitter.map(|i| seq.items[i].view))
}

#[test]
fn test_keyed_sequence_event_routing() {
    // Buttons "a" (click message 10) and "b" (click message 20), then reordered.
    let seq_init = keyed_sequence(vec![keyed("a", 10), keyed("b", 20)]);
    let seq_reordered = keyed_sequence(vec![keyed("b", 20), keyed("a", 10)]);

    let sources = match seq_reordered.plan_rebuild(&seq_init) {
        KeyedRebuild::Reconcile { sources, removed } => {
            assert!(removed.is_empty());
            sources
        }
        other => panic!("unexpected plan {:?}", other),
    };
    assert_eq!(sources, vec![Some(1), Some(0)]);

    // Each reused button keeps its own state, now in the new order.
    let init_states = vec![PressState { pressed: false, hovered: false }; 2];
    let mut states: Vec<PressState> = sources.iter().map(|s| init_states[s.unwrap()]).collect();

    // First simulate mouse down on the first child's node.
    let (res, msg) = click_first(&seq_reordered, &mut states, true);
    assert_eq!(res, EventResult::Handled);
    assert_eq!(msg, None);

    let (res, msg) = click_first(&seq_reordered, &mut states, false);
    assert_eq!(res, EventResult::Handled);
    assert_eq!(msg, Some(20));
}
