use mtk::ui::event::EventResult;
use mtk::ui::widgets::editor::Editor;
use mtk::ui::widgets::text_input::{
    handle_focus_lost, handle_ime, handle_press, next_click_count, render_marks, select_on_press,
    sync_with_state, text_input,
    EditAction, EditKey, FocusMove, ImeEvent,
};

fn editor_with(text: &str) -> Editor {
    let mut e = Editor::new();
    e.set_text(text);
    e
}

#[test]
fn typing_inserts_text_and_reports_change() {
    let input = text_input();
    let mut e = editor_with("ab");
    let r = input.handle_key(&mut e, &EditKey::Other, Some("c"), true, true, false, false);
    assert_eq!(e.text(), "abc");
    assert_eq!(r.result, EventResult::Handled);
    assert!(r.text_changed);
    assert!(r.redraw);
}

#[test]
fn keys_are_ignored_without_focus_or_on_release() {
    let input = text_input();
    let mut e = editor_with("ab");
    let r = input.handle_key(&mut e, &EditKey::Backspace, None, false, true, false, false);
    assert_eq!(r.result, EventResult::Ignored);
    assert_eq!(e.text(), "ab");
    let r = input.handle_key(&mut e, &EditKey::Backspace, None, true, false, false, false);
    assert_eq!(r.result, EventResult::Ignored);
    assert_eq!(e.text(), "ab");
}

#[test]
fn control_characters_are_not_typed() {
    let input = text_input();
    let mut e = editor_with("ab");
    let r = input.handle_key(&mut e, &EditKey::Other, Some("\u{7}"), true, true, false, false);
    assert_eq!(e.text(), "ab");
    assert_eq!(r.result, EventResult::Handled);
    assert!(!r.text_changed);
    assert_eq!(input.action_for_key(&EditKey::Other, Some("x\n"), false, false), EditAction::Nothing);
    assert_eq!(input.action_for_key(&EditKey::Other, Some("é"), false, false), EditAction::Insert);
}

#[test]
fn ctrl_backspace_deletes_a_word() {
    let input = text_input();
    let mut e = editor_with("hello world");
    let r = input.handle_key(&mut e, &EditKey::Backspace, None, true, true, false, true);
    assert_eq!(e.text(), "hello ");
    assert!(r.text_changed);
}

#[test]
fn ctrl_a_selects_all_and_plain_a_types() {
    let input = text_input();
    let mut e = editor_with("abc");
    input.handle_key(&mut e, &EditKey::Character("a".to_string()), Some("a"), true, true, false, true);
    assert_eq!(e.selection(), Some((0, 3)));
    input.handle_key(&mut e, &EditKey::Character("A".to_string()), Some("A"), true, true, false, false);
    assert_eq!(e.text(), "A");
}

#[test]
fn tab_moves_focus_or_types_a_tab() {
    let mut e = editor_with("x");
    let plain = text_input();
    let r = plain.handle_key(&mut e, &EditKey::Tab, None, true, true, false, false);
    assert_eq!(r.focus, FocusMove::Next);
    let r = plain.handle_key(&mut e, &EditKey::Tab, None, true, true, true, false);
    assert_eq!(r.focus, FocusMove::Previous);
    let r = plain.handle_key(&mut e, &EditKey::Tab, None, true, true, false, true);
    assert_eq!(r.result, EventResult::Ignored);
    let capturing = text_input().captures_tab(true);
    let r = capturing.handle_key(&mut e, &EditKey::Tab, None, true, true, false, false);
    assert_eq!(e.text(), "x\t");
    assert!(r.text_changed);
}

#[test]
fn shift_arrows_extend_the_selection() {
    let input = text_input();
    let mut e = editor_with("abcd");
    input.handle_key(&mut e, &EditKey::ArrowLeft, None, true, true, true, false);
    input.handle_key(&mut e, &EditKey::ArrowLeft, None, true, true, true, false);
    assert_eq!(e.selection(), Some((2, 4)));
    input.handle_key(&mut e, &EditKey::Home, None, true, true, false, false);
    assert_eq!(e.cursor(), 0);
    assert_eq!(e.selection(), None);
}

#[test]
fn ime_composition_and_commit() {
    let mut e = editor_with("ab");
    let r = handle_ime(&mut e, ImeEvent::Preedit("か".to_string(), None), true);
    assert_eq!(r.result, EventResult::Handled);
    assert_eq!(e.display_text(), "abか");
    let r = handle_ime(&mut e, ImeEvent::Commit("漢".to_string()), true);
    assert!(r.text_changed);
    assert_eq!(e.text(), "ab漢");
    assert_eq!(e.preedit_range(), None);
    handle_ime(&mut e, ImeEvent::Preedit("x".to_string(), None), true);
    let r = handle_ime(&mut e, ImeEvent::Disabled, true);
    assert_eq!(r.result, EventResult::Ignored);
    assert_eq!(e.display_text(), "ab漢");
    let r = handle_ime(&mut e, ImeEvent::Commit("zz".to_string()), false);
    assert_eq!(r.result, EventResult::Ignored);
    assert_eq!(e.text(), "ab漢");
}

#[test]
fn click_counts_continue_within_half_a_second() {
    assert_eq!(next_click_count(1, Some(120)), 2);
    assert_eq!(next_click_count(2, Some(499)), 3);
    assert_eq!(next_click_count(2, Some(500)), 1);
    assert_eq!(next_click_count(7, None), 1);
}

#[test]
fn double_click_selects_a_word() {
    let mut e = editor_with("hello world");
    select_on_press(&mut e, 8, 2, false);
    assert_eq!(e.selection(), Some((6, 11)));
    select_on_press(&mut e, 2, 3, false);
    assert_eq!(e.selection(), Some((0, 11)));
    select_on_press(&mut e, 3, 1, false);
    assert_eq!(e.cursor(), 3);
    assert_eq!(e.selection(), None);
    select_on_press(&mut e, 7, 1, true);
    assert_eq!(e.selection(), Some((3, 7)));
}

#[test]
fn press_on_and_off_the_input() {
    let mut e = editor_with("abc");
    let mut clicks: u8 = 0;
    let r = handle_press(&mut e, &mut clicks, true, true, false, Some(1), None, false);
    assert_eq!(r.focus, FocusMove::Request);
    assert_eq!(r.result, EventResult::Handled);
    assert_eq!(clicks, 1);
    assert_eq!(e.cursor(), 1);
    let r = handle_press(&mut e, &mut clicks, true, false, true, None, None, false);
    assert_eq!(r.focus, FocusMove::Clear);
    assert_eq!(r.result, EventResult::Ignored);
    let r = handle_press(&mut e, &mut clicks, false, true, true, Some(0), None, false);
    assert_eq!(r.result, EventResult::Ignored);
    assert_eq!(e.cursor(), 1);
}

#[test]
fn tick_brings_the_editor_to_the_state() {
    let mut e = editor_with("old");
    assert!(!sync_with_state(&mut e, "new", false));
    assert_eq!(e.text(), "old");
    assert!(sync_with_state(&mut e, "new", true));
    assert_eq!(e.text(), "new");
    assert_eq!(e.cursor(), 3);
    assert!(!sync_with_state(&mut e, "new", true));
}

#[test]
fn test_input_text_focus_lost_clears_selection() {
    let mut e = editor_with("Hello World");
    let mut clicks: u8 = 0;
    let r = handle_press(&mut e, &mut clicks, true, true, true, Some(0), None, false);
    assert_eq!(r.result, EventResult::Handled);
    select_on_press(&mut e, 4, 1, true);
    assert!(e.selection().is_some());
    let r = handle_focus_lost(&mut e, true);
    assert_eq!(r.result, EventResult::Handled);
    let marks = render_marks(&e, false, false);
    assert_eq!(marks.selection, None);
    assert_eq!(marks.cursor, None);
    assert_eq!(e.selection(), None);
    let focused = render_marks(&e, true, false);
    assert_eq!(focused.cursor, Some(e.cursor()));
    let placeholder = render_marks(&e, true, true);
    assert_eq!(placeholder.cursor, Some(0));
}

#[test]
fn control_characters_match_std() {
    let input = text_input();
    for code in 0u32..=0x10FFFF {
        if let Some(c) = char::from_u32(code) {
            let text = c.to_string();
            let action = input.action_for_key(&EditKey::Other, Some(text.as_str()), false, false);
            let typed = action == EditAction::Insert;
            assert_eq!(typed, !c.is_control(), "U+{:04X}", code);
        }
    }
}
