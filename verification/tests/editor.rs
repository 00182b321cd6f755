use mtk::ui::widgets::editor::Editor;

#[test]
fn test_editor_insert() {
    let mut editor = Editor::new();
    editor.insert("hello");
    assert_eq!(editor.text(), "hello");
    assert_eq!(editor.cursor(), 5);
}

#[test]
fn test_editor_movements() {
    let mut editor = Editor::new();
    editor.insert("abc");
    editor.move_left(false);
    assert_eq!(editor.cursor(), 2); // after 'b'
    editor.move_left(false);
    assert_eq!(editor.cursor(), 1); // after 'a'
    editor.move_right(false);
    assert_eq!(editor.cursor(), 2);
}

#[test]
fn test_editor_delete() {
    let mut editor = Editor::new();
    editor.insert("hello");
    editor.delete_backward();
    assert_eq!(editor.text(), "hell");
    editor.move_left(false); // cursor after 'l'
    editor.move_left(false); // cursor after 'e'
    editor.delete_forward(); // deletes 'l'
    assert_eq!(editor.text(), "hel");
}

#[test]
fn test_editor_selection() {
    let mut editor = Editor::new();
    editor.insert("hello");
    editor.move_left(true);
    editor.move_left(true);
    assert_eq!(editor.selection(), Some((3, 5)));
    editor.delete_backward();
    assert_eq!(editor.text(), "hel");
    assert_eq!(editor.cursor(), 3);
    assert_eq!(editor.selection(), None);
}

#[test]
fn test_unicode_boundaries() {
    let mut editor = Editor::new();
    editor.insert("🦀rust");
    assert_eq!(editor.cursor(), 8); // 🦀 is 4 bytes + rust is 4 bytes
    editor.move_to_start(false);
    assert_eq!(editor.cursor(), 0);
    editor.move_right(false);
    assert_eq!(editor.cursor(), 4);
    editor.delete_forward();
    assert_eq!(editor.text(), "🦀ust");
}

#[test]
fn test_word_boundaries() {
    let mut editor = Editor::new();
    editor.insert("hello, world!");

    // cursor is at the end (13)
    editor.move_word_left(false);
    // jumps back over "world!" -> stops before "world!"
    assert_eq!(editor.cursor(), 7);

    editor.move_word_left(false);
    // jumps back over "hello, " -> stops before "hello"
    assert_eq!(editor.cursor(), 0);

    editor.move_word_right(false);
    // jumps over "hello", stops before ","
    assert_eq!(editor.cursor(), 5);

    editor.move_word_right(false);
    // jumps over ", ", stops before "world"
    assert_eq!(editor.cursor(), 7);

    editor.move_word_right(false);
    // jumps over "world", stops before "!"
    assert_eq!(editor.cursor(), 12);
}

#[test]
fn test_editor_ime() {
    let mut editor = Editor::new();
    editor.insert("hello ");
    assert_eq!(editor.cursor(), 6);

    // Start composing "world"
    editor.set_ime_preedit("worl".to_string(), None);
    assert_eq!(editor.display_text(), "hello worl");
    assert_eq!(editor.preedit_range(), Some((6, 10)));
    assert_eq!(editor.text(), "hello "); // Underlying text unchanged
    assert_eq!(editor.cursor(), 6); // Cursor unchanged

    // Commit the composition
    editor.commit_ime("world");
    assert_eq!(editor.display_text(), "hello world");
    assert_eq!(editor.text(), "hello world");
    assert_eq!(editor.preedit_range(), None);
    assert_eq!(editor.cursor(), 11);
}

#[test]
fn backspace_undoes_typing() {
    let mut editor = Editor::new();
    editor.set_text("héllo");
    editor.set_cursor(3);
    editor.insert_char('ß');
    assert_eq!(editor.text(), "héßllo");
    editor.delete_backward();
    assert_eq!(editor.text(), "héllo");
    assert_eq!(editor.cursor(), 3);
}

#[test]
fn select_all_then_delete_clears() {
    let mut editor = Editor::new();
    editor.set_text("some text");
    editor.select_all();
    editor.delete_backward();
    assert_eq!(editor.text(), "");
    assert_eq!(editor.cursor(), 0);
    editor.select_all();
    assert!(!editor.delete_selection());
    assert!(editor.is_empty());
}

#[test]
fn word_moves_stay_in_text() {
    let mut editor = Editor::new();
    editor.set_text("ab, cd");
    editor.move_word_left(false);
    assert_eq!(editor.cursor(), 4);
    editor.move_word_left(false);
    assert_eq!(editor.cursor(), 0);
    editor.move_word_left(false);
    assert_eq!(editor.cursor(), 0);
    editor.move_word_right(false);
    assert_eq!(editor.cursor(), 2);
    editor.move_to_end(false);
    editor.move_word_right(false);
    assert_eq!(editor.cursor(), 6);
}

#[test]
fn has_text_compares_exactly() {
    let mut editor = Editor::new();
    editor.set_text("abc");
    assert!(editor.has_text("abc"));
    assert!(!editor.has_text("ab"));
    assert!(!editor.has_text("abcd"));
    assert!(!editor.has_text("abd"));
}

#[test]
fn word_left_over_a_one_letter_word() {
    let mut editor = Editor::new();
    editor.insert("a b");
    editor.move_word_left(false);
    assert_eq!(editor.cursor(), 2);
    editor.move_word_left(false);
    assert_eq!(editor.cursor(), 0);

    let mut editor = Editor::new();
    editor.insert("a b");
    editor.delete_word_backward();
    assert_eq!(editor.text(), "a ");
}

#[test]
fn editors_with_the_same_state_compare_equal() {
    assert_eq!(Editor::new(), Editor::default());
    let mut editor = Editor::new();
    editor.insert("hello");
    editor.select_all();
    editor.move_right(false);
    let mut fresh = Editor::new();
    fresh.insert("hello");
    assert_eq!(editor, fresh);
}
