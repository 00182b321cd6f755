use mtk::ui::widgets::checkbox::{checkbox, CheckboxStyle};
use mtk::ui::widgets::radio::{radio, radio_group, RadioStyle};
use mtk::ui::widgets::switch::switch;
use mtk::ui::widgets::rich_text::{hover_step, span_at, span_click_fires, HoverInput, SpanHover, SpanInfo};
use mtk::colors::Color;
use mtk::ui::event::EventResult;
use mtk::ui::widgets::badge::{badge, chip};
use mtk::ui::widgets::button::{button, hover_background, ButtonRefresh};
use mtk::ui::widgets::dropdown::{dropdown, DropdownInput, DropdownKey, ItemHighlight, MenuChange};
use mtk::ui::widgets::editor::Editor;
use mtk::ui::widgets::input_text::{
    drag_to, dragging_after, handle_line_ime, input_text, sync_unfocused, to_single_line, LineAction,
};
use mtk::ui::widgets::press::{press_step, AccessAction, PressInput, PressKey, PressKind, PressState};
use mtk::ui::widgets::scroll_view::ScrollAxis;
use mtk::ui::widgets::text_input::{EditAction, EditKey, ImeEvent};
use mtk::ui::widgets::{container, row, LayoutDirection};

#[test]
fn button_click_needs_press_and_release_on_it() {
    let s = PressState { pressed: false, hovered: false };
    let (s, down) = press_step(PressKind::Button, false, s, PressInput::Mouse { pressed: true, hit: true });
    assert!(s.pressed && down.request_focus && down.restyle && !down.activate);
    let (s2, up_off) = press_step(PressKind::Button, false, s, PressInput::Mouse { pressed: false, hit: false });
    assert!(!s2.pressed && !up_off.activate);
    assert_eq!(up_off.result, EventResult::Handled);
    let (_, up_on) = press_step(PressKind::Button, false, s, PressInput::Mouse { pressed: false, hit: true });
    assert!(up_on.activate);
    let (_, disabled) = press_step(PressKind::Button, true, s, PressInput::Mouse { pressed: false, hit: true });
    assert!(!disabled.activate);
    assert_eq!(disabled.result, EventResult::Ignored);
}

#[test]
fn activation_keys_differ_by_widget() {
    let s = PressState { pressed: false, hovered: false };
    let space = PressInput::Key { focused: true, pressed: true, key: PressKey::Space };
    let space_text = PressInput::Key { focused: true, pressed: true, key: PressKey::SpaceText };
    assert!(press_step(PressKind::Button, false, s, space).1.activate);
    assert!(!press_step(PressKind::Check, false, s, space).1.activate);
    assert!(press_step(PressKind::Check, false, s, space_text).1.activate);
    assert!(press_step(PressKind::Check, false, s, PressInput::Access { on_node: true, action: AccessAction::Click }).1.activate);
    assert!(!press_step(PressKind::Switch, false, s, PressInput::Access { on_node: true, action: AccessAction::Click }).1.activate);
    let (h, moved) = press_step(PressKind::Button, false, s, PressInput::CursorMoved { hit: true });
    assert!(h.hovered && moved.restyle);
}

#[test]
fn dropdown_menu_and_arrow_keys() {
    let d = dropdown::<()>(Some(1), vec!["a".to_string(), "b".to_string(), "c".to_string()]);
    let (open, out) = d.menu_step(false, DropdownInput::MousePress { hit_trigger: true, hit_item: None });
    assert!(open);
    assert_eq!(out.menu, MenuChange::Open);
    let key = |k| DropdownInput::Key { focused: true, pressed: true, key: k };
    assert_eq!(d.menu_step(true, key(DropdownKey::ArrowDown)).1.select, Some(2));
    assert_eq!(d.menu_step(true, key(DropdownKey::ArrowUp)).1.select, Some(0));
    assert_eq!(d.menu_step(false, key(DropdownKey::ArrowDown)).1.result, EventResult::Ignored);
    let (open, out) = d.menu_step(true, DropdownInput::MousePress { hit_trigger: false, hit_item: Some(2) });
    assert!(!open);
    assert_eq!(out.select, Some(2));
    let last = dropdown::<()>(Some(2), vec!["a".to_string(), "b".to_string(), "c".to_string()]);
    assert_eq!(last.menu_step(true, key(DropdownKey::ArrowDown)).1.select, None);
    let none = dropdown::<()>(None, vec!["a".to_string()]);
    assert_eq!(none.menu_step(true, key(DropdownKey::ArrowDown)).1.select, Some(0));
    assert_eq!(d.item_highlight(1, false), ItemHighlight::Selected);
    assert_eq!(d.item_highlight(0, true), ItemHighlight::Hovered);
    assert_eq!(d.item_highlight(0, false), ItemHighlight::Plain);
    assert!(!d.has_dark_background());
    assert!(d.bg_color(Color::new(10, 20, 30, 255)).has_dark_background());
}

#[test]
fn chip_deletes_only_with_callback() {
    let c = chip::<(), _>("tag");
    assert!(!c.deletes_on(true));
    let c = c.on_delete(|| ());
    assert!(c.deletes_on(true));
    assert!(!c.deletes_on(false));
}

#[test]
fn single_line_cleaning() {
    assert_eq!(to_single_line("Hello\nWorld\r\nFoo"), "Hello World Foo");
    assert_eq!(to_single_line("a\r\r\nb\r"), "a  b ");
    assert_eq!(to_single_line("plain"), "plain");
}

#[test]
fn input_text_clipboard_keys() {
    let input = input_text();
    let ch = |s: &str| EditKey::Character(s.to_string());
    assert_eq!(input.line_action_for_key(&ch("c"), Some("c"), false, true), LineAction::Copy);
    assert_eq!(input.line_action_for_key(&ch("X"), Some("X"), false, true), LineAction::Cut);
    assert_eq!(input.line_action_for_key(&ch("z"), Some("z"), true, true), LineAction::Redo);
    assert_eq!(input.line_action_for_key(&ch("z"), Some("z"), false, true), LineAction::Undo);
    assert_eq!(input.line_action_for_key(&ch("v"), Some("v"), false, true), LineAction::Paste);
    assert_eq!(input.line_action_for_key(&ch("v"), Some("v"), false, false), LineAction::Edit(EditAction::Insert));

    let mut e = Editor::new();
    e.set_text("hello world");
    e.set_selection_anchor(Some(6));
    let r = input.handle_line_key(&mut e, &ch("x"), Some("x"), None, 11, true, true, false, true);
    assert_eq!(r.copy, Some((6, 11)));
    assert_eq!(e.text(), "hello ");
    assert!(r.response.text_changed);
    let r = input.handle_line_key(&mut e, &ch("v"), Some("v"), Some("a\nb"), 6, true, true, false, true);
    assert!(r.response.text_changed);
    assert_eq!(e.text(), "hello a b");
    let tabbing = input_text().captures_tab(true);
    tabbing.handle_line_key(&mut e, &EditKey::Tab, None, None, 9, true, true, false, false);
    assert_eq!(e.text(), "hello a b    ");
}

#[test]
fn input_text_placeholder_and_sync() {
    let plain = input_text();
    assert!(!plain.shows_placeholder(0));
    let prompt = input_text().placeholder("Search...");
    assert!(prompt.shows_placeholder(0));
    assert!(!prompt.shows_placeholder(3));
    let mut e = Editor::new();
    assert!(!sync_unfocused(&mut e, "abc", true));
    assert_eq!(e.text(), "");
    assert!(sync_unfocused(&mut e, "abc", false));
    assert_eq!(e.text(), "abc");
    assert!(drag_to(&mut e, true, Some(1)));
    assert_eq!(e.selection(), Some((1, 3)));
    assert!(!drag_to(&mut e, false, Some(0)));
    assert_eq!(e.cursor(), 1);
}

#[test]
fn containers_and_scroll_axes() {
    assert!(ScrollAxis::Horizontal.fits_content_height());
    assert!(!ScrollAxis::Both.fits_content_height());
    let _ = container(());
    let _ = mtk::ui::widgets::column(());
    let _ = row(());
    assert_ne!(LayoutDirection::Row, LayoutDirection::Column);
}

#[test]
fn button_palette_and_refresh() {
    let enabled = button::<_, u8>("Save").on_click(1);
    let disabled = button::<_, u8>("Save").disabled(true);
    assert_eq!(enabled.palette().background, Color::new(59, 130, 246, 255));
    assert_eq!(enabled.palette().text, Color::new(255, 255, 255, 255));
    assert_eq!(disabled.palette().background, Color::new(226, 232, 240, 255));
    assert_eq!(disabled.palette().border, Color::new(203, 213, 225, 255));
    assert_eq!(disabled.refresh(&enabled, false), ButtonRefresh::Restyle);
    let renamed = button::<_, u8>("Save as");
    assert_eq!(renamed.refresh(&enabled, false), ButtonRefresh::Relabel);
    assert_eq!(enabled.refresh(&button::<_, u8>("Save"), false), ButtonRefresh::Keep);
    assert_eq!(enabled.refresh(&button::<_, u8>("Save"), true), ButtonRefresh::Restyle);
    assert_eq!(hover_background(true), Color::new(37, 99, 235, 255));
    assert_eq!(hover_background(false), Color::new(59, 130, 246, 255));
}


fn context(key: mtk::ui::event::LogicalKey, text: Option<&str>) -> mtk::ui::event::KeyEventContext {
    mtk::ui::event::KeyEventContext {
        logical_key: key,
        physical_key: winit::keyboard::PhysicalKey::Code(winit::keyboard::KeyCode::KeyA),
        text: text.map(|t| t.to_string()),
        repeat: false,
        modifiers: mtk::ui::event::Modifiers { shift: true, control: false, alt: true, meta: false },
    }
}

#[test]
fn key_context_queries() {
    let a = context(mtk::ui::event::LogicalKey::Character("A".to_string()), Some("A"));
    assert!(a.key_matches("a"));
    assert!(a.key_matches("A"));
    assert!(!a.key_matches("b"));
    assert!(!a.key_matches("aa"));
    assert!(a.with_shift() && a.with_alt() && !a.with_ctrl() && !a.with_super());
    let esc = context(mtk::ui::event::LogicalKey::Named("Escape".to_string()), None);
    assert!(esc.is_escape() && esc.key_matches("escape") && !esc.is_enter() && !esc.is_tab());
    let enter = context(mtk::ui::event::LogicalKey::Named("Enter".to_string()), None);
    assert!(enter.is_enter());
    let newline = context(mtk::ui::event::LogicalKey::Unidentified, Some("\r"));
    assert!(newline.is_enter() && !newline.key_matches("\r"));
    let space = context(mtk::ui::event::LogicalKey::Character(" ".to_string()), Some(" "));
    assert!(space.is_space());
    let tab = context(mtk::ui::event::LogicalKey::Named("Tab".to_string()), None);
    assert!(tab.is_tab() && !tab.is_space());
    assert!(mtk::ui::event::ascii_case_insensitive_eq("HeLLo", "hello"));
    assert!(!mtk::ui::event::ascii_case_insensitive_eq("É", "é"));
}

#[test]
fn spans_under_the_cursor() {
    let ranges = [(0usize, 5usize), (3, 8), (10, 12)];
    assert_eq!(mtk::ui::widgets::rich_text::span_at(&ranges, 4), Some(0));
    assert_eq!(mtk::ui::widgets::rich_text::span_at(&ranges, 5), Some(1));
    assert_eq!(mtk::ui::widgets::rich_text::span_at(&ranges, 9), None);
    assert_eq!(mtk::ui::widgets::rich_text::span_at(&ranges, 11), Some(2));
    assert_eq!(mtk::ui::widgets::rich_text::span_at(&[], 0), None);
    assert!(mtk::ui::widgets::rich_text::hover_moved(Some(1), None));
    assert!(!mtk::ui::widgets::rich_text::hover_moved(Some(1), Some(1)));
}

#[test]
fn single_line_ime_and_dragging() {
    let mut e = Editor::new();
    let r = handle_line_ime(&mut e, ImeEvent::Commit("Hello\nWorld\r\nFoo".to_string()), true);
    assert_eq!(r.result, EventResult::Handled);
    assert!(r.text_changed);
    assert_eq!(e.text(), "Hello World Foo");
    assert!(!e.text().contains('\n') && !e.text().contains('\r'));
    let r = handle_line_ime(&mut e, ImeEvent::Commit("x".to_string()), false);
    assert_eq!(r.result, EventResult::Ignored);
    assert!(dragging_after(false, true, true));
    assert!(dragging_after(true, true, false));
    assert!(!dragging_after(false, true, false));
    assert!(!dragging_after(true, false, true));
}

#[test]
fn test_input_text_newline_sanitization() {
    // A focused, empty single-line input receives multi-line committed text.
    let mut editor = Editor::new();
    let r = handle_line_ime(&mut editor, ImeEvent::Commit("Hello\nWorld\r\nFoo".to_string()), true);
    assert_eq!(r.result, EventResult::Handled);
    // The input emits its new text when the text changed.
    let emitted = if r.text_changed { Some(editor.text().to_string()) } else { None };
    assert_eq!(emitted, Some("Hello World Foo".to_string()));
    assert!(!editor.text().contains('\n'));
    assert!(!editor.text().contains('\r'));
}

#[test]
fn test_rich_text_hover_style_lifecycle() {
    // "fn calculate()": "fn" is a keyword with a hover underline and colour, "calculate"
    // a bold function name; both carry identifiers.
    let ranges = [(0usize, 2usize), (3, 12)];
    let spans = [
        SpanInfo { has_hover_style: true, hover_changes_geometry: false, has_id: true },
        SpanInfo { has_hover_style: false, hover_changes_geometry: false, has_id: true },
    ];
    let start = SpanHover { index: None, has_id: false };

    // Move the cursor over the middle of "fn".
    let (hovered, actions) = hover_step(&spans, start, HoverInput::OverText { matched: span_at(&ranges, 1) });
    assert_eq!(hovered.index, Some(0));
    assert!(actions.restyle && actions.redraw && !actions.relayout);
    assert!(actions.notify_entered && !actions.notify_left);
    assert!(span_click_fires(true, hovered));

    // Moving within the span changes nothing.
    let (same, actions) = hover_step(&spans, hovered, HoverInput::OverText { matched: span_at(&ranges, 0) });
    assert_eq!(same, hovered);
    assert!(!actions.restyle && !actions.notify_left && !actions.notify_entered);

    // Move the cursor outside the widget: the hover style is removed again.
    let (left, actions) = hover_step(&spans, hovered, HoverInput::Away);
    assert_eq!(left.index, None);
    assert!(actions.restyle && actions.notify_left && !actions.notify_entered);
    assert!(!span_click_fires(true, left));

    // Entering the bold span, which has no hover style, needs no restyle.
    let (bold, actions) = hover_step(&spans, left, HoverInput::OverText { matched: span_at(&ranges, 5) });
    assert_eq!(bold.index, Some(1));
    assert!(!actions.restyle && actions.notify_entered);
}

#[test]
fn checkbox_colors_follow_state() {
    let blue = Color::new(59, 130, 246, 255);
    let white = Color::new(255, 255, 255, 255);
    let grey_bg = Color::new(226, 232, 240, 255);
    let grey_border = Color::new(203, 213, 225, 255);

    let unchecked = checkbox::<()>(false).label("Accept Terms");
    let look = unchecked.look();
    assert_eq!(look.background, white);
    assert_eq!(look.border, grey_border);
    assert!(!look.shows_mark);
    assert!(unchecked.toggled_value());

    let checked = checkbox::<()>(true);
    let look = checked.look();
    assert_eq!(look.background, blue);
    assert_eq!(look.border, Color::new(37, 99, 235, 255));
    assert_eq!(look.mark, white);
    assert!(look.shows_mark);
    assert!(!checked.toggled_value());

    let disabled = checkbox::<()>(true).disabled(true).look();
    assert_eq!(disabled.background, grey_bg);
    assert_eq!(disabled.border, grey_border);
    assert_eq!(disabled.mark, grey_border);
    assert!(disabled.shows_mark);

    let red = Color::new(220, 38, 38, 255);
    let custom = checkbox::<()>(true).active_color(red).check_color(blue).look();
    assert_eq!((custom.background, custom.border, custom.mark), (red, red, blue));
    let style = CheckboxStyle::new().unchecked_bg(red).unchecked_border(blue);
    assert_eq!(style.look(false, false).background, red);
    assert_eq!(style.look(false, false).border, blue);
    assert_eq!(CheckboxStyle::default(), CheckboxStyle::new());
}

#[test]
fn radio_colors_and_group_selection() {
    let blue = Color::new(37, 99, 235, 255);
    let slate = Color::new(148, 163, 184, 255);
    let grey = Color::new(203, 213, 225, 255);

    let on = radio::<()>(true).label("Daily").look();
    assert_eq!((on.border, on.dot, on.dot_size), (blue, blue, 10));
    let off = radio::<()>(false).look();
    assert_eq!((off.border, off.dot_size), (slate, 0));
    assert_eq!(off.background, Color::new(255, 255, 255, 255));
    let disabled = radio::<()>(true).disabled(true).look();
    assert_eq!((disabled.border, disabled.background, disabled.dot), (grey, grey, grey));

    let green = Color::new(16, 185, 129, 255);
    let style = RadioStyle::new().active_color(green);
    assert_eq!(style.look(true, false).border, green);
    assert_eq!(style.look(true, false).dot, green);

    let options = vec!["Daily".to_string(), "Weekly".to_string(), "Monthly".to_string()];
    let group = radio_group(1, options, |i: usize| i).active_color(green).horizontal();
    assert!(group.option_selected(1));
    assert!(!group.option_selected(0) && !group.option_selected(2));
    let group = group.vertical().direction(LayoutDirection::Row);
    assert!(group.option_selected(1));
}

#[test]
fn switch_reports_the_opposite_state() {
    assert!(switch::<()>(false).toggled_value());
    assert!(!switch::<bool>(true).on_toggle(|b: bool| b).toggled_value());
}

#[test]
fn dropdown_trigger_text_and_refresh() {
    let opts = vec!["Option 1".to_string(), "Option 2".to_string()];
    let d = dropdown::<()>(Some(0), opts.clone());
    assert_eq!(d.trigger_text(), "Option 1");
    assert_eq!(dropdown::<()>(None, opts.clone()).trigger_text(), "Select option...");
    assert_eq!(dropdown::<()>(Some(5), opts.clone()).placeholder("Pick one").trigger_text(), "Pick one");

    let light = d.selection_colors();
    assert_eq!(light.background, Color::new(239, 246, 255, 255));
    assert_eq!(light.text, Color::new(37, 99, 235, 255));
    let dark = dropdown::<()>(Some(0), opts.clone()).bg_color(Color::new(15, 23, 42, 255)).selection_colors();
    assert_eq!(dark.background, Color::new(59, 130, 246, 60));
    assert_eq!(dark.text, Color::new(96, 165, 250, 255));

    let same = dropdown::<()>(Some(0), opts.clone());
    let r = same.refresh(&d);
    assert!(!r.frame && !r.texts);
    let moved = dropdown::<()>(Some(1), opts.clone());
    assert!(moved.refresh(&d).texts);
    let renamed = dropdown::<()>(Some(0), vec!["Option 1".to_string(), "Option Two".to_string()]);
    assert!(renamed.refresh(&d).texts);
    let framed = dropdown::<()>(Some(0), opts).border_color(Color::new(0, 0, 0, 255));
    let r = framed.refresh(&d);
    assert!(r.frame && !r.texts);
}

#[test]
fn checkbox_and_radio_refresh() {
    let prev = checkbox::<()>(false).label("Accept Terms");
    let r = checkbox::<()>(true).label("Accept Terms").refresh(&prev, false, false);
    assert!(r.restyle && !r.relabel && r.reannounce);
    let r = checkbox::<()>(false).label("Accept").refresh(&prev, false, false);
    assert!(!r.restyle && r.relabel && r.reannounce);
    let r = checkbox::<()>(false).label("Accept Terms").refresh(&prev, true, false);
    assert!(r.restyle && r.relabel && !r.reannounce);
    let r = checkbox::<()>(false).label("Accept Terms").refresh(&prev, false, false);
    assert!(!r.restyle && !r.relabel && !r.reannounce);
    let r = checkbox::<()>(false).refresh(&prev, false, false);
    assert!(!r.restyle && r.relabel && r.reannounce);

    let prev = radio::<()>(false).label("Daily");
    let r = radio::<()>(false).label("Daily").disabled(true).refresh(&prev, false, false);
    assert!(r.restyle && r.relabel && r.reannounce);
    let r = radio::<()>(false).label("Daily").refresh(&prev, false, true);
    assert!(r.restyle && !r.relabel && !r.reannounce);
    let r = radio::<()>(false).label("Daily").dot_color(Color::new(1, 2, 3, 255)).refresh(&prev, false, false);
    assert!(r.restyle && !r.relabel && !r.reannounce);
}

#[test]
fn badge_and_chip_refresh() {
    let prev = badge::<(), _>("Active").success();
    let r = badge::<(), _>("Active").success().refresh(&prev);
    assert!(!r.retext && !r.repaint);
    let r = badge::<(), _>("Inactive").success().refresh(&prev);
    assert!(r.retext && !r.repaint);
    let r = badge::<(), _>("Active").error().refresh(&prev);
    assert!(r.retext && r.repaint);

    let plain = chip::<(), _>("Rust");
    assert!(!plain.shows_delete_button());
    let deletable = chip::<(), _>("Rust").on_delete(|| ());
    assert!(deletable.shows_delete_button());
    assert!(deletable.deletes_on(true));
    let r = chip::<(), _>("Rust").bg_color(Color::new(1, 2, 3, 255)).refresh(&plain);
    assert!(!r.retext && r.repaint);
    let r = chip::<(), _>("Verus").refresh(&plain);
    assert!(r.retext && !r.repaint);
}

#[test]
fn badge_text_from_any_string() {
    let b = badge::<(), _>("Active");
    assert!(!b.refresh(&badge::<(), _>(String::from("Active"))).retext);
    assert!(b.refresh(&badge::<(), _>(String::from("Idle"))).retext);
    let _line = mtk::ui::widgets::divider::v_divider::<()>().color(Color::new(1, 2, 3, 255));
}
