use mtk::ui::event::{
    CursorGrabPolicy, ViewEventExt,
    drag_transition, key_listener_fires, listener_calls, listener_reply, routes_to_next_child,
    DragEvent, DragPhase, EventElement, EventKind, EventResult, KeyActionKind, KeyScope,
    ListenerEvent, ListenerKind, ListenerReply,
};
use mtk::ui::focus::focus_on_click;
use mtk::ui::layer::{layer_entry, layer_exit, LayerEntry, LayerExit, LayerInput, LayerRouting};
use mtk::ui::memo::memoize_view;
use mtk::ui::overlay::{overlay_dismisses, OverlayInput, OverlayPlacement};

#[test]
fn event_results_combine() {
    assert_eq!(EventResult::Ignored.or(EventResult::Ignored), EventResult::Ignored);
    assert_eq!(EventResult::Ignored.or(EventResult::Handled), EventResult::Handled);
    assert_eq!(EventResult::Handled.or(EventResult::Ignored), EventResult::Handled);
    assert!(routes_to_next_child(false, EventResult::Ignored, false));
    assert!(!routes_to_next_child(false, EventResult::Handled, false));
    assert!(routes_to_next_child(true, EventResult::Handled, false));
    assert!(!routes_to_next_child(true, EventResult::Ignored, true));
}

#[test]
fn click_listener_fires_on_release_after_press() {
    let mut el = EventElement::new(());
    let press = ListenerEvent::MouseInput { pressed: true, over_self: true };
    let release = ListenerEvent::MouseInput { pressed: false, over_self: true };
    let out = el.respond(EventKind::Click, press, EventResult::Ignored, false);
    assert!(!out.fire);
    let out = el.respond(EventKind::Click, release, EventResult::Ignored, false);
    assert!(out.fire);
    assert_eq!(out.result, EventResult::Handled);
    let out = el.respond(EventKind::Click, release, EventResult::Ignored, false);
    assert!(!out.fire);
}

#[test]
fn hover_listeners_fire_on_crossings() {
    let mut el = EventElement::new(());
    let enter = ListenerEvent::CursorMoved { over_self: true };
    assert!(el.respond(EventKind::HoverIn, enter, EventResult::Ignored, false).fire);
    assert!(!el.respond(EventKind::HoverIn, enter, EventResult::Ignored, false).fire);
    let leave = ListenerEvent::CursorMoved { over_self: false };
    let mut other = EventElement::new(());
    other.respond(EventKind::HoverOut, enter, EventResult::Ignored, false);
    assert!(other.respond(EventKind::HoverOut, leave, EventResult::Ignored, false).fire);
    let out = el.respond(EventKind::HoverOut, leave, EventResult::Ignored, true);
    assert!(!out.fire);
}

#[test]
fn drag_gesture_phases() {
    let press = DragEvent::MouseInput { left: true, pressed: true, over_self: true };
    let release = DragEvent::MouseInput { left: true, pressed: false, over_self: false };
    assert_eq!(drag_transition(false, press, false), (true, Some(DragPhase::Start)));
    assert_eq!(drag_transition(true, DragEvent::CursorMoved, false), (true, Some(DragPhase::Move)));
    assert_eq!(drag_transition(true, release, false), (false, Some(DragPhase::End)));
    assert_eq!(drag_transition(false, DragEvent::CursorMoved, false), (false, None));
    assert_eq!(drag_transition(false, press, true), (false, None));
}

#[test]
fn key_listeners_respect_scope_and_action() {
    assert!(key_listener_fires(KeyActionKind::Down, KeyScope::Focused, true, true, false));
    assert!(!key_listener_fires(KeyActionKind::Down, KeyScope::Focused, true, true, true));
    assert!(key_listener_fires(KeyActionKind::Press, KeyScope::Global, false, true, true));
    assert!(!key_listener_fires(KeyActionKind::Up, KeyScope::Focused, false, false, false));
    assert!(key_listener_fires(KeyActionKind::Up, KeyScope::Global, false, false, false));
}

#[test]
fn listeners_defer_to_inner_messages() {
    assert!(listener_calls(false, true));
    assert!(!listener_calls(true, true));
    assert_eq!(listener_reply(ListenerKind::Scroll, false, true, false), ListenerReply::Handler);
    assert_eq!(listener_reply(ListenerKind::Tick, false, true, false), ListenerReply::InnerResult);
    assert_eq!(listener_reply(ListenerKind::Tick, false, true, true), ListenerReply::Handler);
    assert_eq!(listener_reply(ListenerKind::Scroll, true, true, true), ListenerReply::Inner);
}

#[test]
fn focusable_requests_focus_on_click() {
    assert_eq!(focus_on_click(EventResult::Ignored, false, true), (true, EventResult::Handled));
    assert_eq!(focus_on_click(EventResult::Ignored, true, true), (false, EventResult::Ignored));
    assert_eq!(focus_on_click(EventResult::Handled, false, false), (false, EventResult::Handled));
}

#[test]
fn layers_route_and_dismiss() {
    let f = LayerRouting {
        is_active: true,
        is_mounted: true,
        is_active_layer: true,
        is_modal: true,
        close_on_escape: true,
        close_on_backdrop: true,
        has_dismiss: true,
    };
    assert_eq!(layer_entry(f, LayerInput::EscapePressed), LayerEntry::Dismiss);
    assert_eq!(layer_entry(f, LayerInput::OtherKey), LayerEntry::ToLayer);
    let hidden = LayerRouting { is_active: false, ..f };
    assert_eq!(layer_entry(hidden, LayerInput::EscapePressed), LayerEntry::ToBase);
    let backdrop = LayerInput::MousePress { hit_layer: false, hit_backdrop: true };
    assert_eq!(layer_exit(f, backdrop, EventResult::Ignored, false), LayerExit::Dismiss);
    assert_eq!(layer_exit(f, LayerInput::CursorMoved, EventResult::Ignored, false), LayerExit::Block);
    assert_eq!(layer_exit(f, LayerInput::CursorMoved, EventResult::Handled, false), LayerExit::FromLayer);
    let plain = LayerRouting { is_modal: false, ..f };
    assert_eq!(layer_exit(plain, LayerInput::CursorMoved, EventResult::Ignored, false), LayerExit::ToBase);
}

#[test]
fn overlays_dismiss_and_flip() {
    assert!(overlay_dismisses(true, false, true, true, OverlayInput::EscapePressed));
    assert!(!overlay_dismisses(true, false, false, true, OverlayInput::EscapePressed));
    let outside = OverlayInput::MousePress { inside_anchor: false, inside_flyout: false };
    let inside = OverlayInput::MousePress { inside_anchor: false, inside_flyout: true };
    assert!(overlay_dismisses(false, true, true, true, outside));
    assert!(!overlay_dismisses(false, true, true, true, inside));
    assert!(!overlay_dismisses(false, true, true, false, outside));
    assert_eq!(OverlayPlacement::BottomStart.flipped(), OverlayPlacement::TopStart);
    assert_eq!(OverlayPlacement::Right.flipped(), OverlayPlacement::Left);
    assert_eq!(OverlayPlacement::LeftEnd.flipped().flipped(), OverlayPlacement::LeftEnd);
    assert_eq!(OverlayPlacement::default(), OverlayPlacement::BottomStart);
}

#[test]
fn memoized_views_rebuild_on_change_only() {
    let m = memoize_view(3u32, |d: &u32| *d + 1);
    assert!(!m.needs_rebuild(&3));
    assert!(m.needs_rebuild(&4));
}

#[test]
fn event_combinators_configure_handlers() {
    let key_down = ViewEventExt::<()>::on_key_down(1u8, |_: &(), _: u8| Some(()));
    assert!(key_down.fires(true, true, false));
    assert!(!key_down.fires(false, true, false));
    assert!(!key_down.fires(true, true, true));
    let global = ViewEventExt::<()>::on_global_key_down(1u8, |_: &()| ());
    assert!(global.fires(false, true, false));
    let up = ViewEventExt::<()>::on_key_up(1u8, |_: &()| ());
    assert!(up.fires(true, false, false) && !up.fires(true, true, false));
    let press = ViewEventExt::<()>::on_key_press(1u8, |_: &()| ());
    assert!(press.fires(true, true, true));
    let drag = ViewEventExt::<()>::on_drag(1u8, |_: &()| ());
    assert_eq!(drag.cursor_policy(), CursorGrabPolicy::Normal);
    let locked = ViewEventExt::<()>::on_drag_relative(1u8, |_: &()| ());
    assert_eq!(locked.cursor_policy(), CursorGrabPolicy::Locked);
    let click = ViewEventExt::<()>::on_event(1u8, EventKind::Click, |_: &()| Some(()));
    let mut el = EventElement::new(());
    click.respond(&mut el, ListenerEvent::MouseInput { pressed: true, over_self: true }, EventResult::Ignored, false);
    let out = click.respond(&mut el, ListenerEvent::MouseInput { pressed: false, over_self: true }, EventResult::Ignored, false);
    assert!(out.fire);
    let blur = ViewEventExt::<()>::on_blur(1u8, |_: &()| None::<()>);
    let mut el = EventElement::new(());
    assert!(blur.respond(&mut el, ListenerEvent::FocusLost { on_self: true }, EventResult::Ignored, false).fire);
    let _ = ViewEventExt::<()>::on_tick(1u8, |_: &(), _: f32| None::<()>);
    let _ = ViewEventExt::<()>::on_scroll(1u8, |_: &()| None::<()>);
    let _ = ViewEventExt::<()>::on_thumb_scroll(1u8, |_: &()| None::<()>);
}

/// Runs one event through a click-style listener wrapped around a view that answered
/// `inner`, emitting `msg` when the listener fires.
fn through_listener<S, V, F, M: Clone>(
    handler: &mtk::ui::event::EventHandler<S, V, F>,
    element: &mut EventElement<()>,
    ev: ListenerEvent,
    inner: (EventResult, Option<M>),
    msg: M,
) -> (EventResult, Option<M>) {
    element.note_press(ev);
    let out = handler.respond(element, ev, inner.0, inner.1.is_some());
    if inner.1.is_some() {
        return inner;
    }
    (out.result, if out.fire { Some(msg) } else { None })
}

#[derive(Clone, Debug, PartialEq)]
enum TestMsg {
    ChildClick,
    ParentClick,
}

#[test]
fn test_nested_event_handler_child_priority() {
    let child = ViewEventExt::<()>::on_event((), EventKind::Click, |_: &()| Some(TestMsg::ChildClick));
    let parent = ViewEventExt::<()>::on_event((), EventKind::Click, |_: &()| Some(TestMsg::ParentClick));
    let mut child_el = EventElement::new(());
    let mut parent_el = EventElement::new(());
    let text: (EventResult, Option<TestMsg>) = (EventResult::Ignored, None);

    let on_both = |pressed| ListenerEvent::MouseInput { pressed, over_self: true };
    let off = |pressed| ListenerEvent::MouseInput { pressed, over_self: false };

    let c = through_listener(&child, &mut child_el, on_both(true), text.clone(), TestMsg::ChildClick);
    let (res_down, msg_down) = through_listener(&parent, &mut parent_el, on_both(true), c, TestMsg::ParentClick);
    assert_eq!(res_down, EventResult::Ignored);
    assert_eq!(msg_down, None);

    let c = through_listener(&child, &mut child_el, on_both(false), text.clone(), TestMsg::ChildClick);
    let (res_up, msg_up) = through_listener(&parent, &mut parent_el, on_both(false), c, TestMsg::ParentClick);
    assert_eq!(res_up, EventResult::Handled);
    assert_eq!(msg_up, Some(TestMsg::ChildClick));

    let c = through_listener(&child, &mut child_el, off(true), text.clone(), TestMsg::ChildClick);
    let (p_down_res, p_down_msg) = through_listener(&parent, &mut parent_el, on_both(true), c, TestMsg::ParentClick);
    assert_eq!(p_down_res, EventResult::Ignored);
    assert_eq!(p_down_msg, None);

    let c = through_listener(&child, &mut child_el, off(false), text, TestMsg::ChildClick);
    let (p_up_res, p_up_msg) = through_listener(&parent, &mut parent_el, on_both(false), c, TestMsg::ParentClick);
    assert_eq!(p_up_res, EventResult::Handled);
    assert_eq!(p_up_msg, Some(TestMsg::ParentClick));
}

#[derive(Clone, Debug, PartialEq)]
enum BtnMsg {
    Press,
    Release,
}

#[test]
fn test_chained_press_and_release() {
    let inner = ViewEventExt::<()>::on_event((), EventKind::Press, |_: &()| Some(BtnMsg::Press));
    let outer = ViewEventExt::<()>::on_event((), EventKind::Release, |_: &()| Some(BtnMsg::Release));
    let mut inner_el = EventElement::new(());
    let mut outer_el = EventElement::new(());
    let text: (EventResult, Option<BtnMsg>) = (EventResult::Ignored, None);
    let down = ListenerEvent::MouseInput { pressed: true, over_self: true };
    let up = ListenerEvent::MouseInput { pressed: false, over_self: true };

    let i = through_listener(&inner, &mut inner_el, down, text.clone(), BtnMsg::Press);
    let (down_res, down_msg) = through_listener(&outer, &mut outer_el, down, i, BtnMsg::Release);
    assert_eq!(down_res, EventResult::Handled);
    assert_eq!(down_msg, Some(BtnMsg::Press));

    let i = through_listener(&inner, &mut inner_el, up, text, BtnMsg::Press);
    let (up_res, up_msg) = through_listener(&outer, &mut outer_el, up, i, BtnMsg::Release);
    assert_eq!(up_res, EventResult::Handled);
    assert_eq!(up_msg, Some(BtnMsg::Release));
}

#[test]
fn test_drag_gesture_lifecycle() {
    let target = ViewEventExt::<()>::on_drag((), |_: &()| ());
    assert_eq!(target.cursor_policy(), CursorGrabPolicy::Normal);
    let press = DragEvent::MouseInput { left: true, pressed: true, over_self: true };
    let release = DragEvent::MouseInput { left: true, pressed: false, over_self: false };
    let (dragging, phase) = drag_transition(false, press, false);
    assert!(dragging);
    assert_eq!(phase, Some(DragPhase::Start));
    let (dragging, phase) = drag_transition(dragging, DragEvent::CursorMoved, false);
    assert_eq!(phase, Some(DragPhase::Move));
    let (dragging, phase) = drag_transition(dragging, DragEvent::CursorMoved, false);
    assert_eq!(phase, Some(DragPhase::Move));
    let (dragging, phase) = drag_transition(dragging, release, false);
    assert!(!dragging);
    assert_eq!(phase, Some(DragPhase::End));
}

#[test]
fn test_drag_relative_gesture() {
    let dial = ViewEventExt::<()>::on_drag_relative((), |_: &()| ());
    assert_eq!(dial.cursor_policy(), CursorGrabPolicy::Locked);
    let press = DragEvent::MouseInput { left: true, pressed: true, over_self: true };
    let (dragging, _) = drag_transition(false, press, false);
    let (dragging, phase) = drag_transition(dragging, DragEvent::CursorMoved, false);
    assert_eq!(phase, Some(DragPhase::Move));
    let release = DragEvent::MouseInput { left: true, pressed: false, over_self: false };
    let (dragging, _) = drag_transition(dragging, release, false);
    assert!(!dragging);
}

#[derive(Clone, Debug, PartialEq)]
enum KeyMsg {
    EscPressed,
    EnterUp,
    GlobalA,
}

fn key_context(key: mtk::ui::event::LogicalKey, text: Option<&str>) -> mtk::ui::event::KeyEventContext {
    mtk::ui::event::KeyEventContext {
        logical_key: key,
        physical_key: winit::keyboard::PhysicalKey::Unidentified(winit::keyboard::NativeKeyCode::Unidentified),
        text: text.map(|t| t.to_string()),
        repeat: false,
        modifiers: mtk::ui::event::Modifiers { shift: false, control: false, alt: false, meta: false },
    }
}

/// Runs a key event through the three key listeners of the input, innermost first.
fn through_key_listeners(
    ctx: &mtk::ui::event::KeyEventContext,
    focused: bool,
    pressed: bool,
) -> (EventResult, Option<KeyMsg>) {
    let down = ViewEventExt::<()>::on_key_down((), |_: &()| ());
    let up = ViewEventExt::<()>::on_key_up((), |_: &()| ());
    let global = ViewEventExt::<()>::on_global_key_down((), |_: &()| ());
    let mut answer: (EventResult, Option<KeyMsg>) = (EventResult::Ignored, None);
    let layers: [(&dyn Fn() -> bool, Option<KeyMsg>); 3] = [
        (&|| down.fires(focused, pressed, ctx.repeat), if ctx.is_escape() { Some(KeyMsg::EscPressed) } else { None }),
        (&|| up.fires(focused, pressed, ctx.repeat), if ctx.is_enter() { Some(KeyMsg::EnterUp) } else { None }),
        (&|| global.fires(focused, pressed, ctx.repeat), if ctx.key_matches("a") { Some(KeyMsg::GlobalA) } else { None }),
    ];
    for (fires, msg) in layers.iter() {
        if answer.1.is_some() {
            continue;
        }
        if fires() {
            if let Some(m) = msg.clone() {
                answer = (EventResult::Handled, Some(m));
            }
        }
    }
    answer
}

#[test]
fn test_key_events_focused_and_global() {
    let esc = key_context(mtk::ui::event::LogicalKey::Named("Escape".to_string()), None);
    let (esc_res, esc_msg) = through_key_listeners(&esc, false, true);
    assert_eq!(esc_res, EventResult::Ignored);
    assert_eq!(esc_msg, None);

    let a = key_context(mtk::ui::event::LogicalKey::Character("a".to_string()), Some("a"));
    let (a_res, a_msg) = through_key_listeners(&a, false, true);
    assert_eq!(a_res, EventResult::Handled);
    assert_eq!(a_msg, Some(KeyMsg::GlobalA));

    let (f_res, f_msg) = through_key_listeners(&esc, true, true);
    assert_eq!(f_res, EventResult::Handled);
    assert_eq!(f_msg, Some(KeyMsg::EscPressed));

    let enter = key_context(mtk::ui::event::LogicalKey::Named("Enter".to_string()), None);
    let (enter_res, enter_msg) = through_key_listeners(&enter, true, false);
    assert_eq!(enter_res, EventResult::Handled);
    assert_eq!(enter_msg, Some(KeyMsg::EnterUp));
}

#[test]
fn test_overlay_outside_click_and_escape_dismissal() {
    let outside = OverlayInput::MousePress { inside_anchor: false, inside_flyout: false };
    assert!(overlay_dismisses(true, true, true, true, outside));
    assert!(overlay_dismisses(true, true, true, true, OverlayInput::EscapePressed));
}

#[test]
fn test_focusable_view_lifecycle_and_click_focus() {
    let (request, res) = focus_on_click(EventResult::Ignored, false, true);
    assert_eq!(res, EventResult::Handled);
    assert!(request);
}

#[test]
fn test_focus_lost_event_and_on_blur_handler() {
    let view = ViewEventExt::<()>::on_blur((), |_: &()| Some("blurred"));
    let mut el = EventElement::new(());
    let other = ListenerEvent::FocusLost { on_self: false };
    let (res_other, msg_other) = through_listener(&view, &mut el, other, (EventResult::Ignored, None), "blurred");
    assert_eq!(res_other, EventResult::Ignored);
    assert_eq!(msg_other, None);
    let own = ListenerEvent::FocusLost { on_self: true };
    let (res_self, msg_self) = through_listener(&view, &mut el, own, (EventResult::Ignored, None), "blurred");
    assert_eq!(res_self, EventResult::Handled);
    assert_eq!(msg_self, Some("blurred"));
}

#[test]
fn test_focus_transition_without_disruption() {
    let view_a = ViewEventExt::<()>::on_blur((), |_: &()| Some("a_lost_focus"));
    let mut el_a = EventElement::new(());
    let own = ListenerEvent::FocusLost { on_self: true };
    let (blur_res, blur_msg) = through_listener(&view_a, &mut el_a, own, (EventResult::Ignored, None), "a_lost_focus");
    assert_eq!(blur_res, EventResult::Handled);
    assert_eq!(blur_msg, Some("a_lost_focus"));
    let (request, click_res) = focus_on_click(EventResult::Ignored, false, true);
    assert_eq!(click_res, EventResult::Handled);
    assert!(request);
}

#[test]
fn memoized_cache_follows_the_input() {
    let m = memoize_view(3u32, |d: &u32| *d * 10);
    let mut cache = (3u32, 30u32);
    assert_eq!(m.update_cache(&mut cache), None);
    assert_eq!(cache, (3, 30));
    let m = memoize_view(4u32, |d: &u32| *d * 10);
    assert_eq!(m.update_cache(&mut cache), Some(30));
    assert_eq!(cache, (4, 40));
}
