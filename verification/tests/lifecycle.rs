use mtk::ui::layer::{focus_after_leaving, layer_rebuild, layer_tick, FocusRestore};
use mtk::ui::overlay::{overlay_result, FlyoutEvent, FlyoutState};
use mtk::ui::event::EventResult;
use mtk::ui::presence::{PresenceEvent, PresenceState, PresenceTarget};
use mtk::ui::router::{transition_layers, RouteEvent, RouterState};
use mtk::ui::transition::TransitionOrder;

#[test]
fn presence_enters_with_motion_and_settles() {
    let s = PresenceState::initial(false);
    assert!(!s.routes_events());
    let (s, act) = s.step(PresenceEvent::Rebuild { visible: true, animated: true });
    assert!(s.visible && s.has_child && s.entering && s.animating);
    assert!(act.build_child);
    assert_eq!(act.start_motion, Some(PresenceTarget::Child));
    assert!(act.request_frame);
    assert!(s.routes_events());
    let (s2, act) = s.step(PresenceEvent::Tick { still_animating: true, at_end: false });
    assert_eq!(act.step_motion, Some(PresenceTarget::Child));
    assert!(act.request_frame && !act.settle_child);
    let (_, act) = s2.step(PresenceEvent::Tick { still_animating: false, at_end: true });
    assert!(act.settle_child && !act.request_frame);
}

#[test]
fn presence_exit_defers_unmount_until_motion_ends() {
    let s = PresenceState::initial(true);
    let (s, act) = s.step(PresenceEvent::Rebuild { visible: false, animated: true });
    assert!(!s.has_child && s.has_outgoing);
    assert!(act.retire_child && !act.drop_retired);
    assert_eq!(act.start_motion, Some(PresenceTarget::Outgoing));
    let (s, act) = s.step(PresenceEvent::Tick { still_animating: true, at_end: false });
    assert!(s.has_outgoing && !act.finish_outgoing);
    let (s, act) = s.step(PresenceEvent::Tick { still_animating: false, at_end: false });
    assert!(!s.has_outgoing && act.finish_outgoing);
}

#[test]
fn presence_hides_at_once_without_motion() {
    let s = PresenceState::initial(true);
    let (s, act) = s.step(PresenceEvent::Rebuild { visible: false, animated: false });
    assert!(!s.has_child && !s.has_outgoing);
    assert!(act.retire_child && act.drop_retired);
    let (same, act) = s.step(PresenceEvent::Rebuild { visible: false, animated: true });
    assert_eq!(same, s);
    assert!(!act.build_child && !act.rebuild_child);
}

#[test]
fn router_swaps_views_on_route_change() {
    let s = RouterState::new(1u32);
    let (s, act) = s.step(RouteEvent::Rebuild { key: 1, animated: true, has_spec: false });
    assert!(act.rebuild_view && !act.swap_views);
    let (s, act) = s.step(RouteEvent::Rebuild { key: 2, animated: true, has_spec: true });
    assert_eq!(s.active_key, 2);
    assert!(s.has_outgoing);
    assert!(act.swap_views && act.clear_focus && act.start_transition && act.transition_from_spec);
    assert!(!act.drop_pending);
    let (s, act) = s.step(RouteEvent::Rebuild { key: 3, animated: false, has_spec: false });
    assert!(act.drop_pending && act.finish_at_once && !act.start_transition);
    assert!(!s.has_outgoing);
}

#[test]
fn router_finishes_transition_on_last_tick() {
    let s = RouterState { active_key: 'b', has_outgoing: true };
    let (s, act) = s.step(RouteEvent::Tick { still_animating: true, at_end: false });
    assert!(s.has_outgoing && act.step_transition && act.request_frame);
    let (s, act) = s.step(RouteEvent::Tick { still_animating: true, at_end: true });
    assert!(!s.has_outgoing && act.finish_transition && !act.request_frame);
    let (_, act) = s.step(RouteEvent::Tick { still_animating: false, at_end: true });
    assert!(!act.step_transition);
}

#[test]
fn transition_order_sets_stacking() {
    assert_eq!(transition_layers(TransitionOrder::IncomingOnTop), (0, 1));
    assert_eq!(transition_layers(TransitionOrder::OutgoingOnTop), (1, 0));
    assert_eq!(transition_layers(TransitionOrder::SameLevel), (0, 0));
    assert_eq!(transition_layers(TransitionOrder::default()), (0, 1));
}

#[test]
fn overlay_opens_and_closes_its_flyout() {
    let s = FlyoutState::initial(false);
    let (s, act) = s.step(FlyoutEvent::Rebuild { open: true, animated: false });
    assert!(s.open && s.has_flyout && !s.animating);
    assert!(act.build_flyout && act.update_geometry && !act.start_motion);
    let (s, act) = s.step(FlyoutEvent::Rebuild { open: false, animated: true });
    assert!(act.hide_overlay && act.retire_flyout && act.start_motion);
    assert!(s.has_outgoing && !s.has_flyout);
    let (s, act) = s.step(FlyoutEvent::Tick { still_animating: false, at_end: true });
    assert!(act.teardown_outgoing);
    assert!(!s.has_outgoing);
}

#[test]
fn overlay_prefers_flyout_message() {
    assert_eq!(overlay_result(EventResult::Ignored, true, EventResult::Handled), (EventResult::Ignored, true));
    assert_eq!(overlay_result(EventResult::Ignored, false, EventResult::Handled), (EventResult::Handled, false));
    assert_eq!(overlay_result(EventResult::Ignored, false, EventResult::Ignored), (EventResult::Ignored, false));
}

#[test]
fn layer_mounts_and_gives_focus_back() {
    let (mounted, change) = layer_rebuild(true, false, false, true, false, false);
    assert!(mounted && change.mount && change.clear_focus && change.retarget);
    let (mounted, change) = layer_rebuild(false, true, true, true, true, true);
    assert!(mounted);
    assert_eq!(change.restore, FocusRestore::RestoreSaved);
    let (mounted, change) = layer_rebuild(true, true, true, false, true, true);
    assert!(mounted && !change.retarget);
    let (mounted, tick) = layer_tick(false, true, true, false, true, false);
    assert!(!mounted && tick.unmount);
    assert_eq!(tick.restore, FocusRestore::Clear);
    let (mounted, tick) = layer_tick(true, true, false, true, false, false);
    assert!(mounted && tick.restyle && tick.request_frame && !tick.unmount);
    assert_eq!(focus_after_leaving(false, true), FocusRestore::Keep);
}

use mtk::ui::either::{BranchRebuild, Either};
use mtk::ui::style::{StyleInput, StyleVariant, StyledViewState};
use mtk::ui::widgets::async_image::{image_build, image_pointer, image_rebuild, ImageAction, ImagePointer, ImagePointerState};

#[test]
fn either_rebuilds_in_place_only_on_same_branch() {
    let a: Either<u8, char> = Either::Left(1);
    let b: Either<u8, char> = Either::Right('x');
    assert_eq!(a.rebuild_plan(&Either::<u8, char>::Left(2)), BranchRebuild::InPlace);
    assert_eq!(a.rebuild_plan(&b), BranchRebuild::Replace);
    assert_eq!(b.rebuild_plan(&Either::<u8, char>::Right('y')), BranchRebuild::InPlace);
}

#[test]
fn styled_view_tracks_interaction() {
    let mut s = StyledViewState::new();
    assert!(s.variants().is_empty());
    let step = s.before_event(false, StyleInput::CursorMoved { hit: true });
    assert!(step.restyle && step.request_frame && s.is_hovered);
    let step = s.before_event(false, StyleInput::CursorMoved { hit: true });
    assert!(!step.restyle);
    s.before_event(true, StyleInput::Mouse { pressed: true, hit: true });
    assert_eq!(s.variants(), vec![StyleVariant::Focus, StyleVariant::Hover, StyleVariant::Active]);
    s.is_animating = true;
    let step = s.before_event(true, StyleInput::Tick);
    assert!(step.restyle && !step.request_frame);
    assert!(s.after_event(false));
    assert!(!s.after_event(false));
    s.is_disabled = true;
    assert_eq!(s.variants()[0], StyleVariant::Disabled);
}

#[test]
fn async_image_attaches_cached_images() {
    assert_eq!(image_build(Some(7)), (Some(7), ImageAction::Attach));
    assert_eq!(image_build(None), (None, ImageAction::StartLoad));
    assert_eq!(image_rebuild(false, Some(7), Some(7), false), (Some(7), ImageAction::Keep));
    assert_eq!(image_rebuild(true, Some(7), Some(7), false), (Some(7), ImageAction::Attach));
    assert_eq!(image_rebuild(true, Some(7), None, true), (None, ImageAction::Keep));
    assert_eq!(image_rebuild(false, Some(7), None, false), (Some(7), ImageAction::StartLoad));
}

#[test]
fn async_image_clicks() {
    let s = ImagePointerState { pressed: false, hovered: false };
    let (s1, down) = image_pointer(true, s, ImagePointer::Mouse { pressed: true, hit: true });
    assert!(s1.pressed && !down.click);
    let (s2, up) = image_pointer(true, s1, ImagePointer::Mouse { pressed: false, hit: true });
    assert!(!s2.pressed && up.click);
    let (s3, away) = image_pointer(true, s1, ImagePointer::Mouse { pressed: false, hit: false });
    assert!(!s3.pressed && !away.click && away.redraw);
    let (_, none) = image_pointer(false, s1, ImagePointer::Mouse { pressed: false, hit: true });
    assert!(!none.click);
}

#[test]
fn test_presence_initial_hidden_and_enter() {
    let el = PresenceState::initial(false);
    assert!(!el.has_child);
    let (el, act) = el.step(PresenceEvent::Rebuild { visible: true, animated: true });
    assert!(el.has_child);
    assert!(el.entering);
    assert_eq!(act.start_motion, Some(PresenceTarget::Child));
    let (_, act) = el.step(PresenceEvent::Tick { still_animating: false, at_end: true });
    assert!(act.settle_child);
}

#[test]
fn test_presence_exit_and_deferred_unmount() {
    let el = PresenceState::initial(true);
    assert!(el.has_child);
    let (el, act) = el.step(PresenceEvent::Rebuild { visible: false, animated: true });
    assert!(!el.has_child);
    assert!(el.has_outgoing);
    assert!(act.retire_child && !act.drop_retired);
    let (el, act) = el.step(PresenceEvent::Tick { still_animating: false, at_end: true });
    assert!(act.finish_outgoing);
    assert!(!el.has_outgoing);
}

#[test]
fn test_router_transition_order_z_index() {
    let el = RouterState::new("a");
    let (el, _) = el.step(RouteEvent::Rebuild { key: "b", animated: true, has_spec: false });
    assert!(el.has_outgoing);
    let (out_z, cur_z) = transition_layers(TransitionOrder::OutgoingOnTop);
    assert_eq!(out_z, 1);
    assert_eq!(cur_z, 0);
    let (el, act) = el.step(RouteEvent::Tick { still_animating: false, at_end: true });
    assert!(!el.has_outgoing);
    assert!(act.finish_transition);
}

#[test]
fn test_router_transition_spec() {
    let el = RouterState::new(1usize);
    let (el, act) = el.step(RouteEvent::Rebuild { key: 2, animated: true, has_spec: true });
    assert!(act.transition_from_spec);
    assert!(el.has_outgoing);
    assert_eq!(transition_layers(TransitionOrder::IncomingOnTop), (0, 1));
    let (el, _) = el.step(RouteEvent::Tick { still_animating: false, at_end: true });
    assert!(!el.has_outgoing);
    let (el, _) = el.step(RouteEvent::Rebuild { key: 1, animated: true, has_spec: true });
    assert!(el.has_outgoing);
    assert_eq!(transition_layers(TransitionOrder::OutgoingOnTop), (1, 0));
}

#[test]
fn test_async_image_lifecycle() {
    let (attached, action) = image_build(Some(42));
    assert_eq!(attached, Some(42));
    assert_eq!(action, ImageAction::Attach);
    let (attached, action) = image_rebuild(false, attached, Some(42), false);
    assert_eq!(attached, Some(42));
    assert_eq!(action, ImageAction::Keep);
}
