use popup::controller::{PopupAction, PopupProps, PopupState, SettleOutcome, Visibility, WatchedProperty};
use popup::geometry::{Alignment, Point, Rect, SizeConstraint};
use popup::popup::{PopupTarget, RelativePosition, WidgetGeometry};
use popup::view::{MainViewState, ViewAction};

fn arena() -> Vec<WidgetGeometry> {
    vec![WidgetGeometry { position: Point::new(100, 100), bounds: Rect::new(0, 0, 50, 20) }]
}

fn props(visibility: Visibility) -> PopupProps {
    PopupProps {
        target: Some(PopupTarget::Entity(0)),
        bounds: Rect::new(0, 0, 150, 150),
        constraint: SizeConstraint::unconstrained(),
        relative_position: RelativePosition::Bottom(10),
        h_align: Alignment::Center,
        v_align: Alignment::Center,
        visibility,
    }
}

#[test]
fn init_queues_a_repositioning() {
    let mut s = PopupState::new();
    assert!(s.pending().is_empty());
    s.init();
    assert_eq!(s.pending(), &vec![PopupAction::UpdatePosition]);
    let r = s.update_post_layout(&props(Visibility::Visible), &arena());
    assert_eq!(r, SettleOutcome { bounds: Some(Rect::new(50, 130, 150, 150)), visibility: None });
    assert!(s.pending().is_empty());
}

#[test]
fn watched_properties_queue_in_order() {
    let mut s = PopupState::default();
    s.on_changed(WatchedProperty::Target);
    s.on_changed(WatchedProperty::Visibility);
    s.on_changed(WatchedProperty::RelativePosition);
    s.on_changed(WatchedProperty::HAlign);
    s.on_changed(WatchedProperty::VAlign);
    assert_eq!(
        s.pending(),
        &vec![
            PopupAction::UpdatePosition,
            PopupAction::UpdateVisibility,
            PopupAction::UpdatePosition,
            PopupAction::UpdatePosition,
            PopupAction::UpdatePosition,
        ]
    );
}

#[test]
fn hidden_popup_collapses() {
    let mut s = PopupState::new();
    s.update_visibility();
    let r = s.update_post_layout(&props(Visibility::Hidden), &arena());
    assert_eq!(r, SettleOutcome { bounds: None, visibility: Some(Visibility::Collapsed) });
    assert!(s.pending().is_empty());
}

#[test]
fn visible_popup_stays_visible() {
    let mut s = PopupState::new();
    s.update_visibility();
    let r = s.update_post_layout(&props(Visibility::Visible), &arena());
    assert_eq!(r, SettleOutcome { bounds: None, visibility: None });
    let mut s = PopupState::new();
    s.update_visibility();
    let r = s.update_post_layout(&props(Visibility::Collapsed), &arena());
    assert_eq!(r.visibility, None);
}

#[test]
fn three_repositionings_write_once() {
    let mut s = PopupState::new();
    s.update_position();
    s.update_position();
    s.update_position();
    let r = s.update_post_layout(&props(Visibility::Visible), &arena());
    assert_eq!(r, SettleOutcome { bounds: Some(Rect::new(50, 130, 150, 150)), visibility: None });
    assert!(s.pending().is_empty());
    let again = s.update_post_layout(&props(Visibility::Visible), &arena());
    assert_eq!(again, SettleOutcome { bounds: None, visibility: None });
}

#[test]
fn repeated_repositioning_reads_the_last_bounds() {
    // A point target is centred by the popup's current size, which a
    // stretched placement changes; the second pass starts from the first.
    let mut p = props(Visibility::Visible);
    p.target = Some(PopupTarget::Point(Point::new(200, 200)));
    p.h_align = Alignment::Stretch;
    let mut s = PopupState::new();
    s.update_position();
    let once = s.update_post_layout(&p, &arena()).bounds.unwrap();
    assert_eq!(once, Rect::new(275, 285, 0, 150));
    s.update_position();
    s.update_position();
    let twice = s.update_post_layout(&p, &arena()).bounds.unwrap();
    let mut q = p;
    q.bounds = once;
    assert_eq!(PopupState::update_position_internal(&q, &arena()), Some(twice));
    assert_eq!(twice, Rect::new(200, 285, 0, 150));
}

#[test]
fn unresolved_target_keeps_bounds() {
    let mut p = props(Visibility::Hidden);
    p.target = Some(PopupTarget::Entity(5));
    let mut s = PopupState::new();
    s.update_position();
    s.update_visibility();
    let r = s.update_post_layout(&p, &arena());
    assert_eq!(r, SettleOutcome { bounds: None, visibility: Some(Visibility::Collapsed) });
    p.target = None;
    assert_eq!(PopupState::update_position_internal(&p, &arena()), None);
}

#[test]
fn toggle_alternates_show_and_hide() {
    let mut v = MainViewState::new();
    v.init(3);
    assert!(v.show_popup);
    v.toggle_popup();
    assert_eq!(v.action, Some(ViewAction::Hide));
    assert!(!v.show_popup);
    assert_eq!(v.take_action(), Some((ViewAction::Hide, 3)));
    assert_eq!(v.action, None);
    v.toggle_popup();
    assert_eq!(v.take_action(), Some((ViewAction::Show, 3)));
    assert!(v.show_popup);
    v.update_relative_position();
    assert_eq!(v.take_action(), Some((ViewAction::UpdateRelativePosition, 3)));
    assert_eq!(v.take_action(), None);
}

#[test]
fn view_action_visibility() {
    assert_eq!(ViewAction::Show.popup_visibility(), Some(Visibility::Visible));
    assert_eq!(ViewAction::Hide.popup_visibility(), Some(Visibility::Hidden));
    assert_eq!(ViewAction::UpdateRelativePosition.popup_visibility(), None);
}

#[test]
fn side_index_selects_side() {
    let rp = RelativePosition::Bottom(10);
    assert_eq!(rp.with_side_index(0), Some(RelativePosition::Bottom(10)));
    assert_eq!(rp.with_side_index(1), Some(RelativePosition::Top(10)));
    assert_eq!(rp.with_side_index(2), Some(RelativePosition::Left(10)));
    assert_eq!(rp.with_side_index(3), Some(RelativePosition::Right(10)));
    assert_eq!(rp.with_side_index(4), None);
}
