use popup::geometry::{half, Alignment, Point, Rect, SizeConstraint};
use popup::popup::{compute_bounds, resolve_target, PopupTarget, RelativePosition, WidgetGeometry};

fn target() -> Rect {
    Rect::new(100, 100, 50, 20)
}

fn popup_rect() -> Rect {
    Rect::new(0, 0, 150, 150)
}

fn place(rp: RelativePosition, h: Alignment, v: Alignment) -> Rect {
    compute_bounds(&target(), &popup_rect(), &SizeConstraint::unconstrained(), rp, h, v)
}

#[test]
fn bottom_centered_below_target() {
    let r = place(RelativePosition::Bottom(10), Alignment::Center, Alignment::Center);
    assert_eq!(r, Rect::new(50, 130, 150, 150));
}

#[test]
fn left_centered_beside_target() {
    let r = place(RelativePosition::Left(5), Alignment::Center, Alignment::Center);
    assert_eq!(r, Rect::new(-55, 35, 150, 150));
}

#[test]
fn right_start_aligned() {
    let r = place(RelativePosition::Right(7), Alignment::Start, Alignment::Start);
    assert_eq!(r, Rect::new(157, 100, 150, 150));
}

#[test]
fn top_end_aligned() {
    let r = place(RelativePosition::Top(3), Alignment::End, Alignment::End);
    assert_eq!(r, Rect::new(0, -53, 150, 150));
}

#[test]
fn stretch_takes_target_extent() {
    let r = place(RelativePosition::Bottom(0), Alignment::Stretch, Alignment::Start);
    assert_eq!(r, Rect::new(100, 120, 50, 150));
    let r = place(RelativePosition::Right(0), Alignment::Start, Alignment::Stretch);
    assert_eq!(r, Rect::new(150, 100, 150, 20));
}

#[test]
fn anchor_edge_on_every_side() {
    let t = target();
    for d in [-40i64, -1, 0, 1, 25] {
        for a in [Alignment::Start, Alignment::Center, Alignment::End, Alignment::Stretch] {
            let r = place(RelativePosition::Left(d), a, a);
            assert_eq!(r.x + r.width + d, t.x);
            let r = place(RelativePosition::Right(d), a, a);
            assert_eq!(r.x - d, t.x + t.width);
            let r = place(RelativePosition::Top(d), a, a);
            assert_eq!(r.y + r.height + d, t.y);
            let r = place(RelativePosition::Bottom(d), a, a);
            assert_eq!(r.y - d, t.y + t.height);
        }
    }
}

#[test]
fn negative_distance_overlaps_target() {
    let r = place(RelativePosition::Bottom(-30), Alignment::Start, Alignment::Start);
    assert_eq!(r.y, 90);
}

#[test]
fn same_inputs_same_rectangle() {
    let a = place(RelativePosition::Left(5), Alignment::Center, Alignment::End);
    let b = place(RelativePosition::Left(5), Alignment::Center, Alignment::End);
    assert_eq!(a, b);
}

#[test]
fn constraint_bounds_the_size() {
    let mut k = SizeConstraint::unconstrained();
    k.max_width = 100;
    k.min_height = 200;
    let r = compute_bounds(
        &target(),
        &popup_rect(),
        &k,
        RelativePosition::Bottom(10),
        Alignment::Start,
        Alignment::Start,
    );
    assert_eq!(r, Rect::new(100, 130, 100, 200));
}

#[test]
fn constraint_fixed_size_wins() {
    let mut k = SizeConstraint::unconstrained();
    k.width = 80;
    k.height = 40;
    assert_eq!(k.perform((150, 150)), (80, 40));
    k.max_width = 60;
    assert_eq!(k.perform((150, 150)), (60, 40));
}

#[test]
fn constraint_leaves_size_inside_bounds() {
    let k = SizeConstraint {
        width: 0,
        height: 0,
        min_width: 10,
        min_height: 10,
        max_width: 100,
        max_height: 100,
    };
    assert_eq!(k.perform((50, 60)), (50, 60));
    assert_eq!(k.perform((5, 500)), (10, 100));
    assert_eq!(SizeConstraint::default().perform((-3, 7)), (-3, 7));
}

#[test]
fn alignment_within_span() {
    assert_eq!(Alignment::Start.align_position(50, 150, 100, 150), 100);
    assert_eq!(Alignment::Center.align_position(50, 150, 100, 150), 50);
    assert_eq!(Alignment::End.align_position(50, 150, 100, 150), 0);
    assert_eq!(Alignment::Stretch.align_position(50, 150, 100, 150), 100);
    assert_eq!(Alignment::Stretch.align_measure(50, 150, 0, 0), 50);
    assert_eq!(Alignment::Stretch.align_measure(50, 150, 5, 10), 35);
    assert_eq!(Alignment::Center.align_measure(50, 150, 5, 10), 150);
    assert_eq!(Alignment::default(), Alignment::Stretch);
}

#[test]
fn half_rounds_down() {
    assert_eq!(half(7), 3);
    assert_eq!(half(-7), -4);
    assert_eq!(half(-8), -4);
    assert_eq!(half(0), 0);
    assert_eq!(half(i64::MIN), i64::MIN / 2);
}

#[test]
fn point_target_centres_the_popup() {
    let p = PopupTarget::Point(Point::new(200, 200));
    let current = popup_rect();
    let widgets: Vec<WidgetGeometry> = Vec::new();
    let t = resolve_target(&p, &current, &widgets).unwrap();
    assert_eq!(t, Rect::new(275, 275, 0, 0));
    let k = SizeConstraint::unconstrained();
    let r = compute_bounds(&t, &current, &k, RelativePosition::Bottom(10), Alignment::End, Alignment::Start);
    assert_eq!(r.x, 200 - 75);
    assert_eq!(r.y, 200 + 75 + 10);
    let r = compute_bounds(&t, &current, &k, RelativePosition::Bottom(10), Alignment::Center, Alignment::Start);
    assert_eq!(r.x, 200);
}

#[test]
fn entity_target_uses_position_and_size() {
    let widgets = vec![
        WidgetGeometry { position: Point::new(1, 2), bounds: Rect::new(0, 0, 3, 4) },
        WidgetGeometry { position: Point::new(100, 100), bounds: Rect::new(7, 9, 50, 20) },
    ];
    let current = popup_rect();
    assert_eq!(resolve_target(&PopupTarget::Entity(1), &current, &widgets), Some(target()));
    assert_eq!(resolve_target(&PopupTarget::Entity(2), &current, &widgets), None);
}

#[test]
fn target_defaults_and_conversions() {
    assert_eq!(PopupTarget::default(), PopupTarget::Point(Point::new(100, 100)));
    assert_eq!(PopupTarget::from(4u32), PopupTarget::Entity(4));
    assert_eq!(PopupTarget::from(Point::new(3, 4)), PopupTarget::Point(Point { x: 3, y: 4 }));
}

#[test]
fn relative_position_keeps_distance() {
    let rp = RelativePosition::default();
    assert_eq!(rp, RelativePosition::Bottom(1));
    assert_eq!(rp.get_distance(), 1);
    let rp = RelativePosition::Left(-12);
    assert_eq!(rp.get_distance(), -12);
    assert_eq!(rp.to_top(), RelativePosition::Top(-12));
    assert_eq!(rp.to_bottom(), RelativePosition::Bottom(-12));
    assert_eq!(rp.to_right(), RelativePosition::Right(-12));
    assert_eq!(RelativePosition::Top(9).to_left(), RelativePosition::Left(9));
}
