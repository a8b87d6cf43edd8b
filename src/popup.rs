//! What a popup is placed against and on which side, and the positioning
//! engine that computes its rectangle.
use vstd::prelude::*;

use crate::geometry::{
    aligned_measure, aligned_position, coord_ok, Alignment, Point, Rect, SizeConstraint,
};

verus! {

/// What the popup is placed against: another widget, by its handle, or a
/// fixed point, which the popup's centre is placed on.
#[derive(Clone, Copy, Debug, PartialEq, Eq, Structural)]
pub enum PopupTarget {
    Entity(u32),
    Point(Point),
}

impl Default for PopupTarget {
    fn default() -> (r: PopupTarget)
        ensures
            r == PopupTarget::Point(Point { x: 100, y: 100 }),
    {
        PopupTarget::Point(Point::new(100, 100))
    }
}

impl From<u32> for PopupTarget {
    fn from(entity: u32) -> (r: PopupTarget)
        ensures
            r == PopupTarget::Entity(entity),
    {
        PopupTarget::Entity(entity)
    }
}

impl vstd::std_specs::convert::FromSpecImpl<u32> for PopupTarget {
    open spec fn obeys_from_spec() -> bool {
        true
    }

    open spec fn from_spec(entity: u32) -> PopupTarget {
        PopupTarget::Entity(entity)
    }
}

impl From<Point> for PopupTarget {
    fn from(point: Point) -> (r: PopupTarget)
        ensures
            r == PopupTarget::Point(point),
    {
        PopupTarget::Point(point)
    }
}

impl vstd::std_specs::convert::FromSpecImpl<Point> for PopupTarget {
    open spec fn obeys_from_spec() -> bool {
        true
    }

    open spec fn from_spec(point: Point) -> PopupTarget {
        PopupTarget::Point(point)
    }
}

/// The side of the target that the popup is placed on, with its distance
/// from that side of the target.
#[derive(Clone, Copy, Debug, PartialEq, Eq, Structural)]
pub enum RelativePosition {
    Top(i64),
    Bottom(i64),
    Left(i64),
    Right(i64),
}

impl Default for RelativePosition {
    fn default() -> (r: RelativePosition)
        ensures
            r == RelativePosition::Bottom(1),
    {
        RelativePosition::Bottom(1)
    }
}

impl RelativePosition {
    /// The distance, whatever the side.
    pub open spec fn distance(self) -> i64 {
        match self {
            RelativePosition::Top(d) => d,
            RelativePosition::Bottom(d) => d,
            RelativePosition::Left(d) => d,
            RelativePosition::Right(d) => d,
        }
    }

    pub fn get_distance(&self) -> (r: i64)
        ensures
            r == self.distance(),
    {
        match self {
            RelativePosition::Top(d) => *d,
            RelativePosition::Bottom(d) => *d,
            RelativePosition::Left(d) => *d,
            RelativePosition::Right(d) => *d,
        }
    }

    pub fn to_top(self) -> (r: RelativePosition)
        ensures
            r == RelativePosition::Top(self.distance()),
    {
        RelativePosition::Top(self.get_distance())
    }

    pub fn to_bottom(self) -> (r: RelativePosition)
        ensures
            r == RelativePosition::Bottom(self.distance()),
    {
        RelativePosition::Bottom(self.get_distance())
    }

    pub fn to_left(self) -> (r: RelativePosition)
        ensures
            r == RelativePosition::Left(self.distance()),
    {
        RelativePosition::Left(self.get_distance())
    }

    pub fn to_right(self) -> (r: RelativePosition)
        ensures
            r == RelativePosition::Right(self.distance()),
    {
        RelativePosition::Right(self.get_distance())
    }
}

/// The rectangle of a popup of size `current` placed against `target`.
///
/// Left and Right keep the current width and put the popup `distance` away
/// from the target's left or right edge; its vertical place and height
/// follow `v_align` within the target's vertical span. Top and Bottom do the
/// same with the axes swapped. The size is then held to `constraint`.
pub open spec fn popup_bounds(
    target: Rect,
    current: Rect,
    constraint: SizeConstraint,
    relative_position: RelativePosition,
    h_align: Alignment,
    v_align: Alignment,
) -> Rect {
    let (tx, ty, tw, th) = (target.x as int, target.y as int, target.width as int, target.height as int);
    let (w, h) = (current.width as int, current.height as int);
    match relative_position {
        RelativePosition::Left(d) => Rect {
            x: (tx - w - d) as i64,
            y: aligned_position(v_align, th, h, ty, ty + th) as i64,
            width: constraint.width_of(w) as i64,
            height: constraint.height_of(aligned_measure(v_align, th, h, 0, 0)) as i64,
        },
        RelativePosition::Right(d) => Rect {
            x: (tx + tw + d) as i64,
            y: aligned_position(v_align, th, h, ty, ty + th) as i64,
            width: constraint.width_of(w) as i64,
            height: constraint.height_of(aligned_measure(v_align, th, h, 0, 0)) as i64,
        },
        RelativePosition::Top(d) => Rect {
            x: aligned_position(h_align, tw, w, tx, tx + tw) as i64,
            y: (ty - h - d) as i64,
            width: constraint.width_of(aligned_measure(h_align, tw, w, 0, 0)) as i64,
            height: constraint.height_of(h) as i64,
        },
        RelativePosition::Bottom(d) => Rect {
            x: aligned_position(h_align, tw, w, tx, tx + tw) as i64,
            y: (ty + th + d) as i64,
            width: constraint.width_of(aligned_measure(h_align, tw, w, 0, 0)) as i64,
            height: constraint.height_of(h) as i64,
        },
    }
}

/// Computes the popup's new rectangle from the target's resolved rectangle,
/// the popup's current rectangle and constraint, the side and distance, and
/// the popup's alignments.
pub fn compute_bounds(
    target: &Rect,
    current: &Rect,
    constraint: &SizeConstraint,
    relative_position: RelativePosition,
    h_align: Alignment,
    v_align: Alignment,
) -> (r: Rect)
    requires
        target.wf(),
        current.size_ok(),
        constraint.wf(),
        coord_ok(relative_position.distance() as int),
    ensures
        r == popup_bounds(*target, *current, *constraint, relative_position, h_align, v_align),
{
    let (w, h) = (current.width, current.height);
    match relative_position {
        RelativePosition::Left(d) | RelativePosition::Right(d) => {
            let x: i64 = match relative_position {
                RelativePosition::Left(_) => target.x - w - d,
                _ => target.x + target.width + d,
            };
            let y = v_align.align_position(target.height, h, target.y, target.y + target.height);
            let height = v_align.align_measure(target.height, h, 0, 0);
            let size = constraint.perform((w, height));
            Rect::new(x, y, size.0, size.1)
        },
        RelativePosition::Top(d) | RelativePosition::Bottom(d) => {
            let x = h_align.align_position(target.width, w, target.x, target.x + target.width);
            let y: i64 = match relative_position {
                RelativePosition::Top(_) => target.y - h - d,
                _ => target.y + target.height + d,
            };
            let width = h_align.align_measure(target.width, w, 0, 0);
            let size = constraint.perform((width, h));
            Rect::new(x, y, size.0, size.1)
        },
    }
}

/// The geometry of a widget that a popup can be placed against: its position
/// after layout and its bounds, whose size is the widget's effective size.
#[derive(Clone, Copy, Debug, PartialEq, Eq, Structural)]
pub struct WidgetGeometry {
    pub position: Point,
    pub bounds: Rect,
}

impl WidgetGeometry {
    pub open spec fn wf(self) -> bool {
        self.position.wf() && self.bounds.size_ok()
    }
}

/// Every widget of the arena has accepted geometry.
pub open spec fn widgets_wf(widgets: Seq<WidgetGeometry>) -> bool {
    forall|i: int| 0 <= i < widgets.len() ==> (#[trigger] widgets[i]).wf()
}

/// The rectangle that `target` stands for, for a popup of size `current`,
/// when it resolves: a widget of the arena gives its size at its position;
/// a point gives an empty rectangle moved by half the popup's size, so that
/// the popup is centred on the point.
pub open spec fn resolved_target(
    target: PopupTarget,
    current: Rect,
    widgets: Seq<WidgetGeometry>,
) -> Option<Rect> {
    match target {
        PopupTarget::Entity(e) => if (e as int) < widgets.len() {
            let g = widgets[e as int];
            Some(
                Rect {
                    x: g.position.x,
                    y: g.position.y,
                    width: g.bounds.width,
                    height: g.bounds.height,
                },
            )
        } else {
            None
        },
        PopupTarget::Point(p) => Some(
            Rect {
                x: (p.x + current.width / 2) as i64,
                y: (p.y + current.height / 2) as i64,
                width: 0,
                height: 0,
            },
        ),
    }
}

/// The target is a point, or a widget of the arena.
pub open spec fn target_ok(target: PopupTarget) -> bool {
    match target {
        PopupTarget::Point(p) => p.wf(),
        PopupTarget::Entity(_) => true,
    }
}

/// Resolves the target to a rectangle; `None` where its handle names no
/// widget of the arena.
pub fn resolve_target(target: &PopupTarget, current: &Rect, widgets: &Vec<WidgetGeometry>) -> (r:
    Option<Rect>)
    requires
        target_ok(*target),
        current.size_ok(),
        widgets_wf(widgets@),
    ensures
        r == resolved_target(*target, *current, widgets@),
        r matches Some(t) ==> t.wf(),
{
    match target {
        PopupTarget::Entity(e) => {
            let i = *e as usize;
            if i < widgets.len() {
                let g = widgets[i];
                assert(widgets@[i as int].wf());
                Some(Rect::new(g.position.x, g.position.y, g.bounds.width, g.bounds.height))
            } else {
                None
            }
        },
        PopupTarget::Point(p) => {
            let x = p.x + crate::geometry::half(current.width);
            let y = p.y + crate::geometry::half(current.height);
            Some(Rect::new(x, y, 0, 0))
        },
    }
}

/// The side of the popup that faces the target lies `distance` away from
/// the target's facing side; on Left and Top this holds where the
/// constraint keeps the popup's extent along that axis.
pub proof fn lemma_anchor_edge(
    target: Rect,
    current: Rect,
    constraint: SizeConstraint,
    relative_position: RelativePosition,
    h_align: Alignment,
    v_align: Alignment,
)
    requires
        target.wf(),
        current.size_ok(),
        constraint.wf(),
        coord_ok(relative_position.distance() as int),
        relative_position is Left ==> constraint.width_of(current.width as int)
            == current.width,
        relative_position is Top ==> constraint.height_of(current.height as int)
            == current.height,
    ensures
        ({
            let r = popup_bounds(target, current, constraint, relative_position, h_align, v_align);
            let d = relative_position.distance();
            match relative_position {
                RelativePosition::Left(_) => r.x + r.width + d == target.x,
                RelativePosition::Right(_) => r.x - d == target.x + target.width,
                RelativePosition::Top(_) => r.y + r.height + d == target.y,
                RelativePosition::Bottom(_) => r.y - d == target.y + target.height,
            }
        }),
{
    crate::geometry::lemma_constrained_in_range(constraint, current.width as int, current.height as int);
}

/// The engine is a function of its inputs: two computations from the same
/// inputs give the same rectangle.
pub proof fn lemma_compute_bounds_deterministic(
    target: Rect,
    current: Rect,
    constraint: SizeConstraint,
    relative_position: RelativePosition,
    h_align: Alignment,
    v_align: Alignment,
    first: Rect,
    second: Rect,
)
    requires
        first == popup_bounds(target, current, constraint, relative_position, h_align, v_align),
        second == popup_bounds(target, current, constraint, relative_position, h_align, v_align),
    ensures
        first == second,
{
}

/// A popup of size (w, h) placed below a point, `d` away: its top lies
/// `h / 2 + d` below the point, and its left side is where `h_align` puts
/// an element of width `w` on the empty span at `w / 2` right of the point.
pub proof fn lemma_point_target_below(
    px: i64,
    py: i64,
    current: Rect,
    constraint: SizeConstraint,
    d: i64,
    h_align: Alignment,
    v_align: Alignment,
    widgets: Seq<WidgetGeometry>,
)
    requires
        (Point { x: px, y: py }).wf(),
        current.size_ok(),
        constraint.wf(),
        coord_ok(d as int),
    ensures
        ({
            let t = resolved_target(PopupTarget::Point(Point { x: px, y: py }), current, widgets);
            let r = popup_bounds(
                t.unwrap(),
                current,
                constraint,
                RelativePosition::Bottom(d),
                h_align,
                v_align,
            );
            let cx = px + current.width / 2;
            &&& (t is Some)
            &&& r.y == py + current.height / 2 + d
            &&& r.x == aligned_position(h_align, 0, current.width as int, cx, cx)
        }),
{
}

} // verus!
