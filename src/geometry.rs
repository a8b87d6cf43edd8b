//! Integer geometry: points, rectangles, alignment along one axis and
//! size constraints.
use vstd::prelude::*;

verus! {

/// Largest magnitude of a coordinate, extent or distance handed to the
/// positioning code. Sums of a few such values stay inside `i64`.
pub const COORD_MAX: i64 = 0x10_0000_0000_0000;

/// A coordinate, extent or distance that the positioning code accepts.
pub open spec fn coord_ok(v: int) -> bool {
    -COORD_MAX <= v <= COORD_MAX
}

/// A position derived from accepted coordinates by adding an extent.
pub open spec fn pos_ok(v: int) -> bool {
    -2 * COORD_MAX <= v <= 2 * COORD_MAX
}

/// A span end derived from a few accepted coordinates.
pub open spec fn span_ok(v: int) -> bool {
    -4 * COORD_MAX <= v <= 4 * COORD_MAX
}

/// `v / 2`, rounded towards negative infinity.
pub fn half(v: i64) -> (r: i64)
    ensures
        r == v / 2,
{
    if v >= 0 {
        v / 2
    } else {
        let n: i64 = -(v + 1);
        let h: i64 = n / 2;
        assert(-h - 1 == v / 2) by (nonlinear_arith)
            requires
                n == -(v + 1),
                h == n / 2,
                v < 0,
        ;
        -h - 1
    }
}

/// A location in the plane.
#[derive(Clone, Copy, Debug, PartialEq, Eq, Structural)]
pub struct Point {
    pub x: i64,
    pub y: i64,
}

impl Point {
    /// Both coordinates are accepted.
    pub open spec fn wf(self) -> bool {
        coord_ok(self.x as int) && coord_ok(self.y as int)
    }

    pub fn new(x: i64, y: i64) -> (r: Point)
        ensures
            r == (Point { x, y }),
    {
        Point { x, y }
    }
}

/// An axis-aligned rectangle: its top-left corner and its size.
#[derive(Clone, Copy, Debug, PartialEq, Eq, Structural)]
pub struct Rect {
    pub x: i64,
    pub y: i64,
    pub width: i64,
    pub height: i64,
}

impl Rect {
    pub fn new(x: i64, y: i64, width: i64, height: i64) -> (r: Rect)
        ensures
            r == (Rect { x, y, width, height }),
    {
        Rect { x, y, width, height }
    }

    /// The corner is a derived position and the size is made of accepted
    /// extents.
    pub open spec fn wf(self) -> bool {
        &&& pos_ok(self.x as int)
        &&& pos_ok(self.y as int)
        &&& coord_ok(self.width as int)
        &&& coord_ok(self.height as int)
    }

    /// The width and the height are extents that the positioning code accepts.
    pub open spec fn size_ok(self) -> bool {
        coord_ok(self.width as int) && coord_ok(self.height as int)
    }
}

/// Where an element sits along one axis of the span it is placed in.
#[derive(Clone, Copy, Debug, PartialEq, Eq, Structural)]
pub enum Alignment {
    Start,
    Center,
    End,
    Stretch,
}

impl Default for Alignment {
    fn default() -> (r: Alignment)
        ensures
            r == Alignment::Stretch,
    {
        Alignment::Stretch
    }
}

/// Position of an element of extent `measure` in the span from `start` to
/// `end`, whose extent is `available`.
pub open spec fn aligned_position(
    a: Alignment,
    available: int,
    measure: int,
    start: int,
    end: int,
) -> int {
    match a {
        Alignment::Start | Alignment::Stretch => start,
        Alignment::Center => start + (available - measure) / 2,
        Alignment::End => end - measure,
    }
}

/// Extent of an element of extent `measure` in a span of extent `available`,
/// less the margins at its two ends.
pub open spec fn aligned_measure(
    a: Alignment,
    available: int,
    measure: int,
    margin_start: int,
    margin_end: int,
) -> int {
    match a {
        Alignment::Stretch => available - margin_start - margin_end,
        _ => measure,
    }
}

impl Alignment {
    /// Places an element of extent `measure` in the span from `start` to
    /// `end`: at its start, centred, flush with its end, or (stretched) at
    /// its start.
    pub fn align_position(self, available: i64, measure: i64, start: i64, end: i64) -> (r: i64)
        requires
            coord_ok(available as int),
            coord_ok(measure as int),
            span_ok(start as int),
            span_ok(end as int),
        ensures
            r == aligned_position(self, available as int, measure as int, start as int, end as int),
    {
        match self {
            Alignment::Start | Alignment::Stretch => start,
            Alignment::Center => start + half(available - measure),
            Alignment::End => end - measure,
        }
    }

    /// The extent of an element: the span less its margins when stretched,
    /// its own extent otherwise.
    pub fn align_measure(
        self,
        available: i64,
        measure: i64,
        margin_start: i64,
        margin_end: i64,
    ) -> (r: i64)
        requires
            coord_ok(available as int),
            coord_ok(measure as int),
            coord_ok(margin_start as int),
            coord_ok(margin_end as int),
        ensures
            r == aligned_measure(
                self,
                available as int,
                measure as int,
                margin_start as int,
                margin_end as int,
            ),
    {
        match self {
            Alignment::Stretch => available - margin_start - margin_end,
            _ => measure,
        }
    }
}

/// Size requirements of an element: a fixed width and height where
/// positive, and bounds where positive.
#[derive(Clone, Copy, Debug, PartialEq, Eq, Structural)]
pub struct SizeConstraint {
    pub width: i64,
    pub height: i64,
    pub min_width: i64,
    pub min_height: i64,
    pub max_width: i64,
    pub max_height: i64,
}

/// One extent `val` held to a constraint on one axis.
pub open spec fn constrained(val: int, min: int, max: int, size: int) -> int {
    if min == 0 && max == 0 && size > 0 {
        size
    } else if val < min && min > 0 {
        min
    } else if val > max && max > 0 {
        max
    } else {
        val
    }
}

/// Holds one extent to a constraint on one axis.
fn constrain(val: i64, min: i64, max: i64, size: i64) -> (r: i64)
    ensures
        r == constrained(val as int, min as int, max as int, size as int),
{
    if min == 0 && max == 0 && size > 0 {
        size
    } else if val < min && min > 0 {
        min
    } else if val > max && max > 0 {
        max
    } else {
        val
    }
}

impl Default for SizeConstraint {
    fn default() -> (r: SizeConstraint)
        ensures
            r == SizeConstraint::none(),
    {
        SizeConstraint::unconstrained()
    }
}

impl SizeConstraint {
    /// The constraint that leaves every size as it is.
    pub open spec fn none() -> SizeConstraint {
        SizeConstraint {
            width: 0,
            height: 0,
            min_width: 0,
            min_height: 0,
            max_width: 0,
            max_height: 0,
        }
    }

    pub fn unconstrained() -> (r: SizeConstraint)
        ensures
            r == SizeConstraint::none(),
    {
        SizeConstraint {
            width: 0,
            height: 0,
            min_width: 0,
            min_height: 0,
            max_width: 0,
            max_height: 0,
        }
    }

    /// Every field is an extent that the positioning code accepts.
    pub open spec fn wf(self) -> bool {
        &&& coord_ok(self.width as int)
        &&& coord_ok(self.height as int)
        &&& coord_ok(self.min_width as int)
        &&& coord_ok(self.min_height as int)
        &&& coord_ok(self.max_width as int)
        &&& coord_ok(self.max_height as int)
    }

    /// The width that `perform` makes of `w`.
    pub open spec fn width_of(self, w: int) -> int {
        let w0 = if self.width > 0 { self.width as int } else { w };
        constrained(w0, self.min_width as int, self.max_width as int, self.width as int)
    }

    /// The height that `perform` makes of `h`.
    pub open spec fn height_of(self, h: int) -> int {
        let h0 = if self.height > 0 { self.height as int } else { h };
        constrained(h0, self.min_height as int, self.max_height as int, self.height as int)
    }

    /// Adjusts a size to the constraint: a fixed extent replaces the given
    /// one, then an extent below a positive minimum or above a positive
    /// maximum is moved to that bound.
    pub fn perform(&self, size: (i64, i64)) -> (r: (i64, i64))
        ensures
            r.0 == self.width_of(size.0 as int),
            r.1 == self.height_of(size.1 as int),
    {
        let width: i64 = if self.width > 0 {
            self.width
        } else {
            size.0
        };
        let height: i64 = if self.height > 0 {
            self.height
        } else {
            size.1
        };
        (
            constrain(width, self.min_width, self.max_width, self.width),
            constrain(height, self.min_height, self.max_height, self.height),
        )
    }
}

/// A constrained extent is the extent itself or one of the constraint's
/// values, so it stays in range.
pub proof fn lemma_constrained_in_range(c: SizeConstraint, w: int, h: int)
    requires
        c.wf(),
        coord_ok(w),
        coord_ok(h),
    ensures
        coord_ok(c.width_of(w)),
        coord_ok(c.height_of(h)),
{
}

} // verus!
