use vstd::prelude::*;
use crate::clickable::Clickable;
use crate::frame::FrameView;
use crate::rect::{Rect, RectView};

verus! {

/// How far from a point, along each axis, a click still hits it.
pub const HOTSPOT_RADIUS: i32 = 5;

/// The least coordinate of a table: -2^30. With every coordinate between
/// `COORD_MIN` and `COORD_MAX`, no distance between two of them and no
/// hotspot leaves the `i32` range. SDL keeps the positions of its points and
/// rectangles within the same limits, so a canvas takes each as it is.
pub const COORD_MIN: i32 = -1073741824;

/// The greatest coordinate of a table: 2^30 - 1.
pub const COORD_MAX: i32 = 1073741823;

/// A position on the drawing surface, in pixels.
#[derive(Copy, Clone, Debug, PartialEq, Eq, Structural)]
pub struct Point {
    pub x: i32,
    pub y: i32,
}

/// A position in the unbounded plane: what a `Point` stands for.
pub struct PointView {
    pub x: int,
    pub y: int,
}

/// The coordinate nearest to `v` between `COORD_MIN` and `COORD_MAX`.
pub open spec fn clamp_coord(v: int) -> int {
    if v > COORD_MAX {
        COORD_MAX as int
    } else if v < COORD_MIN {
        COORD_MIN as int
    } else {
        v
    }
}

impl PointView {
    /// This position moved by `dx` to the right and by `dy` downwards.
    pub open spec fn translate(self, dx: int, dy: int) -> PointView {
        PointView { x: self.x + dx, y: self.y + dy }
    }

    /// Both coordinates can be held in an `i32`.
    pub open spec fn fits(self) -> bool {
        &&& i32::MIN <= self.x <= i32::MAX
        &&& i32::MIN <= self.y <= i32::MAX
    }

    /// Both coordinates lie between `COORD_MIN` and `COORD_MAX`.
    pub open spec fn in_range(self) -> bool {
        &&& COORD_MIN <= self.x <= COORD_MAX
        &&& COORD_MIN <= self.y <= COORD_MAX
    }

    /// The nearest position whose coordinates lie between `COORD_MIN` and
    /// `COORD_MAX`.
    pub open spec fn clamp(self) -> PointView {
        PointView { x: clamp_coord(self.x), y: clamp_coord(self.y) }
    }

    /// `other` lies in the square hotspot around this position: at most
    /// `HOTSPOT_RADIUS` away along each axis.
    pub open spec fn near(self, other: PointView) -> bool {
        &&& -HOTSPOT_RADIUS <= other.x - self.x <= HOTSPOT_RADIUS
        &&& -HOTSPOT_RADIUS <= other.y - self.y <= HOTSPOT_RADIUS
    }

    /// The square of side `2 * HOTSPOT_RADIUS` centred on this position.
    pub open spec fn hotspot(self) -> RectView {
        RectView {
            p1: self.translate(-HOTSPOT_RADIUS, -HOTSPOT_RADIUS),
            p2: self.translate(HOTSPOT_RADIUS as int, HOTSPOT_RADIUS as int),
        }
    }
}

impl View for Point {
    type V = PointView;

    open spec fn view(&self) -> PointView {
        PointView { x: self.x as int, y: self.y as int }
    }
}

/// Brings a coordinate into the range from `COORD_MIN` to `COORD_MAX`.
pub fn clamp_into_range(v: i64) -> (c: i32)
    ensures
        c == clamp_coord(v as int),
{
    if v > COORD_MAX as i64 {
        COORD_MAX
    } else if v < COORD_MIN as i64 {
        COORD_MIN
    } else {
        v as i32
    }
}

impl Point {
    /// The origin.
    pub fn new() -> (p: Point)
        ensures
            p@ == (PointView { x: 0, y: 0 }),
    {
        Point { x: 0, y: 0 }
    }

    /// The point at `(x, y)`.
    pub fn from_xy(x: i32, y: i32) -> (p: Point)
        ensures
            p@ == (PointView { x: x as int, y: y as int }),
    {
        Point { x, y }
    }

    /// Moves the point by `(x_diff, y_diff)`.
    pub fn move_by(&mut self, x_diff: i32, y_diff: i32)
        requires
            old(self)@.translate(x_diff as int, y_diff as int).fits(),
        ensures
            final(self)@ == old(self)@.translate(x_diff as int, y_diff as int),
    {
        self.x = self.x + x_diff;
        self.y = self.y + y_diff;
    }

    /// The point moved by `(x_diff, y_diff)`, each coordinate stopping at
    /// `COORD_MIN` and `COORD_MAX`.
    pub fn offset(self, x_diff: i32, y_diff: i32) -> (p: Point)
        ensures
            p@ == self@.translate(x_diff as int, y_diff as int).clamp(),
    {
        Point {
            x: clamp_into_range(self.x as i64 + x_diff as i64),
            y: clamp_into_range(self.y as i64 + y_diff as i64),
        }
    }

    /// Puts the point at `(x, y)` and tells how far it went along each axis.
    pub fn update_and_get_diff(&mut self, x: i32, y: i32) -> (diff: (i32, i32))
        requires
            i32::MIN <= x - old(self).x <= i32::MAX,
            i32::MIN <= y - old(self).y <= i32::MAX,
        ensures
            diff.0 == x - old(self).x,
            diff.1 == y - old(self).y,
            final(self)@ == (PointView { x: x as int, y: y as int }),
            old(self)@.translate(diff.0 as int, diff.1 as int) == final(self)@,
    {
        let ret = (x - self.x, y - self.y);
        self.x = x;
        self.y = y;
        ret
    }

    /// The hotspot of the point as a rectangle.
    pub fn to_rect(&self) -> (r: Rect)
        requires
            self@.hotspot().fits(),
        ensures
            r@ == self@.hotspot(),
    {
        Rect::new(
            self.x - HOTSPOT_RADIUS,
            self.y - HOTSPOT_RADIUS,
            self.x + HOTSPOT_RADIUS,
            self.y + HOTSPOT_RADIUS,
        )
    }
}

impl Clickable for Point {
    open spec fn covers(&self, point: PointView) -> bool {
        self@.near(point)
    }

    /// A click hits a point when it falls into the point's hotspot.
    fn is_hovered(&self, clicked_point: &Point) -> (hit: bool) {
        let dx: i64 = clicked_point.x as i64 - self.x as i64;
        let dy: i64 = clicked_point.y as i64 - self.y as i64;
        let r: i64 = HOTSPOT_RADIUS as i64;
        -r <= dx && dx <= r && -r <= dy && dy <= r
    }
}

/// The hotspot of a position is the square of side `2 * HOTSPOT_RADIUS`
/// around it, and a click is near the position exactly when it falls into
/// that square.
pub proof fn lemma_hotspot(center: PointView, click: PointView)
    ensures
        center.hotspot().contains(click) == center.near(click),
        center.hotspot().frame() == (FrameView {
            x: center.x - HOTSPOT_RADIUS,
            y: center.y - HOTSPOT_RADIUS,
            width: 2 * HOTSPOT_RADIUS,
            height: 2 * HOTSPOT_RADIUS,
        }),
{
}

} // verus!
