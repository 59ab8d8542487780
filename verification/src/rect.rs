use vstd::prelude::*;
use crate::clickable::Clickable;
use crate::frame::{extent, extent_between, Frame, FrameView};
use crate::point::{Point, PointView};

verus! {

/// An axis-aligned rectangle, given by two opposite corners.
///
/// The corners are kept as they were given: `p1` is meant to be the top-left
/// one and `p2` the bottom-right one, and a click hits nothing in a rectangle
/// whose corners are the other way round.
#[derive(Copy, Clone, Debug, PartialEq, Eq, Structural)]
pub struct Rect {
    p1: Point,
    p2: Point,
}

/// A rectangle in the unbounded plane: what a `Rect` stands for.
pub struct RectView {
    pub p1: PointView,
    pub p2: PointView,
}

/// Each corner shares its height with one neighbour and its column with the
/// other: the four positions are the corners of an axis-aligned rectangle,
/// going round from the first.
pub open spec fn axis_aligned(corners: Seq<PointView>) -> bool {
    &&& corners.len() == 4
    &&& corners[0].y == corners[1].y
    &&& corners[1].x == corners[2].x
    &&& corners[2].y == corners[3].y
    &&& corners[3].x == corners[0].x
}

impl RectView {
    /// The rectangle moved by `dx` to the right and by `dy` downwards.
    pub open spec fn translate(self, dx: int, dy: int) -> RectView {
        RectView { p1: self.p1.translate(dx, dy), p2: self.p2.translate(dx, dy) }
    }

    /// Both corners can be held in `i32` coordinates.
    pub open spec fn fits(self) -> bool {
        self.p1.fits() && self.p2.fits()
    }

    /// Both corners lie between `COORD_MIN` and `COORD_MAX`.
    pub open spec fn in_range(self) -> bool {
        self.p1.in_range() && self.p2.in_range()
    }

    /// The rectangle with both corners brought into the coordinate range.
    pub open spec fn clamp(self) -> RectView {
        RectView { p1: self.p1.clamp(), p2: self.p2.clamp() }
    }

    /// The four corners, clockwise from the top-left one.
    pub open spec fn corners(self) -> Seq<PointView> {
        seq![
            self.p1,
            PointView { x: self.p2.x, y: self.p1.y },
            self.p2,
            PointView { x: self.p1.x, y: self.p2.y },
        ]
    }

    /// `point` lies in the rectangle, its border included.
    pub open spec fn contains(self, point: PointView) -> bool {
        &&& self.p1.x <= point.x <= self.p2.x
        &&& self.p1.y <= point.y <= self.p2.y
    }

    /// The rectangle as a canvas takes it: the first corner, and the size
    /// from the first corner to the second.
    pub open spec fn frame(self) -> FrameView {
        FrameView {
            x: self.p1.x,
            y: self.p1.y,
            width: extent(self.p1.x, self.p2.x),
            height: extent(self.p1.y, self.p2.y),
        }
    }

    /// The rectangle after corner `k` went by `(dx, dy)`: the corner opposite
    /// to it stays, and the two next to it follow along one axis each, so
    /// that the sides stay parallel to the axes.
    pub open spec fn drag_corner(self, k: int, dx: int, dy: int) -> RectView
        recommends
            0 <= k < 4,
    {
        if k == 0 {
            RectView { p1: self.p1.translate(dx, dy), p2: self.p2 }
        } else if k == 1 {
            RectView { p1: self.p1.translate(0, dy), p2: self.p2.translate(dx, 0) }
        } else if k == 2 {
            RectView { p1: self.p1, p2: self.p2.translate(dx, dy) }
        } else {
            RectView { p1: self.p1.translate(dx, 0), p2: self.p2.translate(0, dy) }
        }
    }

    /// For each corner, in order, whether `point` lies in its hotspot.
    pub open spec fn corner_hits(self, point: PointView) -> Seq<bool> {
        Seq::new(4, |k: int| self.corners()[k].near(point))
    }
}

/// The positions that `points` stand for.
pub open spec fn positions(points: Seq<Point>) -> Seq<PointView> {
    points.map_values(|p: Point| p@)
}

impl View for Rect {
    type V = RectView;

    closed spec fn view(&self) -> RectView {
        RectView { p1: self.p1@, p2: self.p2@ }
    }
}

impl Rect {
    /// The rectangle with corners `(x1, y1)` and `(x2, y2)`, taken as given.
    pub fn new(x1: i32, y1: i32, x2: i32, y2: i32) -> (r: Rect)
        ensures
            r@ == (RectView {
                p1: PointView { x: x1 as int, y: y1 as int },
                p2: PointView { x: x2 as int, y: y2 as int },
            }),
    {
        Rect { p1: Point { x: x1, y: y1 }, p2: Point { x: x2, y: y2 } }
    }

    /// Moves both corners by `(x_diff, y_diff)`, and with them all four:
    /// each corner of the rectangle goes by exactly that much.
    pub fn move_by(&mut self, x_diff: i32, y_diff: i32)
        requires
            old(self)@.translate(x_diff as int, y_diff as int).fits(),
        ensures
            final(self)@ == old(self)@.translate(x_diff as int, y_diff as int),
            forall|k: int|
                0 <= k < 4 ==> #[trigger] final(self)@.corners()[k] == old(
                    self,
                )@.corners()[k].translate(x_diff as int, y_diff as int),
    {
        self.p1.x = self.p1.x + x_diff;
        self.p1.y = self.p1.y + y_diff;
        self.p2.x = self.p2.x + x_diff;
        self.p2.y = self.p2.y + y_diff;
    }

    /// The rectangle with both corners brought into the coordinate range.
    pub fn clamped(&self) -> (r: Rect)
        ensures
            r@ == self@.clamp(),
    {
        Rect { p1: self.p1.offset(0, 0), p2: self.p2.offset(0, 0) }
    }

    /// The rectangle whose first corner is `p1` and whose second is `p2`.
    pub fn from_corners(p1: Point, p2: Point) -> (r: Rect)
        ensures
            r@ == (RectView { p1: p1@, p2: p2@ }),
    {
        Rect { p1, p2 }
    }

    /// The rectangle as a canvas takes it.
    pub fn to_frame(&self) -> (frame: Frame)
        ensures
            frame@ == self@.frame(),
    {
        Frame {
            x: self.p1.x,
            y: self.p1.y,
            width: extent_between(self.p1.x, self.p2.x),
            height: extent_between(self.p1.y, self.p2.y),
        }
    }

    /// The four corners, clockwise from the top-left one.
    pub fn get_all_points(&self) -> (corners: [Point; 4])
        ensures
            positions(corners@) == self@.corners(),
    {
        [
            self.p1,
            Point { x: self.p2.x, y: self.p1.y },
            self.p2,
            Point { x: self.p1.x, y: self.p2.y },
        ]
    }
}

impl Clickable for Rect {
    open spec fn covers(&self, point: PointView) -> bool {
        self@.contains(point)
    }

    /// A click hits a rectangle when it falls inside it or on its border.
    fn is_hovered(&self, clicked_point: &Point) -> (hit: bool) {
        clicked_point.x <= self.p2.x && clicked_point.x >= self.p1.x
            && clicked_point.y <= self.p2.y && clicked_point.y >= self.p1.y
    }
}

/// The corner that lies opposite to corner `k`.
pub open spec fn opposite(k: int) -> int {
    (k + 2) % 4
}

/// The corner on the same height as corner `k`.
pub open spec fn beside(k: int) -> int {
    if k % 2 == 0 {
        k + 1
    } else {
        k - 1
    }
}

/// The corner in the same column as corner `k`.
pub open spec fn above_or_below(k: int) -> int {
    3 - k
}

/// Moving a rectangle and then taking its corners gives the corners that it
/// had, each moved by the same amount.
pub proof fn lemma_translate_moves_corners(r: RectView, dx: int, dy: int)
    ensures
        r.translate(dx, dy).corners().len() == 4,
        forall|k: int|
            0 <= k < 4 ==> #[trigger] r.translate(dx, dy).corners()[k] == r.corners()[k].translate(
                dx,
                dy,
            ),
{
}

/// The corners of a rectangle are axis-aligned.
pub proof fn lemma_corners_axis_aligned(r: RectView)
    ensures
        axis_aligned(r.corners()),
{
}

/// What dragging corner `k` by `(dx, dy)` does to each corner: corner `k`
/// goes by `(dx, dy)`, the corner beside it goes up or down by `dy`, the
/// corner above or below it goes sideways by `dx`, and the opposite corner
/// stays. The corners are axis-aligned afterwards.
pub proof fn lemma_drag_corner(r: RectView, k: int, dx: int, dy: int)
    requires
        0 <= k < 4,
    ensures
        r.drag_corner(k, dx, dy).corners()[k] == r.corners()[k].translate(dx, dy),
        r.drag_corner(k, dx, dy).corners()[beside(k)] == r.corners()[beside(k)].translate(0, dy),
        r.drag_corner(k, dx, dy).corners()[above_or_below(k)] == r.corners()[above_or_below(
            k,
        )].translate(dx, 0),
        r.drag_corner(k, dx, dy).corners()[opposite(k)] == r.corners()[opposite(k)],
        axis_aligned(r.drag_corner(k, dx, dy).corners()),
{
}

/// Bringing a rectangle into the coordinate range leaves it there, and
/// changes nothing if it lies there already.
pub proof fn lemma_clamp(r: RectView)
    ensures
        r.clamp().in_range(),
        r.in_range() ==> r.clamp() == r,
{
}

} // verus!
