use vstd::prelude::*;
use crate::clickable::{
    first_hovered, hits_of, lemma_first_hit_found, lemma_first_hit_is, lemma_first_hit_none,
    Clickable,
};
use crate::frame::{frame_views, Drawing, Frame};
use crate::model::{SelectionView, TablesView};
use crate::point::{Point, PointView};
use crate::rect::{axis_aligned, positions, Rect, RectView};

verus! {

/// What the pointer holds.
#[derive(Copy, Clone, Debug, PartialEq, Eq, Structural)]
pub enum Selection {
    /// Nothing.
    Idle,
    /// The whole table with this index.
    Table(usize),
    /// One control point: the table's index, then the corner, counted
    /// clockwise from the top-left one.
    ControlPoint(usize, usize),
}

impl View for Selection {
    type V = SelectionView;

    open spec fn view(&self) -> SelectionView {
        match *self {
            Selection::Idle => SelectionView::Idle,
            Selection::Table(i) => SelectionView::Table(i as int),
            Selection::ControlPoint(i, k) => SelectionView::ControlPoint(i as int, k as int),
        }
    }
}

/// A table: its rectangle and the control points on its four corners.
#[derive(Copy, Clone)]
struct Table {
    rect: Rect,
    control_points: [Point; 4],
}

impl Table {
    /// The control points sit on the corners, and all of it lies in the
    /// coordinate range.
    spec fn wf(self) -> bool {
        &&& self.rect@.in_range()
        &&& positions(self.control_points@) == self.rect@.corners()
    }

    fn new(rect: Rect) -> (t: Table)
        requires
            rect@.in_range(),
        ensures
            t.wf(),
            t.rect == rect,
    {
        Table { rect, control_points: rect.get_all_points() }
    }

    /// The table that has `points` for its corners: its rectangle spans from
    /// the first of them to the third.
    fn from_points(points: [Point; 4]) -> (t: Table)
        requires
            axis_aligned(positions(points@)),
            points[0]@.in_range(),
            points[2]@.in_range(),
        ensures
            t.wf(),
            t.rect@ == (RectView { p1: points[0]@, p2: points[2]@ }),
            t.control_points@ == points@,
    {
        let rect = Rect::from_corners(points[0], points[2]);
        assert(positions(points@) =~= rect@.corners());
        Table { rect, control_points: points }
    }

    /// The table dragged as a whole: every control point goes by
    /// `(x_diff, y_diff)`, as far as the coordinate range lets it.
    fn moved_by(&self, x_diff: i32, y_diff: i32) -> (t: Table)
        requires
            self.wf(),
        ensures
            t.wf(),
            t.rect@ == self.rect@.translate(x_diff as int, y_diff as int).clamp(),
    {
        let mut points = self.control_points;
        let mut k: usize = 0;
        while k < 4
            invariant
                k <= 4,
                self.wf(),
                forall|m: int|
                    0 <= m < k ==> (#[trigger] points@[m])@ == self.rect@.corners()[m].translate(
                        x_diff as int,
                        y_diff as int,
                    ).clamp(),
                forall|m: int| k <= m < 4 ==> points@[m] == self.control_points@[m],
            decreases 4 - k,
        {
            points[k] = points[k].offset(x_diff, y_diff);
            k = k + 1;
        }
        Table::from_points(points)
    }

    /// The table with one control point dragged by `(x_diff, y_diff)`, as
    /// far as the coordinate range lets it. The control points next to it
    /// follow, one along each axis, and the one opposite to it stays.
    fn with_corner_moved(&self, corner: usize, x_diff: i32, y_diff: i32) -> (t: Table)
        requires
            self.wf(),
            corner < 4,
        ensures
            t.wf(),
            t.rect@ == self.rect@.drag_corner(corner as int, x_diff as int, y_diff as int).clamp(),
    {
        let mut points = self.control_points;
        points[corner] = points[corner].offset(x_diff, y_diff);
        if corner == 0 {
            points[1] = points[1].offset(0, y_diff);
            points[3] = points[3].offset(x_diff, 0);
        } else if corner == 1 {
            points[0] = points[0].offset(0, y_diff);
            points[2] = points[2].offset(x_diff, 0);
        } else if corner == 2 {
            points[1] = points[1].offset(x_diff, 0);
            points[3] = points[3].offset(0, y_diff);
        } else {
            points[2] = points[2].offset(0, y_diff);
            points[0] = points[0].offset(x_diff, 0);
        }
        Table::from_points(points)
    }
}

impl Clickable for Table {
    closed spec fn covers(&self, point: PointView) -> bool {
        self.rect@.contains(point)
    }

    /// A click hits a table when it falls into the table's rectangle.
    fn is_hovered(&self, clicked_point: &Point) -> (hit: bool) {
        self.rect.is_hovered(clicked_point)
    }
}

/// The tables of an editor and what is selected among them.
pub struct Rects {
    tables: Vec<Table>,
    selection: Selection,
}

impl View for Rects {
    type V = TablesView;

    closed spec fn view(&self) -> TablesView {
        TablesView {
            tables: self.tables@.map_values(|t: Table| t.rect@),
            selection: self.selection@,
        }
    }
}

impl Rects {
    /// The editor is in order: each table's control points sit on its
    /// corners, and the state that it stands for is well-formed.
    pub closed spec fn wf(&self) -> bool {
        &&& forall|i: int| 0 <= i < self.tables@.len() ==> (#[trigger] self.tables@[i]).wf()
        &&& self@.wf()
    }

    /// An editor that is in order stands for a well-formed state.
    pub proof fn lemma_wf_view(&self)
        requires
            self.wf(),
        ensures
            self@.wf(),
    {
    }

    /// An editor without tables.
    pub fn new() -> (rects: Rects)
        ensures
            rects.wf(),
            rects@ == TablesView::empty(),
            rects@.wf(),
    {
        let rects = Rects { tables: Vec::new(), selection: Selection::Idle };
        assert(rects@.tables =~= Seq::empty());
        rects
    }

    /// Adds a table on top of the others. Its corners are brought into the
    /// coordinate range.
    pub fn add_table(&mut self, rect: Rect)
        requires
            old(self).wf(),
        ensures
            final(self).wf(),
            final(self)@ == old(self)@.add_table(rect@),
            final(self)@.wf(),
    {
        let table = Table::new(rect.clamped());
        self.tables.push(table);
        assert(self@.tables =~= old(self)@.add_table(rect@).tables);
    }

    /// What the pointer holds.
    pub fn selection(&self) -> (selection: Selection)
        ensures
            selection@ == self@.selection,
    {
        self.selection
    }

    /// How many tables there are.
    pub fn table_count(&self) -> (count: usize)
        ensures
            count == self@.tables.len(),
    {
        self.tables.len()
    }

    /// The rectangle of the table with this index, if there is one.
    pub fn table(&self, index: usize) -> (rect: Option<Rect>)
        ensures
            match rect {
                Some(r) => index < self@.tables.len() && r@ == self@.tables[index as int],
                None => index >= self@.tables.len(),
            },
    {
        if index < self.tables.len() {
            Some(self.tables[index].rect)
        } else {
            None
        }
    }

    /// The control points of the table with this index, if there is one:
    /// they sit on the corners of its rectangle.
    pub fn control_points(&self, index: usize) -> (points: Option<[Point; 4]>)
        requires
            self.wf(),
        ensures
            match points {
                Some(c) => index < self@.tables.len() && positions(c@)
                    == self@.tables[index as int].corners(),
                None => index >= self@.tables.len(),
            },
    {
        if index < self.tables.len() {
            Some(self.tables[index].control_points)
        } else {
            None
        }
    }

    /// Reacts to the pointer going down at `clicked_point`: picks up what
    /// lies there, a control point rather than a table, and an earlier table
    /// rather than a later one.
    pub fn select_rect(&mut self, clicked_point: Point)
        requires
            old(self).wf(),
        ensures
            final(self).wf(),
            final(self)@ == old(self)@.select(clicked_point@),
            final(self)@.wf(),
    {
        let ghost state = self@;
        let ghost tier = state.corner_tier(clicked_point@);
        let mut i: usize = 0;
        while i < self.tables.len()
            invariant
                i <= self.tables.len(),
                self.wf(),
                *self == *old(self),
                state == self@,
                tier == state.corner_tier(clicked_point@),
                forall|m: int| 0 <= m < i ==> !tier[m],
            decreases self.tables.len() - i,
        {
            let found = first_hovered(self.tables[i].control_points.as_slice(), &clicked_point);
            proof {
                let table = self.tables@[i as int];
                assert(hits_of(table.control_points@, clicked_point@) =~= table.rect@.corner_hits(
                    clicked_point@,
                ));
            }
            if let Some(k) = found {
                proof {
                    lemma_first_hit_found(self.tables@[i as int].rect@.corner_hits(clicked_point@));
                    lemma_first_hit_is(tier, i as int);
                }
                self.selection = Selection::ControlPoint(i, k);
                return ;
            }
            i = i + 1;
        }
        proof {
            lemma_first_hit_none(tier);
            assert(hits_of(self.tables@, clicked_point@) =~= state.body_tier(clicked_point@));
            lemma_first_hit_found(state.body_tier(clicked_point@));
        }
        self.selection = match first_hovered(self.tables.as_slice(), &clicked_point) {
            Some(i) => Selection::Table(i),
            None => Selection::Idle,
        };
    }

    /// Says what a canvas is to show of the editor. Nothing changes.
    pub fn describe_for_draw(&self) -> (drawing: Drawing)
        requires
            self.wf(),
        ensures
            frame_views(drawing.outlines@) == self@.table_frames(),
            frame_views(drawing.control_points@) == self@.control_point_frames(),
            match drawing.highlight {
                Some(frame) => self@.highlight() == Some(frame@),
                None => self@.highlight() is None,
            },
    {
        let mut tables: Vec<Frame> = Vec::new();
        let mut control_points: Vec<Frame> = Vec::new();
        let mut i: usize = 0;
        while i < self.tables.len()
            invariant
                i <= self.tables.len(),
                self.wf(),
                tables@.len() == i,
                control_points@.len() == 4 * i,
                forall|m: int| 0 <= m < i ==> (#[trigger] tables@[m])@ == self@.table_frames()[m],
                forall|j: int|
                    0 <= j < 4 * i ==> (#[trigger] control_points@[j])@
                        == self@.control_point_frames()[j],
            decreases self.tables.len() - i,
        {
            let table = &self.tables[i];
            tables.push(table.rect.to_frame());
            let mut k: usize = 0;
            while k < 4
                invariant
                    k <= 4,
                    i < self.tables.len(),
                    self.wf(),
                    *table == self.tables@[i as int],
                    control_points@.len() == 4 * i + k,
                    forall|j: int|
                        0 <= j < 4 * i + k ==> (#[trigger] control_points@[j])@
                            == self@.control_point_frames()[j],
                decreases 4 - k,
            {
                control_points.push(table.control_points[k].to_rect().to_frame());
                k = k + 1;
            }
            i = i + 1;
        }
        let highlight = match self.selection {
            Selection::Idle => None,
            Selection::Table(i) => Some(self.tables[i].rect.to_frame()),
            Selection::ControlPoint(i, k) => {
                let table = &self.tables[i];
                Some(table.control_points[k].to_rect().to_frame())
            },
        };
        Drawing { outlines: tables, control_points, highlight }
    }

    /// Reacts to the pointer going up: lets go of whatever it holds.
    pub fn unselect_any_rect(&mut self)
        requires
            old(self).wf(),
        ensures
            final(self).wf(),
            final(self)@ == old(self)@.unselect(),
            final(self)@.wf(),
    {
        self.selection = Selection::Idle;
    }

    /// Reacts to the pointer going by `(x_diff, y_diff)`: what it holds goes
    /// with it.
    pub fn move_selected_rect(&mut self, x_diff: i32, y_diff: i32)
        requires
            old(self).wf(),
        ensures
            final(self).wf(),
            final(self)@ == old(self)@.drag(x_diff as int, y_diff as int),
            final(self)@.wf(),
            forall|i: int|
                0 <= i < final(self)@.tables.len() ==> axis_aligned(
                    (#[trigger] final(self)@.tables[i]).corners(),
                ),
    {
        match self.selection {
            Selection::Idle => {},
            Selection::Table(i) => {
                let moved = self.tables[i].moved_by(x_diff, y_diff);
                self.tables[i] = moved;
                assert(self@.tables =~= old(self)@.drag(x_diff as int, y_diff as int).tables);
            },
            Selection::ControlPoint(i, k) => {
                let moved = self.tables[i].with_corner_moved(k, x_diff, y_diff);
                self.tables[i] = moved;
                assert(self@.tables =~= old(self)@.drag(x_diff as int, y_diff as int).tables);
            },
        }
    }
}

} // verus!
