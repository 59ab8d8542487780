use vstd::prelude::*;
use crate::clickable::{first_hit, lemma_first_hit_found, lemma_first_hit_is};
use crate::frame::FrameView;
use crate::point::PointView;
use crate::rect::{axis_aligned, opposite, RectView};

verus! {

/// What the pointer holds, with indices as mathematical integers.
pub enum SelectionView {
    /// Nothing.
    Idle,
    /// The whole table with this index.
    Table(int),
    /// One control point: the table's index, then the corner, counted
    /// clockwise from the top-left one.
    ControlPoint(int, int),
}

/// The state of an editor: the rectangles of its tables, in the order in
/// which they were added, and the selection.
pub struct TablesView {
    pub tables: Seq<RectView>,
    pub selection: SelectionView,
}

/// What can happen to an editor.
pub enum Step {
    /// A table with this rectangle is added.
    AddTable(RectView),
    /// The pointer goes down at this position.
    Select(PointView),
    /// The pointer goes by this much while it is down.
    Drag(int, int),
    /// The pointer goes up.
    Unselect,
}

impl TablesView {
    /// No table, nothing selected.
    pub open spec fn empty() -> TablesView {
        TablesView { tables: Seq::empty(), selection: SelectionView::Idle }
    }

    /// Every table lies in the coordinate range, and what is selected
    /// exists.
    pub open spec fn wf(self) -> bool {
        &&& forall|i: int| 0 <= i < self.tables.len() ==> (#[trigger] self.tables[i]).in_range()
        &&& match self.selection {
            SelectionView::Idle => true,
            SelectionView::Table(i) => 0 <= i < self.tables.len(),
            SelectionView::ControlPoint(i, k) => 0 <= i < self.tables.len() && 0 <= k < 4,
        }
    }

    /// The index of the selected table, if a table is selected as a whole.
    pub open spec fn selected_table(self) -> Option<int> {
        match self.selection {
            SelectionView::Table(i) => Some(i),
            _ => None,
        }
    }

    /// The table and the corner of the selected control point, if a control
    /// point is selected.
    pub open spec fn selected_control_point(self) -> Option<(int, int)> {
        match self.selection {
            SelectionView::ControlPoint(i, k) => Some((i, k)),
            _ => None,
        }
    }

    /// The state after one more table was added: `rect`, brought into the
    /// coordinate range.
    pub open spec fn add_table(self, rect: RectView) -> TablesView {
        TablesView { tables: self.tables.push(rect.clamp()), selection: self.selection }
    }

    /// For each table, in order, whether `point` lies in the hotspot of one
    /// of its control points.
    pub open spec fn corner_tier(self, point: PointView) -> Seq<bool> {
        Seq::new(
            self.tables.len(),
            |i: int| first_hit(self.tables[i].corner_hits(point)) is Some,
        )
    }

    /// For each table, in order, whether `point` lies in its rectangle.
    pub open spec fn body_tier(self, point: PointView) -> Seq<bool> {
        Seq::new(self.tables.len(), |i: int| self.tables[i].contains(point))
    }

    /// What a click at `point` picks up: the first control point whose
    /// hotspot it falls into, going through the tables in order and through
    /// each table's corners in order; without such a control point, the
    /// first table whose rectangle it falls into; else nothing.
    pub open spec fn pick(self, point: PointView) -> SelectionView {
        match first_hit(self.corner_tier(point)) {
            Some(i) => SelectionView::ControlPoint(
                i,
                first_hit(self.tables[i].corner_hits(point)).unwrap(),
            ),
            None => match first_hit(self.body_tier(point)) {
                Some(i) => SelectionView::Table(i),
                None => SelectionView::Idle,
            },
        }
    }

    /// The state after a click at `point`.
    pub open spec fn select(self, point: PointView) -> TablesView {
        TablesView { tables: self.tables, selection: self.pick(point) }
    }

    /// The state after the pointer let go.
    pub open spec fn unselect(self) -> TablesView {
        TablesView { tables: self.tables, selection: SelectionView::Idle }
    }

    /// The state after the pointer went by `(dx, dy)`: a selected table goes
    /// with it as a whole, a selected control point goes with it and
    /// reshapes its table, and every coordinate stops at the ends of the
    /// coordinate range. With nothing selected nothing changes.
    pub open spec fn drag(self, dx: int, dy: int) -> TablesView {
        match self.selection {
            SelectionView::Idle => self,
            SelectionView::Table(i) => TablesView {
                tables: self.tables.update(i, self.tables[i].translate(dx, dy).clamp()),
                selection: self.selection,
            },
            SelectionView::ControlPoint(i, k) => TablesView {
                tables: self.tables.update(i, self.tables[i].drag_corner(k, dx, dy).clamp()),
                selection: self.selection,
            },
        }
    }

    /// The state after `step`.
    pub open spec fn step(self, step: Step) -> TablesView {
        match step {
            Step::AddTable(rect) => self.add_table(rect),
            Step::Select(point) => self.select(point),
            Step::Drag(dx, dy) => self.drag(dx, dy),
            Step::Unselect => self.unselect(),
        }
    }

    /// The state after all of `steps`, one after the other.
    pub open spec fn run(self, steps: Seq<Step>) -> TablesView
        decreases steps.len(),
    {
        if steps.len() == 0 {
            self
        } else {
            self.run(steps.drop_last()).step(steps.last())
        }
    }

    /// The outline of every table, in order.
    pub open spec fn table_frames(self) -> Seq<FrameView> {
        Seq::new(self.tables.len(), |i: int| self.tables[i].frame())
    }

    /// The hotspot of every control point: table by table, and corner by
    /// corner within each table.
    pub open spec fn control_point_frames(self) -> Seq<FrameView> {
        Seq::new(
            4 * self.tables.len(),
            |j: int| self.tables[j / 4].corners()[j % 4].hotspot().frame(),
        )
    }

    /// What is drawn filled: the selected table, or the hotspot of the
    /// selected control point.
    pub open spec fn highlight(self) -> Option<FrameView> {
        match self.selection {
            SelectionView::Idle => None,
            SelectionView::Table(i) => Some(self.tables[i].frame()),
            SelectionView::ControlPoint(i, k) => Some(
                self.tables[i].corners()[k].hotspot().frame(),
            ),
        }
    }
}

/// A click picks up something that exists: the table is one of the tables,
/// and the corner is one of its four.
pub proof fn lemma_pick_exists(s: TablesView, point: PointView)
    ensures
        match s.pick(point) {
            SelectionView::Idle => true,
            SelectionView::Table(i) => 0 <= i < s.tables.len(),
            SelectionView::ControlPoint(i, k) => 0 <= i < s.tables.len() && 0 <= k < 4,
        },
{
    lemma_first_hit_found(s.corner_tier(point));
    lemma_first_hit_found(s.body_tier(point));
    if let Some(i) = first_hit(s.corner_tier(point)) {
        lemma_first_hit_found(s.tables[i].corner_hits(point));
    }
}

/// Clicking twice at the same position, with nothing in between, selects
/// what clicking once selects.
pub proof fn lemma_select_idempotent(s: TablesView, point: PointView)
    ensures
        s.select(point).select(point) == s.select(point),
{
}

/// What a click selects depends on the tables alone, not on what was
/// selected before.
pub proof fn lemma_select_forgets(s: TablesView, t: TablesView, point: PointView)
    requires
        s.tables == t.tables,
    ensures
        s.select(point) == t.select(point),
{
}

/// A click leaves every table where it is.
pub proof fn lemma_select_keeps_tables(s: TablesView, point: PointView)
    ensures
        s.select(point).tables == s.tables,
{
}

/// The selection is of exactly one kind: nothing, a table, or a control
/// point. In particular a table and a control point are never selected
/// together.
pub proof fn lemma_one_kind_of_selection(s: TablesView)
    ensures
        s.selection is Idle || s.selected_table() is Some || s.selected_control_point() is Some,
        !(s.selection is Idle && s.selected_table() is Some),
        !(s.selection is Idle && s.selected_control_point() is Some),
        !(s.selected_table() is Some && s.selected_control_point() is Some),
{
}

/// Every step leads from a well-formed state to a well-formed state.
pub proof fn lemma_step_keeps_wf(s: TablesView, step: Step)
    requires
        s.wf(),
    ensures
        s.step(step).wf(),
{
    if let Step::Select(point) = step {
        lemma_pick_exists(s, point);
    }
}

/// Any number of steps, in any order, lead from a well-formed state to a
/// well-formed state.
pub proof fn lemma_run_keeps_wf(s: TablesView, steps: Seq<Step>)
    requires
        s.wf(),
    ensures
        s.run(steps).wf(),
    decreases steps.len(),
{
    if steps.len() > 0 {
        lemma_run_keeps_wf(s, steps.drop_last());
        lemma_step_keeps_wf(s.run(steps.drop_last()), steps.last());
    }
}

/// Whatever happens to an editor that starts without tables, in whatever
/// order, its tables lie in the coordinate range, and its selection is of
/// exactly one kind: nothing, a table that exists, or a control point that
/// exists.
pub proof fn lemma_reachable(steps: Seq<Step>)
    ensures
        TablesView::empty().run(steps).wf(),
        match TablesView::empty().run(steps).selection {
            SelectionView::Idle => TablesView::empty().run(steps).selected_table() is None
                && TablesView::empty().run(steps).selected_control_point() is None,
            SelectionView::Table(i) => TablesView::empty().run(steps).selected_table() == Some(i)
                && TablesView::empty().run(steps).selected_control_point() is None
                && 0 <= i < TablesView::empty().run(steps).tables.len(),
            SelectionView::ControlPoint(i, k) => TablesView::empty().run(steps).selected_table()
                is None && TablesView::empty().run(steps).selected_control_point() == Some((i, k))
                && 0 <= i < TablesView::empty().run(steps).tables.len() && 0 <= k < 4,
        },
{
    lemma_run_keeps_wf(TablesView::empty(), steps);
}

/// A click that falls into the hotspot of a control point selects a control
/// point, whether or not it also falls into a table: the first one that it
/// hits, which comes no later than the given one.
pub proof fn lemma_control_point_has_priority(s: TablesView, point: PointView, i: int, k: int)
    requires
        0 <= i < s.tables.len(),
        0 <= k < 4,
        s.tables[i].corners()[k].near(point),
    ensures
        s.pick(point) matches SelectionView::ControlPoint(a, b) && (a < i || (a == i && b <= k))
            && s.tables[a].corners()[b].near(point),
{
    let hits = s.tables[i].corner_hits(point);
    assert(hits[k]);
    lemma_first_hit_found(hits);
    assert(s.corner_tier(point)[i]);
    lemma_first_hit_found(s.corner_tier(point));
    let a = first_hit(s.corner_tier(point)).unwrap();
    lemma_first_hit_found(s.tables[a].corner_hits(point));
    let b = first_hit(s.tables[a].corner_hits(point)).unwrap();
}

/// A click that falls into no hotspot but into a table selects a table: the
/// first one that it falls into.
pub proof fn lemma_table_picked(s: TablesView, point: PointView, i: int)
    requires
        forall|a: int, b: int|
            0 <= a < s.tables.len() && 0 <= b < 4 ==> !(#[trigger] s.tables[a].corners()[b]).near(
                point,
            ),
        0 <= i < s.tables.len(),
        s.tables[i].contains(point),
        forall|a: int| 0 <= a < i ==> !(#[trigger] s.tables[a]).contains(point),
    ensures
        s.pick(point) == SelectionView::Table(i),
{
    lemma_nothing_near(s, point);
    lemma_first_hit_is(s.body_tier(point), i);
}

/// A click that falls into no hotspot and into no table selects nothing.
pub proof fn lemma_nothing_picked(s: TablesView, point: PointView)
    requires
        forall|a: int, b: int|
            0 <= a < s.tables.len() && 0 <= b < 4 ==> !(#[trigger] s.tables[a].corners()[b]).near(
                point,
            ),
        forall|a: int| 0 <= a < s.tables.len() ==> !(#[trigger] s.tables[a]).contains(point),
    ensures
        s.pick(point) == SelectionView::Idle,
{
    lemma_nothing_near(s, point);
    lemma_first_hit_found(s.body_tier(point));
}

/// Where a click falls into no hotspot, no table has a control point for it.
proof fn lemma_nothing_near(s: TablesView, point: PointView)
    requires
        forall|a: int, b: int|
            0 <= a < s.tables.len() && 0 <= b < 4 ==> !(#[trigger] s.tables[a].corners()[b]).near(
                point,
            ),
    ensures
        first_hit(s.corner_tier(point)) is None,
{
    lemma_first_hit_found(s.corner_tier(point));
    if let Some(a) = first_hit(s.corner_tier(point)) {
        lemma_first_hit_found(s.tables[a].corner_hits(point));
        let b = first_hit(s.tables[a].corner_hits(point)).unwrap();
    }
}

/// A table whose corners lie in the coordinate range is added as it is, on
/// top of the tables that were there.
pub proof fn lemma_add_table_in_range(s: TablesView, rect: RectView)
    requires
        rect.in_range(),
    ensures
        s.add_table(rect).tables.len() == s.tables.len() + 1,
        s.add_table(rect).tables.last() == rect,
        forall|i: int| 0 <= i < s.tables.len() ==> s.add_table(rect).tables[i] == s.tables[i],
        s.add_table(rect).selection == s.selection,
{
}

/// With nothing selected, a drag leaves everything as it is.
pub proof fn lemma_drag_idle(s: TablesView, dx: int, dy: int)
    requires
        s.selection is Idle,
    ensures
        s.drag(dx, dy) == s,
{
}

/// A drag moves no table but the selected one, and keeps the selection.
pub proof fn lemma_drag_keeps_others(s: TablesView, dx: int, dy: int, i: int)
    requires
        s.wf(),
        0 <= i < s.tables.len(),
        s.selected_table() != Some(i),
        s.selected_control_point() matches Some(c) ==> c.0 != i,
    ensures
        s.drag(dx, dy).tables.len() == s.tables.len(),
        s.drag(dx, dy).tables[i] == s.tables[i],
        s.drag(dx, dy).selection == s.selection,
{
}

/// A selected table that has room to go by `(dx, dy)` within the coordinate
/// range goes by exactly that much, and so does each of its corners.
pub proof fn lemma_drag_table(s: TablesView, dx: int, dy: int, i: int)
    requires
        s.wf(),
        s.selection == SelectionView::Table(i),
        s.tables[i].translate(dx, dy).in_range(),
    ensures
        s.drag(dx, dy).tables[i] == s.tables[i].translate(dx, dy),
        forall|k: int|
            0 <= k < 4 ==> #[trigger] s.drag(dx, dy).tables[i].corners()[k]
                == s.tables[i].corners()[k].translate(dx, dy),
{
}

/// A selected control point that has room to go by `(dx, dy)` within the
/// coordinate range goes by exactly that much, and the corner opposite to it
/// stays where it is.
pub proof fn lemma_drag_control_point(s: TablesView, dx: int, dy: int, i: int, k: int)
    requires
        s.wf(),
        s.selection == SelectionView::ControlPoint(i, k),
        s.tables[i].drag_corner(k, dx, dy).in_range(),
    ensures
        s.drag(dx, dy).tables[i] == s.tables[i].drag_corner(k, dx, dy),
        s.drag(dx, dy).tables[i].corners()[k] == s.tables[i].corners()[k].translate(dx, dy),
        s.drag(dx, dy).tables[i].corners()[opposite(k)] == s.tables[i].corners()[opposite(k)],
{
}

/// After a drag, the corners of every table are still the corners of a
/// rectangle with sides parallel to the axes, whichever control point or
/// table the pointer holds.
pub proof fn lemma_drag_keeps_axis_aligned(s: TablesView, dx: int, dy: int)
    requires
        s.wf(),
    ensures
        forall|i: int|
            0 <= i < s.drag(dx, dy).tables.len() ==> axis_aligned(
                (#[trigger] s.drag(dx, dy).tables[i]).corners(),
            ),
{
}

} // verus!
