use vstd::prelude::*;
use crate::clickable::{first_hit, first_hovered, hits_of, lemma_first_hit_found};
use crate::frame::{frame_views, Drawing, Frame, FrameView};
use crate::point::{Point, PointView};
use crate::rect::{Rect, RectView};

verus! {

/// A pile of rectangles, one of which the pointer may hold.
pub struct Rects {
    rects: Vec<Rect>,
    selected: Option<usize>,
}

/// The state of a pile: its rectangles, in the order in which they were
/// added, and the index of the one that the pointer holds.
pub struct RectsView {
    pub rects: Seq<RectView>,
    pub selected: Option<int>,
}

impl RectsView {
    /// No rectangle, nothing selected.
    pub open spec fn empty() -> RectsView {
        RectsView { rects: Seq::empty(), selected: None }
    }

    /// What is selected exists.
    pub open spec fn wf(self) -> bool {
        self.selected matches Some(i) ==> 0 <= i < self.rects.len()
    }

    /// The state after `rect` was added.
    pub open spec fn add_rect(self, rect: RectView) -> RectsView {
        RectsView { rects: self.rects.push(rect), selected: self.selected }
    }

    /// For each rectangle, in order, whether `point` lies in it.
    pub open spec fn hits(self, point: PointView) -> Seq<bool> {
        Seq::new(self.rects.len(), |i: int| self.rects[i].contains(point))
    }

    /// The state after a click at `point`: the first rectangle that it falls
    /// into is selected, or nothing if it falls into none.
    pub open spec fn select(self, point: PointView) -> RectsView {
        RectsView { rects: self.rects, selected: first_hit(self.hits(point)) }
    }

    /// The state after the pointer let go.
    pub open spec fn unselect(self) -> RectsView {
        RectsView { rects: self.rects, selected: None }
    }

    /// The selected rectangle moved by `(dx, dy)`, if one is selected.
    pub open spec fn moved(self, dx: int, dy: int) -> Option<RectView> {
        match self.selected {
            Some(i) => Some(self.rects[i].translate(dx, dy)),
            None => None,
        }
    }

    /// The state after the pointer went by `(dx, dy)`: the selected
    /// rectangle goes with it. With nothing selected nothing changes.
    pub open spec fn move_selected(self, dx: int, dy: int) -> RectsView {
        match self.selected {
            Some(i) => RectsView {
                rects: self.rects.update(i, self.rects[i].translate(dx, dy)),
                selected: self.selected,
            },
            None => self,
        }
    }

    /// The outline of every rectangle, in order.
    pub open spec fn frames(self) -> Seq<FrameView> {
        Seq::new(self.rects.len(), |i: int| self.rects[i].frame())
    }

    /// What is drawn filled: the selected rectangle.
    pub open spec fn highlight(self) -> Option<FrameView> {
        match self.selected {
            Some(i) => Some(self.rects[i].frame()),
            None => None,
        }
    }
}

impl View for Rects {
    type V = RectsView;

    closed spec fn view(&self) -> RectsView {
        RectsView {
            rects: self.rects@.map_values(|r: Rect| r@),
            selected: match self.selected {
                Some(i) => Some(i as int),
                None => None,
            },
        }
    }
}

impl Rects {
    /// The pile is in order: what is selected exists.
    pub closed spec fn wf(&self) -> bool {
        self@.wf()
    }

    /// A pile that is in order stands for a well-formed state.
    pub proof fn lemma_wf_view(&self)
        requires
            self.wf(),
        ensures
            self@.wf(),
    {
    }

    /// An empty pile.
    pub fn new() -> (rects: Rects)
        ensures
            rects.wf(),
            rects@ == RectsView::empty(),
    {
        let rects = Rects { rects: Vec::new(), selected: None };
        assert(rects@.rects =~= Seq::empty());
        rects
    }

    /// Puts `rect` on the pile, as it is.
    pub fn add_rect(&mut self, rect: Rect)
        requires
            old(self).wf(),
        ensures
            final(self).wf(),
            final(self)@ == old(self)@.add_rect(rect@),
    {
        self.rects.push(rect);
        assert(self@.rects =~= old(self)@.add_rect(rect@).rects);
    }

    /// The index of the rectangle that the pointer holds.
    pub fn selected(&self) -> (selected: Option<usize>)
        ensures
            match selected {
                Some(i) => self@.selected == Some(i as int),
                None => self@.selected is None,
            },
    {
        self.selected
    }

    /// How many rectangles there are.
    pub fn rect_count(&self) -> (count: usize)
        ensures
            count == self@.rects.len(),
    {
        self.rects.len()
    }

    /// The rectangle with this index, if there is one.
    pub fn rect(&self, index: usize) -> (rect: Option<Rect>)
        ensures
            match rect {
                Some(r) => index < self@.rects.len() && r@ == self@.rects[index as int],
                None => index >= self@.rects.len(),
            },
    {
        if index < self.rects.len() {
            Some(self.rects[index])
        } else {
            None
        }
    }

    /// Reacts to the pointer going down at `clicked_point`: picks up the
    /// first rectangle that lies there.
    pub fn select_rect(&mut self, clicked_point: Point)
        requires
            old(self).wf(),
        ensures
            final(self).wf(),
            final(self)@ == old(self)@.select(clicked_point@),
    {
        proof {
            assert(hits_of(self.rects@, clicked_point@) =~= self@.hits(clicked_point@));
            lemma_first_hit_found(self@.hits(clicked_point@));
        }
        self.selected = first_hovered(self.rects.as_slice(), &clicked_point);
    }

    /// Reacts to the pointer going up: lets go of whatever it holds.
    pub fn unselect_rect(&mut self)
        requires
            old(self).wf(),
        ensures
            final(self).wf(),
            final(self)@ == old(self)@.unselect(),
    {
        self.selected = None;
    }

    /// Reacts to the pointer going by `(x_diff, y_diff)`: the rectangle that
    /// it holds goes with it.
    pub fn move_selected(&mut self, x_diff: i32, y_diff: i32)
        requires
            old(self).wf(),
            old(self)@.moved(x_diff as int, y_diff as int) matches Some(r) ==> r.fits(),
        ensures
            final(self).wf(),
            final(self)@ == old(self)@.move_selected(x_diff as int, y_diff as int),
    {
        if let Some(selected_idx) = self.selected {
            let mut rect = self.rects[selected_idx];
            rect.move_by(x_diff, y_diff);
            self.rects[selected_idx] = rect;
            assert(self@.rects =~= old(self)@.move_selected(x_diff as int, y_diff as int).rects);
        }
    }

    /// Says what a canvas is to show of the pile. Nothing changes.
    pub fn describe_for_draw(&self) -> (drawing: Drawing)
        requires
            self.wf(),
        ensures
            frame_views(drawing.outlines@) == self@.frames(),
            drawing.control_points@.len() == 0,
            match drawing.highlight {
                Some(frame) => self@.highlight() == Some(frame@),
                None => self@.highlight() is None,
            },
    {
        let mut frames: Vec<Frame> = Vec::new();
        let mut i: usize = 0;
        while i < self.rects.len()
            invariant
                i <= self.rects.len(),
                frames@.len() == i,
                forall|m: int| 0 <= m < i ==> (#[trigger] frames@[m])@ == self@.frames()[m],
            decreases self.rects.len() - i,
        {
            frames.push(self.rects[i].to_frame());
            i = i + 1;
        }
        let highlight = match self.selected {
            Some(selected_idx) => Some(self.rects[selected_idx].to_frame()),
            None => None,
        };
        Drawing { outlines: frames, control_points: Vec::new(), highlight }
    }
}

} // verus!
