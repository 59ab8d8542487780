use vstd::prelude::*;
use crate::point::{Point, PointView};

verus! {

/// Something on the drawing surface that the pointer can hit.
pub trait Clickable {
    /// The positions at which a click hits this shape.
    spec fn covers(&self, point: PointView) -> bool;

    /// Tells whether a click at `clicked_point` hits this shape.
    fn is_hovered(&self, clicked_point: &Point) -> (hit: bool)
        ensures
            hit == self.covers(clicked_point@),
    ;
}

/// For each shape, in order, whether a click at `point` hits it.
pub open spec fn hits_of<T: Clickable>(shapes: Seq<T>, point: PointView) -> Seq<bool> {
    Seq::new(shapes.len(), |i: int| shapes[i].covers(point))
}

/// `j` is a hit, and nothing before it is.
pub open spec fn is_first_hit(hits: Seq<bool>, j: int) -> bool {
    &&& 0 <= j < hits.len()
    &&& hits[j]
    &&& forall|m: int| 0 <= m < j ==> !hits[m]
}

/// The position of the first hit, if there is any hit at all.
pub open spec fn first_hit(hits: Seq<bool>) -> Option<int> {
    if exists|j: int| is_first_hit(hits, j) {
        Some(choose|j: int| is_first_hit(hits, j))
    } else {
        None
    }
}

/// A position that is a hit with no hit before it is the first hit.
pub proof fn lemma_first_hit_is(hits: Seq<bool>, j: int)
    requires
        is_first_hit(hits, j),
    ensures
        first_hit(hits) == Some(j),
{
}

/// Without any hit there is no first hit.
pub proof fn lemma_first_hit_none(hits: Seq<bool>)
    requires
        forall|m: int| 0 <= m < hits.len() ==> !hits[m],
    ensures
        first_hit(hits) is None,
{
}

/// What `first_hit` returns: a hit with none before it, or nothing when
/// there is no hit.
pub proof fn lemma_first_hit_found(hits: Seq<bool>)
    ensures
        match first_hit(hits) {
            Some(j) => is_first_hit(hits, j),
            None => forall|m: int| 0 <= m < hits.len() ==> !hits[m],
        },
{
    if exists|j: int| is_first_hit(hits, j) {
    } else {
        assert forall|m: int| 0 <= m < hits.len() implies !hits[m] by {
            lemma_no_first_hit_below(hits, m + 1);
        }
    }
}

/// If no position is a first hit, then no position below `n` is a hit.
proof fn lemma_no_first_hit_below(hits: Seq<bool>, n: int)
    requires
        0 <= n <= hits.len(),
        !exists|j: int| is_first_hit(hits, j),
    ensures
        forall|m: int| 0 <= m < n ==> !hits[m],
    decreases n,
{
    if n > 0 {
        lemma_no_first_hit_below(hits, n - 1);
        if hits[n - 1] {
            assert(is_first_hit(hits, n - 1));
        }
    }
}

/// Finds the first of `shapes` that a click at `clicked_point` hits.
pub fn first_hovered<T: Clickable>(shapes: &[T], clicked_point: &Point) -> (found: Option<usize>)
    ensures
        match found {
            Some(i) => first_hit(hits_of(shapes@, clicked_point@)) == Some(i as int),
            None => first_hit(hits_of(shapes@, clicked_point@)) is None,
        },
{
    let ghost hits = hits_of(shapes@, clicked_point@);
    let mut i: usize = 0;
    while i < shapes.len()
        invariant
            i <= shapes.len(),
            hits == hits_of(shapes@, clicked_point@),
            forall|m: int| 0 <= m < i ==> !hits[m],
        decreases shapes.len() - i,
    {
        if shapes[i].is_hovered(clicked_point) {
            proof {
                lemma_first_hit_is(hits, i as int);
            }
            return Some(i);
        }
        i = i + 1;
    }
    proof {
        lemma_first_hit_none(hits);
    }
    None
}

} // verus!
