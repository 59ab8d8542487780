use vstd::prelude::*;

verus! {

/// A rectangle as a canvas takes it: the top-left corner and the size.
#[derive(Copy, Clone, Debug, PartialEq, Eq, Structural)]
pub struct Frame {
    pub x: i32,
    pub y: i32,
    pub width: u32,
    pub height: u32,
}

/// What a `Frame` stands for.
pub struct FrameView {
    pub x: int,
    pub y: int,
    pub width: int,
    pub height: int,
}

impl View for Frame {
    type V = FrameView;

    open spec fn view(&self) -> FrameView {
        FrameView {
            x: self.x as int,
            y: self.y as int,
            width: self.width as int,
            height: self.height as int,
        }
    }
}

/// The distance from `from` to `to` as an unsigned 32-bit size. Where `to`
/// lies before `from` there is no such distance, and the size is the
/// difference modulo 2^32.
pub open spec fn extent(from: int, to: int) -> int {
    (to - from) % 0x1_0000_0000
}

/// Computes `extent` for two coordinates.
pub fn extent_between(from: i32, to: i32) -> (size: u32)
    ensures
        size == extent(from as int, to as int),
        from <= to ==> size == to - from,
{
    let d: i64 = to as i64 - from as i64;
    if d < 0 {
        (d + 0x1_0000_0000) as u32
    } else {
        d as u32
    }
}

/// What there is to draw: the outline of every rectangle, the outline of
/// every control point, and what is to be filled because it is selected.
#[derive(Debug, PartialEq, Eq)]
pub struct Drawing {
    pub outlines: Vec<Frame>,
    pub control_points: Vec<Frame>,
    pub highlight: Option<Frame>,
}

/// The frames that `frames` stand for.
pub open spec fn frame_views(frames: Seq<Frame>) -> Seq<FrameView> {
    frames.map_values(|f: Frame| f@)
}

} // verus!
