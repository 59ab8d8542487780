//! Geometry and selection logic of a small table editor.
//!
//! A table is an axis-aligned rectangle with a control point on each of its
//! corners. The pointer picks up either a whole table or one control point,
//! drags it, and lets it go again. Drawing and event handling are left to the
//! host program: this crate only decides what is selected, where everything
//! lies, and what is to be drawn.
//!
//! - `point`, `rect`: positions and rectangles, with their hit tests.
//! - `clickable`: what the pointer can hit, and the search for the first hit.
//! - `frame`: rectangles as a canvas takes them, and what there is to draw.
//! - `tables`: the editor itself; `model` holds the states that it goes
//!   through and what holds of them.
//! - `rects`: a plain pile of rectangles without control points.

pub mod clickable;
pub mod frame;
pub mod model;
pub mod point;
pub mod rect;
pub mod rects;
pub mod tables;
