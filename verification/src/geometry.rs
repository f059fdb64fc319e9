//! Plain geometric values and the color palette used by the drawing model.
//!
//! The drawing surface itself is an external collaborator; the library only
//! computes which primitives to place where, so positions, sizes and colors
//! are modelled as plain values.

use vstd::prelude::*;

verus! {

/// A position on the drawing surface, in pixels.
#[derive(Copy, Clone, Eq, PartialEq, Structural, Debug)]
pub struct Point {
    pub x: i32,
    pub y: i32,
}

impl Point {
    /// The componentwise sum of two points, truncated to `i32`.
    pub open spec fn spec_offset_by(self, by: Point) -> Point {
        Point { x: (self.x + by.x) as i32, y: (self.y + by.y) as i32 }
    }

    /// Move this point by the given offset.
    pub fn offset_by(self, by: Point) -> (r: Point)
        requires
            i32::MIN <= self.x + by.x <= i32::MAX,
            i32::MIN <= self.y + by.y <= i32::MAX,
        ensures
            r == self.spec_offset_by(by),
            r.x == self.x + by.x,
            r.y == self.y + by.y,
    {
        Point { x: self.x + by.x, y: self.y + by.y }
    }
}

/// An extent on the drawing surface, in pixels.
#[derive(Copy, Clone, Eq, PartialEq, Structural, Debug)]
pub struct Size {
    pub width: u32,
    pub height: u32,
}

/// An axis-aligned region of the drawing surface.
#[derive(Copy, Clone, Eq, PartialEq, Structural, Debug)]
pub struct Rectangle {
    pub top_left: Point,
    pub size: Size,
}

/// The palette of the watchface glyphs.
///
/// The pixel color space of a concrete surface is bound outside the
/// library; these are the only colors the drawing rules distinguish.
#[derive(Copy, Clone, Eq, PartialEq, Structural, Debug)]
pub enum Color {
    Black,
    White,
    Red,
    Green,
}

} // verus!
