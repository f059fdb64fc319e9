//! Primitive drawing operations, as data.
//!
//! A drawable glyph is computed as a sequence of primitive commands; a
//! caller replays them, in order, against whatever drawing surface it owns.
//! The ghost image of a command sequence is what the drawing contracts and
//! laws speak about.

use vstd::prelude::*;

use crate::geometry::Color;
use crate::geometry::Point;
use crate::geometry::Size;

verus! {

/// One primitive drawing operation.
#[derive(Clone, PartialEq, Debug)]
pub enum DrawCommand {
    /// Stroke an open polygonal path.
    Polyline { points: Vec<Point>, color: Color, stroke_width: u32 },
    /// Fill an axis-aligned rectangle.
    FillRectangle { top_left: Point, size: Size, color: Color },
    /// Fill a triangle.
    FillTriangle { a: Point, b: Point, c: Point, color: Color },
}

/// The ghost image of a [`DrawCommand`].
pub enum CommandModel {
    Polyline { points: Seq<Point>, color: Color, stroke_width: u32 },
    FillRectangle { top_left: Point, size: Size, color: Color },
    FillTriangle { a: Point, b: Point, c: Point, color: Color },
}

impl View for DrawCommand {
    type V = CommandModel;

    open spec fn view(&self) -> CommandModel {
        match self {
            DrawCommand::Polyline { points, color, stroke_width } => (CommandModel::Polyline {
                points: points@,
                color: *color,
                stroke_width: *stroke_width,
            }),
            DrawCommand::FillRectangle { top_left, size, color } => (CommandModel::FillRectangle {
                top_left: *top_left,
                size: *size,
                color: *color,
            }),
            DrawCommand::FillTriangle { a, b, c, color } => (CommandModel::FillTriangle {
                a: *a,
                b: *b,
                c: *c,
                color: *color,
            }),
        }
    }
}

/// The ghost image of a command sequence, element by element.
pub open spec fn commands_view(s: Seq<DrawCommand>) -> Seq<CommandModel> {
    s.map_values(|c: DrawCommand| c@)
}

} // verus!
