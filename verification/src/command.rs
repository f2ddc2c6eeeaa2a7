//! Primitive drawing instructions.
//!
//! A render operation does not touch a display directly: it produces a
//! sequence of [`DrawCommand`] values that an application replays, in order,
//! against its drawing target.  The ghost counterpart [`CommandModel`]
//! describes a command over mathematical integers and character sequences,
//! and is what the rendering contracts speak about.

use vstd::prelude::*;

verus! {

/// A position on the destination drawing surface, in pixel space.
#[derive(Clone, Copy, Debug, PartialEq, Eq, Structural)]
pub struct PixelPoint {
    pub x: i32,
    pub y: i32,
}

/// Horizontal anchoring of a text fragment relative to its position.
#[derive(Clone, Copy, Debug, PartialEq, Eq, Structural)]
pub enum TextAlignment {
    Left,
    Center,
    Right,
}

/// Vertical anchoring of a text fragment relative to its position.
#[derive(Clone, Copy, Debug, PartialEq, Eq, Structural)]
pub enum TextBaseline {
    Top,
    Middle,
}

/// One primitive drawing instruction for an external drawing target.
///
/// A color of `None` stands for the target's default color; the replaying
/// application substitutes it.
#[derive(Debug)]
pub enum DrawCommand<C> {
    /// A straight line segment with the given stroke thickness.
    Line { start: PixelPoint, end: PixelPoint, color: Option<C>, thickness: usize },
    /// A text fragment anchored at `position`.
    Text {
        content: String,
        position: PixelPoint,
        alignment: TextAlignment,
        baseline: TextBaseline,
        color: Option<C>,
    },
}

/// The mathematical value of a [`PixelPoint`].
pub struct PointModel {
    pub x: int,
    pub y: int,
}

/// The mathematical value of a [`DrawCommand`]: coordinates as unbounded
/// integers and text as a character sequence.
#[verifier::ext_equal]
pub enum CommandModel<C> {
    Line { start: PointModel, end: PointModel, color: Option<C>, thickness: int },
    Text {
        content: Seq<char>,
        position: PointModel,
        alignment: TextAlignment,
        baseline: TextBaseline,
        color: Option<C>,
    },
}

impl DeepView for PixelPoint {
    type V = PointModel;

    open spec fn deep_view(&self) -> PointModel {
        PointModel { x: self.x as int, y: self.y as int }
    }
}

impl<C> DeepView for DrawCommand<C> {
    type V = CommandModel<C>;

    open spec fn deep_view(&self) -> CommandModel<C> {
        match self {
            DrawCommand::Line { start, end, color, thickness } => CommandModel::Line {
                start: start.deep_view(),
                end: end.deep_view(),
                color: *color,
                thickness: *thickness as int,
            },
            DrawCommand::Text { content, position, alignment, baseline, color } => (
                CommandModel::Text {
                    content: content@,
                    position: position.deep_view(),
                    alignment: *alignment,
                    baseline: *baseline,
                    color: *color,
                }
            ),
        }
    }
}

} // verus!
