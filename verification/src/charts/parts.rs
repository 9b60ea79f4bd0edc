//! Pieces that several chart variants draw alike: axes, the selection
//! outline and tooltips.

use vstd::prelude::*;
use vstd::string::*;
use crate::charts::geometry::HorizontalAlign;
use crate::charts::geometry::Point;
use crate::charts::geometry::Stroke;
use crate::charts::geometry::Theme;
use crate::charts::geometry::Vector;
use crate::charts::geometry::VerticalAlign;
use crate::charts::model::InteractionState;
use crate::charts::scale::Plot;
use crate::charts::shape::emit;
use crate::charts::shape::views;
use crate::charts::shape::Shape;
use crate::charts::shape::ShapeView;
use crate::text::append_fixed2;
use crate::text::fixed2;

verus! {

/// The line width of axes, gridlines and outlines.
pub const HAIRLINE: i32 = 1000;

/// The line width of a series.
pub const SERIES_WIDTH: i32 = 2000;

/// The size of axis labels.
pub const LABEL_SIZE: i32 = 11_000;

/// The size of tooltip text.
pub const TOOLTIP_SIZE: i32 = 12_000;

/// The two axes of a plot: the x axis along the bottom edge, the y axis
/// along the left edge.
pub open spec fn axes(plot: Plot, theme: Theme) -> Seq<ShapeView> {
    let stroke = Stroke { width: HAIRLINE, color: theme.background_weak };
    seq![
        ShapeView::Line {
            from: Point { x: plot.left, y: plot.bottom },
            to: Point { x: plot.right, y: plot.bottom },
            stroke,
        },
        ShapeView::Line {
            from: Point { x: plot.left, y: plot.bottom },
            to: Point { x: plot.left, y: plot.top },
            stroke,
        },
    ]
}

/// Appends the two axes of `plot`.
pub fn emit_axes(shapes: &mut Vec<Shape>, plot: Plot, theme: &Theme)
    ensures
        views(final(shapes)@) == views(old(shapes)@) + axes(plot, *theme),
{
    let stroke = Stroke { width: HAIRLINE, color: theme.background_weak };
    emit(
        shapes,
        Shape::Line {
            from: Point { x: plot.left, y: plot.bottom },
            to: Point { x: plot.right, y: plot.bottom },
            stroke,
        },
    );
    emit(
        shapes,
        Shape::Line {
            from: Point { x: plot.left, y: plot.bottom },
            to: Point { x: plot.left, y: plot.top },
            stroke,
        },
    );
}

/// The outline of the selection, if both of its corners are known.
pub open spec fn selection_shapes(state: InteractionState, theme: Theme) -> Seq<ShapeView> {
    match state.spec_selection() {
        Some(rect) => seq![
            ShapeView::StrokeRect {
                rect,
                stroke: Stroke { width: HAIRLINE, color: theme.primary_strong },
            },
        ],
        None => Seq::empty(),
    }
}

/// Appends the outline of the selection, if there is one.
pub fn emit_selection(shapes: &mut Vec<Shape>, state: &InteractionState, theme: &Theme)
    ensures
        views(final(shapes)@) == views(old(shapes)@) + selection_shapes(*state, *theme),
{
    match state.selection() {
        Some(rect) => {
            emit(
                shapes,
                Shape::StrokeRect {
                    rect,
                    stroke: Stroke { width: HAIRLINE, color: theme.primary_strong },
                },
            );
        },
        None => {},
    }
}

/// The text of a tooltip that names a value: the label, a colon, and the
/// value with two decimal places.
pub open spec fn value_label(label: Seq<char>, value: int) -> Seq<char> {
    label + ": "@ + fixed2(value)
}

pub fn make_value_label(label: &String, value: i32) -> (text: String)
    ensures
        text@ == value_label(label@, value as int),
{
    let mut text = label.clone();
    text.append(": ");
    append_fixed2(&mut text, value);
    text
}

/// A tooltip text next to the pointer: eight pixels to the right and eight
/// pixels up.
pub open spec fn tooltip_at(content: Seq<char>, at: Point, theme: Theme) -> ShapeView {
    ShapeView::Text {
        content,
        position: at.spec_offset(Vector { x: 8000, y: -8000i32 }),
        color: theme.text,
        size: TOOLTIP_SIZE,
        align_x: HorizontalAlign::Left,
        align_y: VerticalAlign::Top,
    }
}

pub fn make_tooltip(content: String, at: Point, theme: &Theme) -> (shape: Shape)
    ensures
        shape@ == tooltip_at(content@, at, *theme),
{
    Shape::Text {
        content,
        position: at.offset(Vector { x: 8000, y: -8000 }),
        color: theme.text,
        size: TOOLTIP_SIZE,
        align_x: HorizontalAlign::Left,
        align_y: VerticalAlign::Top,
    }
}

} // verus!
