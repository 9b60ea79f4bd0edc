//! The drawing primitives a chart produces, and their mathematical views.
//!
//! A chart never draws. It returns layers of shapes, the base layer first,
//! and the host paints them in that order.

use vstd::prelude::*;
use vstd::string::*;
use crate::charts::geometry::Color;
use crate::charts::geometry::HorizontalAlign;
use crate::charts::geometry::Point;
use crate::charts::geometry::PolarPoint;
use crate::charts::geometry::Rectangle;
use crate::charts::geometry::Stroke;
use crate::charts::geometry::VerticalAlign;

verus! {

/// One drawing primitive.
#[derive(Debug, Clone, PartialEq, Eq)]
pub enum Shape {
    /// A straight segment.
    Line { from: Point, to: Point, stroke: Stroke },
    /// A path through `points`, closed back to its start if `closed`.
    Polyline { points: Vec<Point>, closed: bool, stroke: Stroke },
    /// A filled rectangle.
    FillRect { rect: Rectangle, color: Color },
    /// The outline of a rectangle.
    StrokeRect { rect: Rectangle, stroke: Stroke },
    /// A filled disc.
    FillCircle { center: Point, radius: i32, color: Color },
    /// The outline of a circle.
    StrokeCircle { center: Point, radius: i32, stroke: Stroke },
    /// A filled sector of a disc between two angles.
    FillSector { center: Point, radius: i32, start_angle: i32, end_angle: i32, color: Color },
    /// An arc of a circle between two angles.
    StrokeArc { center: Point, radius: i32, start_angle: i32, end_angle: i32, stroke: Stroke },
    /// A segment from the centre of `tip` out to `tip`.
    Spoke { tip: PolarPoint, stroke: Stroke },
    /// A closed polygon through vertices given in polar form.
    PolarPolygon { vertices: Vec<PolarPoint>, stroke: Stroke },
    /// A piece of text anchored at `position`.
    Text {
        content: String,
        position: Point,
        color: Color,
        size: i32,
        align_x: HorizontalAlign,
        align_y: VerticalAlign,
    },
    /// A piece of text anchored at a position given in polar form.
    PolarText {
        content: String,
        anchor: PolarPoint,
        color: Color,
        size: i32,
        align_x: HorizontalAlign,
        align_y: VerticalAlign,
    },
}

/// What a [`Shape`] is, with its text as characters and its lists as
/// sequences.
pub enum ShapeView {
    Line { from: Point, to: Point, stroke: Stroke },
    Polyline { points: Seq<Point>, closed: bool, stroke: Stroke },
    FillRect { rect: Rectangle, color: Color },
    StrokeRect { rect: Rectangle, stroke: Stroke },
    FillCircle { center: Point, radius: i32, color: Color },
    StrokeCircle { center: Point, radius: i32, stroke: Stroke },
    FillSector { center: Point, radius: i32, start_angle: i32, end_angle: i32, color: Color },
    StrokeArc { center: Point, radius: i32, start_angle: i32, end_angle: i32, stroke: Stroke },
    Spoke { tip: PolarPoint, stroke: Stroke },
    PolarPolygon { vertices: Seq<PolarPoint>, stroke: Stroke },
    Text {
        content: Seq<char>,
        position: Point,
        color: Color,
        size: i32,
        align_x: HorizontalAlign,
        align_y: VerticalAlign,
    },
    PolarText {
        content: Seq<char>,
        anchor: PolarPoint,
        color: Color,
        size: i32,
        align_x: HorizontalAlign,
        align_y: VerticalAlign,
    },
}

impl View for Shape {
    type V = ShapeView;

    open spec fn view(&self) -> ShapeView {
        match *self {
            Shape::Line { from, to, stroke } => ShapeView::Line { from, to, stroke },
            Shape::Polyline { points, closed, stroke } => ShapeView::Polyline {
                points: points@,
                closed,
                stroke,
            },
            Shape::FillRect { rect, color } => ShapeView::FillRect { rect, color },
            Shape::StrokeRect { rect, stroke } => ShapeView::StrokeRect { rect, stroke },
            Shape::FillCircle { center, radius, color } => ShapeView::FillCircle {
                center,
                radius,
                color,
            },
            Shape::StrokeCircle { center, radius, stroke } => ShapeView::StrokeCircle {
                center,
                radius,
                stroke,
            },
            Shape::FillSector { center, radius, start_angle, end_angle, color } => {
                ShapeView::FillSector { center, radius, start_angle, end_angle, color }
            },
            Shape::StrokeArc { center, radius, start_angle, end_angle, stroke } => {
                ShapeView::StrokeArc { center, radius, start_angle, end_angle, stroke }
            },
            Shape::Spoke { tip, stroke } => ShapeView::Spoke { tip, stroke },
            Shape::PolarPolygon { vertices, stroke } => ShapeView::PolarPolygon {
                vertices: vertices@,
                stroke,
            },
            Shape::Text { content, position, color, size, align_x, align_y } => ShapeView::Text {
                content: content@,
                position,
                color,
                size,
                align_x,
                align_y,
            },
            Shape::PolarText { content, anchor, color, size, align_x, align_y } => {
                ShapeView::PolarText { content: content@, anchor, color, size, align_x, align_y }
            },
        }
    }
}

/// The views of a list of shapes, in order.
pub open spec fn views(shapes: Seq<Shape>) -> Seq<ShapeView> {
    Seq::new(shapes.len(), |i: int| shapes[i]@)
}

/// The views of a list of layers, in order.
pub open spec fn layer_views(layers: Seq<Vec<Shape>>) -> Seq<Seq<ShapeView>> {
    Seq::new(layers.len(), |i: int| views(layers[i]@))
}

/// Adding a shape to a list adds its view to the views.
pub proof fn lemma_views_push(shapes: Seq<Shape>, shape: Shape)
    ensures
        views(shapes.push(shape)) == views(shapes).push(shape@),
{
}

/// Appends `shape` to `shapes`.
pub fn emit(shapes: &mut Vec<Shape>, shape: Shape)
    ensures
        views(final(shapes)@) == views(old(shapes)@).push(shape@),
{
    shapes.push(shape);
}

fn copy_points(points: &Vec<Point>) -> (copy: Vec<Point>)
    ensures
        copy@ == points@,
{
    let mut copy: Vec<Point> = Vec::new();
    let mut i: usize = 0;
    while i < points.len()
        invariant
            i <= points.len(),
            copy@ == points@.subrange(0, i as int),
        decreases points.len() - i,
    {
        copy.push(points[i]);
        i += 1;
    }
    copy
}

fn copy_polar(points: &Vec<PolarPoint>) -> (copy: Vec<PolarPoint>)
    ensures
        copy@ == points@,
{
    let mut copy: Vec<PolarPoint> = Vec::new();
    let mut i: usize = 0;
    while i < points.len()
        invariant
            i <= points.len(),
            copy@ == points@.subrange(0, i as int),
        decreases points.len() - i,
    {
        copy.push(points[i]);
        i += 1;
    }
    copy
}

impl Shape {
    /// A copy with the same view.
    pub fn duplicate(&self) -> (copy: Shape)
        ensures
            copy@ == self@,
    {
        match self {
            Shape::Line { from, to, stroke } => Shape::Line {
                from: *from,
                to: *to,
                stroke: *stroke,
            },
            Shape::Polyline { points, closed, stroke } => Shape::Polyline {
                points: copy_points(points),
                closed: *closed,
                stroke: *stroke,
            },
            Shape::FillRect { rect, color } => Shape::FillRect { rect: *rect, color: *color },
            Shape::StrokeRect { rect, stroke } => Shape::StrokeRect {
                rect: *rect,
                stroke: *stroke,
            },
            Shape::FillCircle { center, radius, color } => Shape::FillCircle {
                center: *center,
                radius: *radius,
                color: *color,
            },
            Shape::StrokeCircle { center, radius, stroke } => Shape::StrokeCircle {
                center: *center,
                radius: *radius,
                stroke: *stroke,
            },
            Shape::FillSector { center, radius, start_angle, end_angle, color } => {
                Shape::FillSector {
                    center: *center,
                    radius: *radius,
                    start_angle: *start_angle,
                    end_angle: *end_angle,
                    color: *color,
                }
            },
            Shape::StrokeArc { center, radius, start_angle, end_angle, stroke } => {
                Shape::StrokeArc {
                    center: *center,
                    radius: *radius,
                    start_angle: *start_angle,
                    end_angle: *end_angle,
                    stroke: *stroke,
                }
            },
            Shape::Spoke { tip, stroke } => Shape::Spoke { tip: *tip, stroke: *stroke },
            Shape::PolarPolygon { vertices, stroke } => Shape::PolarPolygon {
                vertices: copy_polar(vertices),
                stroke: *stroke,
            },
            Shape::Text { content, position, color, size, align_x, align_y } => Shape::Text {
                content: content.clone(),
                position: *position,
                color: *color,
                size: *size,
                align_x: *align_x,
                align_y: *align_y,
            },
            Shape::PolarText { content, anchor, color, size, align_x, align_y } => {
                Shape::PolarText {
                    content: content.clone(),
                    anchor: *anchor,
                    color: *color,
                    size: *size,
                    align_x: *align_x,
                    align_y: *align_y,
                }
            },
        }
    }
}

/// A copy of a layer with the same views.
pub fn copy_layer(shapes: &Vec<Shape>) -> (copy: Vec<Shape>)
    ensures
        views(copy@) == views(shapes@),
{
    let mut copy: Vec<Shape> = Vec::new();
    let mut i: usize = 0;
    while i < shapes.len()
        invariant
            i <= shapes.len(),
            views(copy@) == views(shapes@.subrange(0, i as int)),
        decreases shapes.len() - i,
    {
        let shape = shapes[i].duplicate();
        proof {
            lemma_views_push(copy@, shape);
        }
        copy.push(shape);
        i += 1;
    }
    copy
}

} // verus!
