//! Plane geometry in thousandths of a pixel, colours in thousandths of full
//! strength, angles in thousandths of a degree, and the drawing primitives a
//! chart hands to its host.

use vstd::prelude::*;
use crate::charts::numeric::sat;
use crate::charts::numeric::saturate;

verus! {

/// A quarter turn, in thousandths of a degree.
pub const QUARTER_TURN: i32 = 90_000;

/// The direction of twelve o'clock, in thousandths of a degree.
pub const NOON: i32 = -90_000;

/// A full turn, in thousandths of a degree.
pub const FULL_TURN: i32 = 360_000;

/// A position in pixel space; `y` grows downward.
#[derive(Debug, Clone, Copy, PartialEq, Eq, Structural)]
pub struct Point {
    pub x: i32,
    pub y: i32,
}

/// A displacement in pixel space.
#[derive(Debug, Clone, Copy, PartialEq, Eq, Structural)]
pub struct Vector {
    pub x: i32,
    pub y: i32,
}

/// The extent of a viewport or of a rectangle.
#[derive(Debug, Clone, Copy, PartialEq, Eq, Structural)]
pub struct Size {
    pub width: i32,
    pub height: i32,
}

/// An axis-aligned rectangle given by its top-left corner and its extent.
#[derive(Debug, Clone, Copy, PartialEq, Eq, Structural)]
pub struct Rectangle {
    pub x: i32,
    pub y: i32,
    pub width: i32,
    pub height: i32,
}

/// A colour with alpha; each channel runs from 0 to 1000.
#[derive(Debug, Clone, Copy, PartialEq, Eq, Structural)]
pub struct Color {
    pub r: i32,
    pub g: i32,
    pub b: i32,
    pub a: i32,
}

/// The semantic colours a chart draws with.
#[derive(Debug, Clone, Copy, PartialEq, Eq, Structural)]
pub struct Theme {
    /// Axes, gridlines, tracks and the low end of colour ramps.
    pub background_weak: Color,
    /// Tooltip boxes.
    pub background_strong: Color,
    /// Text on top of `background_strong`.
    pub background_strong_text: Color,
    /// Selection rectangles and the high end of colour ramps.
    pub primary_strong: Color,
    /// Labels on the plain background.
    pub text: Color,
}

/// Where the pointer is, in the coordinates of the surrounding window.
#[derive(Debug, Clone, Copy, PartialEq, Eq, Structural)]
pub enum Cursor {
    Available(Point),
    Unavailable,
}

/// The pointer shape a chart asks its host to show.
#[derive(Debug, Clone, Copy, PartialEq, Eq, Structural)]
pub enum Interaction {
    Pointer,
    Crosshair,
    Idle,
}

/// A point given by its distance and direction from a centre. The angle is
/// measured clockwise on screen from the positive x axis.
#[derive(Debug, Clone, Copy, PartialEq, Eq, Structural)]
pub struct PolarPoint {
    pub center: Point,
    pub radius: i32,
    pub angle: i32,
}

/// Line width and colour of an outline.
#[derive(Debug, Clone, Copy, PartialEq, Eq, Structural)]
pub struct Stroke {
    pub width: i32,
    pub color: Color,
}

#[derive(Debug, Clone, Copy, PartialEq, Eq, Structural)]
pub enum HorizontalAlign {
    Left,
    Center,
    Right,
}

#[derive(Debug, Clone, Copy, PartialEq, Eq, Structural)]
pub enum VerticalAlign {
    Top,
    Center,
    Bottom,
}

impl Point {
    /// The point displaced by `v`, each coordinate saturating.
    pub open spec fn spec_offset(self, v: Vector) -> Point {
        Point { x: sat(self.x + v.x) as i32, y: sat(self.y + v.y) as i32 }
    }

    /// The displacement that leads from `other` to this point, saturating.
    pub open spec fn spec_minus(self, other: Point) -> Vector {
        Vector { x: sat(self.x - other.x) as i32, y: sat(self.y - other.y) as i32 }
    }

    pub fn offset(self, v: Vector) -> (p: Point)
        ensures
            p == self.spec_offset(v),
    {
        Point {
            x: saturate(self.x as i128 + v.x as i128),
            y: saturate(self.y as i128 + v.y as i128),
        }
    }

    pub fn minus(self, other: Point) -> (v: Vector)
        ensures
            v == self.spec_minus(other),
    {
        Vector {
            x: saturate(self.x as i128 - other.x as i128),
            y: saturate(self.y as i128 - other.y as i128),
        }
    }
}

impl Vector {
    /// The sum of two displacements, each coordinate saturating.
    pub open spec fn spec_plus(self, other: Vector) -> Vector {
        Vector { x: sat(self.x + other.x) as i32, y: sat(self.y + other.y) as i32 }
    }

    pub fn plus(self, other: Vector) -> (v: Vector)
        ensures
            v == self.spec_plus(other),
    {
        Vector {
            x: saturate(self.x as i128 + other.x as i128),
            y: saturate(self.y as i128 + other.y as i128),
        }
    }
}

impl Rectangle {
    /// Whether `p` lies inside; the right and bottom edges are outside.
    pub open spec fn spec_contains(self, p: Point) -> bool {
        &&& self.x <= p.x
        &&& p.x < self.x + self.width
        &&& self.y <= p.y
        &&& p.y < self.y + self.height
    }

    pub open spec fn spec_size(self) -> Size {
        Size { width: self.width, height: self.height }
    }

    pub fn contains(&self, p: Point) -> (inside: bool)
        ensures
            inside == self.spec_contains(p),
    {
        self.x <= p.x && (p.x as i64) < self.x as i64 + self.width as i64 && self.y <= p.y && (
        p.y as i64) < self.y as i64 + self.height as i64
    }

    pub fn size(&self) -> (s: Size)
        ensures
            s == self.spec_size(),
    {
        Size { width: self.width, height: self.height }
    }
}

impl Cursor {
    /// The pointer position relative to the top-left corner of `bounds`, if
    /// the pointer is available and inside `bounds`.
    pub open spec fn spec_position_in(self, bounds: Rectangle) -> Option<Point> {
        match self {
            Cursor::Available(p) => if bounds.spec_contains(p) {
                Some(Point { x: (p.x - bounds.x) as i32, y: (p.y - bounds.y) as i32 })
            } else {
                None
            },
            Cursor::Unavailable => None,
        }
    }

    pub fn position_in(&self, bounds: Rectangle) -> (p: Option<Point>)
        ensures
            p == self.spec_position_in(bounds),
            p matches Some(q) ==> 0 <= q.x < bounds.width && 0 <= q.y < bounds.height,
    {
        match *self {
            Cursor::Available(p) => {
                if bounds.contains(p) {
                    Some(Point { x: p.x - bounds.x, y: p.y - bounds.y })
                } else {
                    None
                }
            },
            Cursor::Unavailable => None,
        }
    }
}

} // verus!
