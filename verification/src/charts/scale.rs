//! The scale mapper: from a data domain, a viewport, a padding inset and the
//! current zoom and pan to pixel positions, and back from a pixel to the
//! slot it falls in.

use vstd::prelude::*;
use crate::charts::geometry::Point;
use crate::charts::geometry::Size;
use crate::charts::geometry::Vector;
use crate::charts::numeric::div_floor;
use crate::charts::numeric::lemma_mul_bound;
use crate::charts::numeric::max_int;
use crate::charts::numeric::mul_index;
use crate::charts::numeric::mul_narrow;
use crate::charts::numeric::mul_wide;
use crate::charts::numeric::sat;
use crate::charts::numeric::saturate;

verus! {

/// The plot rectangle: the viewport without its padding.
#[derive(Debug, Clone, Copy, PartialEq, Eq, Structural)]
pub struct Plot {
    pub left: i32,
    pub top: i32,
    pub right: i32,
    pub bottom: i32,
}

impl Plot {
    /// Whether the padding leaves no room for a plot.
    pub open spec fn collapsed(size: Size, padding: i32) -> bool {
        size.width <= 2 * padding || size.height <= 2 * padding
    }

    /// The plot rectangle of a viewport, unless the padding leaves no room.
    pub open spec fn spec_within(size: Size, padding: i32) -> Option<Plot> {
        if Plot::collapsed(size, padding) {
            None
        } else {
            Some(
                Plot {
                    left: padding,
                    top: padding,
                    right: sat(size.width - padding) as i32,
                    bottom: sat(size.height - padding) as i32,
                },
            )
        }
    }

    pub fn within(size: Size, padding: i32) -> (plot: Option<Plot>)
        ensures
            plot == Plot::spec_within(size, padding),
            plot matches Some(p) ==> p.left < p.right && p.top < p.bottom,
    {
        if size.width as i64 <= 2 * (padding as i64) || size.height as i64 <= 2 * (padding as i64) {
            None
        } else {
            Some(
                Plot {
                    left: padding,
                    top: padding,
                    right: saturate(size.width as i128 - padding as i128),
                    bottom: saturate(size.height as i128 - padding as i128),
                },
            )
        }
    }

    pub open spec fn spec_width(self) -> int {
        self.right - self.left
    }

    pub open spec fn spec_height(self) -> int {
        self.bottom - self.top
    }

    pub fn width(&self) -> (w: i64)
        ensures
            w == self.spec_width(),
    {
        self.right as i64 - self.left as i64
    }

    pub fn height(&self) -> (h: i64)
        ensures
            h == self.spec_height(),
    {
        self.bottom as i64 - self.top as i64
    }

    /// Whether `p` lies in the plot rectangle, its edges counted in.
    pub open spec fn spec_holds(self, p: Point) -> bool {
        &&& self.left <= p.x <= self.right
        &&& self.top <= p.y <= self.bottom
    }

    pub fn holds(&self, p: Point) -> (inside: bool)
        ensures
            inside == self.spec_holds(p),
    {
        self.left <= p.x && p.x <= self.right && self.top <= p.y && p.y <= self.bottom
    }
}

/// The length of the interval from `lo` to `hi`, but at least one unit, so
/// that a single value still spans something.
pub open spec fn spec_span(lo: int, hi: int) -> int {
    max_int(hi - lo, 1000)
}

pub fn span(lo: i32, hi: i32) -> (s: i64)
    ensures
        s == spec_span(lo as int, hi as int),
        1000 <= s <= 0xffff_ffff,
{
    let d: i64 = hi as i64 - lo as i64;
    if d >= 1000 {
        d
    } else {
        1000
    }
}

/// How far along an axis of `extent` pixels the value `v` lies, when the
/// axis shows the domain from `lo` to `hi` at the given zoom: the share of
/// the span that `v` has covered, times the extent, times the zoom.
pub open spec fn spec_project(v: int, lo: int, hi: int, extent: int, zoom: int) -> int {
    ((v - lo) * extent * zoom) / (spec_span(lo, hi) * 1000)
}

pub fn project(v: i32, lo: i32, hi: i32, extent: i64, zoom: i32) -> (offset: i128)
    requires
        -0x1_0000_0000 <= extent <= 0x1_0000_0000,
    ensures
        offset == spec_project(v as int, lo as int, hi as int, extent as int, zoom as int),
{
    let covered: i64 = v as i64 - lo as i64;
    let area: i128 = mul_wide(covered, extent);
    proof {
        lemma_mul_bound(covered as int, extent as int, 0x1_0000_0000, 0x1_0000_0000);
    }
    let scaled: i128 = mul_narrow(area, zoom);
    let den: i128 = span(lo, hi) as i128 * 1000;
    div_floor(scaled, den)
}

/// The position of division `i` of `n` equal divisions of the interval
/// from `lo` to `hi`.
pub open spec fn spec_division(lo: int, hi: int, i: int, n: int) -> int {
    lo + (i * (hi - lo)) / n
}

pub fn division(lo: i32, hi: i32, i: usize, n: usize) -> (at: i32)
    requires
        n > 0,
        i <= n,
    ensures
        at == sat(spec_division(lo as int, hi as int, i as int, n as int)),
{
    let length: i64 = hi as i64 - lo as i64;
    let part: i128 = div_floor(mul_index(i, length), n as i128);
    proof {
        lemma_share_bound(i as int, length as int, n as int);
    }
    saturate(lo as i128 + part)
}

/// A share of a length is no longer than the length.
pub proof fn lemma_share_bound(i: int, length: int, n: int)
    requires
        0 <= i <= n,
        n > 0,
    ensures
        length >= 0 ==> 0 <= (i * length) / n <= length,
        length <= 0 ==> length <= (i * length) / n <= 0,
{
    let a = i * length;
    vstd::arithmetic::div_mod::lemma_fundamental_div_mod(a, n);
    let q = a / n;
    let r = a % n;
    if length >= 0 {
        assert(0 <= q <= length) by (nonlinear_arith)
            requires
                a == n * q + r,
                0 <= r < n,
                a == i * length,
                0 <= i <= n,
                length >= 0,
        ;
    } else {
        assert(length <= q <= 0) by (nonlinear_arith)
            requires
                a == n * q + r,
                0 <= r < n,
                a == i * length,
                0 <= i <= n,
                length < 0,
        ;
    }
}

/// The width of one of `count` equal slots of an axis of `extent` pixels at
/// the given zoom.
pub open spec fn spec_slot(extent: int, count: int, zoom: int) -> int {
    (extent * zoom) / (count * 1000)
}

pub fn slot(extent: i64, count: usize, zoom: i32) -> (width: i64)
    requires
        0 <= extent <= 0x1_0000_0000,
        count > 0,
        zoom > 0,
    ensures
        width == spec_slot(extent as int, count as int, zoom as int),
        0 <= width <= 0x40_0000_0000_0000,
{
    let area: i128 = mul_wide(extent, zoom as i64);
    let den: i128 = count as i128 * 1000;
    let width: i128 = div_floor(area, den);
    proof {
        lemma_mul_bound(extent as int, zoom as int, 0x1_0000_0000, 0x8000_0000);
        assert(0x1_0000_0000 * 0x8000_0000 == 0x8000_0000_0000_0000int) by (nonlinear_arith);
        assert(0 <= extent as int * zoom as int) by (nonlinear_arith)
            requires
                0 <= extent,
                0 < zoom,
        ;
        let a = extent as int * zoom as int;
        let d = count as int * 1000;
        vstd::arithmetic::div_mod::lemma_div_pos_is_pos(a, d);
        vstd::arithmetic::div_mod::lemma_div_is_ordered_by_denominator(a, 1000, d);
    }
    width as i64
}

/// The pixel at which slot `index` begins, for slots of width `slot` that
/// start at `origin` and are shifted by `pan`.
pub open spec fn spec_slot_start(origin: int, index: int, slot: int, pan: int) -> int {
    sat(origin + index * slot + pan)
}

pub fn slot_start(origin: i32, index: usize, slot: i64, pan: i32) -> (at: i32)
    ensures
        at == spec_slot_start(origin as int, index as int, slot as int, pan as int),
{
    let shift: i128 = mul_index(index, slot);
    proof {
        lemma_mul_bound(
            index as int,
            slot as int,
            0xffff_ffff_ffff_ffff,
            0x8000_0000_0000_0000,
        );
        assert(0xffff_ffff_ffff_ffff * 0x8000_0000_0000_0000
            == 0x7fff_ffff_ffff_ffff_8000_0000_0000_0000int) by (nonlinear_arith);
    }
    saturate(origin as i128 + shift + pan as i128)
}

/// The pixel in the middle of slot `index`.
pub open spec fn spec_slot_middle(origin: int, index: int, slot: int, pan: int) -> int {
    sat(origin + index * slot + pan + slot / 2)
}

pub fn slot_middle(origin: i32, index: usize, slot: i64, pan: i32) -> (at: i32)
    requires
        0 <= slot,
    ensures
        at == spec_slot_middle(origin as int, index as int, slot as int, pan as int),
{
    let shift: i128 = mul_index(index, slot);
    proof {
        lemma_mul_bound(
            index as int,
            slot as int,
            0xffff_ffff_ffff_ffff,
            0x8000_0000_0000_0000,
        );
        assert(0xffff_ffff_ffff_ffff * 0x8000_0000_0000_0000
            == 0x7fff_ffff_ffff_ffff_8000_0000_0000_0000int) by (nonlinear_arith);
    }
    saturate(origin as i128 + shift + pan as i128 + (slot / 2) as i128)
}

/// The slot a pixel falls in: the inverse of [`spec_slot_start`]. Slot `i`
/// holds the pixels from its start up to, not counting, the start of slot
/// `i + 1`.
pub open spec fn spec_slot_index(at: int, origin: int, slot: int, pan: int) -> int {
    (at - origin - pan) / slot
}

pub fn slot_index(at: i32, origin: i32, slot: i64, pan: i32) -> (index: i128)
    requires
        slot > 0,
    ensures
        index == spec_slot_index(at as int, origin as int, slot as int, pan as int),
{
    div_floor(at as i128 - origin as i128 - pan as i128, slot as i128)
}

/// A pixel that lies in slot `i` maps back to `i`.
pub proof fn lemma_slot_index_inverts(at: int, origin: int, index: int, slot: int, pan: int)
    requires
        slot > 0,
        origin + index * slot + pan <= at < origin + (index + 1) * slot + pan,
    ensures
        spec_slot_index(at, origin, slot, pan) == index,
{
    let offset = at - origin - pan;
    assert((index + 1) * slot == index * slot + slot) by (nonlinear_arith);
    vstd::arithmetic::div_mod::lemma_fundamental_div_mod_converse(
        offset,
        slot,
        index,
        offset - index * slot,
    );
    assert(slot * index == index * slot) by (nonlinear_arith);
}

/// The forward transform of a chart with two axes.
#[derive(Debug, Clone, Copy, PartialEq, Eq, Structural)]
pub struct Scale {
    pub plot: Plot,
    pub x_min: i32,
    pub x_max: i32,
    pub y_min: i32,
    pub y_max: i32,
    pub zoom: i32,
    pub pan: Vector,
}

impl Scale {
    /// The pixel column of the data value `x`: the left edge, plus the share
    /// of the visible range that `x` has covered, plus the pan.
    pub open spec fn pixel_x(self, x: int) -> int {
        sat(
            self.plot.left + spec_project(
                x,
                self.x_min as int,
                self.x_max as int,
                self.plot.spec_width(),
                self.zoom as int,
            ) + self.pan.x,
        )
    }

    /// The pixel row of the data value `y`. Pixel rows grow downward and
    /// data values upward, so the share is taken off the bottom edge.
    pub open spec fn pixel_y(self, y: int) -> int {
        sat(
            self.plot.bottom - spec_project(
                y,
                self.y_min as int,
                self.y_max as int,
                self.plot.spec_height(),
                self.zoom as int,
            ) + self.pan.y,
        )
    }

    pub open spec fn spec_point_to_pixel(self, x: i32, y: i32) -> Point {
        Point { x: self.pixel_x(x as int) as i32, y: self.pixel_y(y as int) as i32 }
    }

    /// Maps a data point to its pixel.
    pub fn point_to_pixel(&self, x: i32, y: i32) -> (p: Point)
        ensures
            p == self.spec_point_to_pixel(x, y),
    {
        let along: i128 = project(x, self.x_min, self.x_max, self.plot.width(), self.zoom);
        let up: i128 = project(y, self.y_min, self.y_max, self.plot.height(), self.zoom);
        proof {
            let span_x = spec_span(self.x_min as int, self.x_max as int) * 1000;
            let span_y = spec_span(self.y_min as int, self.y_max as int) * 1000;
            lemma_project_bound(
                x as int,
                self.x_min as int,
                self.x_max as int,
                self.plot.spec_width(),
                self.zoom as int,
            );
            lemma_project_bound(
                y as int,
                self.y_min as int,
                self.y_max as int,
                self.plot.spec_height(),
                self.zoom as int,
            );
        }
        Point {
            x: saturate(self.plot.left as i128 + along + self.pan.x as i128),
            y: saturate(self.plot.bottom as i128 - up + self.pan.y as i128),
        }
    }
}

/// A projection stays well inside the range of the wide intermediates.
pub proof fn lemma_project_bound(v: int, lo: int, hi: int, extent: int, zoom: int)
    requires
        -0x8000_0000 <= v <= 0x7fff_ffff,
        -0x8000_0000 <= lo <= 0x7fff_ffff,
        -0x1_0000_0000 <= extent <= 0x1_0000_0000,
        -0x8000_0000 <= zoom <= 0x7fff_ffff,
    ensures
        -0x8000_0000_0000_0000_0000_0000 <= spec_project(v, lo, hi, extent, zoom)
            <= 0x8000_0000_0000_0000_0000_0000,
{
    let num = (v - lo) * extent * zoom;
    let den = spec_span(lo, hi) * 1000;
    lemma_mul_bound(v - lo, extent, 0x1_0000_0000, 0x1_0000_0000);
    assert(0x1_0000_0000 * 0x1_0000_0000 == 0x1_0000_0000_0000_0000int) by (nonlinear_arith);
    lemma_mul_bound((v - lo) * extent, zoom, 0x1_0000_0000_0000_0000, 0x8000_0000);
    assert(0x1_0000_0000_0000_0000 * 0x8000_0000 == 0x8000_0000_0000_0000_0000_0000int)
        by (nonlinear_arith);
    vstd::arithmetic::div_mod::lemma_div_is_ordered(num, 0x8000_0000_0000_0000_0000_0000, den);
    vstd::arithmetic::div_mod::lemma_div_is_ordered(-0x8000_0000_0000_0000_0000_0000, num, den);
    vstd::arithmetic::div_mod::lemma_div_is_ordered_by_denominator(
        0x8000_0000_0000_0000_0000_0000,
        1,
        den,
    );
    assert(-0x8000_0000_0000_0000_0000_0000 <= (-0x8000_0000_0000_0000_0000_0000int) / den) by {
        let a = -0x8000_0000_0000_0000_0000_0000int;
        vstd::arithmetic::div_mod::lemma_fundamental_div_mod(a, den);
        let q = a / den;
        let r = a % den;
        assert(q >= a) by (nonlinear_arith)
            requires
                a == den * q + r,
                0 <= r < den,
                den >= 1,
                a <= 0,
        ;
    }
}

} // verus!
