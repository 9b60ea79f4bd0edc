//! What the round charts share: the centre and the radius of the disc,
//! shares of a ceiling, and angles counted clockwise from twelve o'clock.
//!
//! A chart takes the direction of the pointer from its host, which has the
//! trigonometry: the angle of the ray from the centre of the disc to the
//! pointer, clockwise on screen from the positive x axis, in thousandths of
//! a degree. Any value is taken; full turns do not matter.

use vstd::prelude::*;
use crate::charts::geometry::Point;
use crate::charts::geometry::Size;
use crate::charts::geometry::Vector;
use crate::charts::geometry::FULL_TURN;
use crate::charts::geometry::QUARTER_TURN;
use crate::charts::numeric::clamp;
use crate::charts::numeric::div_floor;
use crate::charts::numeric::lemma_div_bound;
use crate::charts::numeric::lemma_mul_bound;
use crate::charts::numeric::min_int;
use crate::charts::numeric::mul_index;
use crate::charts::numeric::mul_wide;
use crate::charts::numeric::sat;
use crate::charts::numeric::saturate;

verus! {

/// The centre of the disc: the middle of the viewport, moved by the pan.
pub open spec fn spec_center(size: Size, pan: Vector) -> Point {
    Point { x: sat(size.width / 2 + pan.x) as i32, y: sat(size.height / 2 + pan.y) as i32 }
}

pub fn center(size: Size, pan: Vector) -> (c: Point)
    ensures
        c == spec_center(size, pan),
{
    Point {
        x: saturate(div_floor(size.width as i128, 2) + pan.x as i128),
        y: saturate(div_floor(size.height as i128, 2) + pan.y as i128),
    }
}

/// The radius of the disc: thirty-five hundredths of the shorter side of
/// the viewport, times the zoom.
pub open spec fn spec_radius(size: Size, zoom: int) -> int {
    sat((min_int(size.width as int, size.height as int) * 350 * zoom) / 1_000_000)
}

pub fn radius(size: Size, zoom: i32) -> (r: i32)
    ensures
        r == spec_radius(size, zoom as int),
{
    let side: i32 = if size.width <= size.height {
        size.width
    } else {
        size.height
    };
    let scaled: i128 = mul_wide(side as i64 * 350, zoom as i64);
    saturate(div_floor(scaled, 1_000_000))
}

/// The share `value` has of `max`, in thousandths, limited to the interval
/// from zero to one. Of a ceiling of zero a positive value has the whole
/// and any other value has nothing.
pub open spec fn spec_ratio(value: int, max: int) -> int {
    if max > 0 {
        clamp((value * 1000) / max, 0, 1000)
    } else if max < 0 {
        clamp((-value * 1000) / (-max), 0, 1000)
    } else if value > 0 {
        1000
    } else {
        0
    }
}

pub fn ratio(value: i32, max: i32) -> (share: i32)
    ensures
        share == spec_ratio(value as int, max as int),
        0 <= share <= 1000,
{
    let exact: i128 = if max > 0 {
        div_floor(value as i128 * 1000, max as i128)
    } else if max < 0 {
        div_floor(-(value as i128) * 1000, -(max as i128))
    } else if value > 0 {
        1000
    } else {
        0
    };
    if exact < 0 {
        0
    } else if exact > 1000 {
        1000
    } else {
        exact as i32
    }
}

/// The part `share` thousandths of `length`.
pub open spec fn spec_part(length: int, share: int) -> int {
    (length * share) / 1000
}

pub fn part(length: i32, share: i32) -> (p: i32)
    requires
        0 <= share <= 1000,
    ensures
        p == spec_part(length as int, share as int),
{
    let exact: i128 = div_floor(mul_wide(length as i64, share as i64), 1000);
    proof {
        lemma_mul_bound(length as int, share as int, 0x8000_0000, 1000);
        lemma_div_bound(length as int * share as int, 1000, 0x8000_0000int * 1000int);
        crate::charts::scale::lemma_share_bound(share as int, length as int, 1000);
        assert(share as int * length as int == length as int * share as int)
            by (nonlinear_arith);
    }
    exact as i32
}

/// How far a direction lies past twelve o'clock, clockwise, in thousandths
/// of a degree: at least zero and less than a full turn.
pub open spec fn spec_past_noon(direction: int) -> int {
    (direction + QUARTER_TURN) % (FULL_TURN as int)
}

pub fn past_noon(direction: i32) -> (angle: i32)
    ensures
        angle == spec_past_noon(direction as int),
        0 <= angle < FULL_TURN,
{
    let shifted: i128 = direction as i128 + QUARTER_TURN as i128;
    let turns: i128 = div_floor(shifted, FULL_TURN as i128);
    proof {
        vstd::arithmetic::div_mod::lemma_fundamental_div_mod(shifted as int, FULL_TURN as int);
    }
    (shifted - turns * (FULL_TURN as i128)) as i32
}

/// The direction of axis `i` of `n` axes spread evenly over the full turn,
/// the first at twelve o'clock.
pub open spec fn spec_axis_angle(i: int, n: int) -> int {
    sat(-QUARTER_TURN + (i * FULL_TURN) / n)
}

pub fn axis_angle(i: usize, n: usize) -> (angle: i32)
    requires
        n > 0,
    ensures
        angle == spec_axis_angle(i as int, n as int),
{
    let along: i128 = div_floor(mul_index(i, FULL_TURN as i64), n as i128);
    proof {
        lemma_mul_bound(i as int, FULL_TURN as int, 0xffff_ffff_ffff_ffff, 360_000);
        lemma_div_bound(
            i as int * FULL_TURN as int,
            n as int,
            0xffff_ffff_ffff_ffffint * 360_000int,
        );
    }
    saturate(along - QUARTER_TURN as i128)
}

/// The axis, of `n` axes spread evenly over the full turn, that lies
/// nearest to a direction: the direction past noon, in steps between axes,
/// rounded to a whole step, a half step up; the step after the last axis
/// is the first axis again.
pub open spec fn spec_nearest_axis(direction: int, n: int) -> int {
    ((spec_past_noon(direction) * n + FULL_TURN / 2) / (FULL_TURN as int)) % n
}

pub fn nearest_axis(direction: i32, n: usize) -> (axis: usize)
    requires
        n > 0,
    ensures
        axis == spec_nearest_axis(direction as int, n as int),
        axis < n,
{
    let angle: i32 = past_noon(direction);
    let swept: i128 = mul_index(n, angle as i64);
    proof {
        let a = angle as int;
        assert(n as int * a == a * n as int) by (nonlinear_arith);
        assert(0 <= a * n as int <= 359_999 * n as int) by (nonlinear_arith)
            requires
                0 <= a <= 359_999,
                n as int > 0,
        ;
    }
    let steps: i128 = div_floor(swept + (FULL_TURN / 2) as i128, FULL_TURN as i128);
    proof {
        let a = angle as int;
        let num = a * n as int + 180_000;
        vstd::arithmetic::div_mod::lemma_fundamental_div_mod(num, 360_000);
        let q = num / 360_000;
        assert(0 <= q <= n as int);
        if q == n as int {
            vstd::arithmetic::div_mod::lemma_mod_self_0(n as int);
        } else {
            vstd::arithmetic::div_mod::lemma_small_mod(q as nat, n as nat);
        }
    }
    if steps == n as i128 {
        0
    } else {
        steps as usize
    }
}

} // verus!
