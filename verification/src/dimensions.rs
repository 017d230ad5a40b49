//! Logical and physical coordinates and sizes, and the pixel-density scale
//! factor that converts between them.
//!
//! A scale factor is held in thousandths (`milli`), so a factor of one is
//! `1000` and a factor of two is `2000`. All conversions are exact integer
//! arithmetic with the quotient truncated towards zero, saturating at the
//! bounds of the result type.

use vstd::prelude::*;
use vstd::arithmetic::mul::{lemma_mul_inequality, lemma_mul_nonnegative};
use vstd::arithmetic::div_mod::lemma_div_is_ordered;

verus! {

/// One whole unit of scale: a factor of one, in thousandths.
pub const SCALE_UNIT: u32 = 1000;

/// A pixel-density scale factor in thousandths of a unit.
#[derive(Clone, Copy, Debug, PartialEq, Eq, Structural)]
pub struct Scale {
    pub milli: u32,
}

/// A size in logical (scale-independent) pixels.
#[derive(Clone, Copy, Debug, PartialEq, Eq, Structural)]
pub struct LogicalSize {
    pub width: u32,
    pub height: u32,
}

/// A size in physical (device) pixels.
#[derive(Clone, Copy, Debug, PartialEq, Eq, Structural)]
pub struct PhysicalSize {
    pub width: u32,
    pub height: u32,
}

/// A position in logical (scale-independent) pixels.
#[derive(Clone, Copy, Debug, PartialEq, Eq, Structural)]
pub struct LogicalPosition {
    pub x: i32,
    pub y: i32,
}

/// A position in physical (device) pixels.
#[derive(Clone, Copy, Debug, PartialEq, Eq, Structural)]
pub struct PhysicalPosition {
    pub x: i32,
    pub y: i32,
}

/// `v` clamped into the range of `i32`.
pub open spec fn spec_clamp_i32(v: int) -> i32 {
    if v > i32::MAX as int {
        i32::MAX
    } else if v < i32::MIN as int {
        i32::MIN
    } else {
        v as i32
    }
}

/// `len * num / den`, truncated, saturating at `u32::MAX`.
pub open spec fn spec_scale_len(len: int, num: int, den: int) -> int {
    let q = len * num / den;
    if q > u32::MAX as int {
        u32::MAX as int
    } else {
        q
    }
}

/// `x * num / den` with the quotient truncated towards zero, saturating at
/// the bounds of `i32`.
pub open spec fn spec_scale_coord(x: int, num: int, den: int) -> int {
    if x >= 0 {
        let q = x * num / den;
        if q > i32::MAX as int {
            i32::MAX as int
        } else {
            q
        }
    } else {
        let m = (-x) * num / den;
        if m > -(i32::MIN as int) {
            i32::MIN as int
        } else {
            -m
        }
    }
}

/// `len * num / den` on machine integers, saturating at `u32::MAX`.
fn scale_len(len: u32, num: u32, den: u32) -> (r: u32)
    requires
        den > 0,
    ensures
        r == spec_scale_len(len as int, num as int, den as int),
{
    proof {
        lemma_mul_inequality(len as int, u32::MAX as int, num as int);
        lemma_mul_inequality(num as int, u32::MAX as int, u32::MAX as int);
        lemma_mul_nonnegative(len as int, num as int);
    }
    let product: u64 = (len as u64) * (num as u64);
    let q: u64 = product / (den as u64);
    proof {
        lemma_div_is_ordered(0, product as int, den as int);
    }
    if q > u32::MAX as u64 {
        u32::MAX
    } else {
        q as u32
    }
}

/// `x * num / den` on machine integers, truncated towards zero, saturating
/// at the bounds of `i32`.
fn scale_coord(x: i32, num: u32, den: u32) -> (r: i32)
    requires
        den > 0,
    ensures
        r == spec_scale_coord(x as int, num as int, den as int),
{
    if x >= 0 {
        proof {
            lemma_mul_inequality(x as int, i32::MAX as int, num as int);
            lemma_mul_inequality(num as int, u32::MAX as int, i32::MAX as int);
            lemma_mul_nonnegative(x as int, num as int);
        }
        let product: u64 = (x as u64) * (num as u64);
        let q: u64 = product / (den as u64);
        proof {
            lemma_div_is_ordered(0, product as int, den as int);
        }
        if q > i32::MAX as u64 {
            i32::MAX
        } else {
            q as i32
        }
    } else {
        let magnitude: u64 = (-(x as i64)) as u64;
        proof {
            lemma_mul_inequality(magnitude as int, -(i32::MIN as int), num as int);
            lemma_mul_inequality(num as int, u32::MAX as int, -(i32::MIN as int));
            lemma_mul_nonnegative(magnitude as int, num as int);
        }
        let product: u64 = magnitude * (num as u64);
        let m: u64 = product / (den as u64);
        proof {
            lemma_div_is_ordered(0, product as int, den as int);
        }
        if m > 0x8000_0000u64 {
            i32::MIN
        } else {
            (-(m as i64)) as i32
        }
    }
}

impl Scale {
    /// A scale factor is meaningful only when it is strictly positive.
    pub open spec fn is_valid(self) -> bool {
        self.milli > 0
    }

    /// The composed factor of two scales, in thousandths.
    ///
    /// The true product is clamped into the valid range: it saturates at
    /// `u32::MAX` and never falls below one thousandth.
    pub open spec fn spec_compose(self, other: Scale) -> Scale {
        let q = spec_scale_len(self.milli as int, other.milli as int, SCALE_UNIT as int);
        if q == 0 {
            Scale { milli: 1 }
        } else {
            Scale { milli: q as u32 }
        }
    }

    /// Builds a scale factor from thousandths of a unit.
    pub fn new(milli: u32) -> (r: Scale)
        requires
            milli > 0,
        ensures
            r.milli == milli,
            r.is_valid(),
    {
        Scale { milli }
    }

    /// Multiplies this scale factor by another one.
    pub fn compose(self, other: Scale) -> (r: Scale)
        requires
            self.is_valid(),
            other.is_valid(),
        ensures
            r == self.spec_compose(other),
            r.is_valid(),
    {
        let q = scale_len(self.milli, other.milli, SCALE_UNIT);
        if q == 0 {
            Scale { milli: 1 }
        } else {
            Scale { milli: q }
        }
    }
}

impl LogicalSize {
    pub fn new(width: u32, height: u32) -> (r: LogicalSize)
        ensures
            r.width == width,
            r.height == height,
    {
        LogicalSize { width, height }
    }

    /// The physical size covered by this logical size at the given scale.
    pub open spec fn spec_to_physical(self, scale: Scale) -> PhysicalSize {
        PhysicalSize {
            width: spec_scale_len(self.width as int, scale.milli as int, SCALE_UNIT as int) as u32,
            height: spec_scale_len(self.height as int, scale.milli as int, SCALE_UNIT as int) as u32,
        }
    }

    /// The physical size covered by this logical size at the given scale:
    /// each side is multiplied by the factor, truncated, and saturated at
    /// `u32::MAX`.
    pub fn to_physical(&self, scale: Scale) -> (r: PhysicalSize)
        requires
            scale.is_valid(),
        ensures
            r == self.spec_to_physical(scale),
    {
        PhysicalSize {
            width: scale_len(self.width, scale.milli, SCALE_UNIT),
            height: scale_len(self.height, scale.milli, SCALE_UNIT),
        }
    }
}

impl PhysicalPosition {
    pub fn new(x: i32, y: i32) -> (r: PhysicalPosition)
        ensures
            r.x == x,
            r.y == y,
    {
        PhysicalPosition { x, y }
    }

    /// This position taken relative to the given origin.
    pub open spec fn spec_relative_to(self, origin: PhysicalPosition) -> PhysicalPosition {
        PhysicalPosition {
            x: spec_clamp_i32(self.x - origin.x),
            y: spec_clamp_i32(self.y - origin.y),
        }
    }

    /// This position taken relative to the given origin, each coordinate
    /// saturating at the bounds of `i32`.
    pub fn relative_to(&self, origin: PhysicalPosition) -> (r: PhysicalPosition)
        ensures
            r == self.spec_relative_to(origin),
    {
        PhysicalPosition {
            x: saturating_sub_i32(self.x, origin.x),
            y: saturating_sub_i32(self.y, origin.y),
        }
    }

    /// The logical position of this physical position at the given scale.
    pub open spec fn spec_to_logical(self, scale: Scale) -> LogicalPosition {
        LogicalPosition {
            x: spec_clamp_i32(spec_scale_coord(self.x as int, SCALE_UNIT as int, scale.milli as int)),
            y: spec_clamp_i32(spec_scale_coord(self.y as int, SCALE_UNIT as int, scale.milli as int)),
        }
    }

    /// The logical position of this physical position at the given scale:
    /// each coordinate is divided by the factor, truncated towards zero, and
    /// saturated at the bounds of `i32`.
    pub fn to_logical(&self, scale: Scale) -> (r: LogicalPosition)
        requires
            scale.is_valid(),
        ensures
            r == self.spec_to_logical(scale),
    {
        LogicalPosition {
            x: scale_coord(self.x, SCALE_UNIT, scale.milli),
            y: scale_coord(self.y, SCALE_UNIT, scale.milli),
        }
    }
}

/// `a - b` saturating at the bounds of `i32`.
fn saturating_sub_i32(a: i32, b: i32) -> (r: i32)
    ensures
        r == spec_clamp_i32(a - b),
{
    let wide: i64 = (a as i64) - (b as i64);
    if wide > i32::MAX as i64 {
        i32::MAX
    } else if wide < i32::MIN as i64 {
        i32::MIN
    } else {
        wide as i32
    }
}

} // verus!
