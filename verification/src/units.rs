//! Unit-tagged pixel distances.
//!
//! A bare number and a count of pixels must not mix silently: every
//! conversion between them goes through a named operation that takes the
//! [`PX`] unit token. Two tagged variants exist, a whole-number one
//! ([`DistPx`]) for dimensions and integral coordinates, and a fixed-point
//! fractional one ([`DistPxFrac`]) for sub-pixel sample coordinates. There is
//! no implicit conversion between the variants: only an explicit cast
//! ([`DistPx::to_frac`]) and an explicit floor ([`DistPxFrac::floor`]).

use vstd::prelude::*;

verus! {

/// Number of addressable sub-pixel steps in one pixel: the fixed-point
/// scale of [`DistPxFrac`].
pub const SUBPIXELS_PER_PX: i64 = 65536;

/// The pixel unit token. Bare numbers become pixel distances, and pixel
/// distances become bare numbers, only through the named operations that
/// take this token.
#[derive(Clone, Copy)]
pub struct PX;

/// A whole-number count of pixels along one axis.
#[derive(Clone, Copy, PartialEq, Eq, Structural, Debug)]
pub struct DistPx {
    v: i64,
}

impl View for DistPx {
    type V = int;

    closed spec fn view(&self) -> int {
        self.v as int
    }
}

impl DistPx {
    /// A distance of `v` whole pixels.
    pub fn new(v: i64) -> (r: DistPx)
        ensures
            r@ == v,
    {
        DistPx { v }
    }

    /// Tags a bare number with the pixel unit: `of(n, PX)` is `n` pixels.
    pub fn of(n: i64, _unit: PX) -> (r: DistPx)
        ensures
            r@ == n,
    {
        DistPx { v: n }
    }

    /// Recovers the bare number of pixels; the inverse of `of`.
    pub fn per(self, _unit: PX) -> (r: i64)
        ensures
            r == self@,
    {
        self.v
    }

    pub fn plus(self, other: DistPx) -> (r: DistPx)
        requires
            i64::MIN <= self@ + other@ <= i64::MAX,
        ensures
            r@ == self@ + other@,
    {
        DistPx { v: self.v + other.v }
    }

    pub fn minus(self, other: DistPx) -> (r: DistPx)
        requires
            i64::MIN <= self@ - other@ <= i64::MAX,
        ensures
            r@ == self@ - other@,
    {
        DistPx { v: self.v - other.v }
    }

    pub fn lt(self, other: DistPx) -> (r: bool)
        ensures
            r == (self@ < other@),
    {
        self.v < other.v
    }

    pub fn le(self, other: DistPx) -> (r: bool)
        ensures
            r == (self@ <= other@),
    {
        self.v <= other.v
    }

    /// Exact cast to the fractional variant.
    pub fn to_frac(self) -> (r: DistPxFrac)
        requires
            i64::MIN <= self@ * SUBPIXELS_PER_PX <= i64::MAX,
        ensures
            r@ == self@ * SUBPIXELS_PER_PX,
    {
        DistPxFrac { sub: self.v * SUBPIXELS_PER_PX }
    }
}

/// A fractional count of pixels along one axis, held in fixed point: the
/// tagged value is `sub / SUBPIXELS_PER_PX` pixels. The view of a value is
/// its sub-pixel count `sub`.
#[derive(Clone, Copy, PartialEq, Eq, Structural, Debug)]
pub struct DistPxFrac {
    sub: i64,
}

impl View for DistPxFrac {
    type V = int;

    closed spec fn view(&self) -> int {
        self.sub as int
    }
}

impl DistPxFrac {
    /// Tags a bare whole number with the pixel unit: `of(n, PX)` is `n`
    /// pixels, held exactly.
    pub fn of(n: i64, _unit: PX) -> (r: DistPxFrac)
        requires
            i64::MIN <= n * SUBPIXELS_PER_PX <= i64::MAX,
        ensures
            r@ == n * SUBPIXELS_PER_PX,
    {
        DistPxFrac { sub: n * SUBPIXELS_PER_PX }
    }

    /// Tags the fraction `num / den` (in pixels) with the pixel unit. The
    /// denominator must divide the fixed-point scale, so the value is held
    /// exactly.
    pub fn ratio(num: i64, den: i64, _unit: PX) -> (r: DistPxFrac)
        requires
            0 < den <= SUBPIXELS_PER_PX,
            SUBPIXELS_PER_PX % den == 0,
            i64::MIN <= num * (SUBPIXELS_PER_PX / den) <= i64::MAX,
        ensures
            r@ == num * (SUBPIXELS_PER_PX / den),
    {
        let step: i64 = SUBPIXELS_PER_PX / den;
        DistPxFrac { sub: num * step }
    }

    /// Recovers the bare sub-pixel count; the inverse of `ratio` up to the
    /// fixed-point scale.
    pub fn subpixels(self, _unit: PX) -> (r: i64)
        ensures
            r == self@,
    {
        self.sub
    }

    /// Explicit floor conversion to the integer variant.
    pub fn floor(self) -> (r: DistPx)
        ensures
            r@ == self@ / (SUBPIXELS_PER_PX as int),
    {
        let q = self.sub.checked_div_euclid(SUBPIXELS_PER_PX).unwrap();
        DistPx { v: q }
    }

    pub fn plus(self, other: DistPxFrac) -> (r: DistPxFrac)
        requires
            i64::MIN <= self@ + other@ <= i64::MAX,
        ensures
            r@ == self@ + other@,
    {
        DistPxFrac { sub: self.sub + other.sub }
    }

    pub fn minus(self, other: DistPxFrac) -> (r: DistPxFrac)
        requires
            i64::MIN <= self@ - other@ <= i64::MAX,
        ensures
            r@ == self@ - other@,
    {
        DistPxFrac { sub: self.sub - other.sub }
    }

    pub fn lt(self, other: DistPxFrac) -> (r: bool)
        ensures
            r == (self@ < other@),
    {
        self.sub < other.sub
    }

    pub fn le(self, other: DistPxFrac) -> (r: bool)
        ensures
            r == (self@ <= other@),
    {
        self.sub <= other.sub
    }
}

} // verus!
