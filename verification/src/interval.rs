//! Closed numeric ranges over fixed-point scalars.

use vstd::prelude::*;
use crate::fx::Fx;
use crate::fx::fx_add;
use crate::fx::fx_sub;

verus! {

/// The model of an interval: its endpoint mantissas.
pub ghost struct IvS {
    pub min: int,
    pub max: int,
}

/// A closed range `[min, max]`; `min > max` is the empty interval.
#[derive(Clone, Copy, PartialEq, Eq, Structural, Debug)]
pub struct Interval {
    pub min: Fx,
    pub max: Fx,
}

impl View for Interval {
    type V = IvS;

    open spec fn view(&self) -> IvS {
        IvS { min: self.min@, max: self.max@ }
    }
}

/// The smaller of two mantissas.
pub open spec fn imin(a: int, b: int) -> int {
    if a <= b {
        a
    } else {
        b
    }
}

/// The larger of two mantissas.
pub open spec fn imax(a: int, b: int) -> int {
    if a >= b {
        a
    } else {
        b
    }
}

/// Containment, endpoints included.
pub open spec fn contains_s(iv: IvS, t: int) -> bool {
    iv.min <= t <= iv.max
}

/// Containment, endpoints excluded.
pub open spec fn surrounds_s(iv: IvS, t: int) -> bool {
    iv.min < t < iv.max
}

/// The tightest interval holding both arguments.
pub open spec fn merge_s(a: IvS, b: IvS) -> IvS {
    IvS { min: imin(a.min, b.min), max: imax(a.max, b.max) }
}

/// The interval widened by `d/2` on each side.
pub open spec fn expand_s(iv: IvS, d: int) -> IvS {
    IvS { min: fx_sub(iv.min, d / 2), max: fx_add(iv.max, d / 2) }
}

impl Interval {
    /// The interval `[min, max]`.
    pub fn new(min: Fx, max: Fx) -> (r: Interval)
        ensures
            r@ == (IvS { min: min@, max: max@ }),
    {
        Interval { min, max }
    }

    /// The empty interval, as the inverted saturated range.
    pub fn empty() -> (r: Interval)
        ensures
            r@ == (IvS { min: i64::MAX as int, max: i64::MIN as int }),
    {
        Interval { min: Fx::top(), max: Fx::bottom() }
    }

    /// The all-encompassing interval.
    pub fn universe() -> (r: Interval)
        ensures
            r@ == (IvS { min: i64::MIN as int, max: i64::MAX as int }),
    {
        Interval { min: Fx::bottom(), max: Fx::top() }
    }

    /// Width of the interval.
    pub fn size(self) -> (r: Fx)
        ensures
            r@ == fx_sub(self@.max, self@.min),
    {
        self.max.sub(self.min)
    }

    /// Whether `t` lies in the closed range.
    pub fn contains(self, t: Fx) -> (r: bool)
        ensures
            r == contains_s(self@, t@),
    {
        self.min.le(t) && t.le(self.max)
    }

    /// Whether `t` lies strictly inside the range.
    pub fn surrounds(self, t: Fx) -> (r: bool)
        ensures
            r == surrounds_s(self@, t@),
    {
        self.min.lt(t) && t.lt(self.max)
    }

    /// `t` forced into the closed range.
    pub fn clamp(self, t: Fx) -> (r: Fx)
        ensures
            r@ == imin(imax(t@, self@.min), self@.max),
    {
        t.max(self.min).min(self.max)
    }

    /// The interval widened by `d/2` on each side.
    pub fn expand(self, d: Fx) -> (r: Interval)
        requires
            d@ >= 0,
        ensures
            r@ == expand_s(self@, d@),
    {
        let half = Fx::raw(((d.bits as u64) / 2) as i64);
        Interval { min: self.min.sub(half), max: self.max.add(half) }
    }

    /// The tightest interval holding both arguments.
    pub fn merge(a: Interval, b: Interval) -> (r: Interval)
        ensures
            r@ == merge_s(a@, b@),
    {
        Interval { min: a.min.min(b.min), max: a.max.max(b.max) }
    }
}

} // verus!
