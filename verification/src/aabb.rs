//! Axis-aligned bounding boxes: the three-axis product of intervals, with
//! the slab intersection test that prunes hierarchy traversal.

use vstd::prelude::*;
use crate::fx::Fx;
use crate::fx::fx_add;
use crate::fx::fx_div;
use crate::fx::fx_mul;
use crate::fx::fx_sub;
use crate::fx::tdiv;
use crate::interval::Interval;
use crate::interval::IvS;
use crate::interval::contains_s;
use crate::interval::expand_s;
use crate::interval::imax;
use crate::interval::imin;
use crate::interval::merge_s;
use crate::ray::Ray;
use crate::ray::RayS;
use crate::vec3::V3;
use crate::vec3::Vec3;

verus! {

/// Minimum axis thickness: boxes are padded so no side is degenerate.
pub const PAD_BITS: i64 = 8;

/// The model of a box: one interval model per axis.
pub ghost struct BoxS {
    pub x: IvS,
    pub y: IvS,
    pub z: IvS,
}

/// An axis-aligned box.
#[derive(Clone, Copy, PartialEq, Eq, Structural, Debug)]
pub struct Aabb {
    pub x: Interval,
    pub y: Interval,
    pub z: Interval,
}

impl View for Aabb {
    type V = BoxS;

    open spec fn view(&self) -> BoxS {
        BoxS { x: self.x@, y: self.y@, z: self.z@ }
    }
}

/// The box of two corner points, before padding.
pub open spec fn box_of_corners_s(a: V3, b: V3) -> BoxS {
    BoxS {
        x: IvS { min: imin(a.x, b.x), max: imax(a.x, b.x) },
        y: IvS { min: imin(a.y, b.y), max: imax(a.y, b.y) },
        z: IvS { min: imin(a.z, b.z), max: imax(a.z, b.z) },
    }
}

/// An interval too thin for a robust slab test.
pub open spec fn thin_s(iv: IvS) -> bool {
    fx_sub(iv.max, iv.min) < 8
}

/// Each thin axis widened to the minimum thickness.
pub open spec fn pad_s(bb: BoxS) -> BoxS {
    BoxS {
        x: if thin_s(bb.x) {
            expand_s(bb.x, 8)
        } else {
            bb.x
        },
        y: if thin_s(bb.y) {
            expand_s(bb.y, 8)
        } else {
            bb.y
        },
        z: if thin_s(bb.z) {
            expand_s(bb.z, 8)
        } else {
            bb.z
        },
    }
}

/// The tightest box holding both arguments.
pub open spec fn box_merge_s(a: BoxS, b: BoxS) -> BoxS {
    BoxS { x: merge_s(a.x, b.x), y: merge_s(a.y, b.y), z: merge_s(a.z, b.z) }
}

/// Whether a point lies in the box, all axes inclusive.
pub open spec fn box_contains_s(bb: BoxS, p: V3) -> bool {
    contains_s(bb.x, p.x) && contains_s(bb.y, p.y) && contains_s(bb.z, p.z)
}

/// The midpoint mantissa of an axis interval, the box centroid coordinate.
pub open spec fn mid_s(iv: IvS) -> int {
    tdiv(fx_add(iv.min, iv.max), 2)
}

/// One slab of the intersection test: the parameter window along one axis,
/// already clipped against the running window `[lo, hi]`.
pub open spec fn slab_s(iv: IvS, o: int, d: int, lo: int, hi: int) -> IvS {
    let inv = fx_div(65536, d);
    let t0 = fx_mul(fx_sub(iv.min, o), inv);
    let t1 = fx_mul(fx_sub(iv.max, o), inv);
    if inv < 0 {
        IvS { min: imax(t1, lo), max: imin(t0, hi) }
    } else {
        IvS { min: imax(t0, lo), max: imin(t1, hi) }
    }
}

/// The slab test: whether the ray parameter window meets the box within
/// `[lo, hi]`.
pub open spec fn box_hit_s(bb: BoxS, r: RayS, lo: int, hi: int) -> bool {
    let wx = slab_s(bb.x, r.orig.x, r.dir.x, lo, hi);
    if wx.max <= wx.min {
        false
    } else {
        let wy = slab_s(bb.y, r.orig.y, r.dir.y, wx.min, wx.max);
        if wy.max <= wy.min {
            false
        } else {
            let wz = slab_s(bb.z, r.orig.z, r.dir.z, wy.min, wy.max);
            wz.max > wz.min
        }
    }
}

impl Aabb {
    /// The box with the given axis intervals.
    pub fn new(x: Interval, y: Interval, z: Interval) -> (r: Aabb)
        ensures
            r@ == (BoxS { x: x@, y: y@, z: z@ }),
    {
        Aabb { x, y, z }
    }

    /// The empty box.
    pub fn empty() -> (r: Aabb)
        ensures
            r@.x == (IvS { min: i64::MAX as int, max: i64::MIN as int }),
            r@.y == (IvS { min: i64::MAX as int, max: i64::MIN as int }),
            r@.z == (IvS { min: i64::MAX as int, max: i64::MIN as int }),
    {
        Aabb { x: Interval::empty(), y: Interval::empty(), z: Interval::empty() }
    }

    /// The box spanned by two opposite corners, padded to minimum thickness.
    pub fn from_corners(a: Vec3, b: Vec3) -> (r: Aabb)
        ensures
            r@ == pad_s(box_of_corners_s(a@, b@)),
    {
        let bb = Aabb {
            x: Interval { min: a.x.min(b.x), max: a.x.max(b.x) },
            y: Interval { min: a.y.min(b.y), max: a.y.max(b.y) },
            z: Interval { min: a.z.min(b.z), max: a.z.max(b.z) },
        };
        bb.pad_to_minimums()
    }

    /// Each thin axis widened to the minimum thickness.
    pub fn pad_to_minimums(self) -> (r: Aabb)
        ensures
            r@ == pad_s(self@),
    {
        let delta = Fx::raw(PAD_BITS);
        let x = if self.x.size().lt(delta) {
            self.x.expand(delta)
        } else {
            self.x
        };
        let y = if self.y.size().lt(delta) {
            self.y.expand(delta)
        } else {
            self.y
        };
        let z = if self.z.size().lt(delta) {
            self.z.expand(delta)
        } else {
            self.z
        };
        Aabb { x, y, z }
    }

    /// The tightest box holding both arguments.
    pub fn merge(a: Aabb, b: Aabb) -> (r: Aabb)
        ensures
            r@ == box_merge_s(a@, b@),
    {
        Aabb {
            x: Interval::merge(a.x, b.x),
            y: Interval::merge(a.y, b.y),
            z: Interval::merge(a.z, b.z),
        }
    }

    /// The axis interval selected by index: x, y, then z.
    pub fn axis(self, n: u32) -> (r: Interval)
        ensures
            r@ == if n == 0 {
                self@.x
            } else if n == 1 {
                self@.y
            } else {
                self@.z
            },
    {
        if n == 0 {
            self.x
        } else if n == 1 {
            self.y
        } else {
            self.z
        }
    }

    /// The index of the widest axis.
    pub fn longest_axis(self) -> (r: u32)
        ensures
            r == longest_axis_s(self@),
    {
        let sx = self.x.size();
        let sy = self.y.size();
        let sz = self.z.size();
        if sx.ge(sy) && sx.ge(sz) {
            0
        } else if sy.ge(sz) {
            1
        } else {
            2
        }
    }

    /// The centroid coordinate along an axis.
    pub fn centroid(self, n: u32) -> (r: Fx)
        ensures
            r@ == mid_s(if n == 0 {
                self@.x
            } else if n == 1 {
                self@.y
            } else {
                self@.z
            }),
    {
        let iv = self.axis(n);
        let s = iv.min.add(iv.max);
        let m: u64 = if s.bits >= 0 {
            (s.bits as u64) / 2
        } else {
            ((-(s.bits as i128)) as u64) / 2
        };
        if s.bits >= 0 {
            Fx::raw(m as i64)
        } else {
            Fx::raw(-(m as i64))
        }
    }

    /// The slab intersection test against a parameter window.
    pub fn hit(self, r: &Ray, ray_t: Interval) -> (res: bool)
        ensures
            res == box_hit_s(self@, r@, ray_t@.min, ray_t@.max),
    {
        let one = Fx::one();
        let invx = one.div(r.direction.x);
        let t0x = self.x.min.sub(r.origin.x).mul(invx);
        let t1x = self.x.max.sub(r.origin.x).mul(invx);
        let (ax, bx) = if invx.lt(Fx::zero()) {
            (t1x, t0x)
        } else {
            (t0x, t1x)
        };
        let lox = ax.max(ray_t.min);
        let hix = bx.min(ray_t.max);
        if hix.le(lox) {
            return false;
        }
        let invy = one.div(r.direction.y);
        let t0y = self.y.min.sub(r.origin.y).mul(invy);
        let t1y = self.y.max.sub(r.origin.y).mul(invy);
        let (ay, by) = if invy.lt(Fx::zero()) {
            (t1y, t0y)
        } else {
            (t0y, t1y)
        };
        let loy = ay.max(lox);
        let hiy = by.min(hix);
        if hiy.le(loy) {
            return false;
        }
        let invz = one.div(r.direction.z);
        let t0z = self.z.min.sub(r.origin.z).mul(invz);
        let t1z = self.z.max.sub(r.origin.z).mul(invz);
        let (az, bz) = if invz.lt(Fx::zero()) {
            (t1z, t0z)
        } else {
            (t0z, t1z)
        };
        let loz = az.max(loy);
        let hiz = bz.min(hiy);
        hiz.gt(loz)
    }
}

/// The index of the widest axis of a box model.
pub open spec fn longest_axis_s(bb: BoxS) -> u32 {
    let sx = fx_sub(bb.x.max, bb.x.min);
    let sy = fx_sub(bb.y.max, bb.y.min);
    let sz = fx_sub(bb.z.max, bb.z.min);
    if sx >= sy && sx >= sz {
        0u32
    } else if sy >= sz {
        1u32
    } else {
        2u32
    }
}

/// Merging boxes is commutative.
pub proof fn lemma_box_merge_comm(a: BoxS, b: BoxS)
    ensures
        box_merge_s(a, b) == box_merge_s(b, a),
{
}

/// Merging boxes is associative.
pub proof fn lemma_box_merge_assoc(a: BoxS, b: BoxS, c: BoxS)
    ensures
        box_merge_s(box_merge_s(a, b), c) == box_merge_s(a, box_merge_s(b, c)),
{
}

/// A box merged with itself is unchanged.
pub proof fn lemma_box_merge_self(a: BoxS)
    ensures
        box_merge_s(a, a) == a,
{
}

/// Merging only grows a box: anything the parts contain, the merge contains.
pub proof fn lemma_box_merge_grows(a: BoxS, b: BoxS, p: V3)
    ensures
        box_contains_s(a, p) || box_contains_s(b, p) ==> box_contains_s(box_merge_s(a, b), p),
{
}

} // verus!
