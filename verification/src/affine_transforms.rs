//! Affine wrappers: translate an object, or rotate it about the y axis.
//!
//! Each wrapper carries the inverse transform implicitly: the hit test moves
//! the ray into the object's local frame, delegates, then carries the hit
//! back to world space.

use vstd::prelude::*;
use std::sync::Arc;
use crate::aabb::Aabb;
use crate::aabb::BoxS;
use crate::fx::Fx;
use crate::fx::fx_add;
use crate::fx::fx_mul;
use crate::fx::fx_sub;
use crate::hittable::Hittable;
use crate::hittable::bbox_s;
use crate::interval::Interval;
use crate::interval::IvS;
use crate::interval::imax;
use crate::interval::imin;
use crate::vec3::V3;
use crate::vec3::Vec3;

verus! {

/// An object shifted by a fixed offset.
pub struct Translate {
    pub inner: Arc<Hittable>,
    pub offset: Vec3,
    pub bbox: Aabb,
}

/// A box shifted by an offset.
pub open spec fn box_shift_s(bb: BoxS, off: V3) -> BoxS {
    BoxS {
        x: IvS { min: fx_add(bb.x.min, off.x), max: fx_add(bb.x.max, off.x) },
        y: IvS { min: fx_add(bb.y.min, off.y), max: fx_add(bb.y.max, off.y) },
        z: IvS { min: fx_add(bb.z.min, off.z), max: fx_add(bb.z.max, off.z) },
    }
}

impl Translate {
    /// Wrap an object at a fixed offset.
    pub fn new(inner: Arc<Hittable>, offset: Vec3) -> (r: Hittable)
        ensures
            r matches Hittable::Translate(t) && *t.inner == *inner && t.offset == offset
                && t.bbox@ == box_shift_s(bbox_s(*inner), offset@),
    {
        let ib = inner.bounding_box();
        let bbox = Aabb {
            x: Interval { min: ib.x.min.add(offset.x), max: ib.x.max.add(offset.x) },
            y: Interval { min: ib.y.min.add(offset.y), max: ib.y.max.add(offset.y) },
            z: Interval { min: ib.z.min.add(offset.z), max: ib.z.max.add(offset.z) },
        };
        Hittable::Translate(Translate { inner, offset, bbox })
    }
}

/// An object rotated about the y axis; the rotation is stored as the sine
/// and cosine of the angle.
pub struct RotateY {
    pub inner: Arc<Hittable>,
    pub sin_theta: Fx,
    pub cos_theta: Fx,
    pub bbox: Aabb,
}

/// The x coordinate of a corner rotated from local to world space.
pub open spec fn rot_x_s(sin: int, cos: int, x: int, z: int) -> int {
    fx_add(fx_mul(cos, x), fx_mul(sin, z))
}

/// The z coordinate of a corner rotated from local to world space.
pub open spec fn rot_z_s(sin: int, cos: int, x: int, z: int) -> int {
    fx_sub(fx_mul(cos, z), fx_mul(sin, x))
}

/// The least of four mantissas.
pub open spec fn imin4(a: int, b: int, c: int, d: int) -> int {
    imin(imin(a, b), imin(c, d))
}

/// The greatest of four mantissas.
pub open spec fn imax4(a: int, b: int, c: int, d: int) -> int {
    imax(imax(a, b), imax(c, d))
}

/// The axis-realigned box of a rotated box: the extrema of the four rotated
/// corner combinations in the xz plane; the y axis is untouched.
pub open spec fn box_rot_y_s(bb: BoxS, sin: int, cos: int) -> BoxS {
    let x1 = rot_x_s(sin, cos, bb.x.min, bb.z.min);
    let x2 = rot_x_s(sin, cos, bb.x.min, bb.z.max);
    let x3 = rot_x_s(sin, cos, bb.x.max, bb.z.min);
    let x4 = rot_x_s(sin, cos, bb.x.max, bb.z.max);
    let z1 = rot_z_s(sin, cos, bb.x.min, bb.z.min);
    let z2 = rot_z_s(sin, cos, bb.x.min, bb.z.max);
    let z3 = rot_z_s(sin, cos, bb.x.max, bb.z.min);
    let z4 = rot_z_s(sin, cos, bb.x.max, bb.z.max);
    BoxS {
        x: IvS { min: imin4(x1, x2, x3, x4), max: imax4(x1, x2, x3, x4) },
        y: bb.y,
        z: IvS { min: imin4(z1, z2, z3, z4), max: imax4(z1, z2, z3, z4) },
    }
}

/// The world-space image of a local point under the rotation.
fn rot_to_world(sin: Fx, cos: Fx, x: Fx, z: Fx) -> (r: (Fx, Fx))
    ensures
        r.0@ == rot_x_s(sin@, cos@, x@, z@),
        r.1@ == rot_z_s(sin@, cos@, x@, z@),
{
    (cos.mul(x).add(sin.mul(z)), cos.mul(z).sub(sin.mul(x)))
}

impl RotateY {
    /// Wrap an object rotated about the y axis; the caller supplies the
    /// angle as its sine and cosine.
    pub fn new(inner: Arc<Hittable>, sin_theta: Fx, cos_theta: Fx) -> (r: Hittable)
        ensures
            r matches Hittable::RotateY(t) && *t.inner == *inner && t.sin_theta == sin_theta
                && t.cos_theta == cos_theta && t.bbox@ == box_rot_y_s(
                bbox_s(*inner),
                sin_theta@,
                cos_theta@,
            ),
    {
        let ib = inner.bounding_box();
        let c1 = rot_to_world(sin_theta, cos_theta, ib.x.min, ib.z.min);
        let c2 = rot_to_world(sin_theta, cos_theta, ib.x.min, ib.z.max);
        let c3 = rot_to_world(sin_theta, cos_theta, ib.x.max, ib.z.min);
        let c4 = rot_to_world(sin_theta, cos_theta, ib.x.max, ib.z.max);
        let bbox = Aabb {
            x: Interval {
                min: c1.0.min(c2.0).min(c3.0.min(c4.0)),
                max: c1.0.max(c2.0).max(c3.0.max(c4.0)),
            },
            y: ib.y,
            z: Interval {
                min: c1.1.min(c2.1).min(c3.1.min(c4.1)),
                max: c1.1.max(c2.1).max(c3.1.max(c4.1)),
            },
        };
        Hittable::RotateY(RotateY { inner, sin_theta, cos_theta, bbox })
    }
}

} // verus!
