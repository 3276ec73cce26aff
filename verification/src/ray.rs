//! Rays: parametric lines with a motion-blur time sample.

use vstd::prelude::*;
use crate::fx::Fx;
use crate::vec3::V3;
use crate::vec3::Vec3;
use crate::vec3::add_v;
use crate::vec3::scale_v;

verus! {

/// The model of a ray: origin, direction and time, as mantissa triples.
pub ghost struct RayS {
    pub orig: V3,
    pub dir: V3,
    pub time: int,
}

/// A traced light path: `origin + t * direction`, tagged with the instant of
/// the exposure it samples. The direction need not be unit length.
#[derive(Clone, Copy, PartialEq, Eq, Structural, Debug)]
pub struct Ray {
    pub origin: Vec3,
    pub direction: Vec3,
    pub time: Fx,
}

impl View for Ray {
    type V = RayS;

    open spec fn view(&self) -> RayS {
        RayS { orig: self.origin@, dir: self.direction@, time: self.time@ }
    }
}

/// The point a parameter `t` along a ray.
pub open spec fn at_s(r: RayS, t: int) -> V3 {
    add_v(r.orig, scale_v(r.dir, t))
}

impl Ray {
    /// The ray from `origin` toward `direction` at time zero.
    pub fn new(origin: Vec3, direction: Vec3) -> (r: Ray)
        ensures
            r@ == (RayS { orig: origin@, dir: direction@, time: 0 }),
    {
        Ray { origin, direction, time: Fx::zero() }
    }

    /// The ray from `origin` toward `direction` at the given time sample.
    pub fn new_timed(origin: Vec3, direction: Vec3, time: Fx) -> (r: Ray)
        ensures
            r@ == (RayS { orig: origin@, dir: direction@, time: time@ }),
    {
        Ray { origin, direction, time }
    }

    /// The point a parameter `t` along the ray.
    pub fn at(self, t: Fx) -> (r: Vec3)
        ensures
            r@ == at_s(self@, t@),
    {
        self.origin.add(self.direction.scale(t))
    }
}

} // verus!
