//! The result of a successful ray-object intersection.

use vstd::prelude::*;
use std::sync::Arc;
use crate::fx::Fx;
use crate::material::Material;
use crate::vec3::V3;
use crate::vec3::Vec3;
use crate::vec3::dot_v;
use crate::vec3::neg_v;

verus! {

/// The model of a hit: point, resolved normal, parameter, surface
/// coordinates, facing flag, and the material that answers for the surface.
pub ghost struct HitS {
    pub p: V3,
    pub normal: V3,
    pub t: int,
    pub u: int,
    pub v: int,
    pub front: bool,
    pub mat: Material,
}

/// A hit record: where a ray met a surface, with the normal already turned
/// against the incoming ray.
pub struct HitRecord {
    pub p: Vec3,
    pub normal: Vec3,
    pub t: Fx,
    pub u: Fx,
    pub v: Fx,
    pub front_face: bool,
    pub mat: Arc<Material>,
}

impl View for HitRecord {
    type V = HitS;

    open spec fn view(&self) -> HitS {
        HitS {
            p: self.p@,
            normal: self.normal@,
            t: self.t@,
            u: self.u@,
            v: self.v@,
            front: self.front_face,
            mat: *self.mat,
        }
    }
}

/// The models of an optional hit record.
pub open spec fn opt_hit_view(o: Option<HitRecord>) -> Option<HitS> {
    match o {
        Option::Some(h) => Option::Some(h@),
        Option::None => Option::None,
    }
}

/// Face-normal resolution: the stored normal always opposes the incoming
/// ray, and the flag records which side was struck.
pub open spec fn face_normal_s(dir: V3, outward: V3) -> (bool, V3) {
    let front = dot_v(dir, outward) < 0;
    (
        front,
        if front {
            outward
        } else {
            neg_v(outward)
        },
    )
}

/// The resolved facing flag and normal for an outward normal.
pub fn face_normal(dir: Vec3, outward: Vec3) -> (r: (bool, Vec3))
    ensures
        r.0 == face_normal_s(dir@, outward@).0,
        r.1@ == face_normal_s(dir@, outward@).1,
{
    if dir.dot(outward).lt(Fx::zero()) {
        (true, outward)
    } else {
        (false, outward.neg())
    }
}

} // verus!
