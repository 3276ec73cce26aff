//! Homogeneous participating media: fog and smoke.

use vstd::prelude::*;
use std::sync::Arc;
use crate::aabb::Aabb;
use crate::fx::Fx;
use crate::hittable::Hittable;
use crate::hittable::bbox_s;
use crate::material::Isotropic;
use crate::material::Material;
use crate::vec3::Vec3;

verus! {

/// A constant-density medium bounded by a closed inner object; rays entering
/// it scatter after an exponentially sampled free path.
pub struct ConstantMedium {
    pub boundary: Arc<Hittable>,
    pub density: Fx,
    pub phase: Arc<Material>,
    pub bbox: Aabb,
}

impl ConstantMedium {
    /// A medium of the given density and scattering color inside a boundary.
    pub fn color(boundary: Arc<Hittable>, density: Fx, c: Vec3) -> (r: Hittable)
        ensures
            r matches Hittable::Medium(m) && *m.boundary == *boundary && m.density == density
                && m.bbox@ == bbox_s(*boundary) && (*m.phase matches Material::Isotropic(i)
                && *i.albedo == crate::texture::Texture::Solid(
                crate::solid_texture::SolidTexture { color: c },
            )),
    {
        let bbox = boundary.bounding_box();
        Hittable::Medium(
            ConstantMedium { boundary, density, phase: Arc::new(Isotropic::color(c)), bbox },
        )
    }
}

} // verus!
