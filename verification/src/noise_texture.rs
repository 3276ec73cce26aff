//! The procedural marble texture: sinusoidal bands displaced by turbulence.

use vstd::prelude::*;
use crate::fx::Fx;
use crate::fx::fx_add;
use crate::fx::fx_mul;
use crate::fx::fx_sin;
use crate::perlin::NoiseData;
use crate::perlin::Perlin;
use crate::perlin::turb_s;
use crate::rng::Sampler;
use crate::vec3::V3;
use crate::vec3::Vec3;

verus! {

/// The marble shade at a point: mid-gray lifted by the sine of the scaled
/// depth plus ten turbulence octaves' worth of displacement.
pub open spec fn noise_value_s(scale: int, d: NoiseData, p: V3) -> V3 {
    let g = fx_mul(
        32768,
        fx_add(65536, fx_sin(fx_add(fx_mul(scale, p.z), fx_mul(655360, turb_s(d, p, 7))))),
    );
    V3 { x: g, y: g, z: g }
}

/// A marble-like texture over a private noise field.
#[derive(Debug)]
pub struct NoiseTexture {
    pub scale: Fx,
    pub perlin: Perlin,
}

impl NoiseTexture {
    /// A marble texture at the given band scale, with noise tables drawn
    /// from the sampler.
    pub fn new(scale: Fx, rng: &mut Sampler) -> (r: NoiseTexture)
        ensures
            r.scale == scale,
    {
        NoiseTexture { scale, perlin: Perlin::new(rng) }
    }

    /// The shade at a world point.
    pub fn value(&self, p: Vec3) -> (r: Vec3)
        ensures
            r@ == noise_value_s(self.scale@, self.perlin.data_s(), p@),
    {
        let t = self.perlin.turb(p, 7);
        let g = Fx::raw(32768).mul(
            Fx::one().add(self.scale.mul(p.z).add(Fx::raw(655360).mul(t)).sin()),
        );
        Vec3 { x: g, y: g, z: g }
    }
}

} // verus!
