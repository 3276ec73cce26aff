//! The shading model: how rays scatter, attenuate or terminate at a surface.
//!
//! Every material's behavior is pinned by `scatter_s`, an exact model over
//! mantissas and the sampler state, so the integrator's light transport is a
//! pure function of the scene and the seed.

use vstd::prelude::*;
use std::sync::Arc;
use crate::fx::Fx;
use crate::fx::fx_add;
use crate::fx::fx_div;
use crate::fx::fx_mul;
use crate::fx::fx_sqrt;
use crate::fx::fx_sub;
use crate::hit_record::HitRecord;
use crate::hit_record::HitS;
use crate::interval::imin;
use crate::ray::Ray;
use crate::ray::RayS;
use crate::rng::Sampler;
use crate::rng::step;
use crate::rng::unit_of;
use crate::texture::Texture;
use crate::texture::texture_value_s;
use crate::vec3::V3;
use crate::vec3::Vec3;
use crate::vec3::add_v;
use crate::vec3::dot_v;
use crate::vec3::near_zero_v;
use crate::vec3::neg_v;
use crate::vec3::random_unit_s;
use crate::vec3::reflect_v;
use crate::vec3::refract_v;
use crate::vec3::scale_v;
use crate::vec3::unit_v;

verus! {

/// A diffuse surface: scatter near the normal, attenuate by a texture.
pub struct Lambertian {
    pub albedo: Arc<Texture>,
}

/// A fuzzy mirror.
pub struct Metal {
    pub albedo: Vec3,
    pub fuzz: Fx,
}

/// A clear refractive surface.
pub struct Dielectric {
    pub refraction_index: Fx,
}

/// A surface that only emits.
pub struct DiffuseLight {
    pub emit: Arc<Texture>,
}

/// The phase function of a constant medium: scatter uniformly in all
/// directions.
pub struct Isotropic {
    pub albedo: Arc<Texture>,
}

/// A shading rule: one of the five closed variants.
pub enum Material {
    Lambertian(Lambertian),
    Metal(Metal),
    Dielectric(Dielectric),
    DiffuseLight(DiffuseLight),
    Isotropic(Isotropic),
}

/// The fuel every rejection sampler runs on.
pub const SCATTER_FUEL: u64 = 32;

/// Schlick's reflectance approximation at a cosine and relative index.
pub open spec fn reflectance_s(cos: int, ri: int) -> int {
    let r0 = fx_div(fx_sub(65536, ri), fx_add(65536, ri));
    let r0sq = fx_mul(r0, r0);
    let omc = fx_sub(65536, cos);
    let p2 = fx_mul(omc, omc);
    let p4 = fx_mul(p2, p2);
    let p5 = fx_mul(p4, omc);
    fx_add(r0sq, fx_mul(fx_sub(65536, r0sq), p5))
}

/// The color white: a dielectric absorbs nothing.
pub open spec fn white_s() -> V3 {
    V3 { x: 65536, y: 65536, z: 65536 }
}

/// Model of `Material::scatter`: the attenuated follow-on ray, or nothing
/// when the path terminates, together with the sampler state left behind.
pub open spec fn scatter_s(m: Material, r: RayS, rec: HitS, s: u64) -> (
    Option<(V3, RayS)>,
    u64,
) {
    match m {
        Material::Lambertian(l) => {
            let d = random_unit_s(s, SCATTER_FUEL as nat);
            let dir = add_v(rec.normal, d.0);
            let dir2 = if near_zero_v(dir) {
                rec.normal
            } else {
                dir
            };
            let attn = texture_value_s(*l.albedo, rec.u, rec.v, rec.p);
            (Option::Some((attn, RayS { orig: rec.p, dir: dir2, time: r.time })), d.1)
        },
        Material::Metal(mm) => {
            let d = random_unit_s(s, SCATTER_FUEL as nat);
            let dir = add_v(unit_v(reflect_v(r.dir, rec.normal)), scale_v(d.0, mm.fuzz@));
            if dot_v(dir, rec.normal) > 0 {
                (
                    Option::Some(
                        (mm.albedo@, RayS { orig: rec.p, dir, time: r.time }),
                    ),
                    d.1,
                )
            } else {
                (Option::None, d.1)
            }
        },
        Material::Dielectric(dd) => {
            let ri = if rec.front {
                fx_div(65536, dd.refraction_index@)
            } else {
                dd.refraction_index@
            };
            let ud = unit_v(r.dir);
            let cos = imin(dot_v(neg_v(ud), rec.normal), 65536);
            let sin = fx_sqrt(fx_sub(65536, fx_mul(cos, cos)));
            let cannot_refract = fx_mul(ri, sin) > 65536;
            let s1 = step(s);
            let u = unit_of(s1);
            let dir = if cannot_refract || reflectance_s(cos, ri) > u {
                reflect_v(ud, rec.normal)
            } else {
                refract_v(ud, rec.normal, ri)
            };
            (Option::Some((white_s(), RayS { orig: rec.p, dir, time: r.time })), s1)
        },
        Material::DiffuseLight(_) => (Option::None, s),
        Material::Isotropic(iso) => {
            let d = random_unit_s(s, SCATTER_FUEL as nat);
            let attn = texture_value_s(*iso.albedo, rec.u, rec.v, rec.p);
            (Option::Some((attn, RayS { orig: rec.p, dir: d.0, time: r.time })), d.1)
        },
    }
}

/// Model of `Material::emitted`: only lights glow; everything else answers
/// black.
pub open spec fn emitted_s(m: Material, u: int, v: int, p: V3) -> V3 {
    match m {
        Material::DiffuseLight(l) => texture_value_s(*l.emit, u, v, p),
        _ => V3 { x: 0, y: 0, z: 0 },
    }
}

/// The models of an optional scatter result.
pub open spec fn opt_scatter_view(o: Option<(Vec3, Ray)>) -> Option<(V3, RayS)> {
    match o {
        Option::Some(p) => Option::Some((p.0@, p.1@)),
        Option::None => Option::None,
    }
}

impl Material {
    /// The scattered ray and attenuation for a hit, or nothing when the path
    /// ends here; consumes sampler draws exactly as the model says.
    pub fn scatter(&self, r_in: &Ray, rec: &HitRecord, rng: &mut Sampler) -> (res: Option<
        (Vec3, Ray),
    >)
        ensures
            opt_scatter_view(res) == scatter_s(*self, r_in@, rec@, old(rng).state).0,
            final(rng).state == scatter_s(*self, r_in@, rec@, old(rng).state).1,
    {
        match self {
            Material::Lambertian(l) => {
                let d = Vec3::random_unit(rng);
                let dir = rec.normal.add(d);
                let dir2 = if dir.near_zero() {
                    rec.normal
                } else {
                    dir
                };
                let attn = l.albedo.value(rec.u, rec.v, rec.p);
                Option::Some((attn, Ray { origin: rec.p, direction: dir2, time: r_in.time }))
            },
            Material::Metal(mm) => {
                let d = Vec3::random_unit(rng);
                let dir = r_in.direction.reflect(rec.normal).unit().add(d.scale(mm.fuzz));
                if dir.dot(rec.normal).gt(Fx::zero()) {
                    Option::Some(
                        (mm.albedo, Ray { origin: rec.p, direction: dir, time: r_in.time }),
                    )
                } else {
                    Option::None
                }
            },
            Material::Dielectric(dd) => {
                let ri = if rec.front_face {
                    Fx::one().div(dd.refraction_index)
                } else {
                    dd.refraction_index
                };
                let ud = r_in.direction.unit();
                let cos = ud.neg().dot(rec.normal).min(Fx::one());
                let sin = Fx::one().sub(cos.mul(cos)).sqrt();
                let cannot_refract = ri.mul(sin).gt(Fx::one());
                let u = rng.next_unit();
                let dir = if cannot_refract || Self::reflectance(cos, ri).gt(u) {
                    ud.reflect(rec.normal)
                } else {
                    ud.refract(rec.normal, ri)
                };
                Option::Some(
                    (
                        Vec3 { x: Fx::one(), y: Fx::one(), z: Fx::one() },
                        Ray { origin: rec.p, direction: dir, time: r_in.time },
                    ),
                )
            },
            Material::DiffuseLight(_) => Option::None,
            Material::Isotropic(iso) => {
                let d = Vec3::random_unit(rng);
                let attn = iso.albedo.value(rec.u, rec.v, rec.p);
                Option::Some((attn, Ray { origin: rec.p, direction: d, time: r_in.time }))
            },
        }
    }

    /// The emitted color at a surface coordinate: black except for lights.
    pub fn emitted(&self, u: Fx, v: Fx, p: Vec3) -> (r: Vec3)
        ensures
            r@ == emitted_s(*self, u@, v@, p@),
    {
        match self {
            Material::DiffuseLight(l) => l.emit.value(u, v, p),
            _ => Vec3::zero(),
        }
    }

    /// Schlick's reflectance approximation.
    fn reflectance(cos: Fx, ri: Fx) -> (r: Fx)
        ensures
            r@ == reflectance_s(cos@, ri@),
    {
        let r0 = Fx::one().sub(ri).div(Fx::one().add(ri));
        let r0sq = r0.mul(r0);
        let omc = Fx::one().sub(cos);
        let p2 = omc.mul(omc);
        let p4 = p2.mul(p2);
        let p5 = p4.mul(omc);
        r0sq.add(Fx::one().sub(r0sq).mul(p5))
    }
}

impl Lambertian {
    /// A diffuse surface over a texture.
    pub fn new(albedo: Arc<Texture>) -> (r: Material)
        ensures
            r matches Material::Lambertian(l) && *l.albedo == *albedo,
    {
        Material::Lambertian(Lambertian { albedo })
    }

    /// A diffuse surface of one color.
    pub fn from_color(c: Vec3) -> (r: Material)
        ensures
            r matches Material::Lambertian(l) && *l.albedo == Texture::Solid(
                crate::solid_texture::SolidTexture { color: c },
            ),
    {
        Material::Lambertian(
            Lambertian {
                albedo: Arc::new(Texture::Solid(crate::solid_texture::SolidTexture::new(c))),
            },
        )
    }
}

impl Metal {
    /// A fuzzy mirror of one color.
    pub fn new(albedo: Vec3, fuzz: Fx) -> (r: Material)
        ensures
            r == Material::Metal(Metal { albedo, fuzz }),
    {
        Material::Metal(Metal { albedo, fuzz })
    }
}

impl Dielectric {
    /// A refractive surface with the given index.
    pub fn new(refraction_index: Fx) -> (r: Material)
        ensures
            r == Material::Dielectric(Dielectric { refraction_index }),
    {
        Material::Dielectric(Dielectric { refraction_index })
    }
}

impl DiffuseLight {
    /// A light over a texture.
    pub fn new(emit: Arc<Texture>) -> (r: Material)
        ensures
            r matches Material::DiffuseLight(l) && *l.emit == *emit,
    {
        Material::DiffuseLight(DiffuseLight { emit })
    }

    /// A light of one color.
    pub fn color(c: Vec3) -> (r: Material)
        ensures
            r matches Material::DiffuseLight(l) && *l.emit == Texture::Solid(
                crate::solid_texture::SolidTexture { color: c },
            ),
    {
        Material::DiffuseLight(
            DiffuseLight {
                emit: Arc::new(Texture::Solid(crate::solid_texture::SolidTexture::new(c))),
            },
        )
    }
}

impl Isotropic {
    /// A phase function of one color.
    pub fn color(c: Vec3) -> (r: Material)
        ensures
            r matches Material::Isotropic(i) && *i.albedo == Texture::Solid(
                crate::solid_texture::SolidTexture { color: c },
            ),
    {
        Material::Isotropic(
            Isotropic {
                albedo: Arc::new(Texture::Solid(crate::solid_texture::SolidTexture::new(c))),
            },
        )
    }
}

} // verus!
