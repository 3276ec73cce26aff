//! Spheres, static or in linear motion over the exposure.

use vstd::prelude::*;
use std::sync::Arc;
use crate::aabb::Aabb;
use crate::aabb::BoxS;
use crate::aabb::box_merge_s;
use crate::aabb::box_of_corners_s;
use crate::aabb::pad_s;
use crate::fx::Fx;
use crate::fx::fx_add;
use crate::fx::fx_div;
use crate::fx::fx_mul;
use crate::fx::fx_sqrt;
use crate::fx::fx_sub;
use crate::fx::fx_abs;
use crate::fx::tdiv;
use crate::hit_record::HitRecord;
use crate::hit_record::HitS;
use crate::hit_record::face_normal;
use crate::hit_record::face_normal_s;
use crate::interval::Interval;
use crate::interval::IvS;
use crate::interval::imax;
use crate::interval::imin;
use crate::interval::surrounds_s;
use crate::material::Material;
use crate::ray::Ray;
use crate::ray::RayS;
use crate::ray::at_s;
use crate::vec3::V3;
use crate::vec3::Vec3;
use crate::vec3::add_v;
use crate::vec3::div_scalar_v;
use crate::vec3::dot_v;
use crate::vec3::len_sq_v;
use crate::vec3::scale_v;
use crate::vec3::sub_v;

verus! {

/// A sphere: a start center, the center's motion over the exposure, and a
/// radius. A static sphere has zero motion.
pub struct Sphere {
    pub center0: Vec3,
    pub center_vec: Vec3,
    pub radius: Fx,
    pub mat: Arc<Material>,
    pub bbox: Aabb,
}

/// The center at a time sample.
pub open spec fn center_at_s(sp: Sphere, time: int) -> V3 {
    add_v(sp.center0@, scale_v(sp.center_vec@, time))
}

/// The angle of `(x, y)` around the origin as a fraction of a full turn, on
/// the mantissa grid, built octant by octant from the ratio of the
/// magnitudes. The arctangent is approximated linearly inside each octant.
pub open spec fn turn_frac_s(x: int, y: int) -> int {
    let ax = fx_abs(x);
    let ay = fx_abs(y);
    if ax == 0 && ay == 0 {
        0
    } else {
        let o = if ax >= ay {
            tdiv(fx_div(ay, ax), 8)
        } else {
            16384 - tdiv(fx_div(ax, ay), 8)
        };
        if x >= 0 && y >= 0 {
            o
        } else if x < 0 && y >= 0 {
            32768 - o
        } else if x < 0 {
            32768 + o
        } else if o == 0 {
            0
        } else {
            65536 - o
        }
    }
}

/// The spherical surface coordinates of an outward unit normal: `u` wraps
/// the axis as the longitude fraction, `v` ramps from the south to the north
/// pole by the cosine of the polar angle.
pub open spec fn sphere_uv_s(outward: V3) -> (int, int) {
    let a = turn_frac_s(outward.x, crate::fx::fx_neg(outward.z));
    let u = if a + 32768 >= 65536 {
        a + 32768 - 65536
    } else {
        a + 32768
    };
    let v = imin(imax(fx_add(65536, outward.y), 0), 131072) / 2;
    (u, v)
}

/// Model of `Sphere::hit`: the analytic quadratic intersection, keeping the
/// nearest root strictly inside the parameter window.
pub open spec fn sphere_hit_s(sp: Sphere, r: RayS, tmin: int, tmax: int) -> Option<HitS> {
    let cc = center_at_s(sp, r.time);
    let oc = sub_v(cc, r.orig);
    let a = len_sq_v(r.dir);
    let h = dot_v(r.dir, oc);
    let c = fx_sub(len_sq_v(oc), fx_mul(sp.radius@, sp.radius@));
    let disc = fx_sub(fx_mul(h, h), fx_mul(a, c));
    if disc < 0 {
        Option::None
    } else {
        let sq = fx_sqrt(disc);
        let window = IvS { min: tmin, max: tmax };
        let root1 = fx_div(fx_sub(h, sq), a);
        let root2 = fx_div(fx_add(h, sq), a);
        let root = if surrounds_s(window, root1) {
            Option::Some(root1)
        } else if surrounds_s(window, root2) {
            Option::Some(root2)
        } else {
            Option::None
        };
        match root {
            Option::None => Option::None,
            Option::Some(t) => {
                let p = at_s(r, t);
                let outward = div_scalar_v(sub_v(p, cc), sp.radius@);
                let fr = face_normal_s(r.dir, outward);
                let uv = sphere_uv_s(outward);
                Option::Some(
                    HitS {
                        p,
                        normal: fr.1,
                        t,
                        u: uv.0,
                        v: uv.1,
                        front: fr.0,
                        mat: *sp.mat,
                    },
                )
            },
        }
    }
}

/// The angle of `(x, y)` as a turn fraction.
fn turn_frac(x: Fx, y: Fx) -> (r: i64)
    ensures
        r as int == turn_frac_s(x@, y@),
        0 <= r <= 65536,
{
    let ax = x.abs();
    let ay = y.abs();
    if ax.bits == 0 && ay.bits == 0 {
        return 0;
    }
    let o: i64 = if ax.ge(ay) {
        let q = ay.div(ax);
        proof {
            lemma_div_unit(ay@, ax@);
        }
        ((q.bits as u64) / 8) as i64
    } else {
        let q = ax.div(ay);
        proof {
            lemma_div_unit(ax@, ay@);
        }
        16384 - (((q.bits as u64) / 8) as i64)
    };
    if x.bits >= 0 && y.bits >= 0 {
        o
    } else if x.bits < 0 && y.bits >= 0 {
        32768 - o
    } else if x.bits < 0 {
        32768 + o
    } else if o == 0 {
        0
    } else {
        65536 - o
    }
}

/// The spherical surface coordinates of an outward normal.
fn sphere_uv(outward: Vec3) -> (r: (Fx, Fx))
    ensures
        (r.0@, r.1@) == sphere_uv_s(outward@),
{
    let a = turn_frac(outward.x, outward.z.neg());
    let u: i64 = if a + 32768 >= 65536 {
        a + 32768 - 65536
    } else {
        a + 32768
    };
    let t = Fx::one().add(outward.y);
    let tc: i64 = if t.bits < 0 {
        0
    } else if t.bits > 131072 {
        131072
    } else {
        t.bits
    };
    let v: i64 = ((tc as u64) / 2) as i64;
    (Fx { bits: u }, Fx { bits: v })
}

/// A ratio of magnitudes `n / d` with `n <= d` stays within the unit
/// mantissa.
proof fn lemma_div_unit(n: int, d: int)
    requires
        0 <= n <= d,
        0 < d,
    ensures
        0 <= fx_div(n, d) <= 65536,
{
    assert(n * 65536 <= d * 65536) by (nonlinear_arith)
        requires
            n <= d,
    ;
    assert(0 <= n * 65536) by (nonlinear_arith)
        requires
            0 <= n,
    ;
    vstd::arithmetic::div_mod::lemma_div_is_ordered(n * 65536, d * 65536, d);
    vstd::arithmetic::div_mod::lemma_div_by_multiple(65536, d);
    assert((65536 * d) / d == 65536);
    assert(d * 65536 == 65536 * d);
    vstd::arithmetic::div_mod::lemma_div_pos_is_pos(n * 65536, d);
}

impl Sphere {
    /// A static sphere.
    pub fn new(center: Vec3, radius: Fx, mat: Arc<Material>) -> (r: Sphere)
        ensures
            r.center0 == center,
            r.center_vec@ == (V3 { x: 0, y: 0, z: 0 }),
            r.radius == radius,
            *r.mat == *mat,
            r.bbox@ == pad_s(
                box_of_corners_s(
                    sub_v(center@, V3 { x: radius@, y: radius@, z: radius@ }),
                    add_v(center@, V3 { x: radius@, y: radius@, z: radius@ }),
                ),
            ),
    {
        let rvec = Vec3 { x: radius, y: radius, z: radius };
        let bbox = Aabb::from_corners(center.sub(rvec), center.add(rvec));
        Sphere { center0: center, center_vec: Vec3::zero(), radius, mat, bbox }
    }

    /// A sphere moving linearly from `center` to `center_end` over the
    /// exposure; its box holds the whole sweep.
    pub fn new_moving(center: Vec3, radius: Fx, mat: Arc<Material>, center_end: Vec3) -> (r:
        Sphere)
        ensures
            r.center0 == center,
            r.center_vec@ == sub_v(center_end@, center@),
            r.radius == radius,
            *r.mat == *mat,
            r.bbox@ == box_merge_s(
                pad_s(
                    box_of_corners_s(
                        sub_v(center@, V3 { x: radius@, y: radius@, z: radius@ }),
                        add_v(center@, V3 { x: radius@, y: radius@, z: radius@ }),
                    ),
                ),
                pad_s(
                    box_of_corners_s(
                        sub_v(center_end@, V3 { x: radius@, y: radius@, z: radius@ }),
                        add_v(center_end@, V3 { x: radius@, y: radius@, z: radius@ }),
                    ),
                ),
            ),
    {
        let rvec = Vec3 { x: radius, y: radius, z: radius };
        let box0 = Aabb::from_corners(center.sub(rvec), center.add(rvec));
        let box1 = Aabb::from_corners(center_end.sub(rvec), center_end.add(rvec));
        Sphere {
            center0: center,
            center_vec: center_end.sub(center),
            radius,
            mat,
            bbox: Aabb::merge(box0, box1),
        }
    }

    /// The center at a time sample.
    pub fn center_at(&self, time: Fx) -> (r: Vec3)
        ensures
            r@ == center_at_s(*self, time@),
    {
        self.center0.add(self.center_vec.scale(time))
    }

    /// The analytic ray-sphere intersection inside an open parameter window.
    pub fn hit(&self, r: &Ray, ray_t: Interval) -> (res: Option<HitRecord>)
        ensures
            crate::hit_record::opt_hit_view(res) == sphere_hit_s(*self, r@, ray_t@.min, ray_t@.max),
    {
        let cc = self.center_at(r.time);
        let oc = cc.sub(r.origin);
        let a = r.direction.length_squared();
        let h = r.direction.dot(oc);
        let c = oc.length_squared().sub(self.radius.mul(self.radius));
        let disc = h.mul(h).sub(a.mul(c));
        if disc.lt(Fx::zero()) {
            return Option::None;
        }
        let sq = disc.sqrt();
        let root1 = h.sub(sq).div(a);
        let mut root = root1;
        if !ray_t.surrounds(root1) {
            let root2 = h.add(sq).div(a);
            if !ray_t.surrounds(root2) {
                return Option::None;
            }
            root = root2;
        }
        let p = r.at(root);
        let outward = p.sub(cc).div_scalar(self.radius);
        let fr = face_normal(r.direction, outward);
        let uv = sphere_uv(outward);
        Option::Some(
            HitRecord {
                p,
                normal: fr.1,
                t: root,
                u: uv.0,
                v: uv.1,
                front_face: fr.0,
                mat: crate::shared::share(&self.mat),
            },
        )
    }
}

} // verus!
