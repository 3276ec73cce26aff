//! Planar parallelograms, and the boxes built from six of them.

use vstd::prelude::*;
use std::sync::Arc;
use crate::aabb::Aabb;
use crate::aabb::box_merge_s;
use crate::aabb::box_of_corners_s;
use crate::aabb::pad_s;
use crate::fx::Fx;
use crate::fx::fx_div;
use crate::fx::fx_sub;
use crate::fx::iabs;
use crate::hit_record::HitRecord;
use crate::hit_record::HitS;
use crate::hit_record::face_normal;
use crate::hit_record::face_normal_s;
use crate::interval::Interval;
use crate::interval::IvS;
use crate::interval::contains_s;
use crate::material::Material;
use crate::ray::Ray;
use crate::ray::RayS;
use crate::ray::at_s;
use crate::vec3::V3;
use crate::vec3::Vec3;
use crate::vec3::add_v;
use crate::vec3::cross_v;
use crate::vec3::div_scalar_v;
use crate::vec3::dot_v;
use crate::vec3::len_sq_v;
use crate::vec3::sub_v;
use crate::vec3::unit_v;

verus! {

/// A parallelogram: a corner `q` and two edge vectors `u`, `v`, with the
/// cached plane data the hit test needs.
pub struct Quad {
    pub q: Vec3,
    pub u: Vec3,
    pub v: Vec3,
    pub w: Vec3,
    pub normal: Vec3,
    pub d: Fx,
    pub mat: Arc<Material>,
    pub bbox: Aabb,
}

/// Model of `Quad::hit`: intersect the supporting plane, then test the
/// plane-basis coordinates against the unit square.
pub open spec fn quad_hit_s(qd: Quad, r: RayS, tmin: int, tmax: int) -> Option<HitS> {
    let denom = dot_v(qd.normal@, r.dir);
    if iabs(denom) < 4 {
        Option::None
    } else {
        let t = fx_div(fx_sub(qd.d@, dot_v(qd.normal@, r.orig)), denom);
        if !contains_s(IvS { min: tmin, max: tmax }, t) {
            Option::None
        } else {
            let ip = at_s(r, t);
            let planar = sub_v(ip, qd.q@);
            let alpha = dot_v(qd.w@, cross_v(planar, qd.v@));
            let beta = dot_v(qd.w@, cross_v(qd.u@, planar));
            if !(0 <= alpha <= 65536) || !(0 <= beta <= 65536) {
                Option::None
            } else {
                let fr = face_normal_s(r.dir, qd.normal@);
                Option::Some(
                    HitS {
                        p: ip,
                        normal: fr.1,
                        t,
                        u: alpha,
                        v: beta,
                        front: fr.0,
                        mat: *qd.mat,
                    },
                )
            }
        }
    }
}

impl Quad {
    /// The parallelogram with corner `q` and edges `u`, `v`.
    pub fn new(q: Vec3, u: Vec3, v: Vec3, mat: Arc<Material>) -> (r: Quad)
        ensures
            r.q == q,
            r.u == u,
            r.v == v,
            *r.mat == *mat,
            r.normal@ == unit_v(cross_v(u@, v@)),
            r.d@ == dot_v(unit_v(cross_v(u@, v@)), q@),
            r.w@ == div_scalar_v(cross_v(u@, v@), len_sq_v(cross_v(u@, v@))),
            r.bbox@ == box_merge_s(
                pad_s(box_of_corners_s(q@, add_v(add_v(q@, u@), v@))),
                pad_s(box_of_corners_s(add_v(q@, u@), add_v(q@, v@))),
            ),
    {
        let n = u.cross(v);
        let normal = n.unit();
        let d = normal.dot(q);
        let w = n.div_scalar(n.length_squared());
        let bbox_diag = Aabb::from_corners(q, q.add(u).add(v));
        let bbox_cross = Aabb::from_corners(q.add(u), q.add(v));
        Quad { q, u, v, w, normal, d, mat, bbox: Aabb::merge(bbox_diag, bbox_cross) }
    }

    /// The plane-then-square intersection test.
    pub fn hit(&self, r: &Ray, ray_t: Interval) -> (res: Option<HitRecord>)
        ensures
            crate::hit_record::opt_hit_view(res) == quad_hit_s(*self, r@, ray_t@.min, ray_t@.max),
    {
        let denom = self.normal.dot(r.direction);
        if denom.abs().lt(Fx::raw(4)) {
            return Option::None;
        }
        let t = self.d.sub(self.normal.dot(r.origin)).div(denom);
        if !ray_t.contains(t) {
            return Option::None;
        }
        let ip = r.at(t);
        let planar = ip.sub(self.q);
        let alpha = self.w.dot(planar.cross(self.v));
        let beta = self.w.dot(self.u.cross(planar));
        let zero = Fx::zero();
        let one = Fx::one();
        if !(alpha.ge(zero) && alpha.le(one)) || !(beta.ge(zero) && beta.le(one)) {
            return Option::None;
        }
        let fr = face_normal(r.direction, self.normal);
        Option::Some(
            HitRecord {
                p: ip,
                normal: fr.1,
                t,
                u: alpha,
                v: beta,
                front_face: fr.0,
                mat: crate::shared::share(&self.mat),
            },
        )
    }
}

/// The componentwise smaller corner.
pub open spec fn corner_min_s(a: V3, b: V3) -> V3 {
    V3 {
        x: crate::interval::imin(a.x, b.x),
        y: crate::interval::imin(a.y, b.y),
        z: crate::interval::imin(a.z, b.z),
    }
}

/// The componentwise larger corner.
pub open spec fn corner_max_s(a: V3, b: V3) -> V3 {
    V3 {
        x: crate::interval::imax(a.x, b.x),
        y: crate::interval::imax(a.y, b.y),
        z: crate::interval::imax(a.z, b.z),
    }
}

/// One parallelogram face of a box: its corner and its two edge vectors.
pub open spec fn quad_shape_s(h: crate::hittable::Hittable, q: V3, u: V3, v: V3) -> bool {
    h matches crate::hittable::Hittable::Quad(qq) && qq.q@ == q && qq.u@ == u && qq.v@ == v
}

/// The six faces of a closed rectangular box with the given lower and upper
/// corners: front, right, back, left, top, bottom, in that order.
pub open spec fn quad_box_s(h: crate::hittable::Hittable, lo: V3, hi: V3) -> bool {
    let dx = V3 { x: fx_sub(hi.x, lo.x), y: 0, z: 0 };
    let dy = V3 { x: 0, y: fx_sub(hi.y, lo.y), z: 0 };
    let dz = V3 { x: 0, y: 0, z: fx_sub(hi.z, lo.z) };
    &&& h matches crate::hittable::Hittable::List(l)
    &&& l.objects@.len() == 6
    &&& quad_shape_s(*l.objects@[0], V3 { x: lo.x, y: lo.y, z: hi.z }, dx, dy)
    &&& quad_shape_s(*l.objects@[1], V3 { x: hi.x, y: lo.y, z: hi.z }, crate::vec3::neg_v(dz), dy)
    &&& quad_shape_s(*l.objects@[2], V3 { x: hi.x, y: lo.y, z: lo.z }, crate::vec3::neg_v(dx), dy)
    &&& quad_shape_s(*l.objects@[3], V3 { x: lo.x, y: lo.y, z: lo.z }, dz, dy)
    &&& quad_shape_s(*l.objects@[4], V3 { x: lo.x, y: hi.y, z: hi.z }, dx, crate::vec3::neg_v(dz))
    &&& quad_shape_s(*l.objects@[5], V3 { x: lo.x, y: lo.y, z: lo.z }, dx, dz)
}

/// A closed rectangular box of six quads spanned by two opposite corners,
/// all six sharing one material.
pub fn quad_box(a: Vec3, b: Vec3, mat: Arc<Material>) -> (r: Arc<crate::hittable::Hittable>)
    ensures
        quad_box_s(*r, corner_min_s(a@, b@), corner_max_s(a@, b@)),
        *r matches crate::hittable::Hittable::List(l) && l.objects@.len() == 6 && (forall|n: int|
            0 <= n < 6 ==> (*#[trigger] l.objects@[n] matches crate::hittable::Hittable::Quad(qq)
                && *qq.mat == *mat)),
{
    let min = Vec3 { x: a.x.min(b.x), y: a.y.min(b.y), z: a.z.min(b.z) };
    let max = Vec3 { x: a.x.max(b.x), y: a.y.max(b.y), z: a.z.max(b.z) };
    let zero = Fx::zero();
    let dx = Vec3 { x: max.x.sub(min.x), y: zero, z: zero };
    let dy = Vec3 { x: zero, y: max.y.sub(min.y), z: zero };
    let dz = Vec3 { x: zero, y: zero, z: max.z.sub(min.z) };
    let mut sides = crate::hittable_list::HittableList::new();
    sides.add(
        Arc::new(
            crate::hittable::Hittable::Quad(
                Quad::new(Vec3 { x: min.x, y: min.y, z: max.z }, dx, dy, crate::shared::share(&mat)),
            ),
        ),
    );
    sides.add(
        Arc::new(
            crate::hittable::Hittable::Quad(
                Quad::new(
                    Vec3 { x: max.x, y: min.y, z: max.z },
                    dz.neg(),
                    dy,
                    crate::shared::share(&mat),
                ),
            ),
        ),
    );
    sides.add(
        Arc::new(
            crate::hittable::Hittable::Quad(
                Quad::new(
                    Vec3 { x: max.x, y: min.y, z: min.z },
                    dx.neg(),
                    dy,
                    crate::shared::share(&mat),
                ),
            ),
        ),
    );
    sides.add(
        Arc::new(
            crate::hittable::Hittable::Quad(
                Quad::new(Vec3 { x: min.x, y: min.y, z: min.z }, dz, dy, crate::shared::share(&mat)),
            ),
        ),
    );
    sides.add(
        Arc::new(
            crate::hittable::Hittable::Quad(
                Quad::new(
                    Vec3 { x: min.x, y: max.y, z: max.z },
                    dx,
                    dz.neg(),
                    crate::shared::share(&mat),
                ),
            ),
        ),
    );
    sides.add(
        Arc::new(
            crate::hittable::Hittable::Quad(
                Quad::new(Vec3 { x: min.x, y: min.y, z: min.z }, dx, dz, crate::shared::share(&mat)),
            ),
        ),
    );
    Arc::new(crate::hittable::Hittable::List(sides))
}

} // verus!
