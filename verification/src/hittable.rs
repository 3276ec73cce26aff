//! The closed polymorphic dispatch over everything a ray can hit.
//!
//! `hit_s` is the exact model of intersection: given an object, a ray, a
//! parameter window and the sampler state (the constant medium draws from
//! it), it says which hit comes back and which state is left behind. The
//! executable `hit` is proved to follow it everywhere.

use vstd::prelude::*;
use std::sync::Arc;
use crate::aabb::Aabb;
use crate::aabb::BoxS;
use crate::aabb::box_hit_s;
use crate::bvh_node::BvhNode;
use crate::constant_medium::ConstantMedium;
use crate::affine_transforms::RotateY;
use crate::affine_transforms::Translate;
use crate::affine_transforms::rot_x_s;
use crate::affine_transforms::rot_z_s;
use crate::fx::Fx;
use crate::fx::fx_add;
use crate::fx::fx_div;
use crate::fx::fx_mul;
use crate::fx::fx_neg;
use crate::fx::fx_neg_ln;
use crate::fx::fx_sub;
use crate::hit_record::HitRecord;
use crate::hit_record::HitS;
use crate::hit_record::opt_hit_view;
use crate::hittable_list::HittableList;
use crate::interval::Interval;
use crate::interval::imax;
use crate::interval::imin;
use crate::quad::Quad;
use crate::quad::quad_hit_s;
use crate::ray::Ray;
use crate::ray::RayS;
use crate::ray::at_s;
use crate::rng::Sampler;
use crate::rng::step;
use crate::rng::unit_of;
use crate::sphere::Sphere;
use crate::sphere::sphere_hit_s;
use crate::vec3::V3;
use crate::vec3::Vec3;
use crate::vec3::add_v;
use crate::vec3::len_v;
use crate::vec3::sub_v;

verus! {

/// Anything a ray can be traced against.
pub enum Hittable {
    Sphere(Sphere),
    Quad(Quad),
    List(HittableList),
    Bvh(BvhNode),
    Translate(Translate),
    RotateY(RotateY),
    Medium(ConstantMedium),
}

/// The cached bounding box of an object.
pub open spec fn bbox_s(h: Hittable) -> BoxS {
    match h {
        Hittable::Sphere(sp) => sp.bbox@,
        Hittable::Quad(q) => q.bbox@,
        Hittable::List(l) => l.bbox@,
        Hittable::Bvh(b) => b.bbox@,
        Hittable::Translate(t) => t.bbox@,
        Hittable::RotateY(ry) => ry.bbox@,
        Hittable::Medium(m) => m.bbox@,
    }
}

/// A vector rotated from the world frame into the object frame of a
/// y-rotation.
pub open spec fn rot_to_local_v(sin: int, cos: int, v: V3) -> V3 {
    V3 {
        x: fx_sub(fx_mul(cos, v.x), fx_mul(sin, v.z)),
        y: v.y,
        z: fx_add(fx_mul(sin, v.x), fx_mul(cos, v.z)),
    }
}

/// A vector rotated from the object frame back to the world frame.
pub open spec fn rot_to_world_v(sin: int, cos: int, v: V3) -> V3 {
    V3 { x: rot_x_s(sin, cos, v.x, v.z), y: v.y, z: rot_z_s(sin, cos, v.x, v.z) }
}

/// Model of `Hittable::hit`: the optional hit and the sampler state left
/// behind.
pub open spec fn hit_s(h: Hittable, r: RayS, tmin: int, tmax: int, s: u64) -> (Option<HitS>, u64)
    decreases h, 2int,
{
    match h {
        Hittable::Sphere(sp) => (sphere_hit_s(sp, r, tmin, tmax), s),
        Hittable::Quad(q) => (quad_hit_s(q, r, tmin, tmax), s),
        Hittable::List(l) => hit_list_s(l.objects@, l.objects@.len() as int, r, tmin, tmax, s),
        Hittable::Bvh(b) => {
            if !box_hit_s(b.bbox@, r, tmin, tmax) {
                (Option::None, s)
            } else {
                let hl = hit_s(*b.left, r, tmin, tmax, s);
                let upper = match hl.0 {
                    Option::Some(hh) => hh.t,
                    Option::None => tmax,
                };
                let hr = hit_s(*b.right, r, tmin, upper, hl.1);
                match hr.0 {
                    Option::Some(hh) => (Option::Some(hh), hr.1),
                    Option::None => (hl.0, hr.1),
                }
            }
        },
        Hittable::Translate(tr) => {
            let moved = RayS { orig: sub_v(r.orig, tr.offset@), dir: r.dir, time: r.time };
            let hi = hit_s(*tr.inner, moved, tmin, tmax, s);
            match hi.0 {
                Option::None => (Option::None, hi.1),
                Option::Some(hh) => (
                    Option::Some(
                        HitS {
                            p: add_v(hh.p, tr.offset@),
                            normal: hh.normal,
                            t: hh.t,
                            u: hh.u,
                            v: hh.v,
                            front: hh.front,
                            mat: hh.mat,
                        },
                    ),
                    hi.1,
                ),
            }
        },
        Hittable::RotateY(ry) => {
            let sin = ry.sin_theta@;
            let cos = ry.cos_theta@;
            let local = RayS {
                orig: rot_to_local_v(sin, cos, r.orig),
                dir: rot_to_local_v(sin, cos, r.dir),
                time: r.time,
            };
            let hi = hit_s(*ry.inner, local, tmin, tmax, s);
            match hi.0 {
                Option::None => (Option::None, hi.1),
                Option::Some(hh) => (
                    Option::Some(
                        HitS {
                            p: rot_to_world_v(sin, cos, hh.p),
                            normal: rot_to_world_v(sin, cos, hh.normal),
                            t: hh.t,
                            u: hh.u,
                            v: hh.v,
                            front: hh.front,
                            mat: hh.mat,
                        },
                    ),
                    hi.1,
                ),
            }
        },
        Hittable::Medium(m) => medium_hit_s(m, r, tmin, tmax, s),
    }
}

/// Model of the medium hit: clamp the boundary's entry and exit to the
/// window, sample an exponential free path, and scatter inside if the path
/// ends there.
pub open spec fn medium_hit_s(m: ConstantMedium, r: RayS, tmin: int, tmax: int, s: u64) -> (
    Option<HitS>,
    u64,
)
    decreases m, 1int,
{
    let h1 = hit_s(*m.boundary, r, i64::MIN as int, i64::MAX as int, s);
    match h1.0 {
        Option::None => (Option::None, h1.1),
        Option::Some(e1) => {
            let h2 = hit_s(*m.boundary, r, fx_add(e1.t, 7), i64::MAX as int, h1.1);
            match h2.0 {
                Option::None => (Option::None, h2.1),
                Option::Some(e2) => {
                    let t1a = imax(e1.t, tmin);
                    let t2 = imin(e2.t, tmax);
                    if t1a >= t2 {
                        (Option::None, h2.1)
                    } else {
                        let t1 = imax(t1a, 0);
                        let rl = len_v(r.dir);
                        let inside = fx_mul(fx_sub(t2, t1), rl);
                        let s1 = step(h2.1);
                        let u = unit_of(s1);
                        let hd = fx_div(fx_neg_ln(u), m.density@);
                        if hd > inside {
                            (Option::None, s1)
                        } else {
                            let t = fx_add(t1, fx_div(hd, rl));
                            (
                                Option::Some(
                                    HitS {
                                        p: at_s(r, t),
                                        normal: V3 { x: 65536, y: 0, z: 0 },
                                        t,
                                        u: 0,
                                        v: 0,
                                        front: true,
                                        mat: *m.phase,
                                    },
                                ),
                                s1,
                            )
                        }
                    }
                },
            }
        },
    }
}

/// The closest-hit fold over the first `n` objects of a list: each child is
/// probed with the window tightened to the best hit so far.
pub open spec fn hit_list_s(
    objs: Seq<Arc<Hittable>>,
    n: int,
    r: RayS,
    tmin: int,
    tmax: int,
    s: u64,
) -> (Option<HitS>, u64)
    decreases objs, n,
{
    if n <= 0 || n > objs.len() {
        (Option::None, s)
    } else {
        let prev = hit_list_s(objs, n - 1, r, tmin, tmax, s);
        let closest = match prev.0 {
            Option::Some(hh) => hh.t,
            Option::None => tmax,
        };
        let cur = hit_s(*objs[n - 1], r, tmin, closest, prev.1);
        match cur.0 {
            Option::Some(hh) => (Option::Some(hh), cur.1),
            Option::None => (prev.0, cur.1),
        }
    }
}

impl Hittable {
    /// The cached bounding box.
    pub fn bounding_box(&self) -> (r: Aabb)
        ensures
            r@ == bbox_s(*self),
    {
        match self {
            Hittable::Sphere(sp) => sp.bbox,
            Hittable::Quad(q) => q.bbox,
            Hittable::List(l) => l.bbox,
            Hittable::Bvh(b) => b.bbox,
            Hittable::Translate(t) => t.bbox,
            Hittable::RotateY(ry) => ry.bbox,
            Hittable::Medium(m) => m.bbox,
        }
    }

    /// Trace a ray against this object inside a parameter window, following
    /// the model `hit_s` exactly, sampler draws included.
    pub fn hit(&self, r: &Ray, ray_t: Interval, rng: &mut Sampler) -> (res: Option<HitRecord>)
        ensures
            opt_hit_view(res) == hit_s(*self, r@, ray_t@.min, ray_t@.max, old(rng).state).0,
            final(rng).state == hit_s(*self, r@, ray_t@.min, ray_t@.max, old(rng).state).1,
        decreases *self, 2int,
    {
        match self {
            Hittable::Sphere(sp) => sp.hit(r, ray_t),
            Hittable::Quad(q) => q.hit(r, ray_t),
            Hittable::List(l) => {
                proof {
                    assert(decreases_to!(*self => self->List_0));
                    assert(self->List_0 == *l);
                }
                list_hit(l, r, ray_t, rng)
            },
            Hittable::Bvh(b) => {
                if !b.bbox.hit(r, ray_t) {
                    return Option::None;
                }
                let hl = b.left.hit(r, ray_t, rng);
                let upper = match &hl {
                    Option::Some(hh) => hh.t,
                    Option::None => ray_t.max,
                };
                let hr = b.right.hit(r, Interval::new(ray_t.min, upper), rng);
                match hr {
                    Option::Some(hh) => Option::Some(hh),
                    Option::None => hl,
                }
            },
            Hittable::Translate(tr) => {
                let moved = Ray {
                    origin: r.origin.sub(tr.offset),
                    direction: r.direction,
                    time: r.time,
                };
                let hi = tr.inner.hit(&moved, ray_t, rng);
                match hi {
                    Option::None => Option::None,
                    Option::Some(hh) => Option::Some(
                        HitRecord {
                            p: hh.p.add(tr.offset),
                            normal: hh.normal,
                            t: hh.t,
                            u: hh.u,
                            v: hh.v,
                            front_face: hh.front_face,
                            mat: hh.mat,
                        },
                    ),
                }
            },
            Hittable::RotateY(ry) => {
                let local = Ray {
                    origin: rot_to_local(ry.sin_theta, ry.cos_theta, r.origin),
                    direction: rot_to_local(ry.sin_theta, ry.cos_theta, r.direction),
                    time: r.time,
                };
                let hi = ry.inner.hit(&local, ray_t, rng);
                match hi {
                    Option::None => Option::None,
                    Option::Some(hh) => Option::Some(
                        HitRecord {
                            p: rot_to_world(ry.sin_theta, ry.cos_theta, hh.p),
                            normal: rot_to_world(ry.sin_theta, ry.cos_theta, hh.normal),
                            t: hh.t,
                            u: hh.u,
                            v: hh.v,
                            front_face: hh.front_face,
                            mat: hh.mat,
                        },
                    ),
                }
            },
            Hittable::Medium(m) => {
                proof {
                    assert(decreases_to!(*self => self->Medium_0));
                    assert(self->Medium_0 == *m);
                }
                medium_hit(m, r, ray_t, rng)
            },
        }
    }
}

/// The closest-hit scan of a list, tightening the window as hits are found.
fn list_hit(l: &HittableList, r: &Ray, ray_t: Interval, rng: &mut Sampler) -> (res: Option<
    HitRecord,
>)
    ensures
        opt_hit_view(res) == hit_list_s(
            l.objects@,
            l.objects@.len() as int,
            r@,
            ray_t@.min,
            ray_t@.max,
            old(rng).state,
        ).0,
        final(rng).state == hit_list_s(
            l.objects@,
            l.objects@.len() as int,
            r@,
            ray_t@.min,
            ray_t@.max,
            old(rng).state,
        ).1,
    decreases *l, 1int,
{
    let ghost s0 = rng.state;
    let mut best: Option<HitRecord> = Option::None;
    let mut i: usize = 0;
    while i < l.objects.len()
        invariant
            i <= l.objects@.len(),
            opt_hit_view(best) == hit_list_s(
                l.objects@,
                i as int,
                r@,
                ray_t@.min,
                ray_t@.max,
                s0,
            ).0,
            rng.state == hit_list_s(l.objects@, i as int, r@, ray_t@.min, ray_t@.max, s0).1,
        decreases l.objects@.len() - i,
    {
        let closest = match &best {
            Option::Some(hr) => hr.t,
            Option::None => ray_t.max,
        };
        proof {
            assert(decreases_to!(*l => l.objects));
            assert(decreases_to!(l.objects => l.objects@));
            assert(decreases_to!(l.objects@ => l.objects@[i as int]));
            assert(decreases_to!(*l => l.objects@[i as int]));
        }
        let cur = l.objects[i].hit(r, Interval::new(ray_t.min, closest), rng);
        if cur.is_some() {
            best = cur;
        }
        i = i + 1;
    }
    best
}

/// The medium hit: find the boundary's entry and exit, then sample a free
/// path inside the segment.
fn medium_hit(m: &ConstantMedium, r: &Ray, ray_t: Interval, rng: &mut Sampler) -> (res: Option<
    HitRecord,
>)
    ensures
        opt_hit_view(res) == medium_hit_s(*m, r@, ray_t@.min, ray_t@.max, old(rng).state).0,
        final(rng).state == medium_hit_s(*m, r@, ray_t@.min, ray_t@.max, old(rng).state).1,
    decreases *m, 1int,
{
    let universe = Interval::universe();
    proof {
        assert(decreases_to!(*m => m.boundary));
    }
    let h1 = match m.boundary.hit(r, universe, rng) {
        Option::None => {
            return Option::None;
        },
        Option::Some(e1) => e1,
    };
    let h2 = match m.boundary.hit(r, Interval::new(h1.t.add(Fx::raw(7)), Fx::top()), rng) {
        Option::None => {
            return Option::None;
        },
        Option::Some(e2) => e2,
    };
    let t1a = h1.t.max(ray_t.min);
    let t2 = h2.t.min(ray_t.max);
    if t1a.ge(t2) {
        return Option::None;
    }
    let t1 = t1a.max(Fx::zero());
    let rl = r.direction.length();
    let inside = t2.sub(t1).mul(rl);
    let u = rng.next_unit();
    let hd = u.neg_ln().div(m.density);
    if hd.gt(inside) {
        return Option::None;
    }
    let t = t1.add(hd.div(rl));
    Option::Some(
        HitRecord {
            p: r.at(t),
            normal: Vec3 { x: Fx::one(), y: Fx::zero(), z: Fx::zero() },
            t,
            u: Fx::zero(),
            v: Fx::zero(),
            front_face: true,
            mat: crate::shared::share(&m.phase),
        },
    )
}

/// A vector rotated from world to object frame.
fn rot_to_local(sin: Fx, cos: Fx, v: Vec3) -> (r: Vec3)
    ensures
        r@ == rot_to_local_v(sin@, cos@, v@),
{
    Vec3 { x: cos.mul(v.x).sub(sin.mul(v.z)), y: v.y, z: sin.mul(v.x).add(cos.mul(v.z)) }
}

/// A vector rotated from object frame back to world.
fn rot_to_world(sin: Fx, cos: Fx, v: Vec3) -> (r: Vec3)
    ensures
        r@ == rot_to_world_v(sin@, cos@, v@),
{
    Vec3 { x: cos.mul(v.x).add(sin.mul(v.z)), y: v.y, z: cos.mul(v.z).sub(sin.mul(v.x)) }
}

} // verus!
