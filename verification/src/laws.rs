//! Global laws of the renderer, stated and proved over the exact models.

use vstd::prelude::*;
use std::sync::Arc;
use crate::camera::Camera;
use crate::camera::DerivedS;
use crate::camera::pixel_color_s;
use crate::camera::ray_color_s;
use crate::camera::render_s;
use crate::camera::sample_sum_s;
use crate::color::channel_byte_s;
use crate::color::pack_color_s;
use crate::fx::fx_sqrt;
use crate::hittable::Hittable;
use crate::hittable::hit_list_s;
use crate::hittable::hit_s;
use crate::hittable::medium_hit_s;
use crate::material::Material;
use crate::material::emitted_s;
use crate::material::scatter_s;
use crate::material::reflectance_s;
use crate::constant_medium::ConstantMedium;
use crate::sphere::Sphere;
use crate::sphere::sphere_hit_s;
use crate::sphere::center_at_s;
use crate::fx::fx_add;
use crate::fx::fx_div;
use crate::fx::fx_mul;
use crate::fx::fx_neg_ln;
use crate::fx::fx_sub;
use crate::fx::iabs;
use crate::fx::isqrt;
use crate::fx::tdiv;
use crate::interval::imax;
use crate::interval::imin;
use crate::rng::step;
use crate::rng::unit_of;
use crate::vec3::dot_v;
use crate::vec3::len_sq_v;
use crate::vec3::len_v;
use crate::vec3::neg_v;
use crate::vec3::refract_v;
use crate::vec3::sub_v;
use crate::vec3::unit_v;
use crate::ray::RayS;
use crate::vec3::V3;
use crate::vec3::Vec3;
use crate::vec3::add_v;
use crate::vec3::hadamard_v;

verus! {

/// The color black.
pub open spec fn black_v() -> V3 {
    V3 { x: 0, y: 0, z: 0 }
}

/// A material that never emits light.
pub open spec fn mat_emits_black(m: Material) -> bool {
    forall|u: int, v: int, p: V3| #[trigger] emitted_s(m, u, v, p) == black_v()
}

/// A scene none of whose materials emit light.
pub open spec fn scene_emits_black(h: Hittable) -> bool
    decreases h,
{
    match h {
        Hittable::Sphere(sp) => mat_emits_black(*sp.mat),
        Hittable::Quad(q) => mat_emits_black(*q.mat),
        Hittable::List(l) => forall|i: int|
            0 <= i < l.objects@.len() ==> scene_emits_black(#[trigger] *l.objects@[i]),
        Hittable::Bvh(b) => scene_emits_black(*b.left) && scene_emits_black(*b.right),
        Hittable::Translate(t) => scene_emits_black(*t.inner),
        Hittable::RotateY(ry) => scene_emits_black(*ry.inner),
        Hittable::Medium(m) => mat_emits_black(*m.phase) && scene_emits_black(*m.boundary),
    }
}

/// Every material an object can hand back in a hit is light-free.
pub open spec fn hit_results_black(h: Hittable) -> bool {
    forall|r: RayS, tmin: int, tmax: int, s: u64|
        (#[trigger] hit_s(h, r, tmin, tmax, s)).0 matches Option::Some(rec) ==> mat_emits_black(
            rec.mat,
        )
}

/// Every material a list scan can hand back is light-free.
pub open spec fn list_results_black(objs: Seq<Arc<Hittable>>) -> bool {
    forall|n: int, r: RayS, tmin: int, tmax: int, s: u64|
        (#[trigger] hit_list_s(objs, n, r, tmin, tmax, s)).0 matches Option::Some(rec)
            ==> mat_emits_black(rec.mat)
}

/// Rendering is a pure function of the camera, the scene and the seed: two
/// renders with the same seed are byte-identical.
pub proof fn lemma_render_deterministic(
    c: Camera,
    world: Hittable,
    seed: u64,
    b1: Seq<u32>,
    b2: Seq<u32>,
)
    requires
        b1 == render_s(c, world, seed),
        b2 == render_s(c, world, seed),
    ensures
        b1 == b2,
{
}

/// Any hit a light-free scene reports carries a light-free material,
/// whatever the ray, the window and the sampler state.
pub proof fn lemma_hit_black(h: &Hittable)
    requires
        scene_emits_black(*h),
    ensures
        hit_results_black(*h),
    decreases *h, 2int,
{
    match h {
        Hittable::Sphere(_) => {
            lemma_hit_black_primitive(h);
        },
        Hittable::Quad(_) => {
            lemma_hit_black_primitive(h);
        },
        Hittable::List(l) => {
            assert forall|i: int| 0 <= i < l.objects@.len() implies hit_results_black(
                #[trigger] *l.objects@[i],
            ) by {
                let ghost o = l.objects@[i];
                assert(decreases_to!(*h => h->List_0));
                assert(h->List_0 == *l);
                assert(decreases_to!(*l => l.objects));
                assert(decreases_to!(l.objects => l.objects@));
                assert(decreases_to!(l.objects@ => l.objects@[i]));
                assert(decreases_to!(*h => l.objects@[i]));
                lemma_hit_black(&*o);
            }
            lemma_list_black(l.objects@);
            lemma_hit_black_list(h);
        },
        Hittable::Bvh(b) => {
            lemma_hit_black(&*b.left);
            lemma_hit_black(&*b.right);
            lemma_hit_black_bvh(h);
        },
        Hittable::Translate(tr) => {
            lemma_hit_black(&*tr.inner);
            lemma_hit_black_wrapped(h);
        },
        Hittable::RotateY(ry) => {
            lemma_hit_black(&*ry.inner);
            lemma_hit_black_wrapped(h);
        },
        Hittable::Medium(_) => {
            lemma_hit_black_medium(h);
        },
    }
}

/// The affine wrapper cases: the hit's material is the inner hit's.
proof fn lemma_hit_black_wrapped(h: &Hittable)
    requires
        (*h matches Hittable::Translate(t) && hit_results_black(*t.inner)) || (*h
            matches Hittable::RotateY(ry) && hit_results_black(*ry.inner)),
    ensures
        hit_results_black(*h),
{
    assert forall|r: RayS, tmin: int, tmax: int, s: u64|
        ((#[trigger] hit_s(*h, r, tmin, tmax, s)).0 matches Option::Some(rec)
            ==> mat_emits_black(rec.mat)) by {
        match h {
            Hittable::Translate(tr) => {
                assert(({
                    let moved = RayS {
                        orig: crate::vec3::sub_v(r.orig, tr.offset@),
                        dir: r.dir,
                        time: r.time,
                    };
                    hit_s(*tr.inner, moved, tmin, tmax, s).0 matches Option::Some(rec)
                        ==> mat_emits_black(rec.mat)
                }));
            },
            Hittable::RotateY(ry) => {
                assert(({
                    let local = RayS {
                        orig: crate::hittable::rot_to_local_v(ry.sin_theta@, ry.cos_theta@, r.orig),
                        dir: crate::hittable::rot_to_local_v(ry.sin_theta@, ry.cos_theta@, r.dir),
                        time: r.time,
                    };
                    hit_s(*ry.inner, local, tmin, tmax, s).0 matches Option::Some(rec)
                        ==> mat_emits_black(rec.mat)
                }));
            },
            _ => {},
        }
    }
}

/// The primitive cases: the hit carries the shape's own material.
proof fn lemma_hit_black_primitive(h: &Hittable)
    requires
        (*h matches Hittable::Sphere(sp) && mat_emits_black(*sp.mat)) || (*h
            matches Hittable::Quad(q) && mat_emits_black(*q.mat)),
    ensures
        hit_results_black(*h),
{
    assert forall|r: RayS, tmin: int, tmax: int, s: u64|
        ((#[trigger] hit_s(*h, r, tmin, tmax, s)).0 matches Option::Some(rec)
            ==> mat_emits_black(rec.mat)) by {
        match h {
            Hittable::Sphere(sp) => {
                assert(hit_s(*h, r, tmin, tmax, s).0 matches Option::Some(rec) ==> rec.mat
                    == *sp.mat);
            },
            Hittable::Quad(q) => {
                assert(hit_s(*h, r, tmin, tmax, s).0 matches Option::Some(rec) ==> rec.mat
                    == *q.mat);
            },
            _ => {},
        }
    }
}

/// The list case: delegate to the scan property.
proof fn lemma_hit_black_list(h: &Hittable)
    requires
        *h matches Hittable::List(l) && list_results_black(l.objects@),
    ensures
        hit_results_black(*h),
{
    assert forall|r: RayS, tmin: int, tmax: int, s: u64|
        ((#[trigger] hit_s(*h, r, tmin, tmax, s)).0 matches Option::Some(rec)
            ==> mat_emits_black(rec.mat)) by {
        match h {
            Hittable::List(l) => {
                assert(hit_s(*h, r, tmin, tmax, s) == hit_list_s(
                    l.objects@,
                    l.objects@.len() as int,
                    r,
                    tmin,
                    tmax,
                    s,
                ));
            },
            _ => {},
        }
    }
}

/// The tree case: the hit comes from one of the children.
proof fn lemma_hit_black_bvh(h: &Hittable)
    requires
        *h matches Hittable::Bvh(b) && hit_results_black(*b.left) && hit_results_black(*b.right),
    ensures
        hit_results_black(*h),
{
    assert forall|r: RayS, tmin: int, tmax: int, s: u64|
        ((#[trigger] hit_s(*h, r, tmin, tmax, s)).0 matches Option::Some(rec)
            ==> mat_emits_black(rec.mat)) by {
        match h {
            Hittable::Bvh(b) => {
                if crate::aabb::box_hit_s(b.bbox@, r, tmin, tmax) {
                    assert((hit_s(*b.left, r, tmin, tmax, s)).0 matches Option::Some(rec)
                        ==> mat_emits_black(rec.mat));
                    assert(({
                        let hl = hit_s(*b.left, r, tmin, tmax, s);
                        let upper = match hl.0 {
                            Option::Some(hh) => hh.t,
                            Option::None => tmax,
                        };
                        hit_s(*b.right, r, tmin, upper, hl.1).0 matches Option::Some(rec)
                            ==> mat_emits_black(rec.mat)
                    }));
                }
            },
            _ => {},
        }
    }
}

/// The medium case: the hit carries the phase material.
proof fn lemma_hit_black_medium(h: &Hittable)
    requires
        *h matches Hittable::Medium(m) && mat_emits_black(*m.phase),
    ensures
        hit_results_black(*h),
{
    assert forall|r: RayS, tmin: int, tmax: int, s: u64|
        ((#[trigger] hit_s(*h, r, tmin, tmax, s)).0 matches Option::Some(rec)
            ==> mat_emits_black(rec.mat)) by {
        match h {
            Hittable::Medium(m) => {
                assert(hit_s(*h, r, tmin, tmax, s) == medium_hit_s(*m, r, tmin, tmax, s));
                assert(medium_hit_s(*m, r, tmin, tmax, s).0 matches Option::Some(rec) ==> rec.mat
                    == *m.phase);
            },
            _ => {},
        }
    }
}

/// The list scan only hands back materials of its children.
proof fn lemma_list_black(objs: Seq<Arc<Hittable>>)
    requires
        forall|i: int| 0 <= i < objs.len() ==> hit_results_black(#[trigger] *objs[i]),
    ensures
        list_results_black(objs),
{
    assert forall|n: int, r: RayS, tmin: int, tmax: int, s: u64|
        ((#[trigger] hit_list_s(objs, n, r, tmin, tmax, s)).0 matches Option::Some(rec)
            ==> mat_emits_black(rec.mat)) by {
        lemma_list_black_at(objs, n, r, tmin, tmax, s);
    }
}

/// One instance of the list scan property, by induction on the prefix.
proof fn lemma_list_black_at(
    objs: Seq<Arc<Hittable>>,
    n: int,
    r: RayS,
    tmin: int,
    tmax: int,
    s: u64,
)
    requires
        forall|i: int| 0 <= i < objs.len() ==> hit_results_black(#[trigger] *objs[i]),
    ensures
        hit_list_s(objs, n, r, tmin, tmax, s).0 matches Option::Some(rec) ==> mat_emits_black(
            rec.mat,
        ),
    decreases n,
{
    if n <= 0 || n > objs.len() {
    } else {
        lemma_list_black_at(objs, n - 1, r, tmin, tmax, s);
        assert(({
            let prev = hit_list_s(objs, n - 1, r, tmin, tmax, s);
            let closest = match prev.0 {
                Option::Some(hh) => hh.t,
                Option::None => tmax,
            };
            hit_s(*objs[n - 1], r, tmin, closest, prev.1).0 matches Option::Some(rec)
                ==> mat_emits_black(rec.mat)
        }));
    }
}

/// In a scene with no emitters and a black background, every traced ray
/// comes back black: there is no light to transport.
#[verifier::rlimit(100)]
pub proof fn lemma_ray_color_black(r: RayS, world: Hittable, depth: nat, bg: Option<Vec3>, s: u64)
    requires
        scene_emits_black(world),
        bg matches Option::Some(c) && c@ == black_v(),
    ensures
        ray_color_s(r, world, depth, bg, s).0 == black_v(),
    decreases depth,
{
    if depth == 0 {
    } else {
        let h = hit_s(world, r, 66, i64::MAX as int, s);
        lemma_hit_black(&world);
        match h.0 {
            Option::None => {},
            Option::Some(rec) => {
                let sc = scatter_s(rec.mat, r, rec, h.1);
                assert(emitted_s(rec.mat, rec.u, rec.v, rec.p) == black_v());
                match sc.0 {
                    Option::None => {},
                    Option::Some(pair) => {
                        lemma_ray_color_black(pair.1, world, (depth - 1) as nat, bg, sc.1);
                        assert(add_v(black_v(), hadamard_v(pair.0, black_v())) == black_v());
                    },
                }
            },
        }
    }
}

/// The sample sum of a light-free render is black.
proof fn lemma_sample_sum_black(
    d: DerivedS,
    world: Hittable,
    depth: nat,
    bg: Option<Vec3>,
    x: int,
    y: int,
    s: u64,
    k: nat,
)
    requires
        scene_emits_black(world),
        bg matches Option::Some(c) && c@ == black_v(),
    ensures
        sample_sum_s(d, world, depth, bg, x, y, s, k).0 == black_v(),
    decreases k,
{
    if k == 0 {
    } else {
        lemma_sample_sum_black(d, world, depth, bg, x, y, s, (k - 1) as nat);
        let prev = sample_sum_s(d, world, depth, bg, x, y, s, (k - 1) as nat);
        let ray = crate::camera::get_ray_s(d, x, y, prev.1);
        lemma_ray_color_black(ray.0, world, depth, bg, ray.1);
    }
}

/// In a scene with no emitters and a black background, the rendered image
/// is all black pixels.
#[verifier::rlimit(100)]
pub proof fn lemma_render_black(c: Camera, world: Hittable, seed: u64)
    requires
        scene_emits_black(world),
        c.background matches Option::Some(col) && col@ == black_v(),
    ensures
        forall|k: int|
            0 <= k < render_s(c, world, seed).len() ==> #[trigger] render_s(c, world, seed)[k]
                == 0u32,
{
    let w = c.image_width as int;
    let h = crate::camera::height_s(w, c.aspect_ratio@);
    let d = crate::camera::derive_s(c, h);
    assert forall|k: int| 0 <= k < render_s(c, world, seed).len() implies #[trigger] render_s(
        c,
        world,
        seed,
    )[k] == 0u32 by {
        let x = k % w;
        let y = k / w;
        lemma_sample_sum_black(
            d,
            world,
            c.max_depth as nat,
            c.background,
            x,
            y,
            crate::camera::pixel_seed_s(seed, x, y),
            c.samples_per_pixel as nat,
        );
        assert(pixel_color_s(c, d, world, seed, x, y) == black_v());
        assert(fx_sqrt(0) == 0);
        assert(channel_byte_s(0) == 0);
        assert(pack_color_s(black_v()) == 0u32);
    }
}

/// The boundary probe that opens a medium traversal.
spec fn medium_entry(m: ConstantMedium, r: RayS, s: u64) -> (Option<crate::hit_record::HitS>, u64) {
    hit_s(*m.boundary, r, i64::MIN as int, i64::MAX as int, s)
}

/// The boundary probe that closes a medium traversal, just past the entry.
spec fn medium_exit(m: ConstantMedium, r: RayS, s: u64, entry_t: int, s1: u64) -> (
    Option<crate::hit_record::HitS>,
    u64,
) {
    hit_s(*m.boundary, r, fx_add(entry_t, 7), i64::MAX as int, s1)
}

/// A medium of density zero never scatters: the sampled free path is
/// infinite, so every ray passes through. The guard on the window and the
/// ray keeps the inside-segment length below the saturation point, where
/// the comparison against an infinite path would degenerate.
pub proof fn lemma_medium_zero_density(m: ConstantMedium, r: RayS, tmin: int, tmax: int, s: u64)
    requires
        m.density@ == 0,
        0 <= tmax < 0x8000_0000,
        0 <= len_v(r.dir) < 0x8000_0000,
    ensures
        medium_hit_s(m, r, tmin, tmax, s).0 is None,
{
    let h1 = medium_entry(m, r, s);
    match h1.0 {
        Option::None => {},
        Option::Some(e1) => {
            let h2 = medium_exit(m, r, s, e1.t, h1.1);
            match h2.0 {
                Option::None => {},
                Option::Some(e2) => {
                    let t1a = imax(e1.t, tmin);
                    let t2 = imin(e2.t, tmax);
                    if t1a >= t2 {
                    } else {
                        let t1 = imax(t1a, 0);
                        let rl = len_v(r.dir);
                        let diff = fx_sub(t2, t1);
                        let inside = fx_mul(diff, rl);
                        if diff <= 0 {
                            assert(diff * rl <= 0) by (nonlinear_arith)
                                requires
                                    diff <= 0,
                                    rl >= 0,
                            ;
                            lemma_tdiv_nonpos(diff * rl, 65536);
                            assert(inside <= 0);
                        } else {
                            assert(diff <= t2 - t1);
                            assert(0 < diff < 0x8000_0000);
                            assert(0 <= diff * rl < 0x4000_0000_0000_0000) by (nonlinear_arith)
                                requires
                                    0 <= diff < 0x8000_0000,
                                    0 <= rl < 0x8000_0000,
                            ;
                            assert(tdiv(diff * rl, 65536) == (diff * rl) / 65536);
                            vstd::arithmetic::div_mod::lemma_div_is_ordered(
                                diff * rl,
                                0x4000_0000_0000_0000,
                                65536,
                            );
                            vstd::arithmetic::div_mod::lemma_div_pos_is_pos(diff * rl, 65536);
                        }
                        assert(inside < i64::MAX);
                        crate::fx::lemma_neg_ln_props(unit_of(step(h2.1)));
                        assert(fx_div(fx_neg_ln(unit_of(step(h2.1))), 0) == i64::MAX as int);
                    }
                },
            }
        },
    }
}

/// At saturated density the free path is zero: whenever the boundary yields
/// a real inside segment and the draw is nonzero, the medium scatters
/// exactly at the clamped entry point.
#[verifier::rlimit(100)]
pub proof fn lemma_medium_saturated_density(
    m: ConstantMedium,
    r: RayS,
    tmin: int,
    tmax: int,
    s: u64,
)
    requires
        m.density@ == i64::MAX,
        len_v(r.dir) > 0,
        tmax <= i64::MAX,
    ensures
        ({
            let h1 = hit_s(*m.boundary, r, i64::MIN as int, i64::MAX as int, s);
            h1.0 matches Option::Some(e1) ==> ({
                let h2 = hit_s(*m.boundary, r, fx_add(e1.t, 7), i64::MAX as int, h1.1);
                h2.0 matches Option::Some(e2) ==> ({
                    let t1a = imax(e1.t, tmin);
                    let t2 = imin(e2.t, tmax);
                    (t1a < t2 && imax(t1a, 0) < t2 && unit_of(step(h2.1)) != 0) ==> (medium_hit_s(
                        m,
                        r,
                        tmin,
                        tmax,
                        s,
                    ).0 matches Option::Some(rec) && rec.t == imax(t1a, 0))
                })
            })
        }),
{
    let h1 = medium_entry(m, r, s);
    match h1.0 {
        Option::None => {},
        Option::Some(e1) => {
            let h2 = medium_exit(m, r, s, e1.t, h1.1);
            match h2.0 {
                Option::None => {},
                Option::Some(e2) => {
                    let t1a = imax(e1.t, tmin);
                    let t2 = imin(e2.t, tmax);
                    let u = unit_of(step(h2.1));
                    if t1a < t2 && imax(t1a, 0) < t2 && u != 0 {
                        let t1 = imax(t1a, 0);
                        let rl = len_v(r.dir);
                        crate::fx::lemma_neg_ln_props(u);
                        let nl = fx_neg_ln(u);
                        assert(0 <= nl * 65536 < 0x100_0000_0000) by (nonlinear_arith)
                            requires
                                0 <= nl < 0x10_0000,
                        ;
                        assert(tdiv(nl * 65536, i64::MAX as int) == (nl * 65536) / (
                        i64::MAX as int));
                        vstd::arithmetic::div_mod::lemma_basic_div(nl * 65536, i64::MAX as int);
                        let hd = fx_div(nl, m.density@);
                        assert(hd == 0);
                        let diff = fx_sub(t2, t1);
                        assert(diff > 0);
                        let inside = fx_mul(diff, rl);
                        assert(0 < diff * rl) by (nonlinear_arith)
                            requires
                                0 < diff,
                                0 < rl,
                        ;
                        assert(tdiv(diff * rl, 65536) == (diff * rl) / 65536);
                        vstd::arithmetic::div_mod::lemma_div_pos_is_pos(diff * rl, 65536);
                        assert(inside >= 0);
                        assert(fx_div(0, rl) == 0) by {
                            assert(tdiv(0, rl) == 0) by {
                                vstd::arithmetic::div_mod::lemma_div_of0(rl);
                            }
                        }
                        assert(fx_add(t1, 0) == t1);
                    }
                },
            }
        },
    }
}

/// A dielectric of unit refraction index never suffers total internal
/// reflection, and whenever the reflectance draw lets it refract, the
/// scattered ray is exactly the refraction of the incident unit direction
/// at the surface normal with ratio one.
pub proof fn lemma_dielectric_unit_index(m: Material, r: RayS, rec: crate::hit_record::HitS, s: u64)
    requires
        m matches Material::Dielectric(d) && d.refraction_index@ == 65536,
        rec.front,
    ensures
        scatter_s(m, r, rec, s).0 is Some,
        ({
            let ud = unit_v(r.dir);
            let cos = imin(dot_v(neg_v(ud), rec.normal), 65536);
            let sin = fx_sqrt(fx_sub(65536, fx_mul(cos, cos)));
            &&& fx_mul(fx_div(65536, 65536), sin) <= 65536
            &&& (reflectance_s(cos, fx_div(65536, 65536)) <= unit_of(step(s))
                ==> (scatter_s(m, r, rec, s).0 matches Option::Some(pair) && pair.1.dir
                == refract_v(ud, rec.normal, 65536)))
        }),
{
    vstd::arithmetic::div_mod::lemma_div_by_multiple(65536, 65536);
    assert(fx_div(65536, 65536) == 65536);
    let ud = unit_v(r.dir);
    let cos = imin(dot_v(neg_v(ud), rec.normal), 65536);
    let cc = fx_mul(cos, cos);
    assert(cc >= 0) by {
        assert(tdiv(cos * cos, 65536) >= 0) by {
            assert(cos * cos >= 0) by (nonlinear_arith);
            vstd::arithmetic::div_mod::lemma_div_pos_is_pos(cos * cos, 65536);
        }
    }
    let arg = fx_sub(65536, cc);
    assert(arg <= 65536);
    let sin = fx_sqrt(arg);
    if arg <= 0 {
        assert(sin == 0);
    } else {
        assert(arg * 65536 <= 65536int * 65536) by (nonlinear_arith)
            requires
                arg <= 65536,
        ;
        crate::fx::lemma_isqrt_monotone(arg * 65536, 65536int * 65536);
        crate::fx::lemma_isqrt_square(65536);
        crate::fx::lemma_isqrt_exists(arg * 65536);
        assert(isqrt(65536int * 65536) == 65536);
        assert(0 <= sin <= 65536);
    }
    crate::fx::lemma_fx_mul_one(sin);
    assert(fx_mul(65536, sin) == fx_mul(sin, 65536)) by {
        assert(65536 * sin == sin * 65536) by (nonlinear_arith);
    }
}

/// A ray that starts outside a sphere and points away from its center
/// misses it: both quadratic roots are nonpositive, and the search window
/// begins at a nonnegative parameter. The magnitude bound keeps the
/// discriminant computation out of saturation.
pub proof fn lemma_sphere_miss_pointed_away(sp: Sphere, r: RayS, tmin: int, tmax: int)
    requires
        ({
            let oc = sub_v(center_at_s(sp, r.time), r.orig);
            &&& dot_v(r.dir, oc) < 0
            &&& iabs(dot_v(r.dir, oc)) < 0x80_0000_0000
            &&& fx_sub(len_sq_v(oc), fx_mul(sp.radius@, sp.radius@)) > 0
        }),
        tmin >= 0,
        tmax <= i64::MAX,
    ensures
        sphere_hit_s(sp, r, tmin, tmax) is None,
{
    let cc = center_at_s(sp, r.time);
    let oc = sub_v(cc, r.orig);
    let a = len_sq_v(r.dir);
    let h = dot_v(r.dir, oc);
    let c = fx_sub(len_sq_v(oc), fx_mul(sp.radius@, sp.radius@));
    lemma_len_sq_nonneg(r.dir);
    let ac = fx_mul(a, c);
    assert(ac >= 0) by {
        assert(a * c >= 0) by (nonlinear_arith)
            requires
                a >= 0,
                c >= 0,
        ;
        vstd::arithmetic::div_mod::lemma_div_pos_is_pos(a * c, 65536);
    }
    let hh = fx_mul(h, h);
    assert(0 <= h * h < 0x4000_0000_0000_0000_0000) by (nonlinear_arith)
        requires
            iabs(h) < 0x80_0000_0000,
    ;
    vstd::arithmetic::div_mod::lemma_div_pos_is_pos(h * h, 65536);
    vstd::arithmetic::div_mod::lemma_div_is_ordered(
        h * h,
        0x4000_0000_0000_0000_0000,
        65536,
    );
    assert(hh == (h * h) / 65536);
    let disc = fx_sub(hh, ac);
    if disc < 0 {
    } else {
        assert(disc <= hh);
        let sq = fx_sqrt(disc);
        if disc == 0 {
            assert(sq == 0);
        } else {
            crate::fx::lemma_isqrt_exists(disc * 65536);
            assert(sq >= 0);
            assert(disc * 65536 <= hh * 65536) by (nonlinear_arith)
                requires
                    disc <= hh,
            ;
            assert(hh * 65536 <= h * h) by {
                vstd::arithmetic::div_mod::lemma_fundamental_div_mod(h * h, 65536);
                vstd::arithmetic::div_mod::lemma_mod_bound(h * h, 65536);
                assert(h * h == 65536 * ((h * h) / 65536) + (h * h) % 65536);
                assert(hh * 65536 == 65536 * hh) by (nonlinear_arith);
            }
            crate::fx::lemma_isqrt_monotone(disc * 65536, h * h);
            assert(isqrt(h * h) == iabs(h)) by {
                assert(h * h == iabs(h) * iabs(h)) by (nonlinear_arith);
                crate::fx::lemma_isqrt_square(iabs(h));
            }
            assert(sq <= iabs(h));
        }
        assert(sq >= 0);
        assert(h + sq <= 0);
        let root1n = fx_sub(h, sq);
        let root2n = fx_add(h, sq);
        assert(root1n <= 0 && root2n <= 0);
        lemma_div_nonpos(root1n, a);
        lemma_div_nonpos(root2n, a);
    }
}

/// Truncated division of a nonpositive value by a positive one stays
/// nonpositive.
proof fn lemma_tdiv_nonpos(p: int, d: int)
    requires
        p <= 0,
        d > 0,
    ensures
        tdiv(p, d) <= 0,
{
    if p == 0 {
        vstd::arithmetic::div_mod::lemma_div_of0(d);
    } else {
        vstd::arithmetic::div_mod::lemma_div_pos_is_pos(iabs(p), iabs(d));
    }
}

/// The squared length of any vector is nonnegative.
proof fn lemma_len_sq_nonneg(v: crate::vec3::V3)
    ensures
        len_sq_v(v) >= 0,
{
    assert(v.x * v.x >= 0) by (nonlinear_arith);
    assert(v.y * v.y >= 0) by (nonlinear_arith);
    assert(v.z * v.z >= 0) by (nonlinear_arith);
    vstd::arithmetic::div_mod::lemma_div_pos_is_pos(v.x * v.x, 65536);
    vstd::arithmetic::div_mod::lemma_div_pos_is_pos(v.y * v.y, 65536);
    vstd::arithmetic::div_mod::lemma_div_pos_is_pos(v.z * v.z, 65536);
}

/// Dividing a nonpositive mantissa by a nonnegative one either stays
/// nonpositive or, for the zero-by-zero corner, saturates to the top of the
/// range, past every finite window.
proof fn lemma_div_nonpos(x: int, d: int)
    requires
        x <= 0,
        d >= 0,
    ensures
        fx_div(x, d) <= 0 || fx_div(x, d) == i64::MAX as int,
{
    if d == 0 {
    } else {
        if x == 0 {
            vstd::arithmetic::div_mod::lemma_div_of0(d);
        } else {
            assert(x * 65536 < 0) by (nonlinear_arith)
                requires
                    x < 0,
            ;
            assert(iabs(x * 65536) / iabs(d) >= 0) by {
                vstd::arithmetic::div_mod::lemma_div_pos_is_pos(iabs(x * 65536), iabs(d));
            }
        }
    }
}

} // verus!
