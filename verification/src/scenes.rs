//! The demonstration scenes: each builder assembles a world and a camera
//! from plain parameters and hands them back for rendering; writing or
//! showing the finished image is the caller's business.
//!
//! Angles reach the camera and the rotations as tangents, sines and cosines
//! on the fixed-point grid, precomputed for the angles these scenes use.

use vstd::prelude::*;
use std::sync::Arc;
use crate::fx::fx_div;
use crate::fx::fx_of_whole;
use crate::material::Material;
use crate::quad::quad_shape_s;
use crate::texture::Texture as TextureKind;
use crate::bvh_node::seq_set;
use crate::bvh_node::tree_set;
use crate::vec3::V3;
use crate::affine_transforms::RotateY;
use crate::affine_transforms::Translate;
use crate::bvh_node::BvhNode;
use crate::camera::Camera;
use crate::constant_medium::ConstantMedium;
use crate::fx::Fx;
use crate::hittable::Hittable;
use crate::hittable_list::HittableList;
use crate::image_texture::ImageData;
use crate::image_texture::ImageTexture;
use crate::material::Dielectric;
use crate::material::DiffuseLight;
use crate::material::Lambertian;
use crate::material::Metal;
use crate::noise_texture::NoiseTexture;
use crate::quad::Quad;
use crate::quad::quad_box;
use crate::rng::Sampler;
use crate::shared::share;
use crate::sphere::Sphere;
use crate::texture::Texture;
use crate::checker_texture::CheckerTexture;
use crate::vec3::Vec3;

verus! {

/// The tangent of half of twenty degrees, on the mantissa grid.
pub const TAN_HALF_20: i64 = 11556;

/// The tangent of half of forty degrees.
pub const TAN_HALF_40: i64 = 23858;

/// The tangent of half of eighty degrees.
pub const TAN_HALF_80: i64 = 54995;

/// The tangent of half of the six-tenths-degree defocus cone.
pub const TAN_HALF_DEFOCUS: i64 = 343;

/// Sine and cosine of fifteen degrees.
pub const SIN_15: i64 = 16962;

/// Cosine of fifteen degrees.
pub const COS_15: i64 = 63303;

/// Sine of minus eighteen degrees.
pub const SIN_NEG_18: i64 = -20253;

/// Cosine of minus eighteen degrees.
pub const COS_NEG_18: i64 = 62332;

/// A point or color of three whole numbers, on the mantissa grid.
pub open spec fn whole3(x: int, y: int, z: int) -> V3 {
    V3 { x: fx_of_whole(x), y: fx_of_whole(y), z: fx_of_whole(z) }
}

/// The mantissa of the ratio `num / den`.
pub open spec fn ratio_s(num: int, den: int) -> int {
    fx_div(fx_of_whole(num), fx_of_whole(den))
}

/// A still sphere of the given center and radius.
pub open spec fn static_sphere_s(h: Hittable, center: V3, radius: int) -> bool {
    h matches Hittable::Sphere(s) && s.center0@ == center && s.center_vec@ == (V3 {
        x: 0,
        y: 0,
        z: 0,
    }) && s.radius@ == radius
}

/// A sphere sweeping along `motion` over the exposure.
pub open spec fn moving_sphere_s(h: Hittable, center: V3, motion: V3, radius: int) -> bool {
    h matches Hittable::Sphere(s) && s.center0@ == center && s.center_vec@ == motion
        && s.radius@ == radius
}

/// The material a sphere answers with.
pub open spec fn sphere_mat_s(h: Hittable) -> Material
    recommends
        h matches Hittable::Sphere(_),
{
    *h->Sphere_0.mat
}

/// The material a quad answers with.
pub open spec fn quad_mat_s(h: Hittable) -> Material
    recommends
        h matches Hittable::Quad(_),
{
    *h->Quad_0.mat
}

/// The texture behind a diffuse material.
pub open spec fn lambertian_albedo_s(m: Material) -> TextureKind
    recommends
        m matches Material::Lambertian(_),
{
    *m->Lambertian_0.albedo
}

/// A texture of one constant color.
pub open spec fn solid_s(t: TextureKind, c: V3) -> bool {
    t matches TextureKind::Solid(st) && st.color@ == c
}

/// A diffuse material of one constant color.
pub open spec fn lambertian_solid_s(m: Material, c: V3) -> bool {
    m matches Material::Lambertian(l) && solid_s(*l.albedo, c)
}

/// A diffuse material over a marble texture of the given band scale.
pub open spec fn lambertian_noise_s(m: Material, scale: int) -> bool {
    m matches Material::Lambertian(l) && (*l.albedo matches TextureKind::Noise(n) && n.scale@
        == scale)
}

/// A light of one constant color.
pub open spec fn light_solid_s(m: Material, c: V3) -> bool {
    m matches Material::DiffuseLight(d) && solid_s(*d.emit, c)
}

/// A fuzzy mirror of the given color and fuzz.
pub open spec fn metal_s(m: Material, c: V3, fuzz: int) -> bool {
    m matches Material::Metal(mm) && mm.albedo@ == c && mm.fuzz@ == fuzz
}

/// A refractive material of the given index.
pub open spec fn dielectric_s(m: Material, index: int) -> bool {
    m matches Material::Dielectric(d) && d.refraction_index@ == index
}

/// A parallelogram with a constant-color diffuse surface.
pub open spec fn colored_quad_s(h: Hittable, q: V3, u: V3, v: V3, c: V3) -> bool {
    quad_shape_s(h, q, u, v) && lambertian_solid_s(quad_mat_s(h), c)
}

/// A parallelogram that only emits, at a constant color.
pub open spec fn lit_quad_s(h: Hittable, q: V3, u: V3, v: V3, c: V3) -> bool {
    quad_shape_s(h, q, u, v) && light_solid_s(quad_mat_s(h), c)
}

/// The Cornell white.
pub open spec fn cornell_white_s() -> V3 {
    V3 { x: ratio_s(73, 100), y: ratio_s(73, 100), z: ratio_s(73, 100) }
}

/// The fixed frame of the wide-angle sixteen-by-nine camera: everything but
/// the eye position, the aim and the aperture, which the scenes vary.
pub open spec fn outdoor_frame_s(c: Camera) -> bool {
    &&& c.aspect_ratio@ == ratio_s(16, 9)
    &&& c.tan_half_vfov@ == TAN_HALF_20 as int
    &&& c.v_up@ == whole3(0, 1, 0)
    &&& c.focus_dist@ == fx_of_whole(10)
}

/// The fixed frame of the square cameras: unit aspect, a given field of
/// view, no aperture.
pub open spec fn square_frame_s(c: Camera, vfov_tan: int) -> bool {
    &&& c.aspect_ratio@ == 65536
    &&& c.tan_half_vfov@ == vfov_tan
    &&& c.v_up@ == whole3(0, 1, 0)
    &&& c.focus_dist@ == fx_of_whole(10)
    &&& c.tan_half_defocus@ == 0
}

/// The sampling budget of a camera, as handed in by the caller.
pub open spec fn sampling_s(c: Camera, width: int, samples: int, depth: int) -> bool {
    &&& c.image_width == width
    &&& c.samples_per_pixel == samples
    &&& c.max_depth == depth
}

/// A black constant background.
pub open spec fn black_background_s(c: Camera) -> bool {
    c.background matches Option::Some(b) && b@ == (V3 { x: 0, y: 0, z: 0 })
}

/// The six Cornell walls: green right, red left, the area light, and the
/// three white faces, in insertion order.
pub open spec fn cornell_walls_s(objs: Seq<Arc<Hittable>>, lc: V3, lq: V3, lu: V3, lv: V3) -> bool {
    &&& objs.len() >= 6
    &&& colored_quad_s(*objs[0], whole3(555, 0, 0), whole3(0, 555, 0), whole3(0, 0, 555), V3 {
        x: ratio_s(3, 25),
        y: ratio_s(9, 20),
        z: ratio_s(3, 20),
    })
    &&& colored_quad_s(*objs[1], whole3(0, 0, 0), whole3(0, 555, 0), whole3(0, 0, 555), V3 {
        x: ratio_s(13, 20),
        y: ratio_s(1, 20),
        z: ratio_s(1, 20),
    })
    &&& lit_quad_s(*objs[2], lq, lu, lv, lc)
    &&& colored_quad_s(*objs[3], whole3(0, 0, 0), whole3(555, 0, 0), whole3(0, 0, 555), cornell_white_s())
    &&& colored_quad_s(*objs[4], whole3(555, 555, 555), whole3(-555, 0, 0), whole3(0, 0, -555), cornell_white_s())
    &&& colored_quad_s(*objs[5], whole3(0, 0, 555), whole3(555, 0, 0), whole3(0, 555, 0), cornell_white_s())
}

/// One of the two Cornell blocks: a white quad box of the given size,
/// rotated about the y axis and then shifted.
pub open spec fn rotated_block_s(h: Hittable, size: V3, sin: int, cos: int, offset: V3) -> bool {
    &&& h matches Hittable::Translate(t) && t.offset@ == offset && (*t.inner
        matches Hittable::RotateY(ry) && ry.sin_theta@ == sin && ry.cos_theta@ == cos
        && crate::quad::quad_box_s(*ry.inner, V3 { x: 0, y: 0, z: 0 }, size) && (*ry.inner
        matches Hittable::List(bl) && forall|n: int|
        0 <= n < bl.objects@.len() ==> lambertian_solid_s(
            quad_mat_s(#[trigger] *bl.objects@[n]),
            cornell_white_s(),
        )))
}

/// The wide-angle sixteen-by-nine camera the outdoor scenes share.
fn outdoor_camera(width: usize, samples: usize, depth: u32) -> (r: Camera)
    ensures
        sampling_s(r, width as int, samples as int, depth as int),
        outdoor_frame_s(r),
        r.background is None,
        r.look_from@ == whole3(13, 2, 3),
        r.look_at@ == whole3(0, 0, 0),
        r.tan_half_defocus@ == 0,
{
    let mut cam = Camera::new();
    cam.aspect_ratio = Fx::ratio(16, 9);
    cam.image_width = width;
    cam.samples_per_pixel = samples;
    cam.max_depth = depth;
    cam.tan_half_vfov = Fx::raw(TAN_HALF_20);
    cam.look_from = Vec3::whole(13, 2, 3);
    cam.look_at = Vec3::whole(0, 0, 0);
    cam.v_up = Vec3::whole(0, 1, 0);
    cam.tan_half_defocus = Fx::zero();
    cam.focus_dist = Fx::whole(10);
    cam
}

/// The closing scene of the first book: a checkered-feel ground plane, a
/// field of small random spheres, and three large ones, seen through a
/// slightly open aperture.
pub fn final_render_chp1(width: usize, samples: usize, depth: u32, rng: &mut Sampler) -> (r: (
    Camera,
    Hittable,
))
    ensures
        sampling_s(r.0, width as int, samples as int, depth as int),
        outdoor_frame_s(r.0),
        r.0.background is None,
        r.0.look_from@ == whole3(13, 2, 3),
        r.0.look_at@ == whole3(0, 0, 0),
        r.0.tan_half_defocus@ == TAN_HALF_DEFOCUS as int,
        r.1 matches Hittable::List(l) && l.objects@.len() == 1 && (*l.objects@[0]
            matches Hittable::Bvh(bt) && (forall|h: Hittable|
            #[trigger] tree_set(Hittable::Bvh(bt)).contains(h) ==> h matches Hittable::Sphere(_))
            && (exists|h: Hittable|
            #[trigger] tree_set(Hittable::Bvh(bt)).contains(h) && static_sphere_s(
                h,
                whole3(0, -1000, 0),
                fx_of_whole(1000),
            ) && lambertian_solid_s(
                sphere_mat_s(h),
                V3 { x: ratio_s(1, 2), y: ratio_s(1, 2), z: ratio_s(1, 2) },
            )) && (exists|h: Hittable|
            #[trigger] tree_set(Hittable::Bvh(bt)).contains(h) && static_sphere_s(
                h,
                whole3(0, 1, 0),
                65536,
            ) && dielectric_s(sphere_mat_s(h), ratio_s(3, 2))) && (exists|h: Hittable|
            #[trigger] tree_set(Hittable::Bvh(bt)).contains(h) && static_sphere_s(
                h,
                whole3(-4, 1, 0),
                65536,
            ) && lambertian_solid_s(
                sphere_mat_s(h),
                V3 { x: ratio_s(2, 5), y: ratio_s(1, 5), z: ratio_s(1, 10) },
            )) && (exists|h: Hittable|
            #[trigger] tree_set(Hittable::Bvh(bt)).contains(h) && static_sphere_s(
                h,
                whole3(4, 1, 0),
                65536,
            ) && metal_s(
                sphere_mat_s(h),
                V3 { x: ratio_s(7, 10), y: ratio_s(3, 5), z: ratio_s(1, 2) },
                0,
            ))),
{
    let mut build_world = HittableList::new();
    let ground_mat = Arc::new(Lambertian::from_color(Vec3 {
        x: Fx::ratio(1, 2),
        y: Fx::ratio(1, 2),
        z: Fx::ratio(1, 2),
    }));
    build_world.add(
        Arc::new(Hittable::Sphere(Sphere::new(Vec3::whole(0, -1000, 0), Fx::whole(1000), ground_mat))),
    );
    let compare_vec = Vec3 { x: Fx::whole(4), y: Fx::ratio(1, 5), z: Fx::zero() };
    let mut a: i64 = -11;
    while a < 11
        invariant
            build_world.objects@.len() >= 1,
            forall|i: int|
                0 <= i < build_world.objects@.len() ==> (#[trigger] *build_world.objects@[i])
                    matches Hittable::Sphere(_),
            static_sphere_s(*build_world.objects@[0], whole3(0, -1000, 0), fx_of_whole(1000)),
            lambertian_solid_s(
                sphere_mat_s(*build_world.objects@[0]),
                V3 { x: ratio_s(1, 2), y: ratio_s(1, 2), z: ratio_s(1, 2) },
            ),
        decreases 11 - a,
    {
        let mut b: i64 = -11;
        while b < 11
            invariant
                build_world.objects@.len() >= 1,
                forall|i: int|
                    0 <= i < build_world.objects@.len() ==> (#[trigger] *build_world.objects@[i])
                        matches Hittable::Sphere(_),
                static_sphere_s(*build_world.objects@[0], whole3(0, -1000, 0), fx_of_whole(1000)),
                lambertian_solid_s(
                    sphere_mat_s(*build_world.objects@[0]),
                    V3 { x: ratio_s(1, 2), y: ratio_s(1, 2), z: ratio_s(1, 2) },
                ),
            decreases 11 - b,
        {
            let rand_mat = rng.next_unit();
            let nine_tenths = Fx::ratio(9, 10);
            let center = Vec3 {
                x: Fx::whole(a).add(nine_tenths.mul(rng.next_unit())),
                y: Fx::ratio(1, 5),
                z: Fx::whole(b).add(nine_tenths.mul(rng.next_unit())),
            };
            if center.sub(compare_vec).length().gt(nine_tenths) {
                if rand_mat.lt(Fx::ratio(4, 5)) {
                    let albedo = Vec3::sample(rng).hadamard(Vec3::sample(rng));
                    let mat = Arc::new(Lambertian::from_color(albedo));
                    let center_end = center.add(
                        Vec3 { x: Fx::zero(), y: rng.next_unit().mul(Fx::ratio(1, 4)), z: Fx::zero() },
                    );
                    build_world.add(
                        Arc::new(
                            Hittable::Sphere(
                                Sphere::new_moving(center, Fx::ratio(1, 5), mat, center_end),
                            ),
                        ),
                    );
                } else if rand_mat.lt(Fx::ratio(19, 20)) {
                    let albedo = Vec3::sample_range(rng, Fx::ratio(1, 2), Fx::one());
                    let fuzz = rng.next_range(Fx::zero(), Fx::ratio(1, 2));
                    let mat = Arc::new(Metal::new(albedo, fuzz));
                    build_world.add(
                        Arc::new(Hittable::Sphere(Sphere::new(center, Fx::ratio(1, 5), mat))),
                    );
                } else {
                    let mat = Arc::new(Dielectric::new(Fx::ratio(3, 2)));
                    build_world.add(
                        Arc::new(Hittable::Sphere(Sphere::new(center, Fx::ratio(1, 5), mat))),
                    );
                }
            }
            b = b + 1;
        }
        a = a + 1;
    }
    let mat = Arc::new(Dielectric::new(Fx::ratio(3, 2)));
    build_world.add(Arc::new(Hittable::Sphere(Sphere::new(Vec3::whole(0, 1, 0), Fx::one(), mat))));
    let mat = Arc::new(Lambertian::from_color(Vec3 {
        x: Fx::ratio(2, 5),
        y: Fx::ratio(1, 5),
        z: Fx::ratio(1, 10),
    }));
    build_world.add(Arc::new(Hittable::Sphere(Sphere::new(Vec3::whole(-4, 1, 0), Fx::one(), mat))));
    let mat = Arc::new(Metal::new(
        Vec3 { x: Fx::ratio(7, 10), y: Fx::ratio(3, 5), z: Fx::ratio(1, 2) },
        Fx::zero(),
    ));
    build_world.add(Arc::new(Hittable::Sphere(Sphere::new(Vec3::whole(4, 1, 0), Fx::one(), mat))));
    let node = BvhNode::from_list(&build_world);
    proof {
        let bobjs = build_world.objects@;
        let n = bobjs.len() as int;
        lemma_sphere_list_members(bobjs);
        assert(tree_set(Hittable::Bvh(node)).contains(*bobjs[0]));
        assert(tree_set(Hittable::Bvh(node)).contains(*bobjs[n - 3]));
        assert(tree_set(Hittable::Bvh(node)).contains(*bobjs[n - 2]));
        assert(tree_set(Hittable::Bvh(node)).contains(*bobjs[n - 1]));
        assert(static_sphere_s(*bobjs[n - 3], whole3(0, 1, 0), 65536) && dielectric_s(
            sphere_mat_s(*bobjs[n - 3]),
            ratio_s(3, 2),
        ));
        assert(static_sphere_s(*bobjs[n - 2], whole3(-4, 1, 0), 65536) && lambertian_solid_s(
            sphere_mat_s(*bobjs[n - 2]),
            V3 { x: ratio_s(2, 5), y: ratio_s(1, 5), z: ratio_s(1, 10) },
        ));
        assert(static_sphere_s(*bobjs[n - 1], whole3(4, 1, 0), 65536) && metal_s(
            sphere_mat_s(*bobjs[n - 1]),
            V3 { x: ratio_s(7, 10), y: ratio_s(3, 5), z: ratio_s(1, 2) },
            0,
        ));
    }
    let mut world = HittableList::new();
    world.add(Arc::new(Hittable::Bvh(node)));
    let mut cam = outdoor_camera(width, samples, depth);
    cam.tan_half_defocus = Fx::raw(TAN_HALF_DEFOCUS);
    (cam, Hittable::List(world))
}

/// In a list of bare spheres, the object set is exactly the spheres
/// themselves: membership passes to and from the sequence.
proof fn lemma_sphere_list_members(objs: Seq<Arc<Hittable>>)
    requires
        forall|i: int|
            0 <= i < objs.len() ==> (#[trigger] *objs[i]) matches Hittable::Sphere(_),
    ensures
        forall|h: Hittable| #[trigger] seq_set(objs).contains(h) ==> h matches Hittable::Sphere(_),
        forall|i: int| 0 <= i < objs.len() ==> seq_set(objs).contains(#[trigger] *objs[i]),
{
    assert forall|h: Hittable| #[trigger] seq_set(objs).contains(h) implies h
        matches Hittable::Sphere(_) by {
        let i = choose|i: int| 0 <= i < objs.len() && tree_set(*objs[i]).contains(h);
        assert(tree_set(*objs[i]) =~= Set::empty().insert(*objs[i]));
    }
    assert forall|i: int| 0 <= i < objs.len() implies seq_set(objs).contains(
        #[trigger] *objs[i],
    ) by {
        assert(tree_set(*objs[i]) =~= Set::empty().insert(*objs[i]));
        assert(tree_set(*objs[i]).contains(*objs[i]));
    }
}

/// Two large spheres meeting at a checkered plane of contact.
pub fn checker_spheres(width: usize, samples: usize, depth: u32) -> (r: (Camera, Hittable))
    ensures
        sampling_s(r.0, width as int, samples as int, depth as int),
        outdoor_frame_s(r.0),
        r.0.background is None,
        r.0.look_from@ == whole3(13, 2, 3),
        r.0.look_at@ == whole3(0, 0, 0),
        r.0.tan_half_defocus@ == 0,
        r.1 matches Hittable::List(l) && l.objects@.len() == 2 && static_sphere_s(
            *l.objects@[0],
            whole3(0, -10, 0),
            fx_of_whole(10),
        ) && static_sphere_s(*l.objects@[1], whole3(0, 10, 0), fx_of_whole(10)) && (sphere_mat_s(
            *l.objects@[0],
        ) matches Material::Lambertian(m0) && (*m0.albedo matches TextureKind::Checker(ck)
            && ck.inv_scale@ == fx_div(65536, ratio_s(8, 25)) && solid_s(
            *ck.even,
            V3 { x: ratio_s(1, 5), y: ratio_s(3, 10), z: ratio_s(1, 10) },
        ) && solid_s(*ck.odd, V3 { x: ratio_s(9, 10), y: ratio_s(9, 10), z: ratio_s(9, 10) })))
            && lambertian_albedo_s(sphere_mat_s(*l.objects@[0])) == lambertian_albedo_s(
            sphere_mat_s(*l.objects@[1]),
        ),
{
    let mut world = HittableList::new();
    let even = Vec3 { x: Fx::ratio(1, 5), y: Fx::ratio(3, 10), z: Fx::ratio(1, 10) };
    let odd = Vec3 { x: Fx::ratio(9, 10), y: Fx::ratio(9, 10), z: Fx::ratio(9, 10) };
    let checker = Arc::new(
        Texture::Checker(CheckerTexture::new(Fx::ratio(8, 25), even, odd)),
    );
    let ground_mat = Arc::new(Lambertian::new(share(&checker)));
    world.add(
        Arc::new(Hittable::Sphere(Sphere::new(Vec3::whole(0, -10, 0), Fx::whole(10), ground_mat))),
    );
    let ground_mat = Arc::new(Lambertian::new(checker));
    world.add(
        Arc::new(Hittable::Sphere(Sphere::new(Vec3::whole(0, 10, 0), Fx::whole(10), ground_mat))),
    );
    (outdoor_camera(width, samples, depth), Hittable::List(world))
}

/// A single globe wrapped in a decoded satellite image.
pub fn earth(width: usize, samples: usize, depth: u32, earth_image: Option<ImageData>) -> (r: (
    Camera,
    Hittable,
))
    ensures
        sampling_s(r.0, width as int, samples as int, depth as int),
        outdoor_frame_s(r.0),
        r.0.background is None,
        r.0.look_from@ == whole3(0, 0, 12),
        r.0.look_at@ == whole3(0, 0, 0),
        r.0.tan_half_defocus@ == 0,
        r.1 matches Hittable::List(l) && l.objects@.len() == 1 && static_sphere_s(
            *l.objects@[0],
            whole3(0, 0, 0),
            fx_of_whole(2),
        ) && (sphere_mat_s(*l.objects@[0]) matches Material::Lambertian(m) && (*m.albedo
            matches TextureKind::Image(im) && im.data_s() == (match earth_image {
            Option::Some(d) => if crate::image_texture::wf_image(d) {
                Option::Some(d)
            } else {
                Option::None
            },
            Option::None => Option::None::<ImageData>,
        }))),
{
    let mut world = HittableList::new();
    let earth_texture = Arc::new(Texture::Image(ImageTexture::new(earth_image)));
    let ground_mat = Arc::new(Lambertian::new(earth_texture));
    world.add(Arc::new(Hittable::Sphere(Sphere::new(Vec3::whole(0, 0, 0), Fx::whole(2), ground_mat))));
    let mut cam = outdoor_camera(width, samples, depth);
    cam.look_from = Vec3::whole(0, 0, 12);
    (cam, Hittable::List(world))
}

/// Two marble spheres over a marble ground.
pub fn two_perlin_sphere(width: usize, samples: usize, depth: u32, rng: &mut Sampler) -> (r: (
    Camera,
    Hittable,
))
    ensures
        sampling_s(r.0, width as int, samples as int, depth as int),
        outdoor_frame_s(r.0),
        r.0.background is None,
        r.0.look_from@ == whole3(13, 2, 3),
        r.0.look_at@ == whole3(0, 0, 0),
        r.0.tan_half_defocus@ == 0,
        r.1 matches Hittable::List(l) && l.objects@.len() == 2 && static_sphere_s(
            *l.objects@[0],
            whole3(0, -1000, 0),
            fx_of_whole(1000),
        ) && static_sphere_s(*l.objects@[1], whole3(0, 2, 0), fx_of_whole(2)) && lambertian_noise_s(
            sphere_mat_s(*l.objects@[0]),
            fx_of_whole(4),
        ) && lambertian_albedo_s(sphere_mat_s(*l.objects@[0])) == lambertian_albedo_s(
            sphere_mat_s(*l.objects@[1]),
        ),
{
    let mut world = HittableList::new();
    let pertext = Arc::new(Texture::Noise(NoiseTexture::new(Fx::whole(4), rng)));
    let mat_0 = Arc::new(Lambertian::new(share(&pertext)));
    world.add(
        Arc::new(Hittable::Sphere(Sphere::new(Vec3::whole(0, -1000, 0), Fx::whole(1000), mat_0))),
    );
    let mat_1 = Arc::new(Lambertian::new(pertext));
    world.add(Arc::new(Hittable::Sphere(Sphere::new(Vec3::whole(0, 2, 0), Fx::whole(2), mat_1))));
    (outdoor_camera(width, samples, depth), Hittable::List(world))
}

/// Five colored quads facing the camera like gallery panels.
pub fn quads(width: usize, samples: usize, depth: u32) -> (r: (Camera, Hittable))
    ensures
        sampling_s(r.0, width as int, samples as int, depth as int),
        square_frame_s(r.0, TAN_HALF_80 as int),
        r.0.background is None,
        r.0.look_from@ == whole3(0, 0, 9),
        r.0.look_at@ == whole3(0, 0, 0),
        r.1 matches Hittable::List(l) && l.objects@.len() == 5 && colored_quad_s(
            *l.objects@[0],
            whole3(-3, -2, 5),
            whole3(0, 0, -4),
            whole3(0, 4, 0),
            V3 { x: 65536, y: ratio_s(1, 5), z: ratio_s(1, 5) },
        ) && colored_quad_s(
            *l.objects@[1],
            whole3(-2, -2, 0),
            whole3(4, 0, 0),
            whole3(0, 4, 0),
            V3 { x: ratio_s(1, 5), y: 65536, z: ratio_s(1, 5) },
        ) && colored_quad_s(
            *l.objects@[2],
            whole3(3, -2, 1),
            whole3(0, 0, 4),
            whole3(0, 4, 0),
            V3 { x: ratio_s(1, 5), y: ratio_s(1, 5), z: 65536 },
        ) && colored_quad_s(
            *l.objects@[3],
            whole3(-2, 3, 1),
            whole3(4, 0, 0),
            whole3(0, 0, 4),
            V3 { x: 65536, y: ratio_s(1, 2), z: ratio_s(1, 5) },
        ) && colored_quad_s(
            *l.objects@[4],
            whole3(-2, -3, 5),
            whole3(4, 0, 0),
            whole3(0, 0, -4),
            V3 { x: ratio_s(1, 5), y: ratio_s(4, 5), z: ratio_s(4, 5) },
        ),
{
    let mut world = HittableList::new();
    let red = Arc::new(Lambertian::from_color(Vec3 {
        x: Fx::one(),
        y: Fx::ratio(1, 5),
        z: Fx::ratio(1, 5),
    }));
    let green = Arc::new(Lambertian::from_color(Vec3 {
        x: Fx::ratio(1, 5),
        y: Fx::one(),
        z: Fx::ratio(1, 5),
    }));
    let blue = Arc::new(Lambertian::from_color(Vec3 {
        x: Fx::ratio(1, 5),
        y: Fx::ratio(1, 5),
        z: Fx::one(),
    }));
    let orange = Arc::new(Lambertian::from_color(Vec3 {
        x: Fx::one(),
        y: Fx::ratio(1, 2),
        z: Fx::ratio(1, 5),
    }));
    let teal = Arc::new(Lambertian::from_color(Vec3 {
        x: Fx::ratio(1, 5),
        y: Fx::ratio(4, 5),
        z: Fx::ratio(4, 5),
    }));
    world.add(
        Arc::new(
            Hittable::Quad(
                Quad::new(Vec3::whole(-3, -2, 5), Vec3::whole(0, 0, -4), Vec3::whole(0, 4, 0), red),
            ),
        ),
    );
    world.add(
        Arc::new(
            Hittable::Quad(
                Quad::new(Vec3::whole(-2, -2, 0), Vec3::whole(4, 0, 0), Vec3::whole(0, 4, 0), green),
            ),
        ),
    );
    world.add(
        Arc::new(
            Hittable::Quad(
                Quad::new(Vec3::whole(3, -2, 1), Vec3::whole(0, 0, 4), Vec3::whole(0, 4, 0), blue),
            ),
        ),
    );
    world.add(
        Arc::new(
            Hittable::Quad(
                Quad::new(Vec3::whole(-2, 3, 1), Vec3::whole(4, 0, 0), Vec3::whole(0, 0, 4), orange),
            ),
        ),
    );
    world.add(
        Arc::new(
            Hittable::Quad(
                Quad::new(Vec3::whole(-2, -3, 5), Vec3::whole(4, 0, 0), Vec3::whole(0, 0, -4), teal),
            ),
        ),
    );
    let mut cam = Camera::new();
    cam.aspect_ratio = Fx::one();
    cam.image_width = width;
    cam.samples_per_pixel = samples;
    cam.max_depth = depth;
    cam.tan_half_vfov = Fx::raw(TAN_HALF_80);
    cam.look_from = Vec3::whole(0, 0, 9);
    cam.look_at = Vec3::whole(0, 0, 0);
    cam.v_up = Vec3::whole(0, 1, 0);
    cam.tan_half_defocus = Fx::zero();
    cam.focus_dist = Fx::whole(10);
    (cam, Hittable::List(world))
}

/// Marble spheres lit only by a rectangle and a globe of light.
pub fn simple_light(width: usize, samples: usize, depth: u32, rng: &mut Sampler) -> (r: (
    Camera,
    Hittable,
))
    ensures
        sampling_s(r.0, width as int, samples as int, depth as int),
        outdoor_frame_s(r.0),
        black_background_s(r.0),
        r.0.look_from@ == whole3(26, 3, 6),
        r.0.look_at@ == whole3(0, 2, 0),
        r.0.tan_half_defocus@ == 0,
        r.1 matches Hittable::List(l) && l.objects@.len() == 4 && static_sphere_s(
            *l.objects@[0],
            whole3(0, -1000, 0),
            fx_of_whole(-1000),
        ) && static_sphere_s(*l.objects@[1], whole3(0, 2, 0), fx_of_whole(2))
            && lambertian_noise_s(sphere_mat_s(*l.objects@[0]), fx_of_whole(4)) && sphere_mat_s(
            *l.objects@[0],
        ) == sphere_mat_s(*l.objects@[1]) && static_sphere_s(
            *l.objects@[2],
            whole3(0, 7, 0),
            fx_of_whole(2),
        ) && light_solid_s(sphere_mat_s(*l.objects@[2]), whole3(4, 4, 4)) && lit_quad_s(
            *l.objects@[3],
            whole3(3, 1, -2),
            whole3(2, 0, 0),
            whole3(0, 2, 0),
            whole3(4, 4, 4),
        ) && sphere_mat_s(*l.objects@[2]) == quad_mat_s(*l.objects@[3]),
{
    let mut world = HittableList::new();
    let pertext = Arc::new(Lambertian::new(Arc::new(Texture::Noise(NoiseTexture::new(Fx::whole(4), rng)))));
    world.add(
        Arc::new(
            Hittable::Sphere(
                Sphere::new(Vec3::whole(0, -1000, 0), Fx::whole(-1000), share(&pertext)),
            ),
        ),
    );
    world.add(
        Arc::new(Hittable::Sphere(Sphere::new(Vec3::whole(0, 2, 0), Fx::whole(2), share(&pertext)))),
    );
    let diff_light = Arc::new(DiffuseLight::color(Vec3::whole(4, 4, 4)));
    world.add(
        Arc::new(
            Hittable::Sphere(Sphere::new(Vec3::whole(0, 7, 0), Fx::whole(2), share(&diff_light))),
        ),
    );
    world.add(
        Arc::new(
            Hittable::Quad(
                Quad::new(
                    Vec3::whole(3, 1, -2),
                    Vec3::whole(2, 0, 0),
                    Vec3::whole(0, 2, 0),
                    diff_light,
                ),
            ),
        ),
    );
    let mut cam = outdoor_camera(width, samples, depth);
    cam.background = Option::Some(Vec3::zero());
    cam.look_from = Vec3::whole(26, 3, 6);
    cam.look_at = Vec3::whole(0, 2, 0);
    (cam, Hittable::List(world))
}

/// The five Cornell walls and the area light.
fn cornell_walls(light_color: Vec3, light_q: Vec3, light_u: Vec3, light_v: Vec3) -> (r:
    HittableList)
    ensures
        r.objects@.len() == 6,
        cornell_walls_s(r.objects@, light_color@, light_q@, light_u@, light_v@),
        forall|k: int|
            0 <= k < r.objects@.len() ==> crate::bvh_node::tree_boxes_cover(
                #[trigger] *r.objects@[k],
            ),
{
    let mut world = HittableList::new();
    let red = Arc::new(Lambertian::from_color(Vec3 {
        x: Fx::ratio(13, 20),
        y: Fx::ratio(1, 20),
        z: Fx::ratio(1, 20),
    }));
    let green = Arc::new(Lambertian::from_color(Vec3 {
        x: Fx::ratio(3, 25),
        y: Fx::ratio(9, 20),
        z: Fx::ratio(3, 20),
    }));
    let white = Arc::new(Lambertian::from_color(Vec3 {
        x: Fx::ratio(73, 100),
        y: Fx::ratio(73, 100),
        z: Fx::ratio(73, 100),
    }));
    let light = Arc::new(DiffuseLight::color(light_color));
    world.add(
        Arc::new(
            Hittable::Quad(
                Quad::new(Vec3::whole(555, 0, 0), Vec3::whole(0, 555, 0), Vec3::whole(0, 0, 555), green),
            ),
        ),
    );
    world.add(
        Arc::new(
            Hittable::Quad(
                Quad::new(Vec3::whole(0, 0, 0), Vec3::whole(0, 555, 0), Vec3::whole(0, 0, 555), red),
            ),
        ),
    );
    world.add(Arc::new(Hittable::Quad(Quad::new(light_q, light_u, light_v, light))));
    world.add(
        Arc::new(
            Hittable::Quad(
                Quad::new(
                    Vec3::whole(0, 0, 0),
                    Vec3::whole(555, 0, 0),
                    Vec3::whole(0, 0, 555),
                    share(&white),
                ),
            ),
        ),
    );
    world.add(
        Arc::new(
            Hittable::Quad(
                Quad::new(
                    Vec3::whole(555, 555, 555),
                    Vec3::whole(-555, 0, 0),
                    Vec3::whole(0, 0, -555),
                    share(&white),
                ),
            ),
        ),
    );
    world.add(
        Arc::new(
            Hittable::Quad(
                Quad::new(
                    Vec3::whole(0, 0, 555),
                    Vec3::whole(555, 0, 0),
                    Vec3::whole(0, 555, 0),
                    share(&white),
                ),
            ),
        ),
    );
    world
}

/// The two rotated boxes of the Cornell scenes, bare.
fn cornell_boxes() -> (r: (Arc<Hittable>, Arc<Hittable>))
    ensures
        rotated_block_s(
            *r.0,
            whole3(165, 330, 165),
            SIN_15 as int,
            COS_15 as int,
            whole3(265, 0, 295),
        ),
        rotated_block_s(
            *r.1,
            whole3(165, 165, 165),
            SIN_NEG_18 as int,
            COS_NEG_18 as int,
            whole3(130, 0, 65),
        ),
{
    let white = Arc::new(Lambertian::from_color(Vec3 {
        x: Fx::ratio(73, 100),
        y: Fx::ratio(73, 100),
        z: Fx::ratio(73, 100),
    }));
    let box_1 = quad_box(Vec3::whole(0, 0, 0), Vec3::whole(165, 330, 165), share(&white));
    let box_1 = Arc::new(RotateY::new(box_1, Fx::raw(SIN_15), Fx::raw(COS_15)));
    let box_1 = Arc::new(Translate::new(box_1, Vec3::whole(265, 0, 295)));
    let box_2 = quad_box(Vec3::whole(0, 0, 0), Vec3::whole(165, 165, 165), white);
    let box_2 = Arc::new(RotateY::new(box_2, Fx::raw(SIN_NEG_18), Fx::raw(COS_NEG_18)));
    let box_2 = Arc::new(Translate::new(box_2, Vec3::whole(130, 0, 65)));
    (box_1, box_2)
}

/// The Cornell-box camera.
fn cornell_camera(width: usize, samples: usize, depth: u32) -> (r: Camera)
    ensures
        sampling_s(r, width as int, samples as int, depth as int),
        square_frame_s(r, TAN_HALF_40 as int),
        black_background_s(r),
        r.look_from@ == whole3(278, 278, -800),
        r.look_at@ == whole3(278, 278, 0),
{
    let mut cam = Camera::new();
    cam.aspect_ratio = Fx::one();
    cam.image_width = width;
    cam.samples_per_pixel = samples;
    cam.max_depth = depth;
    cam.background = Option::Some(Vec3::zero());
    cam.tan_half_vfov = Fx::raw(TAN_HALF_40);
    cam.look_from = Vec3::whole(278, 278, -800);
    cam.look_at = Vec3::whole(278, 278, 0);
    cam.v_up = Vec3::whole(0, 1, 0);
    cam.tan_half_defocus = Fx::zero();
    cam.focus_dist = Fx::whole(10);
    cam
}

/// The classic Cornell box: colored walls, a bright ceiling light, and two
/// rotated boxes, against a black background.
pub fn cornell_box(width: usize, samples: usize, depth: u32) -> (r: (Camera, Hittable))
    ensures
        sampling_s(r.0, width as int, samples as int, depth as int),
        square_frame_s(r.0, TAN_HALF_40 as int),
        black_background_s(r.0),
        r.0.look_from@ == whole3(278, 278, -800),
        r.0.look_at@ == whole3(278, 278, 0),
        r.1 matches Hittable::List(l) && l.objects@.len() == 8 && cornell_walls_s(
            l.objects@,
            whole3(15, 15, 15),
            whole3(343, 554, 332),
            whole3(-130, 0, 0),
            whole3(0, 0, -105),
        ) && rotated_block_s(
            *l.objects@[6],
            whole3(165, 330, 165),
            SIN_15 as int,
            COS_15 as int,
            whole3(265, 0, 295),
        ) && rotated_block_s(
            *l.objects@[7],
            whole3(165, 165, 165),
            SIN_NEG_18 as int,
            COS_NEG_18 as int,
            whole3(130, 0, 65),
        ),
{
    let mut world = cornell_walls(
        Vec3::whole(15, 15, 15),
        Vec3::whole(343, 554, 332),
        Vec3::whole(-130, 0, 0),
        Vec3::whole(0, 0, -105),
    );
    let (box_1, box_2) = cornell_boxes();
    world.add(box_1);
    world.add(box_2);
    (cornell_camera(width, samples, depth), Hittable::List(world))
}

/// The Cornell box with the two boxes turned into smoke and fog media.
pub fn cornell_smoke(width: usize, samples: usize, depth: u32) -> (r: (Camera, Hittable))
    ensures
        sampling_s(r.0, width as int, samples as int, depth as int),
        square_frame_s(r.0, TAN_HALF_40 as int),
        black_background_s(r.0),
        r.0.look_from@ == whole3(278, 278, -800),
        r.0.look_at@ == whole3(278, 278, 0),
        r.1 matches Hittable::List(l) && l.objects@.len() == 8 && cornell_walls_s(
            l.objects@,
            whole3(7, 7, 7),
            whole3(113, 554, 127),
            whole3(330, 0, 0),
            whole3(0, 0, 305),
        ) && (*l.objects@[6] matches Hittable::Medium(m1) && m1.density@ == ratio_s(1, 100)
            && rotated_block_s(
            *m1.boundary,
            whole3(165, 330, 165),
            SIN_15 as int,
            COS_15 as int,
            whole3(265, 0, 295),
        ) && (*m1.phase matches Material::Isotropic(i1) && solid_s(*i1.albedo, whole3(0, 0, 0))))
            && (*l.objects@[7] matches Hittable::Medium(m2) && m2.density@ == ratio_s(1, 100)
            && rotated_block_s(
            *m2.boundary,
            whole3(165, 165, 165),
            SIN_NEG_18 as int,
            COS_NEG_18 as int,
            whole3(130, 0, 65),
        ) && (*m2.phase matches Material::Isotropic(i2) && solid_s(*i2.albedo, whole3(1, 1, 1)))),
{
    let mut world = cornell_walls(
        Vec3::whole(7, 7, 7),
        Vec3::whole(113, 554, 127),
        Vec3::whole(330, 0, 0),
        Vec3::whole(0, 0, 305),
    );
    let (box_1, box_2) = cornell_boxes();
    world.add(
        Arc::new(ConstantMedium::color(box_1, Fx::ratio(1, 100), Vec3::whole(0, 0, 0))),
    );
    world.add(
        Arc::new(ConstantMedium::color(box_2, Fx::ratio(1, 100), Vec3::whole(1, 1, 1))),
    );
    (cornell_camera(width, samples, depth), Hittable::List(world))
}

/// The closing scene of the second book: a ground of random boxes, a light,
/// moving, glass and metal spheres, media, a globe, marble, and a cloud of
/// small spheres, all under one tree.
#[verifier::rlimit(100)]
pub fn final_scene(
    width: usize,
    samples: usize,
    depth: u32,
    rng: &mut Sampler,
    earth_image: Option<ImageData>,
) -> (r: (Camera, Hittable))
    ensures
        sampling_s(r.0, width as int, samples as int, depth as int),
        square_frame_s(r.0, TAN_HALF_40 as int),
        black_background_s(r.0),
        r.0.look_from@ == whole3(478, 278, -600),
        r.0.look_at@ == whole3(278, 278, 0),
        r.1 matches Hittable::List(l) && l.objects@.len() == 11 && (*l.objects@[0]
            matches Hittable::Bvh(bt) && (forall|h: Hittable|
            #[trigger] tree_set(Hittable::Bvh(bt)).contains(h) ==> h matches Hittable::List(_)))
            && lit_quad_s(
            *l.objects@[1],
            whole3(123, 554, 147),
            whole3(300, 0, 0),
            whole3(0, 0, 265),
            whole3(7, 7, 7),
        ) && moving_sphere_s(
            *l.objects@[2],
            whole3(400, 400, 200),
            whole3(30, 0, 0),
            fx_of_whole(50),
        ) && lambertian_solid_s(
            sphere_mat_s(*l.objects@[2]),
            V3 { x: ratio_s(7, 10), y: ratio_s(3, 10), z: ratio_s(1, 10) },
        ) && static_sphere_s(*l.objects@[3], whole3(260, 150, 45), fx_of_whole(50))
            && dielectric_s(sphere_mat_s(*l.objects@[3]), ratio_s(3, 2)) && static_sphere_s(
            *l.objects@[4],
            whole3(0, 150, 145),
            fx_of_whole(50),
        ) && metal_s(
            sphere_mat_s(*l.objects@[4]),
            V3 { x: ratio_s(4, 5), y: ratio_s(4, 5), z: ratio_s(9, 10) },
            65536,
        ) && static_sphere_s(*l.objects@[5], whole3(360, 150, 145), fx_of_whole(70))
            && dielectric_s(sphere_mat_s(*l.objects@[5]), ratio_s(3, 2)) && (*l.objects@[6]
            matches Hittable::Medium(m1) && m1.density@ == ratio_s(1, 5) && *m1.boundary
            == *l.objects@[5] && (*m1.phase matches Material::Isotropic(i1) && solid_s(
            *i1.albedo,
            V3 { x: ratio_s(1, 5), y: ratio_s(2, 5), z: ratio_s(9, 10) },
        ))) && (*l.objects@[7] matches Hittable::Medium(m2) && m2.density@ == ratio_s(1, 10000)
            && static_sphere_s(*m2.boundary, whole3(0, 0, 0), fx_of_whole(5000)) && dielectric_s(
            sphere_mat_s(*m2.boundary),
            ratio_s(3, 2),
        ) && (*m2.phase matches Material::Isotropic(i2) && solid_s(*i2.albedo, whole3(1, 1, 1))))
            && static_sphere_s(*l.objects@[8], whole3(400, 200, 400), fx_of_whole(100)) && (
        sphere_mat_s(*l.objects@[8]) matches Material::Lambertian(m8) && (*m8.albedo
            matches TextureKind::Image(im) && im.data_s() == (match earth_image {
            Option::Some(d) => if crate::image_texture::wf_image(d) {
                Option::Some(d)
            } else {
                Option::None
            },
            Option::None => Option::None::<ImageData>,
        }))) && static_sphere_s(*l.objects@[9], whole3(220, 280, 300), fx_of_whole(80))
            && lambertian_noise_s(sphere_mat_s(*l.objects@[9]), ratio_s(1, 10)) && (*l.objects@[10]
            matches Hittable::Translate(tt) && tt.offset@ == whole3(-100, 270, 395) && (*tt.inner
            matches Hittable::RotateY(ry) && ry.sin_theta@ == SIN_15 as int && ry.cos_theta@
            == COS_15 as int && (*ry.inner matches Hittable::Bvh(ct) && forall|h: Hittable|
            #[trigger] tree_set(Hittable::Bvh(ct)).contains(h) ==> (h matches Hittable::Sphere(sp)
                && sp.radius@ == fx_of_whole(10) && sp.center_vec@ == (V3 { x: 0, y: 0, z: 0 })
                && lambertian_solid_s(*sp.mat, cornell_white_s()))))),
{
    let mut boxes_1 = HittableList::new();
    let ground_mat = Arc::new(Lambertian::from_color(Vec3 {
        x: Fx::ratio(12, 25),
        y: Fx::ratio(83, 100),
        z: Fx::ratio(53, 100),
    }));
    let mut i: i64 = 0;
    while i < 20
        invariant
            boxes_1.objects@.len() >= i,
            0 <= i,
            forall|k: int|
                0 <= k < boxes_1.objects@.len() ==> (#[trigger] *boxes_1.objects@[k])
                    matches Hittable::List(_),
        decreases 20 - i,
    {
        let mut j: i64 = 0;
        while j < 20
            invariant
                boxes_1.objects@.len() >= i + j,
                0 <= j,
                0 <= i,
                forall|k: int|
                    0 <= k < boxes_1.objects@.len() ==> (#[trigger] *boxes_1.objects@[k])
                        matches Hittable::List(_),
            decreases 20 - j,
        {
            let w = Fx::whole(100);
            let x0 = Fx::whole(-1000).add(Fx::whole(i).mul(w));
            let z0 = Fx::whole(-1000).add(Fx::whole(j).mul(w));
            let y0 = Fx::zero();
            let x1 = x0.add(w);
            let y1 = rng.next_range(Fx::one(), Fx::whole(101));
            let z1 = z0.add(w);
            boxes_1.add(
                quad_box(
                    Vec3 { x: x0, y: y0, z: z0 },
                    Vec3 { x: x1, y: y1, z: z1 },
                    share(&ground_mat),
                ),
            );
            j = j + 1;
        }
        i = i + 1;
    }
    let ground_tree = BvhNode::from_list(&boxes_1);
    proof {
        let gobjs = boxes_1.objects@;
        assert forall|h: Hittable| #[trigger] tree_set(Hittable::Bvh(ground_tree)).contains(
            h,
        ) implies h matches Hittable::List(_) by {
            assert(seq_set(gobjs).contains(h));
            let i = choose|i: int| 0 <= i < gobjs.len() && tree_set(*gobjs[i]).contains(h);
            assert(tree_set(*gobjs[i]) =~= Set::empty().insert(*gobjs[i]));
        }
    }
    let mut scene = HittableList::new();
    scene.add(Arc::new(Hittable::Bvh(ground_tree)));
    let diff_light = Arc::new(DiffuseLight::color(Vec3::whole(7, 7, 7)));
    scene.add(
        Arc::new(
            Hittable::Quad(
                Quad::new(
                    Vec3::whole(123, 554, 147),
                    Vec3::whole(300, 0, 0),
                    Vec3::whole(0, 0, 265),
                    diff_light,
                ),
            ),
        ),
    );
    let center_1 = Vec3::whole(400, 400, 200);
    let center_2 = center_1.add(Vec3::whole(30, 0, 0));
    let sphere_mat = Arc::new(Lambertian::from_color(Vec3 {
        x: Fx::ratio(7, 10),
        y: Fx::ratio(3, 10),
        z: Fx::ratio(1, 10),
    }));
    scene.add(
        Arc::new(
            Hittable::Sphere(Sphere::new_moving(center_1, Fx::whole(50), sphere_mat, center_2)),
        ),
    );
    scene.add(
        Arc::new(
            Hittable::Sphere(
                Sphere::new(
                    Vec3::whole(260, 150, 45),
                    Fx::whole(50),
                    Arc::new(Dielectric::new(Fx::ratio(3, 2))),
                ),
            ),
        ),
    );
    scene.add(
        Arc::new(
            Hittable::Sphere(
                Sphere::new(
                    Vec3::whole(0, 150, 145),
                    Fx::whole(50),
                    Arc::new(
                        Metal::new(
                            Vec3 { x: Fx::ratio(4, 5), y: Fx::ratio(4, 5), z: Fx::ratio(9, 10) },
                            Fx::one(),
                        ),
                    ),
                ),
            ),
        ),
    );
    let boundary = Arc::new(
        Hittable::Sphere(
            Sphere::new(
                Vec3::whole(360, 150, 145),
                Fx::whole(70),
                Arc::new(Dielectric::new(Fx::ratio(3, 2))),
            ),
        ),
    );
    scene.add(share(&boundary));
    scene.add(
        Arc::new(
            ConstantMedium::color(
                boundary,
                Fx::ratio(1, 5),
                Vec3 { x: Fx::ratio(1, 5), y: Fx::ratio(2, 5), z: Fx::ratio(9, 10) },
            ),
        ),
    );
    let fog = Arc::new(
        Hittable::Sphere(
            Sphere::new(
                Vec3::whole(0, 0, 0),
                Fx::whole(5000),
                Arc::new(Dielectric::new(Fx::ratio(3, 2))),
            ),
        ),
    );
    scene.add(
        Arc::new(ConstantMedium::color(fog, Fx::ratio(1, 10000), Vec3::whole(1, 1, 1))),
    );
    let earth_texture = Arc::new(Texture::Image(ImageTexture::new(earth_image)));
    let emat = Arc::new(Lambertian::new(earth_texture));
    scene.add(
        Arc::new(Hittable::Sphere(Sphere::new(Vec3::whole(400, 200, 400), Fx::whole(100), emat))),
    );
    let pertext = Arc::new(Texture::Noise(NoiseTexture::new(Fx::ratio(1, 10), rng)));
    let pmat = Arc::new(Lambertian::new(pertext));
    scene.add(
        Arc::new(Hittable::Sphere(Sphere::new(Vec3::whole(220, 280, 300), Fx::whole(80), pmat))),
    );
    let mut spheres = HittableList::new();
    let white = Arc::new(Lambertian::from_color(Vec3 {
        x: Fx::ratio(73, 100),
        y: Fx::ratio(73, 100),
        z: Fx::ratio(73, 100),
    }));
    let mut n: u32 = 0;
    while n < 1000
        invariant
            spheres.objects@.len() == n,
            lambertian_solid_s(*white, cornell_white_s()),
            forall|k: int|
                0 <= k < spheres.objects@.len() ==> ((#[trigger] *spheres.objects@[k])
                    matches Hittable::Sphere(sp) && sp.radius@ == fx_of_whole(10)
                    && sp.center_vec@ == (V3 { x: 0, y: 0, z: 0 }) && lambertian_solid_s(
                    *sp.mat,
                    cornell_white_s(),
                )),
        decreases 1000 - n,
    {
        spheres.add(
            Arc::new(
                Hittable::Sphere(
                    Sphere::new(
                        Vec3::sample_range(rng, Fx::zero(), Fx::whole(165)),
                        Fx::whole(10),
                        share(&white),
                    ),
                ),
            ),
        );
        n = n + 1;
    }
    proof {
        assert(spheres.objects@.len() >= 1);
    }
    let cluster = BvhNode::from_list(&spheres);
    proof {
        let sobjs = spheres.objects@;
        assert forall|h: Hittable| #[trigger] tree_set(Hittable::Bvh(cluster)).contains(
            h,
        ) implies (h matches Hittable::Sphere(sp) && sp.radius@ == fx_of_whole(10)
            && sp.center_vec@ == (V3 { x: 0, y: 0, z: 0 }) && lambertian_solid_s(
            *sp.mat,
            cornell_white_s(),
        )) by {
            assert(seq_set(sobjs).contains(h));
            let i = choose|i: int| 0 <= i < sobjs.len() && tree_set(*sobjs[i]).contains(h);
            assert(tree_set(*sobjs[i]) =~= Set::empty().insert(*sobjs[i]));
        }
    }
    scene.add(
        Arc::new(
            Translate::new(
                Arc::new(
                    RotateY::new(
                        Arc::new(Hittable::Bvh(cluster)),
                        Fx::raw(SIN_15),
                        Fx::raw(COS_15),
                    ),
                ),
                Vec3::whole(-100, 270, 395),
            ),
        ),
    );
    let mut cam = cornell_camera(width, samples, depth);
    cam.look_from = Vec3::whole(478, 278, -600);
    (cam, Hittable::List(scene))
}

} // verus!
