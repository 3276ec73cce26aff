use ray_tracing::aabb::Aabb;
use ray_tracing::camera::Camera;
use ray_tracing::constant_medium::ConstantMedium;
use ray_tracing::fx::Fx;
use ray_tracing::hit_record::HitRecord;
use ray_tracing::hittable::Hittable;
use ray_tracing::hittable_list::HittableList;
use ray_tracing::interval::Interval;
use ray_tracing::material::Dielectric;
use ray_tracing::material::DiffuseLight;
use ray_tracing::material::Lambertian;
use ray_tracing::quad::Quad;
use ray_tracing::ray::Ray;
use ray_tracing::rng::Sampler;
use ray_tracing::bvh_node::BvhNode;
use ray_tracing::checker_texture::CheckerTexture;
use ray_tracing::scenes;
use ray_tracing::sphere::Sphere;
use ray_tracing::vec3::Vec3;
use std::sync::Arc;

fn fxw(w: i64) -> Fx {
    Fx::whole(w)
}

fn v3w(x: i64, y: i64, z: i64) -> Vec3 {
    Vec3::whole(x, y, z)
}

fn white_lambertian() -> Arc<ray_tracing::material::Material> {
    Arc::new(Lambertian::from_color(v3w(1, 1, 1)))
}

#[test]
fn fx_arithmetic_basics() {
    assert_eq!(fxw(3).add(fxw(4)).bits, 7 * 65536);
    assert_eq!(fxw(3).mul(fxw(4)).bits, 12 * 65536);
    assert_eq!(fxw(12).div(fxw(4)).bits, 3 * 65536);
    assert_eq!(fxw(4).sqrt().bits, 2 * 65536);
    assert_eq!(fxw(-5).abs().bits, 5 * 65536);
    assert_eq!(Fx::ratio(1, 2).bits, 32768);
    // division by zero saturates by the dividend's sign
    assert_eq!(fxw(1).div(Fx::zero()).bits, i64::MAX);
    assert_eq!(fxw(-1).div(Fx::zero()).bits, i64::MIN);
}

#[test]
fn fx_neg_ln_known_points() {
    // -ln(1) = 0
    assert_eq!(Fx::one().neg_ln().bits, 0);
    // -ln(1/2) = ln 2, about 45426 on the grid; the short series biases
    // low by a few percent at the bottom of the normalized range
    let l2 = Fx::raw(32768).neg_ln().bits;
    assert!((l2 - 45426).abs() < 2500, "ln 2 approximation off: {l2}");
    // -ln(3/4) = 0.2877, about 18854 on the grid, where the series is tight
    let l34 = Fx::raw(49152).neg_ln().bits;
    assert!((l34 - 18854).abs() < 300, "ln 4/3 approximation off: {l34}");
    // -ln(0) saturates upward
    assert_eq!(Fx::zero().neg_ln().bits, i64::MAX);
}

#[test]
fn fx_sin_known_points() {
    assert_eq!(Fx::zero().sin().bits, 0);
    let s = Fx::raw(102944).sin().bits; // pi/2
    assert!((s - 65536).abs() < 400, "sin(pi/2) approximation off: {s}");
    let s = Fx::raw(205887).sin().bits; // pi
    assert!(s.abs() < 400, "sin(pi) approximation off: {s}");
    let s = Fx::raw(-102944).sin().bits; // -pi/2
    assert!((s + 65536).abs() < 400, "sin(-pi/2) approximation off: {s}");
}

#[test]
fn sampler_is_deterministic() {
    let mut a = Sampler::new(42);
    let mut b = Sampler::new(42);
    for _ in 0..10 {
        assert_eq!(a.next_u64(), b.next_u64());
    }
    let u = Sampler::new(7).next_unit();
    assert!(u.bits >= 0 && u.bits < 65536);
}

// The quadratic roots of a head-on unit ray match the closed form within
// grid tolerance, and a ray pointing away reports no hit.
#[test]
fn sphere_hit_matches_quadratic() {
    let sphere = Sphere::new(v3w(0, 0, -5), Fx::one(), white_lambertian());
    let window = Interval::new(Fx::raw(66), Fx::top());
    let toward = Ray::new(v3w(0, 0, 0), v3w(0, 0, -1));
    let hit = sphere.hit(&toward, window).expect("head-on ray must hit");
    // closed form: t = 4 for a unit sphere 5 away
    assert!((hit.t.bits - 4 * 65536).abs() <= 66, "t = {}", hit.t.bits);
    assert!(hit.front_face);
    // normal faces the ray: +z
    assert!((hit.normal.z.bits - 65536).abs() <= 66);
    let away = Ray::new(v3w(0, 0, 0), v3w(0, 0, 1));
    assert!(sphere.hit(&away, window).is_none(), "ray pointing away must miss");
}

#[test]
fn aabb_merge_is_commutative_associative_idempotent() {
    let a = Aabb::from_corners(v3w(0, 0, 0), v3w(1, 2, 3));
    let b = Aabb::from_corners(v3w(-1, 5, -2), v3w(2, 6, 0));
    let c = Aabb::from_corners(v3w(4, 4, 4), v3w(5, 5, 5));
    assert_eq!(Aabb::merge(a, b), Aabb::merge(b, a));
    assert_eq!(
        Aabb::merge(Aabb::merge(a, b), c),
        Aabb::merge(a, Aabb::merge(b, c))
    );
    assert_eq!(Aabb::merge(a, a), a);
}

fn disjoint_spheres(n: usize) -> HittableList {
    let mut list = HittableList::new();
    for i in 0..n {
        let x = (i as i64 % 10) * 3;
        let y = (i as i64 / 10) * 3;
        list.add(Arc::new(Hittable::Sphere(Sphere::new(
            Vec3 {
                x: fxw(x),
                y: fxw(y),
                z: fxw(-8),
            },
            Fx::one(),
            white_lambertian(),
        ))));
    }
    list
}

fn hits_agree(a: &Option<HitRecord>, b: &Option<HitRecord>) -> bool {
    match (a, b) {
        (None, None) => true,
        (Some(x), Some(y)) => {
            x.t == y.t && x.p == y.p && x.normal == y.normal && x.front_face == y.front_face
        }
        _ => false,
    }
}

// The tree traversal returns the same closest hit as the brute-force scan.
#[test]
fn bvh_matches_list_scan() {
    for &n in &[1usize, 2, 3, 100] {
        let list = disjoint_spheres(n);
        let tree = Hittable::Bvh(BvhNode::from_list(&list));
        let list_h = Hittable::List(list);
        let mut rng = Sampler::new(0xC0FFEE + n as u64);
        let window = Interval::new(Fx::raw(66), Fx::top());
        for _ in 0..1000 {
            let origin = Vec3::sample_range(&mut rng, fxw(-2), fxw(30));
            let target = Vec3::sample_range(&mut rng, fxw(-4), fxw(32));
            let dir = Vec3 {
                x: target.x,
                y: target.y,
                z: fxw(-16).sub(target.z),
            };
            let ray = Ray::new(origin, dir);
            let mut r1 = Sampler::new(1);
            let mut r2 = Sampler::new(1);
            let ha = list_h.hit(&ray, window, &mut r1);
            let hb = tree.hit(&ray, window, &mut r2);
            assert!(hits_agree(&ha, &hb), "bvh and list disagree on n={n}");
        }
    }
}

// A zero-density medium never scatters; a saturated density scatters at the
// boundary entry.
#[test]
fn constant_medium_density_extremes() {
    let boundary = || {
        Arc::new(Hittable::Sphere(Sphere::new(
            v3w(0, 0, 0),
            Fx::one(),
            white_lambertian(),
        )))
    };
    let window = Interval::new(Fx::raw(66), Fx::top());
    let ray = Ray::new(v3w(-3, 0, 0), v3w(1, 0, 0));
    let empty = ConstantMedium::color(boundary(), Fx::zero(), v3w(1, 1, 1));
    for seed in 1..50u64 {
        let mut rng = Sampler::new(seed);
        assert!(
            empty.hit(&ray, window, &mut rng).is_none(),
            "zero density must never scatter"
        );
    }
    let dense = ConstantMedium::color(boundary(), Fx::top(), v3w(1, 1, 1));
    let mut probe = Sampler::new(3);
    let entry = boundary()
        .hit(&ray, Interval::universe(), &mut probe)
        .expect("boundary entry")
        .t;
    for seed in 1..50u64 {
        let mut rng = Sampler::new(seed);
        let h = dense
            .hit(&ray, window, &mut rng)
            .expect("saturated density must scatter");
        assert_eq!(
            h.t.bits, entry.bits,
            "scatter must sit at the boundary entry (got {}, entry {})",
            h.t.bits, entry.bits
        );
    }
}

// A dielectric with unit index leaves the refracted ray essentially
// straight; exact equality is lost only to fixed-point rounding.
#[test]
fn dielectric_unit_index_goes_straight() {
    let mat = Dielectric::new(Fx::one());
    let rec = HitRecord {
        p: v3w(0, 0, 0),
        normal: v3w(-1, 0, 0),
        t: Fx::one(),
        u: Fx::zero(),
        v: Fx::zero(),
        front_face: true,
        mat: Arc::new(Dielectric::new(Fx::one())),
    };
    let dir = Vec3 {
        x: fxw(4),
        y: fxw(1),
        z: fxw(-2),
    };
    let unit = dir.unit();
    let ray = Ray::new(v3w(-4, -1, 2), dir);
    let mut straight = 0;
    for seed in 1..100u64 {
        let mut rng = Sampler::new(seed);
        let (_attn, scattered) = mat
            .scatter(&ray, &rec, &mut rng)
            .expect("a dielectric always scatters");
        let d = scattered.direction;
        let close = (d.x.bits - unit.x.bits).abs() <= 192
            && (d.y.bits - unit.y.bits).abs() <= 192
            && (d.z.bits - unit.z.bits).abs() <= 192;
        if close {
            straight += 1;
        } else if straight == 0 && seed == 99 {
            panic!(
                "bent: d=({},{},{}) unit=({},{},{})",
                d.x.bits, d.y.bits, d.z.bits, unit.x.bits, unit.y.bits, unit.z.bits
            );
        }
    }
    // Schlick reflectance at grazing-free incidence is tiny; nearly all
    // draws refract and the refracted direction stays straight.
    assert!(straight >= 95, "only {straight} of 99 rays went straight");
}

// Points one cell width apart along an axis land on opposite sub-textures.
#[test]
fn checker_flips_across_one_cell() {
    let even = v3w(1, 0, 0);
    let odd = v3w(0, 1, 0);
    let checker = CheckerTexture::new(Fx::one(), even, odd);
    let u = Fx::zero();
    let v = Fx::zero();
    let p = Vec3 {
        x: Fx::ratio(1, 2),
        y: Fx::ratio(1, 2),
        z: Fx::ratio(1, 2),
    };
    let a = checker.value(u, v, p);
    let b = checker.value(
        u,
        v,
        Vec3 {
            x: p.x.add(Fx::one()),
            y: p.y,
            z: p.z,
        },
    );
    let c = checker.value(
        u,
        v,
        Vec3 {
            x: p.x,
            y: p.y.add(Fx::one()),
            z: p.z,
        },
    );
    let d = checker.value(
        u,
        v,
        Vec3 {
            x: p.x,
            y: p.y,
            z: p.z.add(Fx::one()),
        },
    );
    let e = checker.value(
        u,
        v,
        Vec3 {
            x: p.x.add(fxw(2)),
            y: p.y,
            z: p.z,
        },
    );
    assert_eq!(a, even, "base cell must read the even texture");
    assert_eq!(b, odd);
    assert_eq!(c, odd);
    assert_eq!(d, odd);
    assert_eq!(e, even, "two cells away is the same parity again");
}

// A lone diffuse sphere under the gradient sky at one sample and one
// bounce: covered pixels absorb everything and come out strictly darker
// than the sky behind them.
#[test]
fn silhouette_darker_than_background() {
    let mut cam = Camera::new();
    cam.image_width = 40;
    cam.samples_per_pixel = 1;
    cam.max_depth = 1;
    cam.look_from = v3w(0, 0, 3);
    cam.look_at = v3w(0, 0, 0);
    assert!(cam.config_ok());
    let mut world = HittableList::new();
    world.add(Arc::new(Hittable::Sphere(Sphere::new(
        v3w(0, 0, 0),
        Fx::one(),
        white_lambertian(),
    ))));
    let scene = Hittable::List(world);
    let sky_only = Hittable::List(HittableList::new());
    let with_sphere = cam.render(&scene, 11);
    let background = cam.render(&sky_only, 11);
    assert_eq!(with_sphere.len(), background.len());
    let mut covered = 0;
    for (p, b) in with_sphere.iter().zip(background.iter()) {
        if p != b {
            covered += 1;
            assert_eq!(*p, 0, "covered pixels absorb all light at depth one");
            assert_ne!(*b, 0, "the sky behind the silhouette is lit");
        }
    }
    assert!(covered > 50, "the sphere must cover a visible disk");
}

// One seed, one image: rendering twice is byte-identical.
#[test]
fn render_is_deterministic_in_the_seed() {
    let (cam, world) = scenes::quads(32, 1, 2);
    assert!(cam.config_ok());
    let a = cam.render(&world, 987654321);
    let b = cam.render(&world, 987654321);
    assert_eq!(a, b);
    let c = cam.render(&world, 987654322);
    assert_ne!(a, c, "a different seed should perturb at least one pixel");
}

// A Cornell-style room whose only light is forced to black renders to an
// all-black image: there is no other light path.
#[test]
fn black_light_means_black_image() {
    let (mut cam, _ignored) = scenes::cornell_box(24, 1, 4);
    cam.image_width = 24;
    assert!(cam.config_ok());
    let mut world = HittableList::new();
    let white = Arc::new(Lambertian::from_color(Vec3 {
        x: Fx::ratio(73, 100),
        y: Fx::ratio(73, 100),
        z: Fx::ratio(73, 100),
    }));
    world.add(Arc::new(Hittable::Quad(Quad::new(
        v3w(555, 0, 0),
        v3w(0, 555, 0),
        v3w(0, 0, 555),
        Arc::new(Lambertian::from_color(v3w(0, 1, 0))),
    ))));
    world.add(Arc::new(Hittable::Quad(Quad::new(
        v3w(0, 0, 0),
        v3w(0, 555, 0),
        v3w(0, 0, 555),
        white.clone(),
    ))));
    world.add(Arc::new(Hittable::Quad(Quad::new(
        v3w(0, 0, 0),
        v3w(555, 0, 0),
        v3w(0, 0, 555),
        white,
    ))));
    // the only emitter, forced to black
    world.add(Arc::new(Hittable::Quad(Quad::new(
        v3w(343, 554, 332),
        v3w(-130, 0, 0),
        v3w(0, 0, -105),
        Arc::new(DiffuseLight::color(v3w(0, 0, 0))),
    ))));
    let buf = cam.render(&Hittable::List(world), 5);
    assert!(buf.iter().all(|&p| p == 0), "no emitters, no light");
}

#[test]
fn camera_reports_configured_shape() {
    let mut cam = Camera::new();
    cam.image_width = 100;
    assert_eq!(cam.render_width(), 100);
    assert_eq!(cam.render_height(), 100);
    cam.aspect_ratio = Fx::whole(2);
    assert_eq!(cam.render_height(), 50);
}

#[test]
fn scene_builders_configure_cameras() {
    let mut rng = Sampler::new(9);
    let (cam, _world) = scenes::checker_spheres(64, 2, 3);
    assert_eq!(cam.render_width(), 64);
    assert!(cam.config_ok());
    let (cam, _world) = scenes::two_perlin_sphere(48, 1, 2, &mut rng);
    assert!(cam.config_ok());
    let (cam, _world) = scenes::simple_light(48, 1, 2, &mut rng);
    assert!(cam.config_ok());
    let (cam, _world) = scenes::earth(48, 1, 2, None);
    assert!(cam.config_ok());
    let (cam, _world) = scenes::cornell_smoke(32, 1, 2);
    assert!(cam.config_ok());
}

// The first book's field renders end to end through its builder.
#[test]
fn random_sphere_field_renders() {
    let mut rng = Sampler::new(2024);
    let (cam, world) = scenes::final_render_chp1(24, 1, 2, &mut rng);
    assert!(cam.config_ok());
    let buf = cam.render(&world, 1);
    assert_eq!(buf.len(), cam.render_width() * cam.render_height());
}

// The second book's closing scene builds and renders end to end.
#[test]
fn final_scene_renders() {
    let mut rng = Sampler::new(77);
    let (cam, world) = scenes::final_scene(16, 1, 2, &mut rng, None);
    assert!(cam.config_ok());
    let buf = cam.render(&world, 1);
    assert_eq!(buf.len(), cam.render_width() * cam.render_height());
}

#[test]
fn packed_pixels_are_rgb_bytes() {
    let buf = ray_tracing::color::pack_color(Vec3 {
        x: Fx::one(),
        y: Fx::zero(),
        z: Fx::ratio(1, 4),
    });
    let r = (buf >> 16) & 0xff;
    let g = (buf >> 8) & 0xff;
    let b = buf & 0xff;
    assert_eq!(r, 255);
    assert_eq!(g, 0);
    // gamma of 1/4 is 1/2 of full scale
    assert!((b as i64 - 128).abs() <= 1, "blue channel {b}");
}
