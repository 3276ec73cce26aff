//! The camera and its Monte-Carlo integrator.
//!
//! `render_s` is the exact model of the whole render: every pixel of the
//! output buffer is a pure function of the camera configuration, the scene
//! and the seed. Rendering twice with one seed therefore yields the same
//! bytes, and because every pixel is seeded independently, a driver that
//! splits the image into row bands renders the same image.

use vstd::prelude::*;
use crate::color::pack_color;
use crate::color::pack_color_s;
use crate::fx::Fx;
use crate::fx::fx_add;
use crate::fx::fx_div;
use crate::fx::fx_mul;
use crate::fx::fx_of_whole;
use crate::fx::fx_sub;
use crate::hittable::Hittable;
use crate::hittable::hit_s;
use crate::interval::Interval;
use crate::interval::imax;
use crate::material::emitted_s;
use crate::material::scatter_s;
use crate::ray::Ray;
use crate::ray::RayS;
use crate::rng::Sampler;
use crate::rng::seed_fix;
use crate::rng::step;
use crate::rng::unit_of;
use crate::vec3::V3;
use crate::vec3::Vec3;
use crate::vec3::add_v;
use crate::vec3::cross_v;
use crate::vec3::div_scalar_v;
use crate::vec3::hadamard_v;
use crate::vec3::neg_v;
use crate::vec3::random_disk_s;
use crate::vec3::scale_v;
use crate::vec3::sub_v;
use crate::vec3::unit_v;

verus! {

/// The render configuration: image shape, sampling budget, view frame,
/// and defocus. Angles are carried as tangents of their half-angle, which
/// is all the viewport construction uses.
pub struct Camera {
    pub aspect_ratio: Fx,
    pub image_width: usize,
    pub samples_per_pixel: usize,
    pub max_depth: u32,
    pub background: Option<Vec3>,
    pub tan_half_vfov: Fx,
    pub look_from: Vec3,
    pub look_at: Vec3,
    pub v_up: Vec3,
    pub tan_half_defocus: Fx,
    pub focus_dist: Fx,
}

/// The derived viewport geometry: camera center, the location of the first
/// pixel, the per-pixel steps, and the defocus disk basis.
pub ghost struct DerivedS {
    pub center: V3,
    pub pixel00: V3,
    pub du: V3,
    pub dv: V3,
    pub ddu: V3,
    pub ddv: V3,
    pub defocus: bool,
}

/// The exec twin of the derived viewport geometry.
pub struct Derived {
    pub center: Vec3,
    pub pixel00: Vec3,
    pub du: Vec3,
    pub dv: Vec3,
    pub ddu: Vec3,
    pub ddv: Vec3,
    pub defocus: bool,
}

impl View for Derived {
    type V = DerivedS;

    open spec fn view(&self) -> DerivedS {
        DerivedS {
            center: self.center@,
            pixel00: self.pixel00@,
            du: self.du@,
            dv: self.dv@,
            ddu: self.ddu@,
            ddv: self.ddv@,
            defocus: self.defocus,
        }
    }
}

/// The image height implied by a width and aspect ratio, at least one row.
pub open spec fn height_s(width: int, aspect: int) -> int {
    imax(1, fx_div(fx_of_whole(width), aspect) / 65536)
}

/// The one-time viewport computation of the camera model.
pub open spec fn derive_s(c: Camera, height: int) -> DerivedS {
    let center = c.look_from@;
    let viewport_height = fx_mul(fx_mul(131072, c.tan_half_vfov@), c.focus_dist@);
    let viewport_width = fx_mul(
        viewport_height,
        fx_div(fx_of_whole(c.image_width as int), fx_of_whole(height)),
    );
    let w = unit_v(sub_v(c.look_from@, c.look_at@));
    let u = unit_v(cross_v(c.v_up@, w));
    let v = cross_v(w, u);
    let viewport_u = scale_v(u, viewport_width);
    let viewport_v = scale_v(neg_v(v), viewport_height);
    let du = div_scalar_v(viewport_u, fx_of_whole(c.image_width as int));
    let dv = div_scalar_v(viewport_v, fx_of_whole(height));
    let upper_left = sub_v(
        sub_v(
            sub_v(center, scale_v(w, c.focus_dist@)),
            scale_v(viewport_u, 32768),
        ),
        scale_v(viewport_v, 32768),
    );
    let pixel00 = add_v(upper_left, scale_v(add_v(du, dv), 32768));
    let defocus_radius = fx_mul(c.focus_dist@, c.tan_half_defocus@);
    DerivedS {
        center,
        pixel00,
        du,
        dv,
        ddu: scale_v(u, defocus_radius),
        ddv: scale_v(v, defocus_radius),
        defocus: c.tan_half_defocus@ > 0,
    }
}

/// The per-pixel sampler seed: the render seed folded with the pixel's
/// coordinates, so pixels are independent and any row partition of the
/// image renders identically.
pub open spec fn pixel_seed_s(seed: u64, x: int, y: int) -> u64 {
    seed_fix(seed ^ ((x as u64) << 32) ^ (y as u64))
}

/// Model of one jittered camera ray: a box-filter offset inside the pixel
/// footprint, a defocus-disk origin when the aperture is open, and a random
/// exposure time.
pub open spec fn get_ray_s(d: DerivedS, x: int, y: int, s: u64) -> (RayS, u64) {
    let ox = fx_sub(unit_of(step(s)), 32768);
    let oy = fx_sub(unit_of(step(step(s))), 32768);
    let s2 = step(step(s));
    let pixel_sample = add_v(
        add_v(d.pixel00, scale_v(d.du, fx_add(fx_of_whole(x), ox))),
        scale_v(d.dv, fx_add(fx_of_whole(y), oy)),
    );
    let od = if d.defocus {
        let pd = random_disk_s(s2, 32);
        (add_v(add_v(d.center, scale_v(d.ddu, pd.0.x)), scale_v(d.ddv, pd.0.y)), pd.1)
    } else {
        (d.center, s2)
    };
    let s3 = step(od.1);
    let time = unit_of(s3);
    (RayS { orig: od.0, dir: sub_v(pixel_sample, od.0), time }, s3)
}

/// The background color a missed ray sees: the configured constant, or the
/// white-to-blue sky gradient by the ray's upward component.
pub open spec fn background_s(bg: Option<Vec3>, r: RayS) -> V3 {
    match bg {
        Option::Some(c) => c@,
        Option::None => {
            let a = fx_mul(fx_add(unit_v(r.dir).y, 65536), 32768);
            add_v(
                scale_v(V3 { x: 65536, y: 65536, z: 65536 }, fx_sub(65536, a)),
                scale_v(V3 { x: 32768, y: 45875, z: 65536 }, a),
            )
        },
    }
}

/// Model of the recursive path trace: cut off at depth zero, emitted light
/// plus attenuated recursion at a scatter, emission alone at an absorption,
/// the background at a miss.
pub open spec fn ray_color_s(r: RayS, world: Hittable, depth: nat, bg: Option<Vec3>, s: u64) -> (
    V3,
    u64,
)
    decreases depth,
{
    if depth == 0 {
        (V3 { x: 0, y: 0, z: 0 }, s)
    } else {
        let h = hit_s(world, r, 66, i64::MAX as int, s);
        match h.0 {
            Option::None => (background_s(bg, r), h.1),
            Option::Some(rec) => {
                let emitted = emitted_s(rec.mat, rec.u, rec.v, rec.p);
                let sc = scatter_s(rec.mat, r, rec, h.1);
                match sc.0 {
                    Option::None => (emitted, sc.1),
                    Option::Some(pair) => {
                        let rc = ray_color_s(pair.1, world, (depth - 1) as nat, bg, sc.1);
                        (add_v(emitted, hadamard_v(pair.0, rc.0)), rc.1)
                    },
                }
            },
        }
    }
}

/// The sum of the first `k` samples of a pixel, threading the sampler.
pub open spec fn sample_sum_s(
    d: DerivedS,
    world: Hittable,
    depth: nat,
    bg: Option<Vec3>,
    x: int,
    y: int,
    s: u64,
    k: nat,
) -> (V3, u64)
    decreases k,
{
    if k == 0 {
        (V3 { x: 0, y: 0, z: 0 }, s)
    } else {
        let prev = sample_sum_s(d, world, depth, bg, x, y, s, (k - 1) as nat);
        let ray = get_ray_s(d, x, y, prev.1);
        let col = ray_color_s(ray.0, world, depth, bg, ray.1);
        (add_v(prev.0, col.0), col.1)
    }
}

/// The finished color of one pixel: the sample average.
pub open spec fn pixel_color_s(
    c: Camera,
    d: DerivedS,
    world: Hittable,
    seed: u64,
    x: int,
    y: int,
) -> V3 {
    let sum = sample_sum_s(
        d,
        world,
        c.max_depth as nat,
        c.background,
        x,
        y,
        pixel_seed_s(seed, x, y),
        c.samples_per_pixel as nat,
    );
    scale_v(sum.0, fx_div(65536, fx_of_whole(c.samples_per_pixel as int)))
}

/// The whole image: row-major packed pixels.
pub open spec fn render_s(c: Camera, world: Hittable, seed: u64) -> Seq<u32> {
    let w = c.image_width as int;
    let h = height_s(w, c.aspect_ratio@);
    Seq::new(
        (w * h) as nat,
        |k: int| pack_color_s(pixel_color_s(c, derive_s(c, h), world, seed, k % w, k / w)),
    )
}

/// At unit aspect ratio the image is square: the derived height equals the
/// width.
pub proof fn lemma_unit_aspect_height(width: int)
    requires
        1 <= width <= 8192,
    ensures
        height_s(width, 65536) == width,
{
    assert(fx_of_whole(width) == width * 65536);
    assert(0 <= width * 65536 <= 8192 * 65536) by (nonlinear_arith)
        requires
            1 <= width <= 8192,
    ;
    vstd::arithmetic::div_mod::lemma_div_by_multiple(width * 65536, 65536);
    assert(crate::fx::tdiv(width * 65536 * 65536, 65536) == width * 65536) by {
        assert((width * 65536) * 65536 == width * 65536 * 65536) by (nonlinear_arith);
        assert(0 <= width * 65536 * 65536) by (nonlinear_arith)
            requires
                0 <= width,
        ;
    }
    vstd::arithmetic::div_mod::lemma_div_by_multiple(width, 65536);
}

/// The configurations under which the renderer is run: positive sampling
/// budget and an image small enough to index and allocate.
pub open spec fn config_ok_s(c: Camera) -> bool {
    &&& 1 <= c.image_width <= 8192
    &&& 1 <= height_s(c.image_width as int, c.aspect_ratio@) <= 8192
    &&& 1 <= c.samples_per_pixel <= 65536
}

impl Camera {
    /// A camera with the book defaults: a unit square image, ten samples,
    /// ten bounces, the gradient sky, and a 90-degree field of view.
    pub fn new() -> (r: Camera)
        ensures
            r.aspect_ratio@ == 65536,
            r.image_width == 100usize,
            r.samples_per_pixel == 10usize,
            r.max_depth == 10u32,
            r.background is None,
            r.tan_half_vfov@ == 65536,
            r.look_from@ == (V3 { x: 0, y: 0, z: 0 }),
            r.look_at@ == (V3 { x: 0, y: 0, z: fx_of_whole(-1) }),
            r.v_up@ == (V3 { x: 0, y: 65536, z: 0 }),
            r.tan_half_defocus@ == 0,
            r.focus_dist@ == fx_of_whole(10),
    {
        Camera {
            aspect_ratio: Fx::one(),
            image_width: 100,
            samples_per_pixel: 10,
            max_depth: 10,
            background: Option::None,
            tan_half_vfov: Fx::one(),
            look_from: Vec3::zero(),
            look_at: Vec3::whole(0, 0, -1),
            v_up: Vec3::whole(0, 1, 0),
            tan_half_defocus: Fx::zero(),
            focus_dist: Fx::whole(10),
        }
    }

    /// Whether this configuration can be rendered: an exec twin of
    /// `config_ok_s`, for drivers that take the size from a user.
    pub fn config_ok(&self) -> (r: bool)
        ensures
            r == config_ok_s(*self),
    {
        if self.image_width < 1 || self.image_width > 8192 {
            return false;
        }
        if self.samples_per_pixel < 1 || self.samples_per_pixel > 65536 {
            return false;
        }
        let wf = Fx::whole(self.image_width as i64);
        let h = wf.div(self.aspect_ratio).floor_units();
        let h2: i64 = if h < 1 {
            1
        } else {
            h
        };
        1 <= h2 && h2 <= 8192
    }

    /// The configured image width.
    pub fn render_width(&self) -> (r: usize)
        ensures
            r == self.image_width,
    {
        self.image_width
    }

    /// The image height implied by the width and aspect ratio.
    pub fn render_height(&self) -> (r: usize)
        requires
            self.image_width <= 8192,
            height_s(self.image_width as int, self.aspect_ratio@) <= 8192,
        ensures
            r as int == height_s(self.image_width as int, self.aspect_ratio@),
    {
        let wf = Fx::whole(self.image_width as i64);
        let q = wf.div(self.aspect_ratio);
        let h = q.floor_units();
        if h < 1 {
            1
        } else {
            h as usize
        }
    }

    /// The one-time viewport computation.
    fn derive(&self, height: usize) -> (r: Derived)
        requires
            self.image_width <= 8192,
            height <= 8192,
        ensures
            r@ == derive_s(*self, height as int),
    {
        let center = self.look_from;
        let viewport_height = Fx::raw(131072).mul(self.tan_half_vfov).mul(self.focus_dist);
        let hfx = Fx::whole(height as i64);
        let wfx = Fx::whole(self.image_width as i64);
        let viewport_width = viewport_height.mul(wfx.div(hfx));
        let w = self.look_from.sub(self.look_at).unit();
        let u = self.v_up.cross(w).unit();
        let v = w.cross(u);
        let viewport_u = u.scale(viewport_width);
        let viewport_v = v.neg().scale(viewport_height);
        let du = viewport_u.div_scalar(wfx);
        let dv = viewport_v.div_scalar(hfx);
        let half = Fx::raw(32768);
        let upper_left = center.sub(w.scale(self.focus_dist)).sub(viewport_u.scale(half)).sub(
            viewport_v.scale(half),
        );
        let pixel00 = upper_left.add(du.add(dv).scale(half));
        let defocus_radius = self.focus_dist.mul(self.tan_half_defocus);
        Derived {
            center,
            pixel00,
            du,
            dv,
            ddu: u.scale(defocus_radius),
            ddv: v.scale(defocus_radius),
            defocus: self.tan_half_defocus.gt(Fx::zero()),
        }
    }

    /// One jittered camera ray through a pixel.
    fn get_ray(d: &Derived, x: usize, y: usize, rng: &mut Sampler) -> (r: Ray)
        requires
            x <= 8192,
            y <= 8192,
        ensures
            r@ == get_ray_s(d@, x as int, y as int, old(rng).state).0,
            final(rng).state == get_ray_s(d@, x as int, y as int, old(rng).state).1,
    {
        let half = Fx::raw(32768);
        let ox = rng.next_unit().sub(half);
        let oy = rng.next_unit().sub(half);
        let pixel_sample = d.pixel00.add(d.du.scale(Fx::whole(x as i64).add(ox))).add(
            d.dv.scale(Fx::whole(y as i64).add(oy)),
        );
        let origin = if d.defocus {
            let pd = Vec3::random_in_unit_disk(rng);
            d.center.add(d.ddu.scale(pd.x)).add(d.ddv.scale(pd.y))
        } else {
            d.center
        };
        let time = rng.next_unit();
        Ray { origin, direction: pixel_sample.sub(origin), time }
    }

    /// The recursive path trace of one ray.
    fn ray_color(r: &Ray, world: &Hittable, depth: u32, bg: &Option<Vec3>, rng: &mut Sampler) -> (res: Vec3)
        ensures
            res@ == ray_color_s(r@, *world, depth as nat, *bg, old(rng).state).0,
            final(rng).state == ray_color_s(r@, *world, depth as nat, *bg, old(rng).state).1,
        decreases depth,
    {
        if depth == 0 {
            return Vec3::zero();
        }
        let window = Interval::new(Fx::raw(66), Fx::top());
        let h = world.hit(r, window, rng);
        match h {
            Option::None => {
                match bg {
                    Option::Some(c) => *c,
                    Option::None => {
                        let a = r.direction.unit().y.add(Fx::one()).mul(Fx::raw(32768));
                        let white = Vec3 { x: Fx::one(), y: Fx::one(), z: Fx::one() };
                        let blue = Vec3 { x: Fx::raw(32768), y: Fx::raw(45875), z: Fx::one() };
                        white.scale(Fx::one().sub(a)).add(blue.scale(a))
                    },
                }
            },
            Option::Some(rec) => {
                let emitted = rec.mat.emitted(rec.u, rec.v, rec.p);
                let sc = rec.mat.scatter(r, &rec, rng);
                match sc {
                    Option::None => emitted,
                    Option::Some(pair) => {
                        let rc = Self::ray_color(&pair.1, world, depth - 1, bg, rng);
                        emitted.add(pair.0.hadamard(rc))
                    },
                }
            },
        }
    }

    /// The finished color of one pixel: average the configured number of
    /// jittered samples.
    fn pixel_color(&self, d: &Derived, world: &Hittable, seed: u64, x: usize, y: usize) -> (res: Vec3)
        requires
            config_ok_s(*self),
            x <= 8192,
            y <= 8192,
        ensures
            res@ == pixel_color_s(*self, d@, *world, seed, x as int, y as int),
    {
        let mut rng = Sampler::new(seed ^ ((x as u64) << 32u64) ^ (y as u64));
        let mut sum = Vec3::zero();
        let mut k: usize = 0;
        let ghost s0 = rng.state;
        while k < self.samples_per_pixel
            invariant
                k <= self.samples_per_pixel,
                x <= 8192,
                y <= 8192,
                sum@ == sample_sum_s(
                    d@,
                    *world,
                    self.max_depth as nat,
                    self.background,
                    x as int,
                    y as int,
                    s0,
                    k as nat,
                ).0,
                rng.state == sample_sum_s(
                    d@,
                    *world,
                    self.max_depth as nat,
                    self.background,
                    x as int,
                    y as int,
                    s0,
                    k as nat,
                ).1,
            decreases self.samples_per_pixel - k,
        {
            let ray = Self::get_ray(d, x, y, &mut rng);
            let col = Self::ray_color(&ray, world, self.max_depth, &self.background, &mut rng);
            sum = sum.add(col);
            k = k + 1;
        }
        let scale = Fx::one().div(Fx::whole(self.samples_per_pixel as i64));
        sum.scale(scale)
    }

    /// Render the image: one packed pixel per entry, row-major. The result
    /// follows `render_s` exactly, so rendering is deterministic in the
    /// seed.
    pub fn render(&self, world: &Hittable, seed: u64) -> (res: Vec<u32>)
        requires
            config_ok_s(*self),
        ensures
            res@ == render_s(*self, *world, seed),
            res@.len() == self.image_width * height_s(
                self.image_width as int,
                self.aspect_ratio@,
            ),
    {
        let w = self.image_width;
        let h = self.render_height();
        let d = self.derive(h);
        let mut buf: Vec<u32> = Vec::new();
        let mut y: usize = 0;
        proof {
            assert((w * h) as int == w as int * h as int) by (nonlinear_arith)
                requires
                    w <= 8192,
                    h <= 8192,
            ;
        }
        while y < h
            invariant
                y <= h,
                w == self.image_width,
                h as int == height_s(self.image_width as int, self.aspect_ratio@),
                d@ == derive_s(*self, h as int),
                config_ok_s(*self),
                buf@.len() == y * w,
                forall|k: int|
                    0 <= k < y * w ==> buf@[k] == #[trigger] render_s(*self, *world, seed)[k],
            decreases h - y,
        {
            let mut x: usize = 0;
            while x < w
                invariant
                    y < h,
                    x <= w,
                    w == self.image_width,
                    h as int == height_s(self.image_width as int, self.aspect_ratio@),
                    d@ == derive_s(*self, h as int),
                    config_ok_s(*self),
                    buf@.len() == y * w + x,
                    forall|k: int|
                        0 <= k < y * w + x ==> buf@[k] == #[trigger] render_s(
                            *self,
                            *world,
                            seed,
                        )[k],
                decreases w - x,
            {
                let c = self.pixel_color(&d, world, seed, x, y);
                let p = pack_color(c);
                proof {
                    let kk = y * w + x as int;
                    assert(0 <= kk < w as int * h as int) by (nonlinear_arith)
                        requires
                            0 <= (y as int) < h as int,
                            0 <= (x as int) < w as int,
                            kk == y * w + x as int,
                    ;
                    assert(kk % (w as int) == x as int && kk / (w as int) == y as int) by {
                        vstd::arithmetic::div_mod::lemma_fundamental_div_mod_converse(
                            kk,
                            w as int,
                            y as int,
                            x as int,
                        );
                    }
                    assert(render_s(*self, *world, seed)[kk] == pack_color_s(
                        pixel_color_s(
                            *self,
                            derive_s(*self, h as int),
                            *world,
                            seed,
                            x as int,
                            y as int,
                        ),
                    ));
                }
                buf.push(p);
                x = x + 1;
                proof {
                    assert(buf@.len() == y * w + x);
                }
            }
            y = y + 1;
            proof {
                assert((y as int) * w == (y - 1) * w + w) by (nonlinear_arith);
            }
        }
        proof {
            assert(buf@.len() == h * w);
            assert(h as int * w as int == w as int * h as int) by (nonlinear_arith);
            assert(buf@ =~= render_s(*self, *world, seed));
        }
        buf
    }
}

} // verus!
