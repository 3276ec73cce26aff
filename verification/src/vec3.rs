//! Three-component fixed-point vectors, used for points, directions and
//! colors.
//!
//! The mathematical model of a `Vec3` is `V3`, a triple of mantissa
//! integers; every vector operation has a spec-level mirror over `V3`
//! (`add_v`, `dot_v`, `unit_v`, ...), so exec results are pinned exactly.

use vstd::prelude::*;
use crate::fx::Fx;
use crate::fx::fx_add;
use crate::fx::fx_div;
use crate::fx::fx_mul;
use crate::fx::fx_neg;
use crate::fx::fx_sqrt;
use crate::fx::fx_sub;
use crate::fx::iabs;
use crate::rng::Sampler;
use crate::rng::step;
use crate::rng::unit_of;
use crate::rng::range_of;

verus! {

/// The model of a vector: its three mantissas.
pub ghost struct V3 {
    pub x: int,
    pub y: int,
    pub z: int,
}

/// A three-component fixed-point vector.
#[derive(Clone, Copy, PartialEq, Eq, Structural, Debug)]
pub struct Vec3 {
    pub x: Fx,
    pub y: Fx,
    pub z: Fx,
}

impl View for Vec3 {
    type V = V3;

    open spec fn view(&self) -> V3 {
        V3 { x: self.x@, y: self.y@, z: self.z@ }
    }
}

/// Componentwise sum.
pub open spec fn add_v(a: V3, b: V3) -> V3 {
    V3 { x: fx_add(a.x, b.x), y: fx_add(a.y, b.y), z: fx_add(a.z, b.z) }
}

/// Componentwise difference.
pub open spec fn sub_v(a: V3, b: V3) -> V3 {
    V3 { x: fx_sub(a.x, b.x), y: fx_sub(a.y, b.y), z: fx_sub(a.z, b.z) }
}

/// Componentwise negation.
pub open spec fn neg_v(a: V3) -> V3 {
    V3 { x: fx_neg(a.x), y: fx_neg(a.y), z: fx_neg(a.z) }
}

/// Scaling by a scalar mantissa.
pub open spec fn scale_v(a: V3, k: int) -> V3 {
    V3 { x: fx_mul(a.x, k), y: fx_mul(a.y, k), z: fx_mul(a.z, k) }
}

/// Componentwise (Hadamard) product, the composition of attenuations.
pub open spec fn hadamard_v(a: V3, b: V3) -> V3 {
    V3 { x: fx_mul(a.x, b.x), y: fx_mul(a.y, b.y), z: fx_mul(a.z, b.z) }
}

/// Inner product.
pub open spec fn dot_v(a: V3, b: V3) -> int {
    fx_add(fx_add(fx_mul(a.x, b.x), fx_mul(a.y, b.y)), fx_mul(a.z, b.z))
}

/// Cross product.
pub open spec fn cross_v(a: V3, b: V3) -> V3 {
    V3 {
        x: fx_sub(fx_mul(a.y, b.z), fx_mul(a.z, b.y)),
        y: fx_sub(fx_mul(a.z, b.x), fx_mul(a.x, b.z)),
        z: fx_sub(fx_mul(a.x, b.y), fx_mul(a.y, b.x)),
    }
}

/// Squared length.
pub open spec fn len_sq_v(a: V3) -> int {
    dot_v(a, a)
}

/// Length.
pub open spec fn len_v(a: V3) -> int {
    fx_sqrt(len_sq_v(a))
}

/// The vector rescaled to unit length; a zero-length vector saturates.
pub open spec fn unit_v(a: V3) -> V3 {
    let l = len_v(a);
    V3 { x: fx_div(a.x, l), y: fx_div(a.y, l), z: fx_div(a.z, l) }
}

/// Componentwise division by a scalar mantissa.
pub open spec fn div_scalar_v(a: V3, k: int) -> V3 {
    V3 { x: fx_div(a.x, k), y: fx_div(a.y, k), z: fx_div(a.z, k) }
}

/// All components are within the degeneracy threshold of zero.
pub open spec fn near_zero_v(a: V3) -> bool {
    iabs(a.x) < 8 && iabs(a.y) < 8 && iabs(a.z) < 8
}

/// Mirror reflection of `v` about the normal `n`.
pub open spec fn reflect_v(v: V3, n: V3) -> V3 {
    sub_v(v, scale_v(n, fx_mul(131072, dot_v(v, n))))
}

impl Vec3 {
    /// The vector with the given components.
    pub fn new(x: Fx, y: Fx, z: Fx) -> (r: Vec3)
        ensures
            r@ == (V3 { x: x@, y: y@, z: z@ }),
    {
        Vec3 { x, y, z }
    }

    /// The zero vector, also the color black.
    pub fn zero() -> (r: Vec3)
        ensures
            r@ == (V3 { x: 0, y: 0, z: 0 }),
    {
        Vec3 { x: Fx::zero(), y: Fx::zero(), z: Fx::zero() }
    }

    /// The vector of three whole numbers.
    pub fn whole(x: i64, y: i64, z: i64) -> (r: Vec3)
        ensures
            r@ == (V3 {
                x: crate::fx::fx_of_whole(x as int),
                y: crate::fx::fx_of_whole(y as int),
                z: crate::fx::fx_of_whole(z as int),
            }),
    {
        Vec3 { x: Fx::whole(x), y: Fx::whole(y), z: Fx::whole(z) }
    }

    /// Componentwise sum.
    pub fn add(self, o: Vec3) -> (r: Vec3)
        ensures
            r@ == add_v(self@, o@),
    {
        Vec3 { x: self.x.add(o.x), y: self.y.add(o.y), z: self.z.add(o.z) }
    }

    /// Componentwise difference.
    pub fn sub(self, o: Vec3) -> (r: Vec3)
        ensures
            r@ == sub_v(self@, o@),
    {
        Vec3 { x: self.x.sub(o.x), y: self.y.sub(o.y), z: self.z.sub(o.z) }
    }

    /// Componentwise negation.
    pub fn neg(self) -> (r: Vec3)
        ensures
            r@ == neg_v(self@),
    {
        Vec3 { x: self.x.neg(), y: self.y.neg(), z: self.z.neg() }
    }

    /// Scaling by a scalar.
    pub fn scale(self, k: Fx) -> (r: Vec3)
        ensures
            r@ == scale_v(self@, k@),
    {
        Vec3 { x: self.x.mul(k), y: self.y.mul(k), z: self.z.mul(k) }
    }

    /// Componentwise division by a scalar.
    pub fn div_scalar(self, k: Fx) -> (r: Vec3)
        ensures
            r@ == div_scalar_v(self@, k@),
    {
        Vec3 { x: self.x.div(k), y: self.y.div(k), z: self.z.div(k) }
    }

    /// Componentwise product.
    pub fn hadamard(self, o: Vec3) -> (r: Vec3)
        ensures
            r@ == hadamard_v(self@, o@),
    {
        Vec3 { x: self.x.mul(o.x), y: self.y.mul(o.y), z: self.z.mul(o.z) }
    }

    /// Inner product.
    pub fn dot(self, o: Vec3) -> (r: Fx)
        ensures
            r@ == dot_v(self@, o@),
    {
        self.x.mul(o.x).add(self.y.mul(o.y)).add(self.z.mul(o.z))
    }

    /// Cross product.
    pub fn cross(self, o: Vec3) -> (r: Vec3)
        ensures
            r@ == cross_v(self@, o@),
    {
        Vec3 {
            x: self.y.mul(o.z).sub(self.z.mul(o.y)),
            y: self.z.mul(o.x).sub(self.x.mul(o.z)),
            z: self.x.mul(o.y).sub(self.y.mul(o.x)),
        }
    }

    /// Squared length.
    pub fn length_squared(self) -> (r: Fx)
        ensures
            r@ == len_sq_v(self@),
    {
        self.dot(self)
    }

    /// Length.
    pub fn length(self) -> (r: Fx)
        ensures
            r@ == len_v(self@),
            r@ >= 0,
    {
        self.length_squared().sqrt()
    }

    /// The same direction rescaled to unit length.
    pub fn unit(self) -> (r: Vec3)
        ensures
            r@ == unit_v(self@),
    {
        let l = self.length();
        Vec3 { x: self.x.div(l), y: self.y.div(l), z: self.z.div(l) }
    }

    /// Whether all components sit within the degeneracy threshold, the guard
    /// against vanishing scatter directions.
    pub fn near_zero(self) -> (r: bool)
        ensures
            r == near_zero_v(self@),
    {
        let e = Fx::raw(8);
        self.x.abs().lt(e) && self.y.abs().lt(e) && self.z.abs().lt(e)
    }

    /// Mirror reflection about a normal.
    pub fn reflect(self, n: Vec3) -> (r: Vec3)
        ensures
            r@ == reflect_v(self@, n@),
    {
        self.sub(n.scale(Fx::raw(131072).mul(self.dot(n))))
    }

    /// A vector of three unit-interval draws.
    pub fn sample(rng: &mut Sampler) -> (r: Vec3)
        ensures
            final(rng).state == step(step(step(old(rng).state))),
            r@ == sample_s(old(rng).state),
    {
        let x = rng.next_unit();
        let y = rng.next_unit();
        let z = rng.next_unit();
        Vec3 { x, y, z }
    }

    /// A vector of three draws from `[min, max)`.
    pub fn sample_range(rng: &mut Sampler, min: Fx, max: Fx) -> (r: Vec3)
        ensures
            final(rng).state == step(step(step(old(rng).state))),
            r@ == sample_range_s(old(rng).state, min@, max@),
    {
        let x = rng.next_range(min, max);
        let y = rng.next_range(min, max);
        let z = rng.next_range(min, max);
        Vec3 { x, y, z }
    }
}

/// Snell refraction of the unit direction `uv` at a normal `n` with relative
/// index `etai`: the perpendicular part scaled, the parallel part rebuilt
/// from what length remains.
pub open spec fn refract_v(uv: V3, n: V3, etai: int) -> V3 {
    let cos = crate::interval::imin(dot_v(neg_v(uv), n), 65536);
    let perp = scale_v(add_v(uv, scale_v(n, cos)), etai);
    let k = crate::fx::fx_abs(fx_sub(65536, len_sq_v(perp)));
    let par = scale_v(n, fx_neg(crate::fx::fx_sqrt(k)));
    add_v(perp, par)
}

/// Model of `Vec3::random_unit`: rejection-sample the cube until the point
/// falls in a usable shell of the unit ball, then normalize; out of fuel, a
/// fixed axis stands in.
pub open spec fn random_unit_s(s: u64, fuel: nat) -> (V3, u64)
    decreases fuel,
{
    if fuel == 0 {
        (V3 { x: 0, y: 0, z: 65536 }, s)
    } else {
        let v = sample_range_s(s, -65536, 65536);
        let s3 = step(step(step(s)));
        let lsq = len_sq_v(v);
        if 16 < lsq && lsq <= 65536 {
            (unit_v(v), s3)
        } else {
            random_unit_s(s3, (fuel - 1) as nat)
        }
    }
}

/// Model of `Vec3::random_in_unit_disk`: rejection-sample the square until
/// the point falls strictly inside the unit disk; out of fuel, the center
/// stands in.
pub open spec fn random_disk_s(s: u64, fuel: nat) -> (V3, u64)
    decreases fuel,
{
    if fuel == 0 {
        (V3 { x: 0, y: 0, z: 0 }, s)
    } else {
        let x = range_of(step(s), -65536, 65536);
        let y = range_of(step(step(s)), -65536, 65536);
        let s2 = step(step(s));
        let v = V3 { x, y, z: 0 };
        if len_sq_v(v) < 65536 {
            (v, s2)
        } else {
            random_disk_s(s2, (fuel - 1) as nat)
        }
    }
}

impl Vec3 {
    /// Snell refraction at a normal.
    pub fn refract(self, n: Vec3, etai: Fx) -> (r: Vec3)
        ensures
            r@ == refract_v(self@, n@, etai@),
    {
        let cos = self.neg().dot(n).min(Fx::one());
        let perp = self.add(n.scale(cos)).scale(etai);
        let k = Fx::one().sub(perp.length_squared()).abs();
        let par = n.scale(k.sqrt().neg());
        perp.add(par)
    }

    /// A direction drawn uniformly from the unit sphere, up to rejection
    /// fuel.
    pub fn random_unit(rng: &mut Sampler) -> (r: Vec3)
        ensures
            r@ == random_unit_s(old(rng).state, 32).0,
            final(rng).state == random_unit_s(old(rng).state, 32).1,
    {
        Self::random_unit_fuel(rng, 32)
    }

    /// The fueled rejection loop behind `random_unit`.
    fn random_unit_fuel(rng: &mut Sampler, fuel: u64) -> (r: Vec3)
        ensures
            r@ == random_unit_s(old(rng).state, fuel as nat).0,
            final(rng).state == random_unit_s(old(rng).state, fuel as nat).1,
        decreases fuel,
    {
        if fuel == 0 {
            Vec3 { x: Fx::zero(), y: Fx::zero(), z: Fx::one() }
        } else {
            let v = Self::sample_range(rng, Fx::one().neg(), Fx::one());
            let lsq = v.length_squared();
            if lsq.gt(Fx::raw(16)) && lsq.le(Fx::one()) {
                v.unit()
            } else {
                Self::random_unit_fuel(rng, fuel - 1)
            }
        }
    }

    /// A point drawn uniformly from the unit disk in the xy-plane, up to
    /// rejection fuel.
    pub fn random_in_unit_disk(rng: &mut Sampler) -> (r: Vec3)
        ensures
            r@ == random_disk_s(old(rng).state, 32).0,
            final(rng).state == random_disk_s(old(rng).state, 32).1,
    {
        Self::random_disk_fuel(rng, 32)
    }

    /// The fueled rejection loop behind `random_in_unit_disk`.
    fn random_disk_fuel(rng: &mut Sampler, fuel: u64) -> (r: Vec3)
        ensures
            r@ == random_disk_s(old(rng).state, fuel as nat).0,
            final(rng).state == random_disk_s(old(rng).state, fuel as nat).1,
        decreases fuel,
    {
        if fuel == 0 {
            Vec3 { x: Fx::zero(), y: Fx::zero(), z: Fx::zero() }
        } else {
            let x = rng.next_range(Fx::one().neg(), Fx::one());
            let y = rng.next_range(Fx::one().neg(), Fx::one());
            let v = Vec3 { x, y, z: Fx::zero() };
            let lsq = v.length_squared();
            if lsq.lt(Fx::one()) {
                v
            } else {
                Self::random_disk_fuel(rng, fuel - 1)
            }
        }
    }
}

/// Model of `Vec3::sample`: three successive unit draws.
pub open spec fn sample_s(s: u64) -> V3 {
    V3 {
        x: unit_of(step(s)),
        y: unit_of(step(step(s))),
        z: unit_of(step(step(step(s)))),
    }
}

/// Model of `Vec3::sample_range`.
pub open spec fn sample_range_s(s: u64, min: int, max: int) -> V3 {
    V3 {
        x: range_of(step(s), min, max),
        y: range_of(step(step(s)), min, max),
        z: range_of(step(step(step(s))), min, max),
    }
}

} // verus!
