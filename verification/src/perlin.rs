//! Perlin-style gradient noise with turbulence.
//!
//! A fixed lattice of 256 random gradient vectors is indexed through three
//! shuffled permutation tables; a point is smoothed into its lattice cell by
//! a Hermite fade and the eight corner gradients are blended. `noise_s` and
//! `turb_s` are the exact models over the table contents.

use vstd::prelude::*;
use crate::fx::Fx;
use crate::fx::fx_abs;
use crate::fx::fx_add;
use crate::fx::fx_mul;
use crate::fx::fx_sub;
use crate::rng::Sampler;
use crate::vec3::V3;
use crate::vec3::Vec3;
use crate::vec3::dot_v;
use crate::vec3::scale_v;

verus! {

/// The fractional position inside a unit cell.
pub open spec fn frac_s(x: int) -> int {
    x % 65536
}

/// The cell index of a coordinate.
pub open spec fn cell_s(x: int) -> int {
    x / 65536
}

/// A lattice coordinate folded onto the table size.
pub open spec fn lat_s(c: int) -> int {
    c % 256
}

/// The Hermite fade `t*t*(3 - 2t)`.
pub open spec fn fade_s(t: int) -> int {
    fx_mul(fx_mul(t, t), fx_sub(196608, fx_mul(131072, t)))
}

/// A faded weight or its complement, by corner selector.
pub open spec fn smix_s(t: int, sel: int) -> int {
    if sel == 1 {
        t
    } else {
        fx_sub(65536, t)
    }
}

/// The tables of a noise field: gradients and the three permutations.
pub ghost struct NoiseData {
    pub grads: Seq<Vec3>,
    pub px: Seq<u16>,
    pub py: Seq<u16>,
    pub pz: Seq<u16>,
}

/// One corner's contribution to the blend.
pub open spec fn corner_s(
    d: NoiseData,
    i: int,
    j: int,
    k: int,
    di: int,
    dj: int,
    dk: int,
    u: int,
    v: int,
    w: int,
    uu: int,
    vv: int,
    ww: int,
) -> int {
    let xi = (d.px[lat_s(i + di)] ^ d.py[lat_s(j + dj)] ^ d.pz[lat_s(k + dk)]) as int;
    let g = d.grads[xi]@;
    let wv = V3 { x: u - di * 65536, y: v - dj * 65536, z: w - dk * 65536 };
    let wt = fx_mul(fx_mul(smix_s(uu, di), smix_s(vv, dj)), smix_s(ww, dk));
    fx_mul(wt, dot_v(g, wv))
}

/// The blended gradient noise at a point.
pub open spec fn noise_s(d: NoiseData, p: V3) -> int {
    let u = frac_s(p.x);
    let v = frac_s(p.y);
    let w = frac_s(p.z);
    let i = cell_s(p.x);
    let j = cell_s(p.y);
    let k = cell_s(p.z);
    let uu = fade_s(u);
    let vv = fade_s(v);
    let ww = fade_s(w);
    let acc = corner_s(d, i, j, k, 0, 0, 0, u, v, w, uu, vv, ww);
    let acc = fx_add(acc, corner_s(d, i, j, k, 0, 0, 1, u, v, w, uu, vv, ww));
    let acc = fx_add(acc, corner_s(d, i, j, k, 0, 1, 0, u, v, w, uu, vv, ww));
    let acc = fx_add(acc, corner_s(d, i, j, k, 0, 1, 1, u, v, w, uu, vv, ww));
    let acc = fx_add(acc, corner_s(d, i, j, k, 1, 0, 0, u, v, w, uu, vv, ww));
    let acc = fx_add(acc, corner_s(d, i, j, k, 1, 0, 1, u, v, w, uu, vv, ww));
    let acc = fx_add(acc, corner_s(d, i, j, k, 1, 1, 0, u, v, w, uu, vv, ww));
    fx_add(acc, corner_s(d, i, j, k, 1, 1, 1, u, v, w, uu, vv, ww))
}

/// The signed turbulence accumulator: octaves of halving weight over a
/// doubling lattice.
pub open spec fn turb_acc_s(d: NoiseData, p: V3, weight: int, depth: nat) -> int
    decreases depth,
{
    if depth == 0 {
        0
    } else {
        fx_add(
            fx_mul(weight, noise_s(d, p)),
            turb_acc_s(d, scale_v(p, 131072), fx_mul(weight, 32768), (depth - 1) as nat),
        )
    }
}

/// Turbulence: the magnitude of the octave sum.
pub open spec fn turb_s(d: NoiseData, p: V3, depth: nat) -> int {
    fx_abs(turb_acc_s(d, p, 65536, depth))
}

/// A coherent-noise field: gradients and permutations drawn once from the
/// sampler at construction.
#[derive(Debug)]
pub struct Perlin {
    ranvec: Vec<Vec3>,
    perm_x: Vec<u16>,
    perm_y: Vec<u16>,
    perm_z: Vec<u16>,
}

impl Perlin {
    #[verifier::type_invariant]
    spec fn inv(self) -> bool {
        &&& self.ranvec@.len() == 256
        &&& self.perm_x@.len() == 256
        &&& self.perm_y@.len() == 256
        &&& self.perm_z@.len() == 256
        &&& forall|i: int| 0 <= i < 256 ==> self.perm_x@[i] < 256
        &&& forall|i: int| 0 <= i < 256 ==> self.perm_y@[i] < 256
        &&& forall|i: int| 0 <= i < 256 ==> self.perm_z@[i] < 256
    }

    /// The tables, for specification purposes.
    pub closed spec fn data_s(self) -> NoiseData {
        NoiseData {
            grads: self.ranvec@,
            px: self.perm_x@,
            py: self.perm_y@,
            pz: self.perm_z@,
        }
    }

    /// Fresh tables drawn from the sampler.
    pub fn new(rng: &mut Sampler) -> (r: Perlin) {
        let mut ranvec: Vec<Vec3> = Vec::new();
        let mut i: usize = 0;
        while i < 256
            invariant
                i <= 256,
                ranvec@.len() == i,
            decreases 256 - i,
        {
            let one = Fx::one();
            ranvec.push(Vec3::sample_range(rng, one.neg(), one));
            i = i + 1;
        }
        Perlin {
            ranvec,
            perm_x: Self::make_perm(rng),
            perm_y: Self::make_perm(rng),
            perm_z: Self::make_perm(rng),
        }
    }

    /// A shuffled permutation table.
    fn make_perm(rng: &mut Sampler) -> (r: Vec<u16>)
        ensures
            r@.len() == 256,
            forall|i: int| 0 <= i < 256 ==> r@[i] < 256,
    {
        let mut p: Vec<u16> = Vec::new();
        let mut i: usize = 0;
        while i < 256
            invariant
                i <= 256,
                p@.len() == i,
                forall|k: int| 0 <= k < i ==> p@[k] < 256,
            decreases 256 - i,
        {
            p.push(i as u16);
            i = i + 1;
        }
        let mut i: usize = 255;
        while i > 0
            invariant
                i < 256,
                p@.len() == 256,
                forall|k: int| 0 <= k < 256 ==> p@[k] < 256,
            decreases i,
        {
            let j = (rng.next_u64() % ((i as u64) + 1)) as usize;
            let a = p[i];
            let b = p[j];
            p.set(i, b);
            p.set(j, a);
            i = i - 1;
        }
        p
    }

    /// The floor cell and fractional part of one coordinate.
    fn split_coord(x: Fx) -> (r: (i64, Fx))
        ensures
            r.0 as int == cell_s(x@),
            r.1@ == frac_s(x@),
            0 <= r.1@ < 65536,
    {
        let f = x.floor_units();
        proof {
            vstd::arithmetic::div_mod::lemma_fundamental_div_mod(x@, 65536);
            vstd::arithmetic::div_mod::lemma_mod_bound(x@, 65536);
        }
        (f, Fx { bits: x.bits - f * 65536 })
    }

    /// A lattice coordinate folded onto the tables.
    fn lat(c: i64) -> (r: usize)
        requires
            -0x8000_0000_0001 <= c <= 0x8000_0000_0001,
        ensures
            r as int == lat_s(c as int),
            r < 256,
    {
        proof {
            vstd::arithmetic::div_mod::lemma_mod_multiples_vanish(
                0x100_0000_0000,
                c as int,
                256,
            );
            vstd::arithmetic::div_mod::lemma_mod_bound(c as int, 256);
        }
        (((c + 0x1_0000_0000_0000) as u64) % 256) as usize
    }

    /// One corner's contribution.
    #[verifier::rlimit(40)]
    fn corner(
        &self,
        i: i64,
        j: i64,
        k: i64,
        di: i64,
        dj: i64,
        dk: i64,
        u: Fx,
        v: Fx,
        w: Fx,
        uu: Fx,
        vv: Fx,
        ww: Fx,
    ) -> (r: Fx)
        requires
            -0x8000_0000_0000 <= i <= 0x8000_0000_0000,
            -0x8000_0000_0000 <= j <= 0x8000_0000_0000,
            -0x8000_0000_0000 <= k <= 0x8000_0000_0000,
            0 <= di <= 1 && 0 <= dj <= 1 && 0 <= dk <= 1,
            0 <= u@ < 65536 && 0 <= v@ < 65536 && 0 <= w@ < 65536,
        ensures
            r@ == corner_s(
                self.data_s(),
                i as int,
                j as int,
                k as int,
                di as int,
                dj as int,
                dk as int,
                u@,
                v@,
                w@,
                uu@,
                vv@,
                ww@,
            ),
    {
        proof {
            use_type_invariant(self);
        }
        let lx = Self::lat(i + di);
        let ly = Self::lat(j + dj);
        let lz = Self::lat(k + dk);
        let xi = self.perm_x[lx] ^ self.perm_y[ly] ^ self.perm_z[lz];
        proof {
            let a = self.perm_x@[lx as int];
            let b = self.perm_y@[ly as int];
            let c = self.perm_z@[lz as int];
            assert((a ^ b ^ c) < 256) by (bit_vector)
                requires
                    a < 256,
                    b < 256,
                    c < 256,
            ;
        }
        let g = self.ranvec[xi as usize];
        let wv = Vec3 {
            x: Fx { bits: u.bits - di * 65536 },
            y: Fx { bits: v.bits - dj * 65536 },
            z: Fx { bits: w.bits - dk * 65536 },
        };
        let mx = if di == 1 {
            uu
        } else {
            Fx::one().sub(uu)
        };
        let my = if dj == 1 {
            vv
        } else {
            Fx::one().sub(vv)
        };
        let mz = if dk == 1 {
            ww
        } else {
            Fx::one().sub(ww)
        };
        mx.mul(my).mul(mz).mul(g.dot(wv))
    }

    /// The Hermite fade.
    fn fade(t: Fx) -> (r: Fx)
        ensures
            r@ == fade_s(t@),
    {
        t.mul(t).mul(Fx::raw(196608).sub(Fx::raw(131072).mul(t)))
    }

    /// The blended gradient noise at a point.
    pub fn noise(&self, p: Vec3) -> (r: Fx)
        ensures
            r@ == noise_s(self.data_s(), p@),
    {
        let (i, u) = Self::split_coord(p.x);
        let (j, v) = Self::split_coord(p.y);
        let (k, w) = Self::split_coord(p.z);
        let uu = Self::fade(u);
        let vv = Self::fade(v);
        let ww = Self::fade(w);
        let mut acc = self.corner(i, j, k, 0, 0, 0, u, v, w, uu, vv, ww);
        acc = acc.add(self.corner(i, j, k, 0, 0, 1, u, v, w, uu, vv, ww));
        acc = acc.add(self.corner(i, j, k, 0, 1, 0, u, v, w, uu, vv, ww));
        acc = acc.add(self.corner(i, j, k, 0, 1, 1, u, v, w, uu, vv, ww));
        acc = acc.add(self.corner(i, j, k, 1, 0, 0, u, v, w, uu, vv, ww));
        acc = acc.add(self.corner(i, j, k, 1, 0, 1, u, v, w, uu, vv, ww));
        acc = acc.add(self.corner(i, j, k, 1, 1, 0, u, v, w, uu, vv, ww));
        acc.add(self.corner(i, j, k, 1, 1, 1, u, v, w, uu, vv, ww))
    }

    /// Turbulence at a point, over the given number of octaves.
    pub fn turb(&self, p: Vec3, depth: u32) -> (r: Fx)
        ensures
            r@ == turb_s(self.data_s(), p@, depth as nat),
    {
        self.turb_acc(p, Fx::one(), depth).abs()
    }

    /// The signed octave accumulator behind `turb`.
    fn turb_acc(&self, p: Vec3, weight: Fx, depth: u32) -> (r: Fx)
        ensures
            r@ == turb_acc_s(self.data_s(), p@, weight@, depth as nat),
        decreases depth,
    {
        if depth == 0 {
            Fx::zero()
        } else {
            let head = weight.mul(self.noise(p));
            let tail = self.turb_acc(p.scale(Fx::raw(131072)), weight.mul(Fx::raw(32768)), depth
                - 1);
            head.add(tail)
        }
    }
}

} // verus!
