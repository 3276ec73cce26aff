//! The closed texture dispatch: a color field over surface coordinate and
//! world point.

use vstd::prelude::*;
use crate::checker_texture::CheckerTexture;
use crate::checker_texture::even_cell_s;
use crate::fx::Fx;
use crate::image_texture::ImageTexture;
use crate::image_texture::image_value_s;
use crate::noise_texture::NoiseTexture;
use crate::noise_texture::noise_value_s;
use crate::solid_texture::SolidTexture;
use crate::vec3::V3;
use crate::vec3::Vec3;

verus! {

/// A texture: constant, checkerboard, or image-sampled.
#[derive(Debug)]
pub enum Texture {
    Solid(SolidTexture),
    Checker(CheckerTexture),
    Image(ImageTexture),
    Noise(NoiseTexture),
}

/// The color a texture answers for a surface coordinate and world point.
pub open spec fn texture_value_s(t: Texture, u: int, v: int, p: V3) -> V3
    decreases t,
{
    match t {
        Texture::Solid(s) => s.color@,
        Texture::Checker(c) => checker_value_s(c, u, v, p),
        Texture::Image(im) => image_value_s(im.data_s(), u, v),
        Texture::Noise(n) => noise_value_s(n.scale@, n.perlin.data_s(), p),
    }
}

/// The checkerboard's answer: the even child on even cells, the odd child
/// elsewhere.
pub open spec fn checker_value_s(c: CheckerTexture, u: int, v: int, p: V3) -> V3
    decreases c,
{
    if even_cell_s(c.inv_scale@, p) {
        texture_value_s(*c.even, u, v, p)
    } else {
        texture_value_s(*c.odd, u, v, p)
    }
}

impl Texture {
    /// The color at a surface coordinate and world point.
    pub fn value(&self, u: Fx, v: Fx, p: Vec3) -> (r: Vec3)
        ensures
            r@ == texture_value_s(*self, u@, v@, p@),
        decreases *self,
    {
        match self {
            Texture::Solid(s) => s.color,
            Texture::Checker(c) => c.value(u, v, p),
            Texture::Image(im) => im.value(u, v),
            Texture::Noise(n) => n.value(p),
        }
    }
}

impl CheckerTexture {
    /// The checkerboard's color: classify the point's cell, then ask the
    /// matching child.
    pub fn value(&self, u: Fx, v: Fx, p: Vec3) -> (r: Vec3)
        ensures
            r@ == checker_value_s(*self, u@, v@, p@),
        decreases *self,
    {
        if self.classifies_even(p) {
            self.even.value(u, v, p)
        } else {
            self.odd.value(u, v, p)
        }
    }
}

/// Two points whose cell-index sums differ by one — as they do one cell
/// width apart along a single axis — take their colors from opposite
/// children of a checkerboard.
pub proof fn lemma_checker_opposite(c: CheckerTexture, u: int, v: int, p: V3, q: V3)
    requires
        crate::checker_texture::cell_of(c.inv_scale@, q.x) + crate::checker_texture::cell_of(
            c.inv_scale@,
            q.y,
        ) + crate::checker_texture::cell_of(c.inv_scale@, q.z)
            == crate::checker_texture::cell_of(c.inv_scale@, p.x) + crate::checker_texture::cell_of(
            c.inv_scale@,
            p.y,
        ) + crate::checker_texture::cell_of(c.inv_scale@, p.z) + 1,
    ensures
        even_cell_s(c.inv_scale@, p) <==> !even_cell_s(c.inv_scale@, q),
        even_cell_s(c.inv_scale@, p) ==> checker_value_s(c, u, v, p) == texture_value_s(
            *c.even,
            u,
            v,
            p,
        ) && checker_value_s(c, u, v, q) == texture_value_s(*c.odd, u, v, q),
        !even_cell_s(c.inv_scale@, p) ==> checker_value_s(c, u, v, p) == texture_value_s(
            *c.odd,
            u,
            v,
            p,
        ) && checker_value_s(c, u, v, q) == texture_value_s(*c.even, u, v, q),
{
    let inv = c.inv_scale@;
    let sp = crate::checker_texture::cell_of(inv, p.x) + crate::checker_texture::cell_of(inv, p.y)
        + crate::checker_texture::cell_of(inv, p.z);
    let sq = sp + 1;
    vstd::arithmetic::div_mod::lemma_add_mod_noop(sp, 1, 2);
    vstd::arithmetic::div_mod::lemma_mod_self_0(2);
    vstd::arithmetic::div_mod::lemma_mod_bound(sp, 2);
    vstd::arithmetic::div_mod::lemma_mod_bound(sq, 2);
    vstd::arithmetic::div_mod::lemma_mod_twice(sp, 2);
    assert((sp % 2 + 1int % 2) % 2 == sq % 2);
    assert(1int % 2 == 1);
    if sp % 2 == 0 {
        assert(sq % 2 == 1);
    } else {
        assert(sp % 2 == 1);
        assert(sq % 2 == (1int + 1) % 2);
    }
}

} // verus!
