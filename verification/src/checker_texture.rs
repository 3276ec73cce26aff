//! The three-dimensional checkerboard texture.
//!
//! World space is divided into cubic cells of the configured width; a point
//! is classified by the parity of the sum of its three cell indices, and one
//! of two child textures answers for it. The pattern lives in world space, so
//! it is independent of any surface parameterization.

use vstd::prelude::*;
use crate::fx::Fx;
use crate::fx::fx_div;
use crate::fx::fx_mul;
use crate::solid_texture::SolidTexture;
use crate::texture::Texture;
use crate::vec3::V3;
use crate::vec3::Vec3;

verus! {

/// The cell index a coordinate falls in, at the given inverse cell width.
pub open spec fn cell_of(inv: int, coord: int) -> int {
    fx_mul(inv, coord) / 65536
}

/// Whether the point's cell-index sum is even.
pub open spec fn even_cell_s(inv: int, p: V3) -> bool {
    (cell_of(inv, p.x) + cell_of(inv, p.y) + cell_of(inv, p.z)) % 2 == 0
}

/// A checkerboard of two child textures.
#[derive(Debug)]
pub struct CheckerTexture {
    pub inv_scale: Fx,
    pub even: Box<Texture>,
    pub odd: Box<Texture>,
}

impl CheckerTexture {
    /// A checkerboard of two solid colors with the given cell width.
    pub fn new(scale: Fx, even_color: Vec3, odd_color: Vec3) -> (r: CheckerTexture)
        ensures
            r.inv_scale@ == fx_div(65536, scale@),
            *r.even == Texture::Solid(SolidTexture { color: even_color }),
            *r.odd == Texture::Solid(SolidTexture { color: odd_color }),
    {
        CheckerTexture {
            inv_scale: Fx::one().div(scale),
            even: Box::new(Texture::Solid(SolidTexture::new(even_color))),
            odd: Box::new(Texture::Solid(SolidTexture::new(odd_color))),
        }
    }

    /// Whether the point lands on an even cell.
    pub fn classifies_even(&self, p: Vec3) -> (r: bool)
        ensures
            r == even_cell_s(self.inv_scale@, p@),
    {
        let cx = self.inv_scale.mul(p.x).floor_units();
        let cy = self.inv_scale.mul(p.y).floor_units();
        let cz = self.inv_scale.mul(p.z).floor_units();
        let sum = cx + cy + cz;
        let shifted = (sum + 0x0800_0000_0000_0000) as u64;
        proof {
            vstd::arithmetic::div_mod::lemma_mod_multiples_vanish(
                0x0400_0000_0000_0000,
                sum as int,
                2,
            );
        }
        (shifted % 2) == 0
    }
}

} // verus!
