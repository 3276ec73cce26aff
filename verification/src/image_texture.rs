//! The image-sampled texture.
//!
//! The decoding of an image file is a collaborator's job; this texture takes
//! the already decoded rows (RGB, 8 bits a channel, top row first) and
//! samples them by surface coordinate. A missing or malformed image degrades
//! to a loud fallback color instead of failing the render.

use vstd::prelude::*;
use crate::fx::Fx;
use crate::fx::tdiv;
use crate::interval::imin;
use crate::vec3::V3;
use crate::vec3::Vec3;

verus! {

/// A decoded image: `width * height` RGB pixels, row-major, top row first.
#[derive(Clone, Debug)]
pub struct ImageData {
    pub width: usize,
    pub height: usize,
    pub pixels: Vec<u8>,
}

/// A decoded image the sampler can index safely.
pub open spec fn wf_image(d: ImageData) -> bool {
    &&& 1 <= d.width <= 0xffff_ffff
    &&& 1 <= d.height <= 0xffff_ffff
    &&& d.pixels.len() == d.width * d.height * 3
}

/// A unit-interval mantissa clamp.
pub open spec fn clamp_unit_s(t: int) -> int {
    if t < 0 {
        0
    } else if t > 65536 {
        65536
    } else {
        t
    }
}

/// The fallback color reported for a missing image: full cyan.
pub open spec fn fallback_color_s() -> V3 {
    V3 { x: 0, y: 65536, z: 65536 }
}

/// A channel byte as a color mantissa in `[0, 1]`.
pub open spec fn byte_to_fx_s(b: int) -> int {
    tdiv(b * 65536, 255)
}

/// The sampled color: `(u, v)` clamped to the unit square, `v` inverted
/// because rows run top to bottom, then a nearest-pixel lookup.
pub open spec fn image_value_s(data: Option<ImageData>, u: int, v: int) -> V3 {
    match data {
        Option::None => fallback_color_s(),
        Option::Some(d) => {
            let uc = clamp_unit_s(u);
            let vc = 65536 - clamp_unit_s(v);
            let x = imin(tdiv(uc * d.width, 65536), d.width - 1);
            let y = imin(tdiv(vc * d.height, 65536), d.height - 1);
            let idx = 3 * (y * d.width + x);
            V3 {
                x: byte_to_fx_s(d.pixels[idx] as int),
                y: byte_to_fx_s(d.pixels[idx + 1] as int),
                z: byte_to_fx_s(d.pixels[idx + 2] as int),
            }
        },
    }
}

/// An image texture: the decoded pixels, or nothing when loading failed.
#[derive(Debug)]
pub struct ImageTexture {
    data: Option<ImageData>,
}

impl ImageTexture {
    #[verifier::type_invariant]
    spec fn inv(self) -> bool {
        self.data matches Option::Some(d) ==> wf_image(d)
    }

    /// The stored image, for specification purposes.
    pub closed spec fn data_s(self) -> Option<ImageData> {
        self.data
    }

    /// A texture over a decoded image; anything malformed (zero sides,
    /// oversized sides, a pixel buffer of the wrong length) is treated as a
    /// failed load.
    pub fn new(img: Option<ImageData>) -> (r: ImageTexture)
        ensures
            r.data_s() == match img {
                Option::Some(d) => if wf_image(d) {
                    Option::Some(d)
                } else {
                    Option::None
                },
                Option::None => Option::None::<ImageData>,
            },
    {
        match img {
            Option::None => ImageTexture { data: Option::None },
            Option::Some(d) => {
                let len_matches = match d.width.checked_mul(d.height) {
                    Option::Some(wh) => match wh.checked_mul(3) {
                        Option::Some(n) => n == d.pixels.len(),
                        Option::None => false,
                    },
                    Option::None => false,
                };
                if 1 <= d.width && d.width <= 0xffff_ffff && 1 <= d.height && d.height
                    <= 0xffff_ffff && len_matches {
                    ImageTexture { data: Option::Some(d) }
                } else {
                    ImageTexture { data: Option::None }
                }
            },
        }
    }

    /// The sampled color at a surface coordinate.
    pub fn value(&self, u: Fx, v: Fx) -> (r: Vec3)
        ensures
            r@ == image_value_s(self.data_s(), u@, v@),
    {
        proof {
            use_type_invariant(self);
        }
        match &self.data {
            Option::None => Vec3 { x: Fx::zero(), y: Fx::one(), z: Fx::one() },
            Option::Some(d) => {
                let uc: u64 = clamp_unit(u);
                let vc: u64 = 65536 - clamp_unit(v);
                proof {
                    assert((uc as int) * (d.width as int) < 0x8000_0000_0000_0000)
                        by (nonlinear_arith)
                        requires
                            0 <= (uc as int) <= 65536,
                            0 <= (d.width as int) <= 0xffff_ffff,
                    ;
                    assert((vc as int) * (d.height as int) < 0x8000_0000_0000_0000)
                        by (nonlinear_arith)
                        requires
                            0 <= (vc as int) <= 65536,
                            0 <= (d.height as int) <= 0xffff_ffff,
                    ;
                }
                let mut x: u64 = uc * (d.width as u64) / 65536;
                if x > (d.width as u64) - 1 {
                    x = (d.width as u64) - 1;
                }
                let mut y: u64 = vc * (d.height as u64) / 65536;
                if y > (d.height as u64) - 1 {
                    y = (d.height as u64) - 1;
                }
                proof {
                    assert(x < d.width as u64);
                    assert(y < d.height as u64);
                    assert((y as int) * d.width + x < d.width * d.height) by (nonlinear_arith)
                        requires
                            0 <= (x as int) && (x as int) < d.width,
                            0 <= (y as int) && (y as int) < d.height,
                    ;
                }
                let idx: usize = 3 * ((y as usize) * d.width + (x as usize));
                let red = d.pixels[idx];
                let green = d.pixels[idx + 1];
                let blue = d.pixels[idx + 2];
                Vec3 { x: byte_to_fx(red), y: byte_to_fx(green), z: byte_to_fx(blue) }
            },
        }
    }
}

/// A unit clamp on the mantissa, as a nonnegative machine word.
fn clamp_unit(t: Fx) -> (r: u64)
    ensures
        r as int == clamp_unit_s(t@),
{
    if t.bits < 0 {
        0
    } else if t.bits > 65536 {
        65536
    } else {
        t.bits as u64
    }
}

/// A channel byte as a color scalar.
fn byte_to_fx(b: u8) -> (r: Fx)
    ensures
        r@ == byte_to_fx_s(b as int),
{
    Fx { bits: ((b as u64) * 65536 / 255) as i64 }
}

} // verus!
