//! Turning accumulated color into packed pixels: gamma correction, clamping
//! and 8-bit packing.

use vstd::prelude::*;
use crate::fx::Fx;
use crate::fx::fx_sqrt;
use crate::interval::imax;
use crate::interval::imin;
use crate::vec3::V3;
use crate::vec3::Vec3;

verus! {

/// One channel as a byte: clamp to the unit interval, gamma-correct by
/// square root, then scale to 8 bits.
pub open spec fn channel_byte_s(c: int) -> int {
    let g = fx_sqrt(imin(imax(c, 0), 65536));
    imin(g, 65535) / 256
}

/// A color as a packed `0x00RRGGBB` word.
pub open spec fn pack_color_s(c: V3) -> u32 {
    (channel_byte_s(c.x) * 65536 + channel_byte_s(c.y) * 256 + channel_byte_s(c.z)) as u32
}

/// One channel as a byte.
fn channel_byte(c: Fx) -> (r: u32)
    ensures
        r as int == channel_byte_s(c@),
        r < 256,
{
    let cl: i64 = if c.bits < 0 {
        0
    } else if c.bits > 65536 {
        65536
    } else {
        c.bits
    };
    let g = Fx { bits: cl }.sqrt();
    let gb: u64 = if g.bits > 65535 {
        65535
    } else {
        g.bits as u64
    };
    proof {
        crate::fx::lemma_isqrt_exists(cl as int * 65536);
        assert(crate::fx::is_isqrt(cl as int * 65536, crate::fx::isqrt(cl as int * 65536)));
    }
    (gb / 256) as u32
}

/// The packed pixel of a color.
pub fn pack_color(c: Vec3) -> (r: u32)
    ensures
        r == pack_color_s(c@),
{
    let rb = channel_byte(c.x);
    let gb = channel_byte(c.y);
    let bb = channel_byte(c.z);
    rb * 65536 + gb * 256 + bb
}

} // verus!
