//! The constant-color texture.

use vstd::prelude::*;
use crate::vec3::Vec3;

verus! {

/// A texture that returns one color everywhere.
#[derive(Clone, PartialEq, Eq, Structural, Debug)]
pub struct SolidTexture {
    pub color: Vec3,
}

impl SolidTexture {
    /// The texture of one color.
    pub fn new(color: Vec3) -> (r: SolidTexture)
        ensures
            r.color == color,
    {
        SolidTexture { color }
    }
}

} // verus!
