//! Plain descriptions of GPU textures.

use crate::media::TextureFormat;
use vstd::prelude::*;

verus! {

/// The shape of a texture.
#[derive(Debug, Clone, Copy, PartialEq, Eq, Structural)]
pub enum TextureDimension {
    D2,
}

/// What a texture may be used for.
#[derive(Debug, Clone, Copy, PartialEq, Eq, Structural)]
pub struct TextureUsages {
    pub render_attachment: bool,
    pub texture_binding: bool,
    pub copy_src: bool,
}

/// All that the GPU is told when a texture is made.
#[derive(Debug, Clone, PartialEq, Eq)]
pub struct TextureDescriptor {
    pub label: &'static str,
    pub width: u32,
    pub height: u32,
    pub depth_or_array_layers: u32,
    pub mip_level_count: u32,
    pub sample_count: u32,
    pub dimension: TextureDimension,
    pub format: TextureFormat,
    pub usage: TextureUsages,
}

/// The larger of a side's length and one: no texture has an empty side.
pub open spec fn at_least_one(side: u32) -> u32 {
    if side < 1 {
        1
    } else {
        side
    }
}

/// Clamp the length of a texture's side.
pub(crate) fn clamp_side(side: u32) -> (r: u32)
    ensures
        r == at_least_one(side),
{
    if side < 1 {
        1
    } else {
        side
    }
}

impl TextureDescriptor {
    /// A single flat image: one layer, one mip level, one sample.
    pub open spec fn flat(self) -> bool {
        &&& self.depth_or_array_layers == 1
        &&& self.mip_level_count == 1
        &&& self.sample_count == 1
        &&& self.dimension == TextureDimension::D2
    }
}

/// A side keeps its length unless it is empty, and is then one pixel long.
pub proof fn law_only_empty_sides_grow(side: u32)
    ensures
        side > 0 ==> at_least_one(side) == side,
        side == 0 ==> at_least_one(side) == 1,
{
}

} // verus!
