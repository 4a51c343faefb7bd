//! The size of the offscreen textures that a camera view renders through.
use vstd::prelude::*;

verus! {

/// A texture size in texels, with the layer count of a 2D texture.
#[derive(Clone, Copy, PartialEq, Eq, Structural, Debug)]
pub struct TextureSize {
    pub width: u32,
    pub height: u32,
    pub depth_or_array_layers: u32,
}

/// One side of an offscreen texture for a viewport side of `n` pixels: `n`,
/// but at least one texel.
pub open spec fn texture_side(n: u32) -> u32 {
    if n < 1 {
        1
    } else {
        n
    }
}

/// The size of the offscreen textures of a viewport of `width` by `height`
/// pixels: the viewport's size, with each side at least one texel, as one
/// layer.
pub fn texture_size(width: u32, height: u32) -> (r: TextureSize)
    ensures
        r.width == texture_side(width),
        r.height == texture_side(height),
        r.depth_or_array_layers == 1,
{
    let w = if width < 1 { 1 } else { width };
    let h = if height < 1 { 1 } else { height };
    TextureSize { width: w, height: h, depth_or_array_layers: 1 }
}

/// An offscreen texture is never empty, and a viewport side that is not
/// empty keeps its size.
pub proof fn lemma_texture_side_nonempty(n: u32)
    ensures
        texture_side(n) >= 1,
        n >= 1 ==> texture_side(n) == n,
{
}

} // verus!
