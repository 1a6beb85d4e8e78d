//! The glyph atlas as the pass sees it: the texture that holds it, and what
//! it reports when it has resolved the sections of a cycle.
//!
//! The atlas itself packs and rasterizes outside the library. It starts
//! with a texture of the initial size; when the glyphs of a cycle do not
//! fit, it suggests a larger size, and the pass makes a new texture and
//! resolves again.

use crate::geometry::UiArgs;
use vstd::prelude::*;

verus! {

/// The width of the atlas texture at the start.
pub const INITIAL_CACHE_WIDTH: u32 = 512;

/// The height of the atlas texture at the start.
pub const INITIAL_CACHE_HEIGHT: u32 = 512;

/// The texture that holds the glyph atlas, by its handle.
#[derive(Debug)]
pub struct UiGlyphsResource {
    glyph_texture: Option<u32>,
}

impl Default for UiGlyphsResource {
    /// A resource without a texture.
    fn default() -> (resource: Self)
        ensures
            resource.spec_glyph_texture() is None,
    {
        UiGlyphsResource::new()
    }
}

impl UiGlyphsResource {
    /// The handle, as a mathematical value.
    pub closed spec fn spec_glyph_texture(&self) -> Option<u32> {
        self.glyph_texture
    }

    /// A resource without a texture.
    pub fn new() -> (resource: Self)
        ensures
            resource.spec_glyph_texture() is None,
    {
        UiGlyphsResource { glyph_texture: None }
    }

    /// The handle of the atlas texture, once there is one.
    pub fn glyph_texture(&self) -> (handle: Option<&u32>)
        ensures
            handle is Some <==> self.spec_glyph_texture() is Some,
            handle is Some ==> *handle.unwrap() == self.spec_glyph_texture().unwrap(),
    {
        self.glyph_texture.as_ref()
    }

    /// Makes `handle` the atlas texture.
    pub fn set_glyph_texture(&mut self, handle: u32)
        ensures
            final(self).spec_glyph_texture() == Some(handle),
    {
        self.glyph_texture = Some(handle);
    }
}

/// What the atlas reports after it has resolved the queued sections.
#[derive(Debug)]
pub enum BrushOutcome {
    /// Glyphs were rasterized: these are the vertices of all sections, each
    /// with the name of its element, in the order of the queue.
    Draw(Vec<(u64, UiArgs)>),
    /// Every glyph was in the atlas already: the vertices of the last draw
    /// stand.
    ReDraw,
    /// The texture cannot hold the glyphs; one of the suggested size may.
    TextureTooSmall { suggested: (u32, u32) },
}

/// A channel of a texture, or a constant, that a colour channel reads.
#[derive(Clone, Copy, Debug, PartialEq, Eq, Structural, Hash)]
pub enum Component {
    Zero,
    One,
    R,
    G,
    B,
    A,
}

/// What the red, green, blue and alpha of a sample read.
#[derive(Clone, Copy, Debug, PartialEq, Eq, Structural, Hash)]
pub struct Swizzle {
    pub r: Component,
    pub g: Component,
    pub b: Component,
    pub a: Component,
}

/// What the pass asks of the graphics device for the atlas: a texture in
/// two dimensions of one channel of eight bits, all texels zero, read as
/// the channels that `swizzle` names.
#[derive(Clone, Copy, Debug, PartialEq, Eq, Structural, Hash)]
pub struct GlyphTexture {
    pub width: u32,
    pub height: u32,
    /// The number of texels, each one byte.
    pub data_len: u64,
    pub swizzle: Swizzle,
}

/// The atlas texture of `width` by `height` texels: the coverage of a glyph
/// is its alpha, and its colour channels read zero.
pub fn create_glyph_texture(width: u32, height: u32) -> (texture: GlyphTexture)
    ensures
        texture == (GlyphTexture {
            width,
            height,
            data_len: (width * height) as u64,
            swizzle: Swizzle {
                r: Component::Zero,
                g: Component::Zero,
                b: Component::Zero,
                a: Component::R,
            },
        }),
{
    assert(width * height <= u64::MAX) by (nonlinear_arith)
        requires
            width <= u32::MAX,
            height <= u32::MAX,
    ;
    GlyphTexture {
        width,
        height,
        data_len: width as u64 * height as u64,
        swizzle: Swizzle {
            r: Component::Zero,
            g: Component::Zero,
            b: Component::Zero,
            a: Component::R,
        },
    }
}

} // verus!
