//! The software 3D renderer's integer parts: pipeline modes, textures as
//! ARGB pixel maps, the deferred pipeline's buffers and the bloom scratch
//! buffer. The shading itself is floating-point and lives with the platform.
pub mod circuit;
pub mod deferred;
pub mod effects;

use vstd::prelude::*;

verus! {

/// How a draw call's vertices form primitives.
#[derive(Debug, Clone, Copy, PartialEq, Eq, Structural)]
pub enum DrawMode {
    Triangles,
    TriangleFan,
    TriangleStrip,
    Lines,
    Points,
}

/// How a fragment combines with the pixel under it.
#[derive(Debug, Clone, Copy, PartialEq, Eq, Structural)]
pub enum BlendMode {
    /// Replace the pixel.
    Replace,
    /// Alpha blending.
    Alpha,
    /// Additive.
    Add,
    /// Multiplicative.
    Multiply,
}

/// How a primitive is shaded.
#[derive(Debug, Clone, Copy, PartialEq, Eq, Structural)]
pub enum ShaderType {
    /// One colour.
    Flat,
    /// Colours interpolated between vertices.
    Gouraud,
    /// Texture mapped.
    Textured,
    /// Texture mapped and lit per vertex.
    TexturedLit,
    /// Additive glow.
    Glow,
}

/// A 2D map of ARGB pixels, row by row.
pub struct Texture {
    pub width: usize,
    pub height: usize,
    pub data: Vec<u32>,
}

impl Texture {
    /// A black, fully transparent texture.
    pub fn new(width: usize, height: usize) -> (t: Self)
        requires
            width * height <= usize::MAX,
        ensures
            t.width == width,
            t.height == height,
            t.data@ == Seq::new((width * height) as nat, |i: int| 0u32),
    {
        let data: Vec<u32> = vec![0u32; width * height];
        assert(data@ =~= Seq::new((width * height) as nat, |i: int| 0u32));
        Texture { width, height, data }
    }

    /// A texture over existing pixel data.
    pub fn from_raw(data: Vec<u32>, width: usize, height: usize) -> (t: Self)
        ensures
            t.width == width,
            t.height == height,
            t.data@ == data@,
    {
        Texture { width, height, data }
    }
}

} // verus!
