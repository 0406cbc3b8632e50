//! Pixel shading kernels.
//!
//! A shader turns the barycentric weights of a covered pixel into a packed
//! color. The interpolating kernels — Gouraud, texture-replace and
//! texture-modulate, plus their perspective-correct variants — blend in
//! floating point and run in the host. The flat kernel ignores the weights
//! entirely: it is fully specified here by the color it was built with.

use vstd::prelude::*;

use crate::modes::ShadingMode;
use crate::modes::TextureMode;

verus! {

/// Which shading kernel a triangle's modes call for.
#[derive(Debug, Clone, Copy, PartialEq, Eq, Structural)]
pub enum ShaderKind {
    /// One constant color.
    Flat,
    /// Interpolated vertex colors.
    Gouraud,
    /// Texture color as is.
    TextureReplace,
    /// Texture color scaled by the interpolated lighting intensity.
    TextureModulate,
}

/// The kernel selected for a triangle: a texture mode wins whenever a
/// texture is at hand; otherwise Gouraud shading interpolates, and any
/// other shading mode paints the flat color.
pub open spec fn select_shader_spec(
    texture_mode: TextureMode,
    has_texture: bool,
    shading_mode: ShadingMode,
) -> ShaderKind {
    if texture_mode == TextureMode::Replace && has_texture {
        ShaderKind::TextureReplace
    } else if texture_mode == TextureMode::Modulate && has_texture {
        ShaderKind::TextureModulate
    } else if shading_mode == ShadingMode::Gouraud {
        ShaderKind::Gouraud
    } else {
        ShaderKind::Flat
    }
}

/// Select the shading kernel for a triangle from its texture mode, whether
/// a texture is at hand, and its shading mode.
pub fn select_shader(
    texture_mode: TextureMode,
    has_texture: bool,
    shading_mode: ShadingMode,
) -> (r: ShaderKind)
    ensures
        r == select_shader_spec(texture_mode, has_texture, shading_mode),
{
    match (texture_mode, has_texture) {
        (TextureMode::Replace, true) => ShaderKind::TextureReplace,
        (TextureMode::Modulate, true) => ShaderKind::TextureModulate,
        _ => match shading_mode {
            ShadingMode::Gouraud => ShaderKind::Gouraud,
            _ => ShaderKind::Flat,
        },
    }
}

/// Shader returning one constant color for every covered pixel.
pub struct FlatShader {
    color: u32,
}

impl FlatShader {
    /// The color every pixel receives.
    pub closed spec fn spec_color(&self) -> u32 {
        self.color
    }

    /// A flat shader painting `color`.
    pub fn new(color: u32) -> (s: FlatShader)
        ensures
            s.spec_color() == color,
    {
        FlatShader { color }
    }

    /// The color every pixel receives. Whatever the barycentric weights of
    /// a covered pixel are, the flat kernel shades it with exactly this.
    pub fn color(&self) -> (c: u32)
        ensures
            c == self.spec_color(),
    {
        self.color
    }
}

} // verus!
