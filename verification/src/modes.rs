//! Rendering, shading and texturing mode selectors.

use vstd::prelude::*;

verus! {

/// What a frame draws: filled triangles, wireframe edges, vertex markers,
/// or combinations of them.
#[derive(Debug, Clone, Copy, PartialEq, Eq, Structural)]
pub enum RenderMode {
    /// Wireframe only.
    Wireframe,
    /// Wireframe plus vertex markers.
    WireframeVertices,
    /// Filled triangles plus wireframe.
    FilledWireframe,
    /// Filled triangles, wireframe, and vertex markers.
    FilledWireframeVertices,
    /// Filled triangles only.
    Filled,
}

impl Default for RenderMode {
    /// Filled triangles with a wireframe overlay.
    fn default() -> (r: Self)
        ensures
            r == RenderMode::FilledWireframe,
    {
        RenderMode::FilledWireframe
    }
}

/// The passes a render mode enables, as `(filled, wireframe, vertices)`.
pub open spec fn render_passes_spec(mode: RenderMode) -> (bool, bool, bool) {
    match mode {
        RenderMode::Wireframe => (false, true, false),
        RenderMode::WireframeVertices => (false, true, true),
        RenderMode::FilledWireframe => (true, true, false),
        RenderMode::FilledWireframeVertices => (true, true, true),
        RenderMode::Filled => (true, false, false),
    }
}

/// Decompose a render mode into its `(filled, wireframe, vertices)` passes.
pub fn render_passes(mode: RenderMode) -> (r: (bool, bool, bool))
    ensures
        r == render_passes_spec(mode),
{
    match mode {
        RenderMode::Wireframe => (false, true, false),
        RenderMode::WireframeVertices => (false, true, true),
        RenderMode::FilledWireframe => (true, true, false),
        RenderMode::FilledWireframeVertices => (true, true, true),
        RenderMode::Filled => (true, false, false),
    }
}

/// How lighting colors a face.
#[derive(Debug, Clone, Copy, PartialEq, Eq, Structural)]
pub enum ShadingMode {
    /// No lighting: the base color is used unchanged.
    Unlit,
    /// One lit color per face, from the face normal.
    Flat,
    /// Per-vertex lit colors, interpolated across the face.
    Gouraud,
}

impl ShadingMode {
    /// The mode's display name.
    pub fn label(&self) -> (m: &'static str)
        ensures
            m@ == match self {
                ShadingMode::Unlit => "None"@,
                ShadingMode::Flat => "Flat"@,
                ShadingMode::Gouraud => "Gouraud"@,
            },
    {
        match self {
            ShadingMode::Unlit => "None",
            ShadingMode::Flat => "Flat",
            ShadingMode::Gouraud => "Gouraud",
        }
    }
}

impl Default for ShadingMode {
    /// Flat shading.
    fn default() -> (r: Self)
        ensures
            r == ShadingMode::Flat,
    {
        ShadingMode::Flat
    }
}

/// How a texture combines with shading.
#[derive(Debug, Clone, Copy, PartialEq, Eq, Structural)]
pub enum TextureMode {
    /// No texture: the shading color alone.
    Untextured,
    /// The texture color replaces the shading color.
    Replace,
    /// The texture color is modulated by the lighting intensity.
    Modulate,
}

impl TextureMode {
    /// The mode's display name.
    pub fn label(&self) -> (m: &'static str)
        ensures
            m@ == match self {
                TextureMode::Untextured => "None"@,
                TextureMode::Replace => "Replace"@,
                TextureMode::Modulate => "Modulate"@,
            },
    {
        match self {
            TextureMode::Untextured => "None",
            TextureMode::Replace => "Replace",
            TextureMode::Modulate => "Modulate",
        }
    }
}

impl Default for TextureMode {
    /// No texture.
    fn default() -> (r: Self)
        ensures
            r == TextureMode::Untextured,
    {
        TextureMode::Untextured
    }
}

} // verus!
