//! The glowing-orb surface material and its shader binding.
//!
//! The material binds one optional environment reflection texture and one
//! shader program. The same shader program governs the surface in the main
//! shading pass and in any depth/normal prepass: visual identity between
//! the two contexts is an invariant of the material, stated and proved
//! below.

use vstd::prelude::*;

verus! {

/// Which rendering pass a shader reference is being resolved for.
#[derive(Clone, Copy, Debug, PartialEq, Eq, Structural)]
pub enum RenderPass {
    Main,
    Prepass,
}

/// A handle to a loaded environment image, identified by its asset path.
/// Two handles with the same path name the same loaded asset.
#[derive(Clone, Copy, Debug, PartialEq, Eq)]
pub struct ImageHandle {
    pub path: &'static str,
}

/// The glowing-orb material: one optional environment reflection texture.
/// A single instance is shared by reference (through a material handle) by
/// every orb in the scene.
#[derive(Clone, Copy, Debug, PartialEq, Eq)]
pub struct GlowyMaterial {
    pub env_texture: Option<ImageHandle>,
}

/// The shader program that governs the glowy surface, for a given pass.
/// Both passes resolve to the one program below; `lemma_shader_identity`
/// states that as a law.
pub open spec fn spec_shader_for(pass: RenderPass) -> Seq<char> {
    "shaders/glowy.wgsl"@
}

impl GlowyMaterial {
    /// Shader reference used by the main shading pass.
    pub fn fragment_shader() -> (s: &'static str)
        ensures
            s@ == spec_shader_for(RenderPass::Main),
    {
        "shaders/glowy.wgsl"
    }

    /// Shader reference used by the depth/normal prepass.
    pub fn prepass_fragment_shader() -> (s: &'static str)
        ensures
            s@ == spec_shader_for(RenderPass::Prepass),
    {
        "shaders/glowy.wgsl"
    }

    /// Shader reference for an arbitrary pass.
    pub fn shader_for(pass: RenderPass) -> (s: &'static str)
        ensures
            s@ == spec_shader_for(pass),
    {
        "shaders/glowy.wgsl"
    }
}

/// The material resolves to the identical shader reference whether queried
/// for main-pass or for prepass rendering: there is no separate prepass-only
/// appearance.
pub proof fn lemma_shader_identity()
    ensures
        spec_shader_for(RenderPass::Main) == spec_shader_for(RenderPass::Prepass),
{
}

} // verus!
