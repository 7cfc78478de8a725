use vstd::prelude::*;

verus! {

/// Everything that can go wrong while setting up or driving the renderer.
#[derive(Debug, Clone, PartialEq, Eq)]
pub enum RendererError {
    /// The vertex stage did not compile; the driver's diagnostic text.
    VertexCompileError { log: String },
    /// The fragment stage did not compile; the driver's diagnostic text.
    FragmentCompileError { log: String },
    /// The two stages did not link; the driver's diagnostic text.
    LinkError { log: String },
    /// The graphics context is older than the renderer needs.
    UnsupportedContext,
    /// A GPU object could not be created.
    ResourceAllocationFailure,
    /// A lifecycle call was made in a stage that does not allow it.
    InvalidState,
    /// A texture unit outside the three planes was asked for.
    InvalidTextureUnit,
    /// An attribute or uniform did not resolve in the linked program.
    UnresolvedLocation { input: ShaderInput },
}

/// The attributes and uniforms the renderer looks up in its program.
#[derive(Debug, Clone, Copy, PartialEq, Eq)]
pub enum ShaderInput {
    Position,
    TexCoord,
    SamplerY,
    SamplerU,
    SamplerV,
    Alpha,
}

impl ShaderInput {
    /// The name the shader sources give the input.
    pub fn glsl_name(&self) -> &'static str {
        match self {
            ShaderInput::Position => "aPos",
            ShaderInput::TexCoord => "aTexCoord",
            ShaderInput::SamplerY => "tex_y",
            ShaderInput::SamplerU => "tex_u",
            ShaderInput::SamplerV => "tex_v",
            ShaderInput::Alpha => "alpha",
        }
    }
}

} // verus!
