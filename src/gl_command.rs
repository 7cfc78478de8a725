use vstd::prelude::*;

use crate::renderer_error::RendererError;

verus! {

/// GL name of the first texture unit (`GL_TEXTURE0`); the others follow it.
pub const TEXTURE0: u32 = 0x84C0;

/// GL name of the second texture unit (`GL_TEXTURE1`).
pub const TEXTURE1: u32 = 0x84C1;

/// GL name of the third texture unit (`GL_TEXTURE2`).
pub const TEXTURE2: u32 = 0x84C2;

/// Number of texture planes of a frame: Y, U and V.
pub const TEXTURE_NUMBER: u8 = 3;

/// Floats per vertex of the quad: a position of three, a texture coordinate of two.
pub const VERTEX_STRIDE: i32 = 5;

/// Which stage of a shader program a source text is for.
#[derive(Debug, Clone, Copy, PartialEq, Eq)]
pub enum ShaderStage {
    Vertex,
    Fragment,
}

/// A texture parameter and the value the renderer gives it.
#[derive(Debug, Clone, Copy, PartialEq, Eq)]
pub enum TexParameter {
    MinFilterLinear,
    MagFilterLinear,
    WrapSClampToEdge,
    WrapTClampToEdge,
    WrapRClampToEdge,
}

/// One GL call, as plain data. The renderer decides which calls are made and
/// in what order; the host that owns the GL context performs them.
#[derive(Debug, Clone, PartialEq, Eq)]
pub enum GlCommand {
    /// Create a shader object of the stage, attach the source and compile it.
    CompileShader { stage: ShaderStage, source: String },
    /// Create a program, attach both shaders and link it.
    LinkProgram { vertex: u32, fragment: u32 },
    DeleteShader(u32),
    DeleteProgram(u32),
    UseProgram(u32),
    BindVertexArray(u32),
    DeleteVertexArray(u32),
    /// Bind the buffer as `GL_ARRAY_BUFFER`.
    BindArrayBuffer(u32),
    DeleteBuffer(u32),
    /// Upload to the bound array buffer, with the static-draw usage hint, one
    /// float per value (the values are small integers).
    BufferStaticDraw { values: Vec<i8> },
    /// Describe a float attribute; stride and offset count floats, and
    /// `normalized` asks for fixed-point normalization.
    VertexAttribPointer { index: u32, size: i32, normalized: bool, stride: i32, offset: i32 },
    EnableVertexAttribArray(u32),
    /// Set a float uniform to 1.0 (fully opaque alpha).
    UniformOpaque { location: i32 },
    Uniform1i { location: i32, value: i32 },
    Viewport { width: u32, height: u32 },
    ActiveTexture(u32),
    /// Bind the texture as `GL_TEXTURE_2D`.
    BindTexture(u32),
    /// Allocate the bound texture as a single 8-bit channel image and fill it.
    TexImage2D { width: u32, height: u32, pixels: Vec<u8> },
    /// Replace the whole contents of the bound, already allocated texture.
    TexSubImage2D { width: u32, height: u32, pixels: Vec<u8> },
    TexParameter(TexParameter),
    DeleteTexture(u32),
    /// Draw a triangle strip of `count` vertices from the bound vertex array.
    DrawTriangleStrip { first: i32, count: i32 },
}

/// The texture unit of plane `index`, if the index names one of the three planes.
pub open spec fn texture_unit(index: int) -> Option<u32> {
    if 0 <= index < TEXTURE_NUMBER {
        Some((TEXTURE0 + index) as u32)
    } else {
        None
    }
}

/// The GL texture unit for plane `index` (0 = Y, 1 = U, 2 = V).
pub fn texture_number(index: u8) -> (r: Result<u32, RendererError>)
    ensures
        index < TEXTURE_NUMBER ==> r == Ok::<u32, RendererError>(texture_unit(index as int).unwrap()),
        index >= TEXTURE_NUMBER ==> r == Err::<u32, RendererError>(RendererError::InvalidTextureUnit),
{
    match index {
        0 => Ok(TEXTURE0),
        1 => Ok(TEXTURE1),
        2 => Ok(TEXTURE2),
        _ => Err(RendererError::InvalidTextureUnit),
    }
}

} // verus!
