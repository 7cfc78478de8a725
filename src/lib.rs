use vstd::prelude::*;

pub mod color;
pub mod frame;
pub mod gl_command;
pub mod renderer;
pub mod renderer_error;
pub mod scene;
pub mod shader;
pub mod smart_video_renderer;
pub mod vertex_array_object;
pub mod vertex_buffer_object;

verus! {

} // verus!
