use vstd::prelude::*;

use crate::frame::{FRAME_HEIGHT, FRAME_WIDTH, YuvFrame};
use crate::gl_command::GlCommand;
use crate::renderer_error::RendererError;
use crate::scene::{
    drawn, first_unresolved, objects_exist, release_commands, resized, set_up, GLRenderer,
    ProgramLocations, SceneResources,
};
use crate::shader::{program_result, ShaderProgram};

verus! {

/// Where a renderer stands in its life.
#[derive(Debug, Clone, Copy, PartialEq, Eq, Structural)]
pub enum LifecycleStage {
    Uninitialized,
    Initialized,
    Finalized,
}

/// The version of the GL context the host created, and whether it is an
/// OpenGL ES context.
#[derive(Debug, Clone, Copy, PartialEq, Eq)]
pub struct ContextVersion {
    pub major: u32,
    pub minor: u32,
    pub es: bool,
}

/// Whether the context runs `#version 300 es` shaders: OpenGL ES 3.0 or
/// later, or desktop OpenGL 4.3 or later (which took ES 3.0 compatibility in).
pub open spec fn context_supported(c: ContextVersion) -> bool {
    if c.es {
        c.major >= 3
    } else {
        c.major > 4 || (c.major == 4 && c.minor >= 3)
    }
}

/// `UnsupportedContext` unless the context runs the renderer's shaders.
pub fn check_context(c: ContextVersion) -> (r: Result<(), RendererError>)
    ensures
        context_supported(c) ==> r == Ok::<(), RendererError>(()),
        !context_supported(c) ==> r == Err::<(), RendererError>(RendererError::UnsupportedContext),
{
    let supported = if c.es {
        c.major >= 3
    } else {
        c.major > 4 || (c.major == 4 && c.minor >= 3)
    };
    if supported {
        Ok(())
    } else {
        Err(RendererError::UnsupportedContext)
    }
}

/// What initializing from the scene `s` gives, to the scene `t`, in the
/// uninitialized stage: the context is checked first, then the program's
/// compilation, then the locations, then the objects; the first that fails
/// decides the error, and otherwise the scene is set up.
pub open spec fn initialize_outcome(
    context: ContextVersion,
    program: ShaderProgram,
    l: ProgramLocations,
    res: SceneResources,
    s: GLRenderer,
    t: GLRenderer,
    r: Result<Vec<GlCommand>, RendererError>,
) -> bool {
    if !context_supported(context) {
        r == Err::<Vec<GlCommand>, RendererError>(RendererError::UnsupportedContext)
    } else {
        match program_result(program.stage(), program.handle(), program.error()) {
            Err(e) => r == Err::<Vec<GlCommand>, RendererError>(e),
            Ok(p) => if first_unresolved(l) is Some {
                r == Err::<Vec<GlCommand>, RendererError>(
                    RendererError::UnresolvedLocation { input: first_unresolved(l).unwrap() },
                )
            } else if !objects_exist(p, res) {
                r == Err::<Vec<GlCommand>, RendererError>(RendererError::ResourceAllocationFailure)
            } else {
                r is Ok && set_up(s, t, p, l, res, r->Ok_0@)
            },
        }
    }
}

/// The frames synthesized when no source is attached: the fixed size, and
/// every byte below 255.
pub open spec fn synthetic_frame(frame: YuvFrame) -> bool {
    &&& frame.wf()
    &&& frame.width == FRAME_WIDTH
    &&& frame.height == FRAME_HEIGHT
    &&& forall|i: int| 0 <= i < frame.y@.len() ==> frame.y@[i] < 255
    &&& forall|i: int| 0 <= i < frame.u@.len() ==> frame.u@[i] < 255
    &&& forall|i: int| 0 <= i < frame.v@.len() ==> frame.v@[i] < 255
}

/// Rendering took the scene `s` to `t` with the calls `cmds`, drawing some
/// synthesized frame.
pub open spec fn synthetic_drawn(s: GLRenderer, t: GLRenderer, cmds: Seq<GlCommand>) -> bool {
    exists|frame: YuvFrame| synthetic_frame(frame) && drawn(s, frame, t, cmds)
}

/// The lifecycle a host drives a renderer through: initialize once, then
/// resize and render any number of times, then finalize. Every method hands
/// back the GL calls the host must perform on the thread that holds the
/// context.
pub trait Renderer {
    spec fn lifecycle(&self) -> LifecycleStage;

    spec fn inv(&self) -> bool;

    /// The scene the renderer owns.
    spec fn scene(&self) -> GLRenderer;

    /// Checks the context and takes over the compiled program and the host's
    /// lookups; valid only before initialization, and on failure nothing
    /// changes.
    fn initialize(
        &mut self,
        context: ContextVersion,
        program: ShaderProgram,
        locations: ProgramLocations,
        resources: SceneResources,
    ) -> (r: Result<Vec<GlCommand>, RendererError>)
        requires
            old(self).inv(),
            program.wf(),
        ensures
            final(self).inv(),
            old(self).lifecycle() != LifecycleStage::Uninitialized ==> r == Err::<
                Vec<GlCommand>,
                RendererError,
            >(RendererError::InvalidState),
            old(self).lifecycle() == LifecycleStage::Uninitialized ==> initialize_outcome(
                context,
                program,
                locations,
                resources,
                old(self).scene(),
                final(self).scene(),
                r,
            ),
            r is Ok ==> final(self).lifecycle() == LifecycleStage::Initialized,
            r is Err ==> final(self).lifecycle() == old(self).lifecycle() && final(self).scene()
                == old(self).scene(),
    ;

    /// Releases every GPU object, once; afterwards the renderer is finalized
    /// and a further call releases nothing.
    fn finalize(&mut self) -> (r: Vec<GlCommand>)
        requires
            old(self).inv(),
        ensures
            final(self).inv(),
            final(self).lifecycle() == LifecycleStage::Finalized,
            !final(self).scene().ready(),
            old(self).lifecycle() == LifecycleStage::Finalized ==> r@.len() == 0,
            old(self).lifecycle() != LifecycleStage::Finalized ==> r@ == release_commands(
                old(self).scene(),
            ),
    ;

    /// Sets the viewport size of the frames to come; valid only once initialized.
    fn resize(&mut self, w: u32, h: u32) -> (r: Result<(), RendererError>)
        requires
            old(self).inv(),
        ensures
            final(self).inv(),
            final(self).lifecycle() == old(self).lifecycle(),
            old(self).lifecycle() == LifecycleStage::Initialized ==> r == Ok::<(), RendererError>(())
                && resized(old(self).scene(), final(self).scene(), w, h),
            old(self).lifecycle() != LifecycleStage::Initialized ==> r == Err::<(), RendererError>(
                RendererError::InvalidState,
            ) && final(self).scene() == old(self).scene(),
    ;

    /// Draws one frame; valid only once initialized.
    fn render(&mut self) -> (r: Result<Vec<GlCommand>, RendererError>)
        requires
            old(self).inv(),
        ensures
            final(self).inv(),
            final(self).lifecycle() == old(self).lifecycle(),
            old(self).lifecycle() == LifecycleStage::Initialized ==> r is Ok && synthetic_drawn(
                old(self).scene(),
                final(self).scene(),
                r->Ok_0@,
            ),
            old(self).lifecycle() != LifecycleStage::Initialized ==> r == Err::<
                Vec<GlCommand>,
                RendererError,
            >(RendererError::InvalidState) && final(self).scene() == old(self).scene(),
    ;
}

} // verus!
