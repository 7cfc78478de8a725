use vstd::prelude::*;

use crate::frame::{FRAME_HEIGHT, FRAME_WIDTH, YuvFrame};
use crate::gl_command::GlCommand;
use crate::renderer::{
    check_context, initialize_outcome, synthetic_drawn, synthetic_frame, ContextVersion, LifecycleStage, Renderer,
};
use crate::renderer_error::RendererError;
use crate::scene::{drawn, release_commands, resized, GLRenderer, ProgramLocations, SceneResources};
use crate::shader::ShaderProgram;

verus! {

/// The renderer: owns the scene exclusively and walks it through the
/// lifecycle. Without a frame source it draws frames of random bytes.
#[derive(Debug)]
pub struct SmartVideoRenderer {
    scene: GLRenderer,
    stage: LifecycleStage,
}

/// The calls that finalizing `s` returns: the scene's objects, unless they
/// were released already.
pub open spec fn finalize_commands(s: SmartVideoRenderer) -> Seq<GlCommand> {
    if s.stage() == LifecycleStage::Finalized {
        Seq::empty()
    } else {
        release_commands(s.scene_state())
    }
}

impl SmartVideoRenderer {
    pub closed spec fn stage(&self) -> LifecycleStage {
        self.stage
    }

    pub closed spec fn scene_state(&self) -> GLRenderer {
        self.scene
    }

    /// The scene holds GPU objects exactly while the renderer is initialized.
    pub open spec fn wf(&self) -> bool {
        &&& self.scene_state().wf()
        &&& (self.stage() == LifecycleStage::Initialized <==> self.scene_state().ready())
    }

    pub fn new() -> (r: Self)
        ensures
            r.wf(),
            r.stage() == LifecycleStage::Uninitialized,
            r.scene_state().program() == None::<u32>,
            r.scene_state().textures() == seq![0u32, 0u32, 0u32],
            r.scene_state().samplers() == seq![0i32, 0i32, 0i32],
            r.scene_state().viewport() == None::<(u32, u32)>,
            r.scene_state().allocated() == None::<(u32, u32)>,
    {
        SmartVideoRenderer { scene: GLRenderer::new(), stage: LifecycleStage::Uninitialized }
    }

    pub fn lifecycle_stage(&self) -> (r: LifecycleStage)
        ensures
            r == self.stage(),
    {
        self.stage
    }

    /// Checks the context, then takes over the compiled program, the
    /// locations of its inputs and the objects the host generated, and
    /// returns the calls that set the scene up. Fails with `InvalidState`
    /// unless uninitialized, with `UnsupportedContext` for a context that
    /// cannot run the shaders, with the program's error when compilation
    /// failed, and as the scene does when a location did not resolve or an
    /// object was not generated; on failure nothing changes and the host
    /// keeps what it passed.
    pub fn initialize(
        &mut self,
        context: ContextVersion,
        program: ShaderProgram,
        locations: ProgramLocations,
        resources: SceneResources,
    ) -> (r: Result<Vec<GlCommand>, RendererError>)
        requires
            old(self).wf(),
            program.wf(),
        ensures
            final(self).wf(),
            old(self).stage() != LifecycleStage::Uninitialized ==> r == Err::<
                Vec<GlCommand>,
                RendererError,
            >(RendererError::InvalidState),
            old(self).stage() == LifecycleStage::Uninitialized ==> initialize_outcome(
                context,
                program,
                locations,
                resources,
                old(self).scene_state(),
                final(self).scene_state(),
                r,
            ),
            r is Ok ==> final(self).stage() == LifecycleStage::Initialized,
            r is Err ==> *final(self) == *old(self),
    {
        if self.stage != LifecycleStage::Uninitialized {
            return Err(RendererError::InvalidState);
        }
        match check_context(context) {
            Err(e) => {
                return Err(e);
            },
            Ok(()) => {},
        }
        match program.into_result() {
            Err(e) => Err(e),
            Ok(p) => {
                let r = self.scene.init_vertex_stuff(p, locations, resources);
                if r.is_ok() {
                    self.stage = LifecycleStage::Initialized;
                }
                r
            },
        }
    }

    /// Records the viewport size for the frames to come; `InvalidState`
    /// unless initialized.
    pub fn resize(&mut self, width: u32, height: u32) -> (r: Result<(), RendererError>)
        requires
            old(self).wf(),
        ensures
            final(self).wf(),
            final(self).stage() == old(self).stage(),
            old(self).stage() != LifecycleStage::Initialized ==> r == Err::<(), RendererError>(
                RendererError::InvalidState,
            ) && *final(self) == *old(self),
            old(self).stage() == LifecycleStage::Initialized ==> r == Ok::<(), RendererError>(())
                && resized(old(self).scene_state(), final(self).scene_state(), width, height),
    {
        if self.stage != LifecycleStage::Initialized {
            return Err(RendererError::InvalidState);
        }
        self.scene.resize(width, height);
        Ok(())
    }

    /// Draws `frame`; `InvalidState` unless initialized.
    pub fn render_frame(&mut self, frame: YuvFrame) -> (r: Result<Vec<GlCommand>, RendererError>)
        requires
            old(self).wf(),
            frame.wf(),
        ensures
            final(self).wf(),
            final(self).stage() == old(self).stage(),
            old(self).stage() != LifecycleStage::Initialized ==> r == Err::<
                Vec<GlCommand>,
                RendererError,
            >(RendererError::InvalidState) && *final(self) == *old(self),
            old(self).stage() == LifecycleStage::Initialized ==> r is Ok && drawn(
                old(self).scene_state(),
                frame,
                final(self).scene_state(),
                r->Ok_0@,
            ),
    {
        if self.stage != LifecycleStage::Initialized {
            return Err(RendererError::InvalidState);
        }
        self.scene.draw(frame)
    }

    /// Draws a synthesized frame of `FRAME_WIDTH` x `FRAME_HEIGHT` random
    /// bytes; `InvalidState` unless initialized.
    pub fn render(&mut self) -> (r: Result<Vec<GlCommand>, RendererError>)
        requires
            old(self).wf(),
        ensures
            final(self).wf(),
            final(self).stage() == old(self).stage(),
            old(self).stage() != LifecycleStage::Initialized ==> r == Err::<
                Vec<GlCommand>,
                RendererError,
            >(RendererError::InvalidState) && *final(self) == *old(self),
            old(self).stage() == LifecycleStage::Initialized ==> r is Ok && synthetic_drawn(
                old(self).scene_state(),
                final(self).scene_state(),
                r->Ok_0@,
            ),
    {
        if self.stage != LifecycleStage::Initialized {
            return Err(RendererError::InvalidState);
        }
        let frame = YuvFrame::synthetic(FRAME_WIDTH, FRAME_HEIGHT);
        let ghost f = frame;
        let r = self.scene.draw(frame);
        assert(synthetic_frame(f) && drawn(old(self).scene_state(), f, self.scene_state(), r->Ok_0@));
        r
    }

    /// Releases every GPU object of the scene, once, and ends the lifecycle;
    /// a further call returns no calls.
    pub fn finalize(&mut self) -> (r: Vec<GlCommand>)
        requires
            old(self).wf(),
        ensures
            final(self).wf(),
            final(self).stage() == LifecycleStage::Finalized,
            !final(self).scene_state().ready(),
            r@ == finalize_commands(*old(self)),
    {
        if self.stage == LifecycleStage::Finalized {
            return Vec::new();
        }
        let r = self.scene.release();
        self.stage = LifecycleStage::Finalized;
        r
    }
}

/// Finalizing is idempotent: once a renderer is finalized, finalizing it
/// again returns no calls, so every GPU object is released by the first call
/// alone; and from the initialized stage that first call deletes the three
/// textures, the vertex array, the buffer and the program, one call each.
pub proof fn lemma_finalize_idempotent(s: SmartVideoRenderer, t: SmartVideoRenderer)
    requires
        s.wf(),
        t.wf(),
        t.stage() == LifecycleStage::Finalized,
    ensures
        finalize_commands(t).len() == 0,
        s.stage() == LifecycleStage::Initialized ==> {
            &&& finalize_commands(s).len() == 6
            &&& finalize_commands(s)[5] == GlCommand::DeleteProgram(s.scene_state().program().unwrap())
        },
        s.stage() == LifecycleStage::Uninitialized ==> finalize_commands(s).len() == 0,
{
}

/// Initialization happens at most once: an initialized renderer holds a
/// valid program, and a further `initialize` is refused with `InvalidState`
/// (by its contract) while the program stays in place.
pub proof fn lemma_initialized_holds_program(t: SmartVideoRenderer)
    requires
        t.wf(),
        t.stage() == LifecycleStage::Initialized,
    ensures
        t.scene_state().program() is Some,
        t.scene_state().vertex_array() is Some,
        t.scene_state().vertex_buffer() is Some,
{
}

impl Renderer for SmartVideoRenderer {
    closed spec fn lifecycle(&self) -> LifecycleStage {
        self.stage
    }

    closed spec fn inv(&self) -> bool {
        self.wf()
    }

    closed spec fn scene(&self) -> GLRenderer {
        self.scene
    }

    fn initialize(
        &mut self,
        context: ContextVersion,
        program: ShaderProgram,
        locations: ProgramLocations,
        resources: SceneResources,
    ) -> (r: Result<Vec<GlCommand>, RendererError>) {
        SmartVideoRenderer::initialize(self, context, program, locations, resources)
    }

    fn finalize(&mut self) -> (r: Vec<GlCommand>) {
        SmartVideoRenderer::finalize(self)
    }

    fn resize(&mut self, w: u32, h: u32) -> (r: Result<(), RendererError>) {
        SmartVideoRenderer::resize(self, w, h)
    }

    fn render(&mut self) -> (r: Result<Vec<GlCommand>, RendererError>) {
        SmartVideoRenderer::render(self)
    }
}

} // verus!
