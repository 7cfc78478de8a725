use vstd::prelude::*;

use crate::gl_command::{GlCommand, ShaderStage};
use crate::renderer_error::RendererError;

verus! {

/// What the host reports after performing a compile or link call: the GL
/// object it created and, on failure, the driver's diagnostic text.
#[derive(Debug, Clone, PartialEq, Eq)]
pub enum StageReport {
    Succeeded { handle: u32 },
    Failed { handle: u32, log: String },
}

/// How far the compilation of a program has come.
#[derive(Debug, Clone, Copy, PartialEq, Eq)]
pub enum CompileStage {
    Pending,
    VertexCompiled,
    FragmentCompiled,
    Linked,
    Failed,
}

/// A vertex and a fragment source, compiled and linked at most once into a
/// program. The program handle exists exactly when linking succeeded.
#[derive(Debug)]
pub struct ShaderProgram {
    vertex_source: String,
    fragment_source: String,
    stage: CompileStage,
    vertex: u32,
    fragment: u32,
    program: Option<u32>,
    error: Option<RendererError>,
}

impl ShaderProgram {
    pub closed spec fn vertex_source(&self) -> Seq<char> {
        self.vertex_source@
    }

    pub closed spec fn fragment_source(&self) -> Seq<char> {
        self.fragment_source@
    }

    pub closed spec fn stage(&self) -> CompileStage {
        self.stage
    }

    /// The compiled vertex shader, once there is one.
    pub closed spec fn vertex_shader(&self) -> u32 {
        self.vertex
    }

    /// The compiled fragment shader, once there is one.
    pub closed spec fn fragment_shader(&self) -> u32 {
        self.fragment
    }

    pub closed spec fn handle(&self) -> Option<u32> {
        self.program
    }

    pub closed spec fn error(&self) -> Option<RendererError> {
        self.error
    }

    /// The handle is there exactly when linked, the error exactly when failed.
    pub open spec fn wf(&self) -> bool {
        &&& (self.handle() is Some <==> self.stage() == CompileStage::Linked)
        &&& (self.error() is Some <==> self.stage() == CompileStage::Failed)
    }

    pub fn new(vertex_source: &str, fragment_source: &str) -> (r: Self)
        ensures
            r.wf(),
            r.vertex_source() == vertex_source@,
            r.fragment_source() == fragment_source@,
            r.stage() == CompileStage::Pending,
    {
        ShaderProgram {
            vertex_source: vertex_source.to_owned(),
            fragment_source: fragment_source.to_owned(),
            stage: CompileStage::Pending,
            vertex: 0,
            fragment: 0,
            program: None,
            error: None,
        }
    }

    /// The linked program, if linking succeeded.
    pub fn program(&self) -> (r: Option<u32>)
        ensures
            r == self.handle(),
    {
        self.program
    }

    pub fn compile_stage(&self) -> (r: CompileStage)
        ensures
            r == self.stage(),
    {
        self.stage
    }

    /// The call the host has to perform next, while compilation is under way.
    pub fn next_command(&self) -> (r: Option<GlCommand>)
        ensures
            next_command_of(self.stage(), self.vertex_source(), self.fragment_source(),
                self.vertex_shader(), self.fragment_shader(), r),
    {
        match self.stage {
            CompileStage::Pending => Some(GlCommand::CompileShader {
                stage: ShaderStage::Vertex,
                source: self.vertex_source.clone(),
            }),
            CompileStage::VertexCompiled => Some(GlCommand::CompileShader {
                stage: ShaderStage::Fragment,
                source: self.fragment_source.clone(),
            }),
            CompileStage::FragmentCompiled => Some(GlCommand::LinkProgram {
                vertex: self.vertex,
                fragment: self.fragment,
            }),
            _ => None,
        }
    }

    /// Takes the outcome of the call from `next_command`. Returns the clean-up
    /// calls that the outcome makes due: a failed object is deleted, and the
    /// stage objects are deleted once linking is over, whatever its outcome.
    /// A failure ends compilation with the matching error; after linking or a
    /// failure, reports change nothing.
    pub fn report(&mut self, report: StageReport) -> (r: Vec<GlCommand>)
        requires
            old(self).wf(),
        ensures
            final(self).wf(),
            final(self).vertex_source() == old(self).vertex_source(),
            final(self).fragment_source() == old(self).fragment_source(),
            report_outcome(*old(self), report, *final(self), r@),
    {
        let mut r: Vec<GlCommand> = Vec::new();
        match self.stage {
            CompileStage::Pending => match report {
                StageReport::Succeeded { handle } => {
                    self.vertex = handle;
                    self.stage = CompileStage::VertexCompiled;
                },
                StageReport::Failed { handle, log } => {
                    r.push(GlCommand::DeleteShader(handle));
                    self.error = Some(RendererError::VertexCompileError { log });
                    self.stage = CompileStage::Failed;
                },
            },
            CompileStage::VertexCompiled => match report {
                StageReport::Succeeded { handle } => {
                    self.fragment = handle;
                    self.stage = CompileStage::FragmentCompiled;
                },
                StageReport::Failed { handle, log } => {
                    r.push(GlCommand::DeleteShader(handle));
                    r.push(GlCommand::DeleteShader(self.vertex));
                    self.error = Some(RendererError::FragmentCompileError { log });
                    self.stage = CompileStage::Failed;
                },
            },
            CompileStage::FragmentCompiled => {
                r.push(GlCommand::DeleteShader(self.vertex));
                r.push(GlCommand::DeleteShader(self.fragment));
                match report {
                    StageReport::Succeeded { handle } => {
                        self.program = Some(handle);
                        self.stage = CompileStage::Linked;
                    },
                    StageReport::Failed { handle, log } => {
                        r.push(GlCommand::DeleteProgram(handle));
                        self.error = Some(RendererError::LinkError { log });
                        self.stage = CompileStage::Failed;
                    },
                }
            },
            _ => {},
        }
        r
    }

    /// The linked program, or the error that ended compilation; `InvalidState`
    /// while compilation is still under way.
    pub fn into_result(self) -> (r: Result<u32, RendererError>)
        requires
            self.wf(),
        ensures
            r == program_result(self.stage(), self.handle(), self.error()),
    {
        match self.stage {
            CompileStage::Linked => match self.program {
                Some(p) => Ok(p),
                None => Err(RendererError::InvalidState),
            },
            CompileStage::Failed => match self.error {
                Some(e) => Err(e),
                None => Err(RendererError::InvalidState),
            },
            _ => Err(RendererError::InvalidState),
        }
    }
}

/// The call that comes next at `stage`: compile the vertex source, then the
/// fragment source, then link the two shaders; none once linked or failed.
pub open spec fn next_command_of(
    stage: CompileStage,
    vertex_source: Seq<char>,
    fragment_source: Seq<char>,
    vertex: u32,
    fragment: u32,
    r: Option<GlCommand>,
) -> bool {
    match stage {
        CompileStage::Pending => match r {
            Some(GlCommand::CompileShader { stage, source }) => stage == ShaderStage::Vertex
                && source@ == vertex_source,
            _ => false,
        },
        CompileStage::VertexCompiled => match r {
            Some(GlCommand::CompileShader { stage, source }) => stage == ShaderStage::Fragment
                && source@ == fragment_source,
            _ => false,
        },
        CompileStage::FragmentCompiled => r == Some(GlCommand::LinkProgram { vertex, fragment }),
        _ => r == None::<GlCommand>,
    }
}

/// How a report moves compilation on from `s` to `t`, with clean-up calls `cmds`.
pub open spec fn report_outcome(
    s: ShaderProgram,
    report: StageReport,
    t: ShaderProgram,
    cmds: Seq<GlCommand>,
) -> bool {
    match s.stage() {
        CompileStage::Pending => match report {
            StageReport::Succeeded { handle } => t.stage() == CompileStage::VertexCompiled
                && t.vertex_shader() == handle && cmds =~= Seq::<GlCommand>::empty(),
            StageReport::Failed { handle, log } => t.stage() == CompileStage::Failed
                && t.error() == Some(RendererError::VertexCompileError { log })
                && cmds =~= seq![GlCommand::DeleteShader(handle)],
        },
        CompileStage::VertexCompiled => match report {
            StageReport::Succeeded { handle } => t.stage() == CompileStage::FragmentCompiled
                && t.vertex_shader() == s.vertex_shader() && t.fragment_shader() == handle
                && cmds =~= Seq::<GlCommand>::empty(),
            StageReport::Failed { handle, log } => t.stage() == CompileStage::Failed
                && t.error() == Some(RendererError::FragmentCompileError { log })
                && cmds =~= seq![GlCommand::DeleteShader(handle), GlCommand::DeleteShader(s.vertex_shader())],
        },
        CompileStage::FragmentCompiled => match report {
            StageReport::Succeeded { handle } => t.stage() == CompileStage::Linked
                && t.handle() == Some(handle)
                && cmds =~= seq![
                    GlCommand::DeleteShader(s.vertex_shader()),
                    GlCommand::DeleteShader(s.fragment_shader()),
                ],
            StageReport::Failed { handle, log } => t.stage() == CompileStage::Failed
                && t.error() == Some(RendererError::LinkError { log })
                && cmds =~= seq![
                    GlCommand::DeleteShader(s.vertex_shader()),
                    GlCommand::DeleteShader(s.fragment_shader()),
                    GlCommand::DeleteProgram(handle),
                ],
        },
        _ => t == s && cmds =~= Seq::<GlCommand>::empty(),
    }
}

/// Compilation is all-or-nothing: a failed vertex stage, fragment stage or
/// link ends compilation with the matching error, carrying the driver's log
/// unchanged and holding no program; a successful link yields its program.
pub proof fn lemma_compile_outcome(
    s: ShaderProgram,
    report: StageReport,
    t: ShaderProgram,
    cmds: Seq<GlCommand>,
)
    requires
        s.wf(),
        t.wf(),
        report_outcome(s, report, t, cmds),
    ensures
        s.stage() == CompileStage::Pending && report is Failed ==> t.handle() is None
            && program_result(t.stage(), t.handle(), t.error()) == Err::<u32, RendererError>(
            RendererError::VertexCompileError { log: report->Failed_log },
        ),
        s.stage() == CompileStage::VertexCompiled && report is Failed ==> t.handle() is None
            && program_result(t.stage(), t.handle(), t.error()) == Err::<u32, RendererError>(
            RendererError::FragmentCompileError { log: report->Failed_log },
        ),
        s.stage() == CompileStage::FragmentCompiled && report is Failed ==> t.handle() is None
            && program_result(t.stage(), t.handle(), t.error()) == Err::<u32, RendererError>(
            RendererError::LinkError { log: report->Failed_log },
        ),
        s.stage() == CompileStage::FragmentCompiled && report is Succeeded ==> program_result(
            t.stage(),
            t.handle(),
            t.error(),
        ) == Ok::<u32, RendererError>(report->Succeeded_handle),
{
}

/// What a finished compilation amounts to: the program once linked, the
/// error once failed, `InvalidState` before either.
pub open spec fn program_result(
    stage: CompileStage,
    handle: Option<u32>,
    error: Option<RendererError>,
) -> Result<u32, RendererError> {
    match stage {
        CompileStage::Linked => Ok(handle.unwrap()),
        CompileStage::Failed => Err(error.unwrap()),
        _ => Err(RendererError::InvalidState),
    }
}

} // verus!

verus! {

/// Vertex stage: passes the quad's positions through and hands the texture
/// coordinates on to the fragment stage.
pub const VIDEO_VERTEX_SHADER: &'static str = "#version 300 es
layout (location = 0) in vec3 aPos;
layout (location = 1) in vec2 aTexCoord;

out vec2 TexCoord;

void main()
{
    gl_Position = vec4(aPos, 1.0);
    TexCoord = vec2(aTexCoord.x, aTexCoord.y);
}
";

/// Fragment stage: samples the three planes and converts YUV to RGB with
/// fixed coefficients; alpha comes from a uniform.
pub const PLANAR_FRAGMENT_SHADER: &'static str = "#version 300 es

#ifdef GL_ES
// Set default precision to medium
precision mediump int;
precision mediump float;
#endif

uniform sampler2D tex_y;
uniform sampler2D tex_u;
uniform sampler2D tex_v;
uniform float alpha;

in vec2 TexCoord;
out vec4 FragColor;

void main()
{
    vec3 yuv;
    vec4 rgba;
    yuv.r = texture(tex_y, TexCoord).r - 0.0625;
    yuv.g = texture(tex_u, TexCoord).r - 0.5;
    yuv.b = texture(tex_v, TexCoord).r - 0.5;

    rgba.r = yuv.r + 1.596 * yuv.b;
    rgba.g = yuv.r - 0.813 * yuv.b - 0.391 * yuv.g;
    rgba.b = yuv.r + 2.018 * yuv.g;

    rgba.a = alpha;
    FragColor = rgba;
}";

} // verus!
