use vstd::prelude::*;

use crate::frame::YuvFrame;
use crate::gl_command::{GlCommand, TexParameter, texture_number, texture_unit, VERTEX_STRIDE};
use crate::renderer_error::{RendererError, ShaderInput};
use crate::vertex_array_object::VertexArrayObject;
use crate::vertex_buffer_object::VertexBufferObject;

verus! {

/// Where the linked program placed its inputs, as the host looked them up;
/// a negative location means the name did not resolve.
#[derive(Debug, Clone, Copy, PartialEq, Eq)]
pub struct ProgramLocations {
    pub position: i32,
    pub texcoord: i32,
    pub samplers: [i32; 3],
    pub alpha: i32,
}

/// The GPU objects the host generated for the scene; 0 means that generation
/// failed.
#[derive(Debug, Clone, Copy, PartialEq, Eq)]
pub struct SceneResources {
    pub vertex_array: u32,
    pub vertex_buffer: u32,
    pub textures: [u32; 3],
}

/// The first input, in lookup order, whose location did not resolve.
pub open spec fn first_unresolved(l: ProgramLocations) -> Option<ShaderInput> {
    if l.position < 0 {
        Some(ShaderInput::Position)
    } else if l.texcoord < 0 {
        Some(ShaderInput::TexCoord)
    } else if l.samplers[0] < 0 {
        Some(ShaderInput::SamplerY)
    } else if l.samplers[1] < 0 {
        Some(ShaderInput::SamplerU)
    } else if l.samplers[2] < 0 {
        Some(ShaderInput::SamplerV)
    } else if l.alpha < 0 {
        Some(ShaderInput::Alpha)
    } else {
        None
    }
}

/// Whether every object the host generated exists.
pub open spec fn resources_allocated(r: SceneResources) -> bool {
    r.vertex_array != 0 && r.vertex_buffer != 0 && r.textures[0] != 0 && r.textures[1] != 0
        && r.textures[2] != 0
}

/// The full-screen quad as a triangle strip of four vertices, each a position
/// (x, y, z) followed by a texture coordinate (s, t).
pub open spec fn quad_vertices() -> Seq<i8> {
    seq![
        -1i8, -1i8, 0i8, 0i8, 1i8,
        1i8, -1i8, 0i8, 1i8, 1i8,
        -1i8, 1i8, 0i8, 0i8, 0i8,
        1i8, 1i8, 0i8, 1i8, 0i8,
    ]
}

/// The calls that set the scene up once the program is linked: use the
/// program, upload the quad, describe its two attributes and make alpha opaque.
pub open spec fn setup_commands_ok(
    cmds: Seq<GlCommand>,
    program: u32,
    l: ProgramLocations,
    res: SceneResources,
) -> bool {
    &&& cmds.len() == 9
    &&& cmds[0] == GlCommand::UseProgram(program)
    &&& cmds[1] == GlCommand::BindVertexArray(res.vertex_array)
    &&& cmds[2] == GlCommand::BindArrayBuffer(res.vertex_buffer)
    &&& match cmds[3] {
        GlCommand::BufferStaticDraw { values } => values@ == quad_vertices(),
        _ => false,
    }
    &&& cmds.subrange(4, 9) == seq![
        GlCommand::VertexAttribPointer { index: l.position as u32, size: 3, normalized: false, stride: VERTEX_STRIDE, offset: 0 },
        GlCommand::EnableVertexAttribArray(l.position as u32),
        GlCommand::VertexAttribPointer { index: l.texcoord as u32, size: 2, normalized: false, stride: VERTEX_STRIDE, offset: 3 },
        GlCommand::EnableVertexAttribArray(l.texcoord as u32),
        GlCommand::UniformOpaque { location: l.alpha },
    ]
}

/// The calls for one plane: select its unit, bind its texture, upload the
/// bytes (allocating the texture, or replacing the contents of one already
/// allocated at this size), set linear filtering and clamp-to-edge wrapping,
/// and point its sampler at the unit.
pub open spec fn plane_commands(
    index: int,
    texture: u32,
    sampler: i32,
    allocate: bool,
    width: u32,
    height: u32,
    pixels: Vec<u8>,
) -> Seq<GlCommand> {
    seq![
        GlCommand::ActiveTexture(texture_unit(index).unwrap()),
        GlCommand::BindTexture(texture),
        if allocate {
            GlCommand::TexImage2D { width, height, pixels }
        } else {
            GlCommand::TexSubImage2D { width, height, pixels }
        },
        GlCommand::TexParameter(TexParameter::MinFilterLinear),
        GlCommand::TexParameter(TexParameter::MagFilterLinear),
        GlCommand::TexParameter(TexParameter::WrapSClampToEdge),
        GlCommand::TexParameter(TexParameter::WrapTClampToEdge),
        GlCommand::TexParameter(TexParameter::WrapRClampToEdge),
        GlCommand::Uniform1i { location: sampler, value: index as i32 },
    ]
}

/// The viewport call that opens a frame, once a size has been set.
pub open spec fn viewport_commands(viewport: Option<(u32, u32)>) -> Seq<GlCommand> {
    match viewport {
        Some((width, height)) => seq![GlCommand::Viewport { width, height }],
        None => Seq::empty(),
    }
}

/// What it takes to release the scene's GPU objects.
pub open spec fn release_commands(s: GLRenderer) -> Seq<GlCommand> {
    match s.program() {
        Some(p) => seq![
            GlCommand::DeleteTexture(s.textures()[0]),
            GlCommand::DeleteTexture(s.textures()[1]),
            GlCommand::DeleteTexture(s.textures()[2]),
            GlCommand::DeleteVertexArray(s.vertex_array().unwrap()),
            GlCommand::DeleteBuffer(s.vertex_buffer().unwrap()),
            GlCommand::DeleteProgram(p),
        ],
        None => Seq::empty(),
    }
}

/// The per-frame calls: the viewport, the three planes, and one four-vertex
/// triangle strip over the quad.
pub open spec fn draw_commands(s: GLRenderer, frame: YuvFrame) -> Seq<GlCommand> {
    let allocate = s.allocated() != Some((frame.width, frame.height));
    viewport_commands(s.viewport())
        + plane_commands(0, s.textures()[0], s.samplers()[0], allocate, frame.width, frame.height, frame.y)
        + plane_commands(1, s.textures()[1], s.samplers()[1], allocate, frame.chroma_width(), frame.chroma_height(), frame.u)
        + plane_commands(2, s.textures()[2], s.samplers()[2], allocate, frame.chroma_width(), frame.chroma_height(), frame.v)
        + seq![
            GlCommand::BindVertexArray(s.vertex_array().unwrap()),
            GlCommand::DrawTriangleStrip { first: 0, count: 4 },
        ]
}

/// Whether the program and every generated object exist (GL names them all
/// with nonzero numbers).
pub open spec fn objects_exist(program: u32, r: SceneResources) -> bool {
    program != 0 && resources_allocated(r)
}

/// `t` holds the same GPU objects and locations as `s`.
pub open spec fn same_objects(s: GLRenderer, t: GLRenderer) -> bool {
    &&& t.program() == s.program()
    &&& t.textures() == s.textures()
    &&& t.samplers() == s.samplers()
    &&& t.vertex_array() == s.vertex_array()
    &&& t.vertex_buffer() == s.vertex_buffer()
}

/// Setting the scene up took `s` to `t` with the calls `cmds`.
pub open spec fn set_up(
    s: GLRenderer,
    t: GLRenderer,
    program: u32,
    l: ProgramLocations,
    res: SceneResources,
    cmds: Seq<GlCommand>,
) -> bool {
    &&& setup_commands_ok(cmds, program, l, res)
    &&& t.program() == Some(program)
    &&& t.textures() == res.textures@
    &&& t.samplers() == l.samplers@
    &&& t.vertex_array() == Some(res.vertex_array)
    &&& t.vertex_buffer() == Some(res.vertex_buffer)
    &&& t.allocated() == None::<(u32, u32)>
    &&& t.viewport() == s.viewport()
}

/// Drawing `frame` took `s` to `t` with the calls `cmds`: no object is
/// created or deleted, and the textures are now allocated at the frame's size.
pub open spec fn drawn(s: GLRenderer, frame: YuvFrame, t: GLRenderer, cmds: Seq<GlCommand>) -> bool {
    &&& cmds == draw_commands(s, frame)
    &&& same_objects(s, t)
    &&& t.allocated() == Some((frame.width, frame.height))
    &&& t.viewport() == s.viewport()
}

/// Resizing took `s` to `t`: only the viewport changed, to `width` x `height`.
pub open spec fn resized(s: GLRenderer, t: GLRenderer, width: u32, height: u32) -> bool {
    &&& same_objects(s, t)
    &&& t.allocated() == s.allocated()
    &&& t.viewport() == Some((width, height))
}

/// A resize takes effect on the next frame: when the scene's viewport is
/// `width` x `height`, the draw calls open by setting exactly that viewport,
/// and set no other.
pub proof fn lemma_draw_uses_viewport(s: GLRenderer, frame: YuvFrame, width: u32, height: u32)
    requires
        s.viewport() == Some((width, height)),
    ensures
        draw_commands(s, frame)[0] == (GlCommand::Viewport { width, height }),
        forall|i: int|
            1 <= i < draw_commands(s, frame).len() ==> !(draw_commands(s, frame)[i] is Viewport),
{
    let cmds = draw_commands(s, frame);
    assert(cmds.len() == 30);
    assert forall|i: int| 1 <= i < cmds.len() implies !(cmds[i] is Viewport) by {
        let allocate = s.allocated() != Some((frame.width, frame.height));
        let p0 = plane_commands(0, s.textures()[0], s.samplers()[0], allocate, frame.width, frame.height, frame.y);
        let p1 = plane_commands(1, s.textures()[1], s.samplers()[1], allocate, frame.chroma_width(), frame.chroma_height(), frame.u);
        let p2 = plane_commands(2, s.textures()[2], s.samplers()[2], allocate, frame.chroma_width(), frame.chroma_height(), frame.v);
        if i < 10 {
            assert(cmds[i] == p0[i - 1]);
        } else if i < 19 {
            assert(cmds[i] == p1[i - 10]);
        } else if i < 28 {
            assert(cmds[i] == p2[i - 19]);
        }
    }
}

/// The scene: the linked program, the quad's vertex array and buffer, the
/// three plane textures and the cached locations of the program's inputs.
#[derive(Debug)]
pub struct GLRenderer {
    program: Option<u32>,
    texture_id: [u32; 3],
    texture_sampler: [i32; 3],
    vertex_array_object: VertexArrayObject,
    vertex_buffer_object: VertexBufferObject,
    allocated: Option<(u32, u32)>,
    viewport: Option<(u32, u32)>,
}

impl GLRenderer {
    pub closed spec fn program(&self) -> Option<u32> {
        self.program
    }

    pub closed spec fn textures(&self) -> Seq<u32> {
        self.texture_id@
    }

    pub closed spec fn samplers(&self) -> Seq<i32> {
        self.texture_sampler@
    }

    pub closed spec fn vertex_array(&self) -> Option<u32> {
        self.vertex_array_object.handle()
    }

    pub closed spec fn vertex_buffer(&self) -> Option<u32> {
        self.vertex_buffer_object.handle()
    }

    /// The luma size the textures were last allocated at, if they were.
    pub closed spec fn allocated(&self) -> Option<(u32, u32)> {
        self.allocated
    }

    pub closed spec fn viewport(&self) -> Option<(u32, u32)> {
        self.viewport
    }

    /// The scene holds its vertex array and buffer exactly while it holds a program.
    pub open spec fn wf(&self) -> bool {
        &&& (self.program() is Some <==> self.vertex_array() is Some)
        &&& (self.program() is Some <==> self.vertex_buffer() is Some)
    }

    pub open spec fn ready(&self) -> bool {
        self.program() is Some
    }

    pub fn new() -> (r: Self)
        ensures
            r.wf(),
            r.program() == None::<u32>,
            r.textures() == seq![0u32, 0u32, 0u32],
            r.samplers() == seq![0i32, 0i32, 0i32],
            r.allocated() == None::<(u32, u32)>,
            r.viewport() == None::<(u32, u32)>,
    {
        let r = GLRenderer {
            program: None,
            texture_id: [0; 3],
            texture_sampler: [0; 3],
            vertex_array_object: VertexArrayObject::empty(),
            vertex_buffer_object: VertexBufferObject::empty(),
            allocated: None,
            viewport: None,
        };
        assert(r.textures() =~= seq![0u32, 0u32, 0u32]);
        assert(r.samplers() =~= seq![0i32, 0i32, 0i32]);
        r
    }

    pub fn is_ready(&self) -> (r: bool)
        ensures
            r == self.ready(),
    {
        self.program.is_some()
    }

    /// Takes over a linked program, the locations of its inputs and the
    /// generated objects, and returns the calls that set the scene up. Fails,
    /// taking nothing over, when a location did not resolve or an object was
    /// not generated.
    pub fn init_vertex_stuff(
        &mut self,
        program: u32,
        locations: ProgramLocations,
        resources: SceneResources,
    ) -> (r: Result<Vec<GlCommand>, RendererError>)
        requires
            old(self).wf(),
            !old(self).ready(),
        ensures
            final(self).wf(),
            first_unresolved(locations) is Some ==> r == Err::<Vec<GlCommand>, RendererError>(
                RendererError::UnresolvedLocation { input: first_unresolved(locations).unwrap() },
            ),
            first_unresolved(locations) is None && !objects_exist(program, resources) ==> r == Err::<
                Vec<GlCommand>,
                RendererError,
            >(RendererError::ResourceAllocationFailure),
            r is Err ==> *final(self) == *old(self),
            r is Ok <==> first_unresolved(locations) is None && objects_exist(program, resources),
            r is Ok ==> set_up(*old(self), *final(self), program, locations, resources, r->Ok_0@),
    {
        match unresolved_input(&locations) {
            Some(input) => {
                return Err(RendererError::UnresolvedLocation { input });
            },
            None => {},
        }
        if program == 0 || resources.vertex_array == 0 || resources.vertex_buffer == 0 || resources.textures[0] == 0
            || resources.textures[1] == 0 || resources.textures[2] == 0 {
            return Err(RendererError::ResourceAllocationFailure);
        }
        let vao = VertexArrayObject::new(resources.vertex_array);
        let vbo = VertexBufferObject::new(resources.vertex_buffer);
        let mut r: Vec<GlCommand> = Vec::new();
        r.push(GlCommand::UseProgram(program));
        match vao.activate() {
            Ok(c) => r.push(c),
            Err(()) => {},
        }
        let quad = quad_data();
        match vbo.assign(quad) {
            Ok(mut cs) => r.append(&mut cs),
            Err(()) => {},
        }
        let mut position = VertexArrayObject::append(
            locations.position as u32,
            3,
            false,
            VERTEX_STRIDE,
            0,
        );
        r.append(&mut position);
        let mut texcoord = VertexArrayObject::append(
            locations.texcoord as u32,
            2,
            false,
            VERTEX_STRIDE,
            3,
        );
        r.append(&mut texcoord);
        r.push(GlCommand::UniformOpaque { location: locations.alpha });
        assert(r@.subrange(4, 9) =~= seq![
            GlCommand::VertexAttribPointer { index: locations.position as u32, size: 3, normalized: false, stride: VERTEX_STRIDE, offset: 0 },
            GlCommand::EnableVertexAttribArray(locations.position as u32),
            GlCommand::VertexAttribPointer { index: locations.texcoord as u32, size: 2, normalized: false, stride: VERTEX_STRIDE, offset: 3 },
            GlCommand::EnableVertexAttribArray(locations.texcoord as u32),
            GlCommand::UniformOpaque { location: locations.alpha },
        ]);
        self.program = Some(program);
        self.texture_id = resources.textures;
        self.texture_sampler = locations.samplers;
        self.vertex_array_object = vao;
        self.vertex_buffer_object = vbo;
        self.allocated = None;
        Ok(r)
    }

    /// Records the viewport size that the next frames are drawn at.
    pub fn resize(&mut self, width: u32, height: u32)
        requires
            old(self).wf(),
        ensures
            final(self).wf(),
            resized(*old(self), *final(self), width, height),
    {
        self.viewport = Some((width, height));
    }

    /// The calls that draw one frame: the plane textures are allocated on the
    /// first frame (and whenever the frame size changes) and only refilled
    /// otherwise; `InvalidState` before the scene is set up.
    pub fn draw(&mut self, frame: YuvFrame) -> (r: Result<Vec<GlCommand>, RendererError>)
        requires
            old(self).wf(),
            frame.wf(),
        ensures
            final(self).wf(),
            !old(self).ready() ==> r == Err::<Vec<GlCommand>, RendererError>(RendererError::InvalidState)
                && *final(self) == *old(self),
            old(self).ready() ==> r is Ok && drawn(*old(self), frame, *final(self), r->Ok_0@),
    {
        if self.program.is_none() {
            return Err(RendererError::InvalidState);
        }
        let allocate = match self.allocated {
            Some((w, h)) => !(w == frame.width && h == frame.height),
            None => true,
        };
        let mut r: Vec<GlCommand> = Vec::new();
        match self.viewport {
            Some((width, height)) => r.push(GlCommand::Viewport { width, height }),
            None => {},
        }
        assert(r@ =~= viewport_commands(self.viewport()));
        let chroma_width = frame.width / 2;
        let chroma_height = frame.height / 2;
        let mut y = self.plane(0, allocate, frame.width, frame.height, frame.y);
        r.append(&mut y);
        let mut u = self.plane(1, allocate, chroma_width, chroma_height, frame.u);
        r.append(&mut u);
        let mut v = self.plane(2, allocate, chroma_width, chroma_height, frame.v);
        r.append(&mut v);
        match self.vertex_array_object.activate() {
            Ok(c) => r.push(c),
            Err(()) => {},
        }
        r.push(GlCommand::DrawTriangleStrip { first: 0, count: 4 });
        self.allocated = Some((frame.width, frame.height));
        assert(r@ == draw_commands(*old(self), frame));
        assert(same_objects(*old(self), *self));
        Ok(r)
    }

    fn plane(&self, index: u8, allocate: bool, width: u32, height: u32, pixels: Vec<u8>) -> (r: Vec<
        GlCommand,
    >)
        requires
            index < 3,
        ensures
            r@ == plane_commands(
                index as int,
                self.textures()[index as int],
                self.samplers()[index as int],
                allocate,
                width,
                height,
                pixels,
            ),
    {
        let mut r: Vec<GlCommand> = Vec::new();
        match texture_number(index) {
            Ok(unit) => r.push(GlCommand::ActiveTexture(unit)),
            Err(_) => {},
        }
        r.push(GlCommand::BindTexture(self.texture_id[index as usize]));
        if allocate {
            r.push(GlCommand::TexImage2D { width, height, pixels });
        } else {
            r.push(GlCommand::TexSubImage2D { width, height, pixels });
        }
        r.push(GlCommand::TexParameter(TexParameter::MinFilterLinear));
        r.push(GlCommand::TexParameter(TexParameter::MagFilterLinear));
        r.push(GlCommand::TexParameter(TexParameter::WrapSClampToEdge));
        r.push(GlCommand::TexParameter(TexParameter::WrapTClampToEdge));
        r.push(GlCommand::TexParameter(TexParameter::WrapRClampToEdge));
        r.push(GlCommand::Uniform1i { location: self.texture_sampler[index as usize], value: index as i32 });
        assert(r@ =~= plane_commands(
            index as int,
            self.textures()[index as int],
            self.samplers()[index as int],
            allocate,
            width,
            height,
            pixels,
        ));
        r
    }

    /// Gives every GPU object of the scene up: the calls that delete them,
    /// once. Afterwards the scene holds nothing and a second release returns
    /// no calls.
    pub fn release(&mut self) -> (r: Vec<GlCommand>)
        requires
            old(self).wf(),
        ensures
            final(self).wf(),
            !final(self).ready(),
            final(self).allocated() == None::<(u32, u32)>,
            final(self).viewport() == old(self).viewport(),
            r@ == release_commands(*old(self)),
    {
        let mut r: Vec<GlCommand> = Vec::new();
        match self.program {
            Some(p) => {
                r.push(GlCommand::DeleteTexture(self.texture_id[0]));
                r.push(GlCommand::DeleteTexture(self.texture_id[1]));
                r.push(GlCommand::DeleteTexture(self.texture_id[2]));
                match self.vertex_array_object.release() {
                    Some(c) => r.push(c),
                    None => {},
                }
                match self.vertex_buffer_object.release() {
                    Some(c) => r.push(c),
                    None => {},
                }
                r.push(GlCommand::DeleteProgram(p));
            },
            None => {},
        }
        assert(r@ =~= release_commands(*old(self)));
        self.program = None;
        self.allocated = None;
        r
    }
}

/// The first input of `l`, in lookup order, whose location is negative.
fn unresolved_input(l: &ProgramLocations) -> (r: Option<ShaderInput>)
    ensures
        r == first_unresolved(*l),
{
    if l.position < 0 {
        Some(ShaderInput::Position)
    } else if l.texcoord < 0 {
        Some(ShaderInput::TexCoord)
    } else if l.samplers[0] < 0 {
        Some(ShaderInput::SamplerY)
    } else if l.samplers[1] < 0 {
        Some(ShaderInput::SamplerU)
    } else if l.samplers[2] < 0 {
        Some(ShaderInput::SamplerV)
    } else if l.alpha < 0 {
        Some(ShaderInput::Alpha)
    } else {
        None
    }
}

/// The quad's vertex data.
pub fn quad_data() -> (r: Vec<i8>)
    ensures
        r@ == quad_vertices(),
{
    let mut r: Vec<i8> = Vec::new();
    r.push(-1); r.push(-1); r.push(0); r.push(0); r.push(1);
    r.push(1); r.push(-1); r.push(0); r.push(1); r.push(1);
    r.push(-1); r.push(1); r.push(0); r.push(0); r.push(0);
    r.push(1); r.push(1); r.push(0); r.push(1); r.push(0);
    assert(r@ =~= quad_vertices());
    r
}

} // verus!
