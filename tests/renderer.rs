use orwell_gtk::color::{convert_pixel, COLOR_SCALE};
use orwell_gtk::frame::{YuvFrame, FRAME_HEIGHT, FRAME_WIDTH};
use orwell_gtk::gl_command::{texture_number, GlCommand, ShaderStage, TexParameter, TEXTURE0, TEXTURE1, TEXTURE2};
use orwell_gtk::renderer::{check_context, ContextVersion, LifecycleStage, Renderer};
use orwell_gtk::renderer_error::{RendererError, ShaderInput};
use orwell_gtk::scene::{quad_data, ProgramLocations, SceneResources};
use orwell_gtk::shader::{
    CompileStage, ShaderProgram, StageReport, PLANAR_FRAGMENT_SHADER, VIDEO_VERTEX_SHADER,
};
use orwell_gtk::smart_video_renderer::SmartVideoRenderer;
use orwell_gtk::vertex_array_object::VertexArrayObject;
use orwell_gtk::vertex_buffer_object::VertexBufferObject;

fn linked_program(handle: u32) -> ShaderProgram {
    let mut p = ShaderProgram::new(VIDEO_VERTEX_SHADER, PLANAR_FRAGMENT_SHADER);
    p.report(StageReport::Succeeded { handle: 11 });
    p.report(StageReport::Succeeded { handle: 12 });
    p.report(StageReport::Succeeded { handle });
    p
}

fn gl46() -> ContextVersion {
    ContextVersion { major: 4, minor: 6, es: false }
}

fn locations() -> ProgramLocations {
    ProgramLocations { position: 0, texcoord: 1, samplers: [2, 3, 4], alpha: 5 }
}

fn resources() -> SceneResources {
    SceneResources { vertex_array: 7, vertex_buffer: 8, textures: [21, 22, 23] }
}

fn initialized() -> SmartVideoRenderer {
    let mut r = SmartVideoRenderer::new();
    r.initialize(gl46(), linked_program(40), locations(), resources()).unwrap();
    r
}

#[test]
fn texture_units_of_the_three_planes() {
    assert_eq!(texture_number(0), Ok(TEXTURE0));
    assert_eq!(texture_number(1), Ok(TEXTURE1));
    assert_eq!(texture_number(2), Ok(TEXTURE2));
    assert_eq!(TEXTURE0, 0x84C0);
    assert_eq!(TEXTURE2, 0x84C2);
}

#[test]
fn texture_unit_out_of_range_is_an_error() {
    assert_eq!(texture_number(3), Err(RendererError::InvalidTextureUnit));
    assert_eq!(texture_number(255), Err(RendererError::InvalidTextureUnit));
}

#[test]
fn vertex_array_lifecycle() {
    let empty = VertexArrayObject::empty();
    assert_eq!(empty.inner_value(), None);
    assert_eq!(empty.activate(), Err(()));
    let mut vao = VertexArrayObject::new(5);
    assert_eq!(vao.inner_value(), Some(5));
    assert_eq!(vao.activate(), Ok(GlCommand::BindVertexArray(5)));
    assert_eq!(vao.release(), Some(GlCommand::DeleteVertexArray(5)));
    assert_eq!(vao.release(), None);
    assert_eq!(vao.activate(), Err(()));
}

#[test]
fn vertex_attribute_calls() {
    assert_eq!(
        VertexArrayObject::append(1, 2, true, 5, 3),
        vec![
            GlCommand::VertexAttribPointer { index: 1, size: 2, normalized: true, stride: 5, offset: 3 },
            GlCommand::EnableVertexAttribArray(1),
        ]
    );
}

#[test]
fn vertex_buffer_lifecycle() {
    let empty = VertexBufferObject::empty();
    assert_eq!(empty.inner_value(), None);
    assert_eq!(empty.activate(), Err(()));
    assert_eq!(empty.assign(vec![1, 2]), Err(()));
    let mut vbo = VertexBufferObject::new(9);
    assert_eq!(vbo.inner_value(), Some(9));
    assert_eq!(vbo.activate(), Ok(GlCommand::BindArrayBuffer(9)));
    assert_eq!(
        vbo.assign(vec![1, -1]),
        Ok(vec![GlCommand::BindArrayBuffer(9), GlCommand::BufferStaticDraw { values: vec![1, -1] }])
    );
    assert_eq!(vbo.release(), Some(GlCommand::DeleteBuffer(9)));
    assert_eq!(vbo.release(), None);
}

#[test]
fn shader_compiles_in_order_and_links() {
    let mut p = ShaderProgram::new("vs", "fs");
    assert_eq!(p.compile_stage(), CompileStage::Pending);
    assert_eq!(
        p.next_command(),
        Some(GlCommand::CompileShader { stage: ShaderStage::Vertex, source: "vs".to_string() })
    );
    assert!(p.report(StageReport::Succeeded { handle: 1 }).is_empty());
    assert_eq!(
        p.next_command(),
        Some(GlCommand::CompileShader { stage: ShaderStage::Fragment, source: "fs".to_string() })
    );
    assert!(p.report(StageReport::Succeeded { handle: 2 }).is_empty());
    assert_eq!(p.next_command(), Some(GlCommand::LinkProgram { vertex: 1, fragment: 2 }));
    assert_eq!(
        p.report(StageReport::Succeeded { handle: 3 }),
        vec![GlCommand::DeleteShader(1), GlCommand::DeleteShader(2)]
    );
    assert_eq!(p.compile_stage(), CompileStage::Linked);
    assert_eq!(p.program(), Some(3));
    assert_eq!(p.next_command(), None);
    // compiled at most once: further reports change nothing
    assert!(p.report(StageReport::Succeeded { handle: 4 }).is_empty());
    assert_eq!(p.into_result(), Ok(3));
}

#[test]
fn vertex_compile_error_carries_the_log() {
    let mut p = ShaderProgram::new("bad", "fs");
    let cleanup = p.report(StageReport::Failed { handle: 1, log: "0:1: syntax error".to_string() });
    assert_eq!(cleanup, vec![GlCommand::DeleteShader(1)]);
    assert_eq!(p.compile_stage(), CompileStage::Failed);
    assert_eq!(p.program(), None);
    assert_eq!(p.next_command(), None);
    assert_eq!(
        p.into_result(),
        Err(RendererError::VertexCompileError { log: "0:1: syntax error".to_string() })
    );
}

#[test]
fn fragment_compile_error_releases_the_vertex_shader() {
    let mut p = ShaderProgram::new("vs", "bad");
    p.report(StageReport::Succeeded { handle: 1 });
    let cleanup = p.report(StageReport::Failed { handle: 2, log: "frag".to_string() });
    assert_eq!(cleanup, vec![GlCommand::DeleteShader(2), GlCommand::DeleteShader(1)]);
    assert_eq!(p.into_result(), Err(RendererError::FragmentCompileError { log: "frag".to_string() }));
}

#[test]
fn link_error_releases_everything() {
    let mut p = ShaderProgram::new("vs", "fs");
    p.report(StageReport::Succeeded { handle: 1 });
    p.report(StageReport::Succeeded { handle: 2 });
    let cleanup = p.report(StageReport::Failed { handle: 3, log: "link".to_string() });
    assert_eq!(
        cleanup,
        vec![GlCommand::DeleteShader(1), GlCommand::DeleteShader(2), GlCommand::DeleteProgram(3)]
    );
    assert_eq!(p.program(), None);
    assert_eq!(p.into_result(), Err(RendererError::LinkError { log: "link".to_string() }));
}

#[test]
fn unfinished_program_is_invalid_state() {
    let p = ShaderProgram::new("vs", "fs");
    assert_eq!(p.into_result(), Err(RendererError::InvalidState));
}

#[test]
fn initialize_sets_the_scene_up_once() {
    let mut r = SmartVideoRenderer::new();
    assert_eq!(r.lifecycle_stage(), LifecycleStage::Uninitialized);
    let cmds = r.initialize(gl46(), linked_program(40), locations(), resources()).unwrap();
    assert_eq!(
        cmds,
        vec![
            GlCommand::UseProgram(40),
            GlCommand::BindVertexArray(7),
            GlCommand::BindArrayBuffer(8),
            GlCommand::BufferStaticDraw { values: quad_data() },
            GlCommand::VertexAttribPointer { index: 0, size: 3, normalized: false, stride: 5, offset: 0 },
            GlCommand::EnableVertexAttribArray(0),
            GlCommand::VertexAttribPointer { index: 1, size: 2, normalized: false, stride: 5, offset: 3 },
            GlCommand::EnableVertexAttribArray(1),
            GlCommand::UniformOpaque { location: 5 },
        ]
    );
    assert_eq!(r.lifecycle_stage(), LifecycleStage::Initialized);
    assert_eq!(
        r.initialize(gl46(), linked_program(41), locations(), resources()),
        Err(RendererError::InvalidState)
    );
    assert_eq!(r.lifecycle_stage(), LifecycleStage::Initialized);
}

#[test]
fn initialize_with_a_syntax_error_stays_uninitialized() {
    let mut r = SmartVideoRenderer::new();
    let mut p = ShaderProgram::new("#version 300 es\nvoid main( {", PLANAR_FRAGMENT_SHADER);
    p.report(StageReport::Failed { handle: 1, log: "ERROR: 0:2: '{' : syntax error".to_string() });
    let e = r.initialize(gl46(), p, locations(), resources()).unwrap_err();
    match e {
        RendererError::VertexCompileError { log } => assert!(!log.is_empty()),
        other => panic!("unexpected error {:?}", other),
    }
    assert_eq!(r.lifecycle_stage(), LifecycleStage::Uninitialized);
    // a later, valid program is still accepted
    assert!(r.initialize(gl46(), linked_program(40), locations(), resources()).is_ok());
}

#[test]
fn unresolved_location_is_reported_by_name() {
    let mut r = SmartVideoRenderer::new();
    let mut l = locations();
    l.texcoord = -1;
    l.alpha = -1;
    assert_eq!(
        r.initialize(gl46(), linked_program(40), l, resources()),
        Err(RendererError::UnresolvedLocation { input: ShaderInput::TexCoord })
    );
    let mut l = locations();
    l.samplers[2] = -1;
    assert_eq!(
        r.initialize(gl46(), linked_program(40), l, resources()),
        Err(RendererError::UnresolvedLocation { input: ShaderInput::SamplerV })
    );
    assert_eq!(r.lifecycle_stage(), LifecycleStage::Uninitialized);
    assert_eq!(ShaderInput::TexCoord.glsl_name(), "aTexCoord");
    assert_eq!(ShaderInput::SamplerV.glsl_name(), "tex_v");
    assert_eq!(ShaderInput::Alpha.glsl_name(), "alpha");
}

#[test]
fn missing_gpu_object_is_an_allocation_failure() {
    let mut r = SmartVideoRenderer::new();
    let mut res = resources();
    res.textures[1] = 0;
    assert_eq!(
        r.initialize(gl46(), linked_program(40), locations(), res),
        Err(RendererError::ResourceAllocationFailure)
    );
    assert_eq!(r.lifecycle_stage(), LifecycleStage::Uninitialized);
}

#[test]
fn render_before_initialize_is_invalid_state() {
    let mut r = SmartVideoRenderer::new();
    assert_eq!(r.render(), Err(RendererError::InvalidState));
    assert_eq!(
        r.render_frame(YuvFrame::filled(4, 2, 0)),
        Err(RendererError::InvalidState)
    );
    assert_eq!(r.resize(10, 10), Err(RendererError::InvalidState));
    assert_eq!(r.lifecycle_stage(), LifecycleStage::Uninitialized);
}

#[test]
fn finalize_twice_releases_once() {
    let mut r = initialized();
    assert_eq!(
        r.finalize(),
        vec![
            GlCommand::DeleteTexture(21),
            GlCommand::DeleteTexture(22),
            GlCommand::DeleteTexture(23),
            GlCommand::DeleteVertexArray(7),
            GlCommand::DeleteBuffer(8),
            GlCommand::DeleteProgram(40),
        ]
    );
    assert_eq!(r.lifecycle_stage(), LifecycleStage::Finalized);
    assert!(r.finalize().is_empty());
    assert_eq!(r.lifecycle_stage(), LifecycleStage::Finalized);
    assert_eq!(r.render(), Err(RendererError::InvalidState));
}

#[test]
fn finalize_before_initialize_releases_nothing() {
    let mut r = SmartVideoRenderer::new();
    assert!(r.finalize().is_empty());
    assert_eq!(r.lifecycle_stage(), LifecycleStage::Finalized);
    assert_eq!(
        r.initialize(gl46(), linked_program(40), locations(), resources()),
        Err(RendererError::InvalidState)
    );
}

#[test]
fn resize_then_render_uses_the_new_viewport() {
    let mut r = initialized();
    r.resize(800, 600).unwrap();
    let cmds = r.render_frame(YuvFrame::filled(4, 4, 9)).unwrap();
    assert_eq!(cmds[0], GlCommand::Viewport { width: 800, height: 600 });
    r.resize(1920, 1080).unwrap();
    let cmds = r.render_frame(YuvFrame::filled(4, 4, 9)).unwrap();
    assert_eq!(cmds[0], GlCommand::Viewport { width: 1920, height: 1080 });
    let viewports = cmds.iter().filter(|c| matches!(c, GlCommand::Viewport { .. })).count();
    assert_eq!(viewports, 1);
}

#[test]
fn end_to_end_frame_of_zeros() {
    let mut r = initialized();
    r.resize(1280, 720).unwrap();
    let cmds = r.render_frame(YuvFrame::filled(1280, 720, 0)).unwrap();
    let uploads: Vec<(u32, u32, usize)> = cmds
        .iter()
        .filter_map(|c| match c {
            GlCommand::TexImage2D { width, height, pixels } => Some((*width, *height, pixels.len())),
            _ => None,
        })
        .collect();
    assert_eq!(uploads, vec![(1280, 720, 1280 * 720), (640, 360, 640 * 360), (640, 360, 640 * 360)]);
    let draws: Vec<&GlCommand> =
        cmds.iter().filter(|c| matches!(c, GlCommand::DrawTriangleStrip { .. })).collect();
    assert_eq!(draws, vec![&GlCommand::DrawTriangleStrip { first: 0, count: 4 }]);
    assert_eq!(cmds.len(), 30);
    assert_eq!(cmds[28], GlCommand::BindVertexArray(7));
    assert_eq!(cmds[29], GlCommand::DrawTriangleStrip { first: 0, count: 4 });
}

#[test]
fn plane_calls_in_order() {
    let mut r = initialized();
    let cmds = r.render_frame(YuvFrame::filled(2, 2, 1)).unwrap();
    // no viewport was set, so the planes come first
    assert_eq!(cmds.len(), 29);
    assert_eq!(cmds[0], GlCommand::ActiveTexture(TEXTURE0));
    assert_eq!(cmds[1], GlCommand::BindTexture(21));
    assert_eq!(cmds[2], GlCommand::TexImage2D { width: 2, height: 2, pixels: vec![1, 1, 1, 1] });
    assert_eq!(cmds[3], GlCommand::TexParameter(TexParameter::MinFilterLinear));
    assert_eq!(cmds[4], GlCommand::TexParameter(TexParameter::MagFilterLinear));
    assert_eq!(cmds[5], GlCommand::TexParameter(TexParameter::WrapSClampToEdge));
    assert_eq!(cmds[6], GlCommand::TexParameter(TexParameter::WrapTClampToEdge));
    assert_eq!(cmds[7], GlCommand::TexParameter(TexParameter::WrapRClampToEdge));
    assert_eq!(cmds[8], GlCommand::Uniform1i { location: 2, value: 0 });
    assert_eq!(cmds[9], GlCommand::ActiveTexture(TEXTURE1));
    assert_eq!(cmds[10], GlCommand::BindTexture(22));
    assert_eq!(cmds[11], GlCommand::TexImage2D { width: 1, height: 1, pixels: vec![1] });
    assert_eq!(cmds[17], GlCommand::Uniform1i { location: 3, value: 1 });
    assert_eq!(cmds[18], GlCommand::ActiveTexture(TEXTURE2));
    assert_eq!(cmds[19], GlCommand::BindTexture(23));
    assert_eq!(cmds[26], GlCommand::Uniform1i { location: 4, value: 2 });
}

#[test]
fn textures_are_allocated_once_and_then_refilled() {
    let mut r = initialized();
    r.render_frame(YuvFrame::filled(4, 4, 0)).unwrap();
    let cmds = r.render_frame(YuvFrame::filled(4, 4, 7)).unwrap();
    assert!(!cmds.iter().any(|c| matches!(c, GlCommand::TexImage2D { .. })));
    assert_eq!(cmds[2], GlCommand::TexSubImage2D { width: 4, height: 4, pixels: vec![7; 16] });
    // a new frame size allocates again
    let cmds = r.render_frame(YuvFrame::filled(8, 4, 7)).unwrap();
    assert!(matches!(cmds[2], GlCommand::TexImage2D { width: 8, height: 4, .. }));
}

#[test]
fn render_draws_a_random_frame() {
    let mut r = initialized();
    let cmds = r.render().unwrap();
    let uploads: Vec<(u32, u32, Vec<u8>)> = cmds
        .iter()
        .filter_map(|c| match c {
            GlCommand::TexImage2D { width, height, pixels } => Some((*width, *height, pixels.clone())),
            _ => None,
        })
        .collect();
    assert_eq!(uploads.len(), 3);
    assert_eq!((uploads[0].0, uploads[0].1), (FRAME_WIDTH, FRAME_HEIGHT));
    assert_eq!((uploads[1].0, uploads[1].1), (640, 360));
    assert_eq!(uploads[0].2.len(), 1280 * 720);
    assert!(uploads.iter().all(|u| u.2.iter().all(|b| *b < 255)));
}

#[test]
fn renderer_through_the_trait() {
    let mut r = SmartVideoRenderer::new();
    let dynr: &mut dyn Renderer = &mut r;
    assert_eq!(dynr.render(), Err(RendererError::InvalidState));
    assert!(dynr.initialize(gl46(), linked_program(40), locations(), resources()).is_ok());
    assert_eq!(dynr.resize(10, 20), Ok(()));
    assert!(dynr.render().is_ok());
    assert_eq!(dynr.finalize().len(), 6);
    assert!(dynr.finalize().is_empty());
}

#[test]
fn full_luma_with_mid_chroma_is_near_white_gray() {
    let c = convert_pixel(255, 128, 128);
    let target = 0.9375f64;
    for comp in [c.red, c.green, c.blue] {
        let x = comp as f64 / COLOR_SCALE as f64;
        assert!((x - target).abs() < 0.005, "component {}", x);
    }
    assert_eq!(c.alpha, COLOR_SCALE);
    assert_eq!(c.red, 7_675_536);
    assert_eq!(c.green, 7_630_736);
    assert_eq!(c.blue, 7_682_288);
}

#[test]
fn conversion_coefficients() {
    // black luma, no chroma offset from 128 aside
    let c = convert_pixel(16, 128, 128);
    assert_eq!(c.red, 16 * 32000 - 510_000 + 1596 * 16);
    // pure chroma extremes
    let c = convert_pixel(0, 0, 255);
    assert_eq!(c.red, -510_000 + 1596 * (255 * 32 - 4080));
    assert_eq!(c.green, -510_000 - 813 * (255 * 32 - 4080) + 391 * 4080);
    assert_eq!(c.blue, -510_000 - 2018 * 4080);
}

#[test]
fn frames_have_4_2_0_planes() {
    let f = YuvFrame::filled(6, 4, 3);
    assert_eq!(f.y.len(), 24);
    assert_eq!(f.u.len(), 6);
    assert_eq!(f.v.len(), 6);
    assert!(f.is_well_formed());
    let mut bad = f.clone();
    bad.u.pop();
    assert!(!bad.is_well_formed());
    let s = YuvFrame::synthetic(8, 2);
    assert!(s.is_well_formed());
    assert_eq!(s.y.len(), 16);
    assert!(s.y.iter().chain(s.u.iter()).chain(s.v.iter()).all(|b| *b < 255));
    let empty = YuvFrame::filled(0, 0, 1);
    assert!(empty.is_well_formed());
    assert!(empty.y.is_empty());
}

#[test]
fn quad_is_a_full_screen_strip() {
    assert_eq!(
        quad_data(),
        vec![-1, -1, 0, 0, 1, 1, -1, 0, 1, 1, -1, 1, 0, 0, 0, 1, 1, 0, 1, 0]
    );
}

#[test]
fn context_versions_that_run_the_shaders() {
    assert_eq!(check_context(ContextVersion { major: 4, minor: 3, es: false }), Ok(()));
    assert_eq!(check_context(ContextVersion { major: 4, minor: 6, es: false }), Ok(()));
    assert_eq!(check_context(ContextVersion { major: 3, minor: 0, es: true }), Ok(()));
    assert_eq!(
        check_context(ContextVersion { major: 4, minor: 2, es: false }),
        Err(RendererError::UnsupportedContext)
    );
    assert_eq!(
        check_context(ContextVersion { major: 3, minor: 2, es: false }),
        Err(RendererError::UnsupportedContext)
    );
    assert_eq!(
        check_context(ContextVersion { major: 2, minor: 0, es: true }),
        Err(RendererError::UnsupportedContext)
    );
}

#[test]
fn old_context_is_refused_before_anything_else() {
    let mut r = SmartVideoRenderer::new();
    let mut p = ShaderProgram::new("vs", "fs");
    p.report(StageReport::Failed { handle: 1, log: "x".to_string() });
    assert_eq!(
        r.initialize(ContextVersion { major: 3, minor: 2, es: false }, p, locations(), resources()),
        Err(RendererError::UnsupportedContext)
    );
    assert_eq!(r.lifecycle_stage(), LifecycleStage::Uninitialized);
}

#[test]
fn program_zero_is_an_allocation_failure() {
    let mut r = SmartVideoRenderer::new();
    assert_eq!(
        r.initialize(gl46(), linked_program(0), locations(), resources()),
        Err(RendererError::ResourceAllocationFailure)
    );
    assert_eq!(r.lifecycle_stage(), LifecycleStage::Uninitialized);
}

#[test]
fn fragment_error_through_initialize() {
    let mut r = SmartVideoRenderer::new();
    let mut p = ShaderProgram::new(VIDEO_VERTEX_SHADER, "bad");
    p.report(StageReport::Succeeded { handle: 1 });
    let cleanup = p.report(StageReport::Failed { handle: 2, log: "0:3: error".to_string() });
    assert_eq!(cleanup, vec![GlCommand::DeleteShader(2), GlCommand::DeleteShader(1)]);
    assert_eq!(
        r.initialize(gl46(), p, locations(), resources()),
        Err(RendererError::FragmentCompileError { log: "0:3: error".to_string() })
    );
    assert_eq!(r.lifecycle_stage(), LifecycleStage::Uninitialized);
}

#[test]
fn finalize_after_render_deletes_each_owned_object_once() {
    let mut r = initialized();
    r.render().unwrap();
    r.render().unwrap();
    let mut all = r.finalize();
    all.extend(r.finalize());
    assert_eq!(
        all,
        vec![
            GlCommand::DeleteTexture(21),
            GlCommand::DeleteTexture(22),
            GlCommand::DeleteTexture(23),
            GlCommand::DeleteVertexArray(7),
            GlCommand::DeleteBuffer(8),
            GlCommand::DeleteProgram(40),
        ]
    );
}
