use voxel_renderer::handles::{
    BindGroupHandle, BindGroupLayoutHandle, BufferHandle, PipelineHandle, ShaderModuleHandle,
};
use voxel_renderer::main_pass::{FrameData, MainRenderPass, PassCommand};
use voxel_renderer::render_object::{PassType, RenderObject};
use voxel_renderer::renderer::{objects_in_pass, AspectRatio, Renderer, SurfaceState};
use voxel_renderer::resources::{Material, Mesh, Shader};

fn shader(pipeline: u32) -> Shader {
    Shader {
        module: ShaderModuleHandle(pipeline),
        pipeline: PipelineHandle(pipeline),
        global_layout: BindGroupLayoutHandle(0),
        material_layout: BindGroupLayoutHandle(1),
    }
}

fn object(pipeline: u32, group: u32, mesh: u32, instances: u32, pass: PassType) -> RenderObject {
    RenderObject {
        mesh: Mesh {
            vertices: BufferHandle(mesh),
            indices: BufferHandle(mesh + 1),
            num_indices: 9,
            start_index: 0,
        },
        material: Material::new(&shader(pipeline), BindGroupHandle(group)),
        pass,
        instances: BufferHandle(instances),
        instances_len: 100,
    }
}

fn block(o: &RenderObject, global: BindGroupHandle) -> Vec<PassCommand> {
    vec![
        PassCommand::SetPipeline(o.material.shader.pipeline),
        PassCommand::SetBindGroup { slot: 0, group: global },
        PassCommand::SetBindGroup { slot: 1, group: o.material.bind_group },
        PassCommand::SetVertexBuffer { slot: 0, buffer: o.mesh.vertices },
        PassCommand::SetVertexBuffer { slot: 1, buffer: o.instances },
        PassCommand::SetIndexBuffer(o.mesh.indices),
        PassCommand::DrawIndexed {
            first_index: o.mesh.start_index,
            end_index: o.mesh.start_index + o.mesh.num_indices,
            base_vertex: 0,
            instances: o.instances_len,
        },
    ]
}

#[test]
fn main_pass_draws_opaque_objects() {
    let pass = MainRenderPass::new();
    assert_eq!(pass.pass_type(), PassType::Opaque);
}

#[test]
fn record_binds_each_object_then_draws_it() {
    let pass = MainRenderPass::new();
    let global = BindGroupHandle(7);
    let a = object(1, 10, 20, 30, PassType::Opaque);
    let b = object(2, 11, 40, 50, PassType::Opaque);
    let commands = pass.record(&FrameData { global_bind_group: global }, &[a, b]);
    let mut expected = block(&a, global);
    expected.extend(block(&b, global));
    assert_eq!(commands, expected);
    assert_eq!(
        commands[6],
        PassCommand::DrawIndexed { first_index: 0, end_index: 9, base_vertex: 0, instances: 100 }
    );
}

#[test]
fn draw_covers_mesh_index_range_from_its_start() {
    let pass = MainRenderPass::new();
    let mut o = object(1, 2, 3, 4, PassType::Opaque);
    o.mesh.start_index = 2;
    o.mesh.num_indices = 3;
    assert_eq!(o.mesh.end_index(), Some(5));
    let commands = pass.record(&FrameData { global_bind_group: BindGroupHandle(0) }, &[o]);
    assert_eq!(
        commands[6],
        PassCommand::DrawIndexed { first_index: 2, end_index: 5, base_vertex: 0, instances: 100 }
    );
}

#[test]
fn index_range_end_beyond_u32_is_refused() {
    let mut o = object(1, 2, 3, 4, PassType::Opaque);
    o.mesh.start_index = u32::MAX - 1;
    o.mesh.num_indices = 1;
    assert_eq!(o.mesh.end_index(), Some(u32::MAX));
    o.mesh.num_indices = 2;
    assert_eq!(o.mesh.end_index(), None);
}

#[test]
fn render_on_unconfigured_surface_is_a_no_op() {
    let mut r = Renderer::new(800, 600);
    let a = object(1, 1, 1, 1, PassType::Opaque);
    r.push_object(&a);
    r.resize(0, 0);
    let commands = r.render(&FrameData { global_bind_group: BindGroupHandle(0) });
    assert!(commands.is_empty());
    assert_eq!(r.queued(), &[a]);
    assert!(r.resize(800, 600));
    let commands = r.render(&FrameData { global_bind_group: BindGroupHandle(0) });
    assert_eq!(commands.len(), 7);
    assert!(r.queued().is_empty());
}

#[test]
fn record_of_nothing_is_empty() {
    let pass = MainRenderPass::new();
    let commands = pass.record(&FrameData { global_bind_group: BindGroupHandle(0) }, &[]);
    assert!(commands.is_empty());
}

#[test]
fn filter_keeps_order_of_the_pass() {
    let a = object(1, 1, 1, 1, PassType::Opaque);
    let t = object(2, 2, 2, 2, PassType::Transparent);
    let b = object(3, 3, 3, 3, PassType::Opaque);
    assert_eq!(objects_in_pass(&[a, t, b], PassType::Opaque), vec![a, b]);
    assert_eq!(objects_in_pass(&[a, t, b], PassType::Transparent), vec![t]);
}

#[test]
fn new_renderer_is_configured_for_a_valid_window() {
    let r = Renderer::new(800, 600);
    assert_eq!(r.surface(), SurfaceState { width: 800, height: 600, configured: true });
    assert_eq!(r.aspect(), AspectRatio { width: 800, height: 600 });
    assert!(r.is_ready());
    assert!(r.queued().is_empty());

    let minimised = Renderer::new(0, 600);
    assert!(!minimised.surface().configured);
    assert!(!minimised.is_ready());
}

#[test]
fn frame_draws_in_push_order_and_empties_the_queue() {
    let mut r = Renderer::new(800, 600);
    let global = BindGroupHandle(3);
    let a = object(1, 10, 20, 30, PassType::Opaque);
    let t = object(9, 19, 29, 39, PassType::Transparent);
    let b = object(2, 11, 40, 50, PassType::Opaque);
    let c = object(1, 10, 60, 70, PassType::Opaque);
    r.push_object(&a);
    r.push_object(&t);
    r.push_object(&b);
    r.push_object(&c);
    assert_eq!(r.queued(), &[a, t, b, c]);

    let commands = r.render(&FrameData { global_bind_group: global });
    let mut expected = block(&a, global);
    expected.extend(block(&b, global));
    expected.extend(block(&c, global));
    assert_eq!(commands, expected);
    let draws: Vec<&PassCommand> =
        commands.iter().filter(|c| matches!(c, PassCommand::DrawIndexed { .. })).collect();
    assert_eq!(draws.len(), 3);
    assert!(r.queued().is_empty());
}

#[test]
fn empty_frame_records_nothing() {
    let mut r = Renderer::new(640, 480);
    let commands = r.render(&FrameData { global_bind_group: BindGroupHandle(0) });
    assert!(commands.is_empty());
    assert!(r.queued().is_empty());
}

#[test]
fn zero_area_resize_unconfigures_the_surface() {
    for (w, h) in [(0, 0), (0, 600), (800, 0)] {
        let mut r = Renderer::new(800, 600);
        let reconfigure = r.resize(w, h);
        assert!(!reconfigure);
        assert_eq!(r.surface(), SurfaceState { width: w, height: h, configured: false });
        assert!(!r.is_ready());
        assert_eq!(r.aspect(), AspectRatio { width: 800, height: 600 });
    }
}

#[test]
fn resize_to_zero_keeps_queued_objects() {
    let mut r = Renderer::new(800, 600);
    let a = object(1, 1, 1, 1, PassType::Opaque);
    r.push_object(&a);
    r.resize(0, 0);
    assert_eq!(r.queued(), &[a]);
}

#[test]
fn resize_through_zero_restores_surface_and_aspect() {
    let mut r = Renderer::new(800, 600);
    assert!(r.resize(800, 600));
    assert!(!r.resize(0, 0));
    assert!(!r.is_ready());
    assert!(r.resize(800, 600));
    assert!(r.is_ready());
    assert_eq!(r.surface(), SurfaceState { width: 800, height: 600, configured: true });
    let aspect = r.aspect();
    assert_eq!(aspect, AspectRatio { width: 800, height: 600 });
    assert_eq!(aspect.width as f32 / aspect.height as f32, 800.0 / 600.0);
}

#[test]
fn resize_sets_aspect_from_new_size() {
    let mut r = Renderer::new(0, 0);
    assert!(!r.is_ready());
    assert!(r.resize(1920, 1080));
    assert_eq!(r.aspect(), AspectRatio { width: 1920, height: 1080 });
    assert!(r.is_ready());
}
