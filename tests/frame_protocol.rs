use raytracer::bindings::{
    buffer_usage, compute_bindings, render_bindings, Access, BindingKind, BoundResource, BufferRole,
};
use raytracer::frame::{
    dispatch_size, groups_for, FrameAction, FrameEvent, FrameOrchestrator, FramePhase, PresentOutcome,
    SurfaceSize,
};
use raytracer::quad::{quad_bytes, quad_vertices, QUAD_VERTEX_COUNT, VERTEX_STRIDE};

fn size(width: u32, height: u32) -> SurfaceSize {
    SurfaceSize { width, height }
}

#[test]
fn compute_table_matches_kernel_slots() {
    let t = compute_bindings();
    assert_eq!(t.len(), 7);
    for (i, e) in t.iter().enumerate() {
        assert_eq!(e.slot, i as u32);
    }
    assert_eq!(t[0].resource, BoundResource::OutputImage);
    assert_eq!(t[0].kind, BindingKind::StorageImage);
    assert_eq!(t[0].access, Access::WriteOnly);
    assert_eq!(t[1].resource, BoundResource::Buffer(BufferRole::Globals));
    assert_eq!(t[2].resource, BoundResource::Buffer(BufferRole::Camera));
    assert_eq!(t[3].resource, BoundResource::Buffer(BufferRole::SphereCount));
    assert_eq!(t[4].resource, BoundResource::Buffer(BufferRole::Spheres));
    assert_eq!(t[4].kind, BindingKind::StorageBuffer);
    assert_eq!(t[4].access, Access::ReadOnly);
    assert_eq!(t[5].resource, BoundResource::Buffer(BufferRole::MaterialCount));
    assert_eq!(t[5].kind, BindingKind::UniformBuffer);
    assert_eq!(t[6].resource, BoundResource::Buffer(BufferRole::Materials));
}

#[test]
fn render_table_samples_output_image() {
    let t = render_bindings();
    assert_eq!(t.len(), 2);
    assert_eq!((t[0].slot, t[0].resource, t[0].kind), (0, BoundResource::OutputImage, BindingKind::SampledTexture));
    assert_eq!((t[1].slot, t[1].resource, t[1].kind), (1, BoundResource::Sampler, BindingKind::Sampler));
}

#[test]
fn only_per_frame_buffers_are_copy_targets() {
    let camera = buffer_usage(BufferRole::Camera);
    assert!(camera.uniform && camera.copy_dst && !camera.storage);
    assert!(buffer_usage(BufferRole::Globals).copy_dst);
    let spheres = buffer_usage(BufferRole::Spheres);
    assert!(spheres.storage && !spheres.copy_dst && !spheres.uniform);
    let count = buffer_usage(BufferRole::MaterialCount);
    assert!(count.uniform && !count.copy_dst);
    assert!(buffer_usage(BufferRole::QuadVertices).vertex);
}

#[test]
fn workgroups_round_up() {
    assert_eq!(groups_for(1920, 8), 240);
    assert_eq!(groups_for(1921, 8), 241);
    assert_eq!(groups_for(0, 8), 0);
    assert_eq!(groups_for(u32::MAX, 2), 1u32 << 31);
    assert_eq!(groups_for(7, 16), 1);
    assert_eq!(dispatch_size(size(800, 600)), (800, 600));
}

#[test]
fn frame_runs_update_dispatch_present() {
    let mut o = FrameOrchestrator::new(size(640, 480));
    assert_eq!(o.step(FrameEvent::RedrawRequested), FrameAction::UpdateHostState);
    assert_eq!(o.phase, FramePhase::Updating);
    assert_eq!(o.step(FrameEvent::StepDone), FrameAction::DispatchCompute { groups_x: 640, groups_y: 480 });
    assert_eq!(o.step(FrameEvent::StepDone), FrameAction::RenderAndPresent);
    assert_eq!(o.phase, FramePhase::Presenting);
    assert_eq!(o.step(FrameEvent::PresentFinished(PresentOutcome::Presented)), FrameAction::Nothing);
    assert_eq!(o.phase, FramePhase::Idle);
}

#[test]
fn resize_with_zero_width_is_noop() {
    let mut o = FrameOrchestrator::new(size(640, 480));
    let before = o;
    assert_eq!(o.step(FrameEvent::Resized(size(0, 480))), FrameAction::Nothing);
    assert_eq!(o, before);
    assert_eq!(o.surface, size(640, 480));
}

#[test]
fn resize_reconfigures_with_new_dimensions() {
    let mut o = FrameOrchestrator::new(size(640, 480));
    assert_eq!(o.step(FrameEvent::Resized(size(1024, 768))), FrameAction::ConfigureSurface(size(1024, 768)));
    assert_eq!(o.phase, FramePhase::Reconfiguring);
    assert_eq!(o.surface, size(1024, 768));
    assert_eq!(o.image, size(640, 480));
    assert_eq!(o.step(FrameEvent::StepDone), FrameAction::Nothing);
    assert_eq!(o.phase, FramePhase::Idle);
}

fn presenting() -> FrameOrchestrator {
    let mut o = FrameOrchestrator::new(size(320, 200));
    o.step(FrameEvent::RedrawRequested);
    o.step(FrameEvent::StepDone);
    o.step(FrameEvent::StepDone);
    o
}

#[test]
fn lost_surface_is_reconfigured() {
    let mut o = presenting();
    assert_eq!(o.step(FrameEvent::PresentFinished(PresentOutcome::Lost)), FrameAction::ConfigureSurface(size(320, 200)));
    assert_eq!(o.phase, FramePhase::Reconfiguring);
}

#[test]
fn outdated_or_timeout_skips_frame() {
    let mut o = presenting();
    assert_eq!(o.step(FrameEvent::PresentFinished(PresentOutcome::Outdated)), FrameAction::SkipFrame(PresentOutcome::Outdated));
    assert_eq!(o.phase, FramePhase::Idle);
    let mut o = presenting();
    assert_eq!(o.step(FrameEvent::PresentFinished(PresentOutcome::Timeout)), FrameAction::SkipFrame(PresentOutcome::Timeout));
}

#[test]
fn out_of_memory_stops_loop() {
    let mut o = presenting();
    assert_eq!(o.step(FrameEvent::PresentFinished(PresentOutcome::OutOfMemory)), FrameAction::Exit);
    assert_eq!(o.phase, FramePhase::Stopped);
    assert_eq!(o.step(FrameEvent::RedrawRequested), FrameAction::Nothing);
}

#[test]
fn close_request_exits() {
    let mut o = FrameOrchestrator::new(size(320, 200));
    assert_eq!(o.step(FrameEvent::CloseRequested), FrameAction::Exit);
    assert_eq!(o.phase, FramePhase::Stopped);
}

#[test]
fn quad_is_two_triangles_over_viewport() {
    let vs = quad_vertices();
    assert_eq!(vs.len(), QUAD_VERTEX_COUNT);
    assert_eq!(vs[0].position, (1, 1));
    assert_eq!(vs[0].tex_coords, (1, 0));
    assert_eq!(vs[2].position, (-1, -1));
    assert_eq!(vs[2].tex_coords, (0, 1));
    assert_eq!(vs[5].position, (1, -1));
    assert_eq!(vs[5].tex_coords, (1, 1));
    let bytes = quad_bytes();
    assert_eq!(bytes.len(), VERTEX_STRIDE * QUAD_VERTEX_COUNT);
    let first: Vec<u8> = [1.0f32, 1.0, 1.0, 0.0].iter().flat_map(|f| f.to_ne_bytes()).collect();
    assert_eq!(&bytes[0..16], &first[..]);
    let second: Vec<u8> = [-1.0f32, 1.0, 0.0, 0.0].iter().flat_map(|f| f.to_ne_bytes()).collect();
    assert_eq!(&bytes[16..32], &second[..]);
}
