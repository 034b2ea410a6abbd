use quad_renderer::clock::Elapsed;
use quad_renderer::driver::{LoopAction, LoopEvent};
use quad_renderer::frame::{frame_commands, AcquireOutcome, Background, FrameAction, IndexFormat, PassCommand};
use quad_renderer::geometry::{index_buffer_bytes, quad_indices, quad_vertices, Corner, VERTEX_COUNT};
use quad_renderer::pipeline::{
    pipeline_desc, uniform_binding, vertex_layout, BlendMode, CullMode, FrontFace, Topology, VertexFormat,
};
use quad_renderer::state::RenderState;
use quad_renderer::surface::{PresentMode, SurfaceConfig};

fn extent(s: &RenderState) -> (u32, u32) {
    let c = s.config();
    (c.width, c.height)
}

fn total_nanos(e: Elapsed) -> u128 {
    e.secs as u128 * 1_000_000_000 + e.subsec_nanos as u128
}

#[test]
fn end_to_end_frames_and_resizes() {
    let mut s = RenderState::new(800, 600).unwrap();
    s.update(Elapsed::from_millis(0));
    assert_eq!(total_nanos(s.time()), 0);
    assert_eq!(s.frame_action(AcquireOutcome::Acquired), FrameAction::Draw);

    assert!(!s.resize(0, 0));
    assert_eq!(extent(&s), (800, 600));

    s.update(Elapsed::from_millis(16));
    assert_eq!(total_nanos(s.time()), 16_000_000);
    assert_eq!(s.frame_action(AcquireOutcome::Acquired), FrameAction::Draw);

    assert!(s.resize(400, 300));
    s.update(Elapsed::from_millis(16));
    assert_eq!(total_nanos(s.time()), 32_000_000);
    assert_eq!(s.frame_action(AcquireOutcome::Acquired), FrameAction::Draw);
    assert_eq!(extent(&s), (400, 300));
}

#[test]
fn resize_stores_positive_extents_only() {
    let mut s = RenderState::new(10, 20).unwrap();
    for &(w, h) in &[(1u32, 1u32), (1920, 1080), (u32::MAX, 7)] {
        assert!(s.resize(w, h));
        assert_eq!(extent(&s), (w, h));
    }
    for &(w, h) in &[(0u32, 5u32), (5, 0), (0, 0)] {
        assert!(!s.resize(w, h));
        assert_eq!(extent(&s), (u32::MAX, 7));
    }
    assert_eq!(s.config().present_mode, PresentMode::Fifo);
}

#[test]
fn zero_extent_is_never_configured() {
    assert!(RenderState::new(0, 600).is_none());
    assert!(RenderState::new(800, 0).is_none());
    assert!(SurfaceConfig::new(0, 0).is_none());
    let c = SurfaceConfig::new(3, 4).unwrap();
    assert_eq!((c.width, c.height, c.present_mode), (3, 4, PresentMode::Fifo));
}

#[test]
fn time_is_the_sum_of_the_deltas() {
    let mut s = RenderState::new(8, 8).unwrap();
    let deltas = [
        Elapsed::from_parts(0, 999_999_999).unwrap(),
        Elapsed::from_parts(0, 999_999_999).unwrap(),
        Elapsed::from_parts(2, 5).unwrap(),
        Elapsed::from_millis(1500),
    ];
    let mut expected: u128 = 0;
    for d in deltas {
        s.update(d);
        expected += total_nanos(d);
        assert_eq!(total_nanos(s.time()), expected);
        assert!(s.time().subsec_nanos < 1_000_000_000);
    }
    assert_eq!(expected, 5_500_000_003);
    assert_eq!(s.time(), Elapsed { secs: 5, subsec_nanos: 500_000_003 });
}

#[test]
fn elapsed_parts_and_sums() {
    assert!(Elapsed::from_parts(1, 1_000_000_000).is_none());
    assert_eq!(Elapsed::from_millis(2016), Elapsed { secs: 2, subsec_nanos: 16_000_000 });
    let max = Elapsed::from_parts(u64::MAX, 999_999_999).unwrap();
    let one = Elapsed::from_parts(0, 1).unwrap();
    assert!(max.checked_add(&one).is_none());
    assert_eq!(max.checked_add(&Elapsed::zero()), Some(max));
    let a = Elapsed::from_parts(u64::MAX - 1, 999_999_999).unwrap();
    assert_eq!(a.checked_add(&one), Some(Elapsed { secs: u64::MAX, subsec_nanos: 0 }));
    let mut s = RenderState::new(1, 1).unwrap();
    s.update(a);
    assert!(s.can_update(one));
    s.update(one);
    assert!(!s.can_update(Elapsed::from_parts(1, 0).unwrap()));
}

#[test]
fn every_frame_draws_once() {
    let cmds = frame_commands();
    assert_eq!(cmds.len(), 6);
    assert_eq!(cmds[0], PassCommand::Begin { clear: Background::OpaqueBlue });
    assert_eq!(cmds[4], PassCommand::SetIndexBuffer { format: IndexFormat::Uint16 });
    let draws: Vec<&PassCommand> = cmds.iter().filter(|c| matches!(c, PassCommand::DrawIndexed { .. })).collect();
    assert_eq!(draws.len(), 1);
    assert_eq!(
        *draws[0],
        PassCommand::DrawIndexed { first_index: 0, index_count: 6, base_vertex: 0, first_instance: 0, instance_count: 1 }
    );
    assert_eq!(frame_commands(), cmds);
}

#[test]
fn lost_surface_reconfigures_at_latest_extent() {
    let mut s = RenderState::new(800, 600).unwrap();
    assert_eq!(s.frame_action(AcquireOutcome::Lost), FrameAction::Reconfigure { width: 800, height: 600 });
    s.resize(640, 480);
    s.resize(0, 480);
    let a = s.frame_action(AcquireOutcome::Lost);
    assert_eq!(a, FrameAction::Reconfigure { width: 640, height: 480 });
    assert_ne!(a, FrameAction::Draw);
    assert_eq!(extent(&s), (640, 480));
}

#[test]
fn other_outcomes_skip_or_terminate() {
    let s = RenderState::new(2, 2).unwrap();
    assert_eq!(s.frame_action(AcquireOutcome::OutOfMemory), FrameAction::Terminate);
    assert_eq!(s.frame_action(AcquireOutcome::Outdated), FrameAction::Skip);
    assert_eq!(s.frame_action(AcquireOutcome::Timeout), FrameAction::Skip);
}

#[test]
fn pipeline_is_the_same_every_time() {
    let a = pipeline_desc();
    let b = pipeline_desc();
    assert_eq!(a, b);
    assert_eq!(a.vertex_layout, vertex_layout());
    assert_eq!(a.uniform, uniform_binding());
    assert_eq!(a.vertex_layout.array_stride, 8);
    assert_eq!(a.vertex_layout.attribute.format, VertexFormat::Float32x2);
    assert_eq!(a.vertex_layout.attribute.offset, 0);
    assert_eq!(a.vertex_layout.attribute.shader_location, 0);
    assert_eq!(a.uniform.binding, 0);
    assert!(a.uniform.vertex_visible && a.uniform.fragment_visible && !a.uniform.has_dynamic_offset);
    assert_eq!((a.topology, a.front_face, a.cull_mode), (Topology::TriangleList, FrontFace::Ccw, CullMode::Back));
    assert_eq!((a.sample_count, a.sample_mask), (1, 1));
    assert!(!a.depth_stencil && !a.alpha_to_coverage && a.write_all_channels);
    assert_eq!(a.blend, BlendMode::Replace);
}

#[test]
fn quad_geometry() {
    let v = quad_vertices();
    assert_eq!(v[0], Corner { x: -1, y: -1 });
    assert_eq!(v[2], Corner { x: 1, y: 1 });
    let idx = quad_indices();
    assert_eq!(idx, [2, 1, 0, 3, 2, 0]);
    assert!(idx.iter().all(|&i| (i as u32) < VERTEX_COUNT));
}

#[test]
fn index_bytes_are_native_order() {
    let bytes = index_buffer_bytes();
    let mut expected = Vec::new();
    for i in quad_indices() {
        expected.extend_from_slice(&i.to_ne_bytes());
    }
    assert_eq!(bytes, expected);
    assert_eq!(bytes.len(), 12);
}

#[test]
fn events_drive_the_state() {
    let mut s = RenderState::new(800, 600).unwrap();
    assert_eq!(s.handle_event(LoopEvent::CloseRequested), LoopAction::Exit);
    assert_eq!(s.handle_event(LoopEvent::EscapePressed), LoopAction::Exit);
    assert_eq!(s.handle_event(LoopEvent::Other), LoopAction::Wait);
    assert_eq!(s.handle_event(LoopEvent::EventsCleared), LoopAction::RequestRedraw);
    assert_eq!(s.handle_event(LoopEvent::Resized { width: 0, height: 10 }), LoopAction::Wait);
    assert_eq!(extent(&s), (800, 600));
    assert_eq!(
        s.handle_event(LoopEvent::Resized { width: 1024, height: 768 }),
        LoopAction::ConfigureSurface { width: 1024, height: 768 }
    );
    assert_eq!(extent(&s), (1024, 768));
    let dt = Elapsed::from_millis(16);
    assert_eq!(s.handle_event(LoopEvent::RedrawRequested { dt }), LoopAction::RenderFrame);
    assert_eq!(s.handle_event(LoopEvent::RedrawRequested { dt }), LoopAction::RenderFrame);
    assert_eq!(total_nanos(s.time()), 32_000_000);
}
