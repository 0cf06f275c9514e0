//! Tests of the drawable, frame and driver model through the public API.

use glimmer::driver::{
    run_iteration, step_state, FrameTimer, LoopEvent, LoopState, WakeDecision,
};
use glimmer::frame::{Color, DrawCall, Frame, UniformSet, VertexSource};
use glimmer::image_load::DecodedImage;
use glimmer::params::{CullMode, DrawParams, Viewport};
use glimmer::quad::{Quad, QuadGeometry};
use glimmer::triangle::Triangle;
use glimmer::vertex::{
    F32_HALF_BITS, F32_NEG_HALF_BITS, F32_NEG_QUARTER_BITS, F32_ONE_BITS, F32_TENTH_BITS,
    F32_ZERO_BITS,
};

fn tiny_texture() -> DecodedImage {
    DecodedImage {
        width: 1,
        height: 1,
        rgba: vec![10, 20, 30, 255],
    }
}

#[test]
fn bit_patterns_name_the_right_floats() {
    assert_eq!(f32::from_bits(F32_ZERO_BITS), 0.0);
    assert_eq!(f32::from_bits(F32_ONE_BITS), 1.0);
    assert_eq!(f32::from_bits(F32_HALF_BITS), 0.5);
    assert_eq!(f32::from_bits(F32_NEG_HALF_BITS), -0.5);
    assert_eq!(f32::from_bits(F32_NEG_QUARTER_BITS), -0.25);
    assert_eq!(f32::from_bits(F32_TENTH_BITS), 0.1);
}

#[test]
fn triangle_initial_shape() {
    let t = Triangle::new();
    assert_eq!(t.elapsed_ns, 0);
    assert_eq!(t.vertices.len(), 3);
    assert_eq!(f32::from_bits(t.vertices[0].x), -0.5);
    assert_eq!(f32::from_bits(t.vertices[0].y), -0.5);
    assert_eq!(f32::from_bits(t.vertices[1].x), 0.0);
    assert_eq!(f32::from_bits(t.vertices[1].y), 0.5);
    assert_eq!(f32::from_bits(t.vertices[2].x), 0.5);
    assert_eq!(f32::from_bits(t.vertices[2].y), -0.25);
}

#[test]
fn triangle_update_zero_delta_gives_cosine_of_zero() {
    let mut t = Triangle::new();
    let x = (t.elapsed_ns as f32).cos();
    t.update(0, x.to_bits());
    assert_eq!(t.elapsed_ns, 0);
    assert_eq!(f32::from_bits(t.vertices[0].x), 1.0);
}

#[test]
fn triangle_update_one_second_matches_reference_cosine() {
    let mut t = Triangle::new();
    let x0 = (t.elapsed_ns as f32).cos();
    t.update(0, x0.to_bits());
    let delta: u128 = 1_000_000_000;
    let total = t.elapsed_ns + delta;
    assert_eq!(total, 1_000_000_000);
    let x1 = (total as f32).cos();
    t.update(delta, x1.to_bits());
    let reference = (1_000_000_000u128 as f32).cos();
    assert!((f32::from_bits(t.vertices[0].x) - reference).abs() < 1e-5);
    assert_eq!(t.elapsed_ns, 1_000_000_000);
}

#[test]
fn triangle_update_moves_only_vertex_zero_x() {
    let mut t = Triangle::new();
    let before = t.clone();
    for delta in [1u128, 50, 2_000, 123_456_789] {
        let total = t.elapsed_ns + delta;
        t.update(delta, (total as f32).cos().to_bits());
        assert_eq!(t.vertices[1], before.vertices[1]);
        assert_eq!(t.vertices[2], before.vertices[2]);
        assert_eq!(t.vertices[0].y, before.vertices[0].y);
    }
}

#[test]
fn triangle_state_depends_on_total_elapsed_only() {
    // Two updates totalling 10 000 ns leave the same state as one update of
    // 10 000 ns, when each sample is the cosine of the accumulated time.
    let mut split = Triangle::new();
    for delta in [2_500u128, 7_500] {
        let total = split.elapsed_ns + delta;
        split.update(delta, (total as f32).cos().to_bits());
    }
    let mut single = Triangle::new();
    let total = single.elapsed_ns + 10_000;
    single.update(10_000, (total as f32).cos().to_bits());
    assert_eq!(split, single);
}

#[test]
fn render_matches_custom_render_with_default_params() {
    let t = Triangle::new();
    let mut via_render = Frame::new();
    t.render(&mut via_render);
    let mut via_custom = Frame::new();
    t.custom_render(&mut via_custom, &DrawParams::default());
    assert_eq!(via_render, via_custom);

    let q = Quad::new_buffered(tiny_texture());
    let mut quad_render = Frame::new();
    q.render(&mut quad_render);
    let mut quad_custom = Frame::new();
    q.custom_render(&mut quad_custom, &DrawParams::default());
    assert_eq!(quad_render, quad_custom);
}

#[test]
fn triangle_draw_call_shape() {
    let t = Triangle::new();
    let mut f = Frame::new();
    t.render(&mut f);
    assert_eq!(f.calls.len(), 1);
    let call = &f.calls[0];
    match &call.source {
        VertexSource::Buffer(v) => assert_eq!(v, &t.vertices),
        other => panic!("unexpected vertex source: {:?}", other),
    }
    assert_eq!(call.indices, None);
    assert_eq!(call.uniforms, UniformSet::Empty);
    assert_eq!(call.params, DrawParams::default());
}

#[test]
fn buffered_quad_indices_reference_valid_vertices() {
    let q = Quad::new_buffered(tiny_texture());
    match &q.geometry {
        QuadGeometry::Buffered { vertices, indices } => {
            assert_eq!(vertices.len(), 4);
            assert_eq!(indices, &vec![0u32, 1, 2, 0, 2, 3]);
            for &i in indices.iter() {
                assert!((i as usize) < vertices.len());
            }
        }
        other => panic!("unexpected geometry: {:?}", other),
    }
}

#[test]
fn buffered_quad_draw_call_uses_index_buffer_and_sampler() {
    let q = Quad::new_buffered(tiny_texture());
    let mut f = Frame::new();
    q.render(&mut f);
    assert_eq!(f.calls.len(), 1);
    let call = &f.calls[0];
    match &call.source {
        VertexSource::Buffer(v) => assert_eq!(v.len(), 4),
        other => panic!("unexpected vertex source: {:?}", other),
    }
    assert_eq!(call.indices, Some(vec![0u32, 1, 2, 0, 2, 3]));
    assert_eq!(call.uniforms, UniformSet::ImageSampler);
}

#[test]
fn quad_update_is_a_no_op() {
    let mut q = Quad::new_buffered(tiny_texture());
    let before = q.clone();
    q.update(123_456_789);
    assert_eq!(q, before);
}

#[test]
fn procedural_quad_custom_render_scenario() {
    // A 100 by 100 viewport at the origin with counter-clockwise culling:
    // the draw call must carry exactly six synthesized vertices, no index
    // buffer, and the requested parameters.
    let q = Quad::new_procedural(tiny_texture());
    let params = DrawParams {
        viewport: Some(Viewport {
            left: 0,
            bottom: 0,
            width: 100,
            height: 100,
        }),
        culling: CullMode::CounterClockwise,
    };
    let mut f = Frame::new();
    q.custom_render(&mut f, &params);
    assert_eq!(f.calls.len(), 1);
    let call = &f.calls[0];
    assert_eq!(call.source, VertexSource::Synthetic { count: 6 });
    assert_eq!(call.indices, None);
    assert_eq!(call.uniforms, UniformSet::ImageSampler);
    assert_eq!(call.params, params);
}

#[test]
fn default_params_disable_viewport_and_culling() {
    let d = DrawParams::default();
    assert_eq!(d.viewport, None);
    assert_eq!(d.culling, CullMode::Disabled);
}

#[test]
fn loop_state_terminates_exactly_on_close() {
    let running = LoopState::Running;
    assert_eq!(
        step_state(running, &LoopEvent::CloseRequested),
        LoopState::Terminating
    );
    for ev in [
        LoopEvent::Resized,
        LoopEvent::MouseInput,
        LoopEvent::KeyboardInput,
        LoopEvent::OtherWindowEvent,
        LoopEvent::NonWindowEvent,
    ] {
        assert_eq!(step_state(running, &ev), LoopState::Running);
        assert_eq!(step_state(LoopState::Terminating, &ev), LoopState::Terminating);
    }
}

#[test]
fn frame_timer_measures_deltas() {
    let mut timer = FrameTimer::start(1_000);
    assert_eq!(timer.tick(1_000), 0);
    assert_eq!(timer.tick(4_500), 3_500);
    assert_eq!(timer.last_ns, 4_500);
}

#[test]
fn run_iteration_builds_the_frame_and_schedules_the_next() {
    let mut timer = FrameTimer::start(0);
    let mut triangle = Triangle::new();
    let quad = Quad::new_buffered(tiny_texture());
    let now: u128 = 20_000_000;
    let x0 = ((triangle.elapsed_ns + (now - timer.last_ns)) as f32).cos();
    let (frame, wake) = run_iteration(
        &mut timer,
        &mut triangle,
        &quad,
        now,
        x0.to_bits(),
        &LoopEvent::NonWindowEvent,
    );
    // Cleared to opaque blue.
    assert_eq!(
        frame.clear,
        Some(Color {
            r: F32_ZERO_BITS,
            g: F32_ZERO_BITS,
            b: F32_ONE_BITS,
            a: F32_ONE_BITS,
        })
    );
    // Quad first, triangle on top, both with default parameters.
    assert_eq!(frame.calls.len(), 2);
    assert_eq!(frame.calls[0].uniforms, UniformSet::ImageSampler);
    assert_eq!(frame.calls[1].uniforms, UniformSet::Empty);
    assert!(frame.calls.iter().all(|c: &DrawCall| c.params == DrawParams::default()));
    // The triangle advanced by the measured delta and carries the sample.
    assert_eq!(triangle.elapsed_ns, 20_000_000);
    assert_eq!(triangle.vertices[0].x, x0.to_bits());
    // Next wake-up one frame interval ahead.
    assert_eq!(
        wake,
        WakeDecision::WaitUntil {
            deadline_ns: now + 16_666_667
        }
    );

    // A close request exits instead.
    let x1 = ((triangle.elapsed_ns) as f32).cos();
    let (_, wake2) = run_iteration(
        &mut timer,
        &mut triangle,
        &quad,
        now,
        x1.to_bits(),
        &LoopEvent::CloseRequested,
    );
    assert_eq!(wake2, WakeDecision::Exit);
}
