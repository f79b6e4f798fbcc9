use projectrigor::ecs::RenderShape;
use projectrigor::input::{CameraKey, CursorAction, InputState};
use projectrigor::mesh::expand_indexed_mesh;
use projectrigor::raytrace::{trace_step, TraceStep};
use projectrigor::render_mode::{RenderMode, RenderingMode};

#[test]
fn test_depth_condition_logic() {
    let test_cases = vec![
        (0, 2, true),
        (1, 2, false),
        (0, 3, true),
        (1, 3, true),
        (2, 3, false),
        (3, 3, false),
    ];

    for (depth, max_depth, should_reflect) in test_cases {
        let step = trace_step(depth, max_depth);
        let should_exit = step == TraceStep::Stop;
        let can_reflect = step == TraceStep::ShadeAndReflect;

        println!(
            "depth={}, max_depth={}: exit={}, reflect={} (expected reflect: {})",
            depth, max_depth, should_exit, can_reflect, should_reflect
        );

        assert_eq!(should_exit, depth >= max_depth);
        assert_eq!(
            can_reflect, should_reflect,
            "depth={}, max_depth={} reflection logic mismatch",
            depth, max_depth
        );
    }
}

#[test]
fn trace_steps_along_a_path() {
    assert_eq!(trace_step(0, 1), TraceStep::Shade);
    assert_eq!(trace_step(2, 2), TraceStep::Stop);
    assert_eq!(trace_step(5, 2), TraceStep::Stop);
    assert_eq!(trace_step(i32::MIN, i32::MIN), TraceStep::Stop);
    assert_eq!(trace_step(i32::MIN, i32::MAX), TraceStep::ShadeAndReflect);
    // a path from depth 0 with max depth 3 shades exactly 3 surfaces
    let mut depth = 0;
    let mut shaded = 0;
    loop {
        match trace_step(depth, 3) {
            TraceStep::Stop => break,
            TraceStep::Shade => {
                shaded += 1;
                break;
            }
            TraceStep::ShadeAndReflect => {
                shaded += 1;
                depth += 1;
            }
        }
    }
    assert_eq!(shaded, 3);
}

#[test]
fn test_colored_cube_vertices_device_requirement() {
    const EXPECTED_VERTEX_COUNT: usize = 36;
    const VERTICES_PER_FACE: usize = 6;
    const CUBE_FACES: usize = 6;

    assert_eq!(EXPECTED_VERTEX_COUNT, VERTICES_PER_FACE * CUBE_FACES);
}

#[test]
fn test_cube_vertex_positions() {
    let vertices = [
        [-0.5, -0.5, 0.5],
        [0.5, -0.5, 0.5],
        [0.5, 0.5, 0.5],
        [-0.5, 0.5, 0.5],
        [0.5, -0.5, -0.5],
        [-0.5, -0.5, -0.5],
    ];

    for pos in &vertices {
        assert!(pos[0] >= -0.5 && pos[0] <= 0.5);
        assert!(pos[1] >= -0.5 && pos[1] <= 0.5);
        assert!(pos[2] >= -0.5 && pos[2] <= 0.5);
    }
}

#[test]
fn test_sphere_vertex_count_calculation() {
    let segments = 20u32;
    let rings = 20u32;
    let expected_triangles = segments * rings * 6;

    assert_eq!(expected_triangles, 2400);
}

#[test]
fn test_sphere_radius() {
    let radius = 0.5f32;
    let theta = std::f32::consts::PI / 2.0;
    let phi = 0.0f32;

    let x = phi.cos() * theta.sin() * radius;
    let y = theta.cos() * radius;
    let z = phi.sin() * theta.sin() * radius;

    let distance = (x * x + y * y + z * z).sqrt();
    assert!((distance - radius).abs() < 0.001);
}

#[test]
fn test_cube_face_normals() {
    let front_normal = [0.0, 0.0, 1.0];
    let back_normal = [0.0, 0.0, -1.0];
    let top_normal = [0.0, 1.0, 0.0];
    let bottom_normal = [0.0, -1.0, 0.0];
    let right_normal = [1.0, 0.0, 0.0];
    let left_normal = [-1.0, 0.0, 0.0];

    for normal in &[front_normal, back_normal, top_normal, bottom_normal, right_normal, left_normal] {
        let length = ((normal[0] * normal[0] + normal[1] * normal[1] + normal[2] * normal[2]) as f32).sqrt();
        assert!((length - 1.0_f32).abs() < 0.001, "Normal {:?} is not unit length", normal);
    }
}

#[test]
fn test_sphere_normals_are_normalized() {
    let theta = std::f32::consts::PI / 4.0;
    let phi = std::f32::consts::PI / 3.0;

    let x = phi.cos() * theta.sin();
    let y = theta.cos();
    let z = phi.sin() * theta.sin();

    let normal = [x, y, z];
    let length = (normal[0] * normal[0] + normal[1] * normal[1] + normal[2] * normal[2]).sqrt();

    assert!((length - 1.0).abs() < 0.001, "Sphere normal should be unit length");
}

#[test]
fn test_normal_vector_orthogonality() {
    let top_normal = [0.0, 1.0, 0.0];
    let edge_x = [1.0, 0.0, 0.0];

    let dot: f32 = top_normal[0] * edge_x[0] + top_normal[1] * edge_x[1] + top_normal[2] * edge_x[2];

    assert!(dot.abs() < 0.001_f32, "Normal should be perpendicular to face");
}

#[test]
fn expanded_mesh_has_one_vertex_per_index() {
    // a quad made of two triangles sharing an edge
    let vertices: [[f32; 9]; 4] = [
        [-0.5, -0.5, 0.5, 0.0, 0.0, 1.0, 0.3, 0.3, 0.3],
        [0.5, -0.5, 0.5, 0.0, 0.0, 1.0, 0.3, 0.3, 0.3],
        [0.5, 0.5, 0.5, 0.0, 0.0, 1.0, 0.3, 0.3, 0.3],
        [-0.5, 0.5, 0.5, 0.0, 0.0, 1.0, 0.3, 0.3, 0.3],
    ];
    let indices = [0u32, 1, 2, 0, 2, 3];
    let out = expand_indexed_mesh(&vertices, &indices);
    assert_eq!(out.len(), 6);
    for (k, &i) in indices.iter().enumerate() {
        assert_eq!(out[k], vertices[i as usize]);
    }
    assert!(expand_indexed_mesh(&vertices, &[]).is_empty());
    assert_eq!(expand_indexed_mesh(&[7u8, 8, 9], &[2, 2, 0]), vec![9, 9, 7]);
}

#[test]
fn render_mode_priority() {
    let m = |hw_rt, sw_rt, raster| RenderMode { hw_rt, sw_rt, raster }.get_mode();
    assert_eq!(m(false, false, false), RenderingMode::Rasterization);
    assert_eq!(m(false, false, true), RenderingMode::Rasterization);
    assert_eq!(m(true, false, false), RenderingMode::HardwareRayTracing);
    assert_eq!(m(false, true, false), RenderingMode::SoftwareRayTracing);
    assert_eq!(m(true, true, true), RenderingMode::HardwareRayTracing);
    assert_eq!(m(false, true, true), RenderingMode::SoftwareRayTracing);
}

#[test]
fn render_shapes_differ() {
    assert_ne!(RenderShape::Cube, RenderShape::Sphere);
}

#[test]
fn keys_drive_camera_moves_in_order() {
    let mut s = InputState::new();
    s.key_changed(CameraKey::Up, true);
    s.key_changed(CameraKey::Forward, true);
    s.key_changed(CameraKey::Left, true);
    let plan = s.redraw();
    assert_eq!(plan.moves, vec![CameraKey::Forward, CameraKey::Left, CameraKey::Up]);
    assert!(plan.report);
    s.key_changed(CameraKey::Left, false);
    assert!(!s.is_held(CameraKey::Left));
    let plan = s.redraw();
    assert_eq!(plan.moves, vec![CameraKey::Forward, CameraKey::Up]);
    assert!(!plan.report);
    assert_eq!(s.frame_count, 2);
}

#[test]
fn press_then_release_restores_state() {
    let mut s = InputState::new();
    s.key_changed(CameraKey::Down, true);
    s.key_changed(CameraKey::Down, false);
    assert_eq!(s, InputState::new());
}

#[test]
fn report_every_sixtieth_frame() {
    let mut s = InputState::new();
    let mut reports = Vec::new();
    for i in 0..130u32 {
        if s.redraw().report {
            reports.push(i);
        }
    }
    assert_eq!(reports, vec![0, 60, 120]);
}

#[test]
fn drag_starts_without_rotation() {
    let mut s = InputState::new();
    // moving without the button does nothing
    assert_eq!(s.cursor_moved(), CursorAction { rotate: false, record: false });
    s.button_changed(true, true);
    assert_eq!(s.cursor_moved(), CursorAction { rotate: false, record: true });
    assert_eq!(s.cursor_moved(), CursorAction { rotate: true, record: true });
    // another button changes nothing
    s.button_changed(false, false);
    assert_eq!(s.cursor_moved(), CursorAction { rotate: true, record: true });
    s.button_changed(true, false);
    assert!(!s.has_anchor);
    s.button_changed(true, true);
    assert_eq!(s.cursor_moved(), CursorAction { rotate: false, record: true });
}
