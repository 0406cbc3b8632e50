use russsty::clipper::{ClipPlane, ClipSpaceClipper};
use russsty::input::{InputState, Key, WindowEvent};
use russsty::mesh::{faces_from_indices, Face, LoadError};
use russsty::modes::{render_passes, RenderMode, ShadingMode, TextureMode};
use russsty::rasterizer::{edge_admits_point, edge_function_value, point_covered_ccw, RasterizerDispatcher, RasterizerType};
use russsty::registry::Registry;
use russsty::shader::FlatShader;
use russsty::clipper::fan_triangulation;
use russsty::shader::{select_shader, ShaderKind};
use russsty::sorting::{
    bubble_sort_by_depth_descending, merge_sort_by_depth_descending, DepthEntry,
};

#[test]
fn faces_group_indices_in_threes() {
    let indices = vec![0u32, 1, 2, 2, 3, 0];
    let faces = faces_from_indices(4, &indices).unwrap();
    assert_eq!(faces.len(), 2);
    assert_eq!(faces[0], Face::new(0, 1, 2));
    assert_eq!(faces[1], Face::new(2, 3, 0));
}

#[test]
fn empty_index_list_is_a_valid_empty_mesh_body() {
    let faces = faces_from_indices(1, &vec![]).unwrap();
    assert_eq!(faces.len(), 0);
}

#[test]
fn mesh_without_vertices_is_rejected() {
    assert_eq!(faces_from_indices(0, &vec![]).unwrap_err(), LoadError::NoVertices);
    assert_eq!(faces_from_indices(0, &vec![0, 1, 2]).unwrap_err(), LoadError::NoVertices);
}

#[test]
fn partial_triangles_are_rejected() {
    assert_eq!(faces_from_indices(4, &vec![0, 1]).unwrap_err(), LoadError::InvalidFaces);
    assert_eq!(faces_from_indices(4, &vec![0, 1, 2, 3]).unwrap_err(), LoadError::InvalidFaces);
}

#[test]
fn out_of_range_indices_are_rejected() {
    assert_eq!(faces_from_indices(3, &vec![0, 1, 3]).unwrap_err(), LoadError::InvalidFaces);
    assert_eq!(faces_from_indices(3, &vec![0, 1, 2, 0, 7, 1]).unwrap_err(), LoadError::InvalidFaces);
}

#[test]
fn clipper_applies_the_six_planes_in_order() {
    let clipper = ClipSpaceClipper::new();
    assert_eq!(clipper.plane_count(), 6);
    let expected = [
        ClipPlane::Left,
        ClipPlane::Right,
        ClipPlane::Bottom,
        ClipPlane::Top,
        ClipPlane::Near,
        ClipPlane::Far,
    ];
    for (i, p) in expected.iter().enumerate() {
        assert_eq!(clipper.plane_at(i), *p);
    }
}

#[test]
fn mode_defaults_match_the_engine_startup() {
    assert_eq!(RenderMode::default(), RenderMode::FilledWireframe);
    assert_eq!(ShadingMode::default(), ShadingMode::Flat);
    assert_eq!(TextureMode::default(), TextureMode::Untextured);
    assert_eq!(RasterizerType::default(), RasterizerType::Scanline);
}

#[test]
fn render_passes_follow_the_mode_table() {
    assert_eq!(render_passes(RenderMode::Wireframe), (false, true, false));
    assert_eq!(render_passes(RenderMode::WireframeVertices), (false, true, true));
    assert_eq!(render_passes(RenderMode::FilledWireframe), (true, true, false));
    assert_eq!(render_passes(RenderMode::FilledWireframeVertices), (true, true, true));
    assert_eq!(render_passes(RenderMode::Filled), (true, false, false));
}

#[test]
fn dispatcher_reports_and_switches_the_active_rasterizer() {
    let mut dispatcher = RasterizerDispatcher::new(RasterizerType::Scanline);
    assert_eq!(dispatcher.active_type(), RasterizerType::Scanline);
    dispatcher.set_type(RasterizerType::EdgeFunction);
    assert_eq!(dispatcher.active_type(), RasterizerType::EdgeFunction);
    dispatcher.set_type(RasterizerType::Scanline);
    assert_eq!(dispatcher.active_type(), RasterizerType::Scanline);
}

#[test]
fn flat_shader_returns_its_color() {
    let shader = FlatShader::new(0xFFFF00FF);
    assert_eq!(shader.color(), 0xFFFF00FF);
}

#[test]
fn input_state_reset_clears_only_the_mouse_delta() {
    let mut input = InputState::default();
    assert!(!input.forward && !input.back && !input.left && !input.right);
    input.forward = true;
    input.roll_left = true;
    input.mouse_dx = 11;
    input.mouse_dy = -4;
    input.reset_per_frame();
    assert_eq!(input.mouse_dx, 0);
    assert_eq!(input.mouse_dy, 0);
    assert!(input.forward);
    assert!(input.roll_left);
    assert!(!input.back);
}

#[test]
fn window_events_compare_by_contents() {
    assert_eq!(WindowEvent::KeyPress(Key::Num3), WindowEvent::KeyPress(Key::Num3));
    assert_ne!(WindowEvent::KeyPress(Key::C), WindowEvent::KeyPress(Key::G));
    assert_ne!(WindowEvent::Idle, WindowEvent::Quit);
    assert_eq!(WindowEvent::Resize(800, 600), WindowEvent::Resize(800, 600));
}

fn entries(depths: &[u32]) -> Vec<DepthEntry> {
    depths
        .iter()
        .enumerate()
        .map(|(index, &avg_depth)| DepthEntry { avg_depth, index })
        .collect()
}

#[test]
fn bubble_sort_orders_depths_descending() {
    let mut v = entries(&[3, 9, 1, 9, 4, 0, 7]);
    let original = v.clone();
    bubble_sort_by_depth_descending(&mut v);
    let depths: Vec<u32> = v.iter().map(|e| e.avg_depth).collect();
    assert_eq!(depths, vec![9, 9, 7, 4, 3, 1, 0]);
    let mut sorted_back: Vec<DepthEntry> = v.clone();
    sorted_back.sort_by_key(|e| e.index);
    assert_eq!(sorted_back, original);
}

#[test]
fn merge_sort_orders_depths_descending() {
    let mut v = entries(&[5, 2, 8, 2, 8, 1]);
    let original = v.clone();
    merge_sort_by_depth_descending(&mut v);
    let depths: Vec<u32> = v.iter().map(|e| e.avg_depth).collect();
    assert_eq!(depths, vec![8, 8, 5, 2, 2, 1]);
    let mut sorted_back: Vec<DepthEntry> = v.clone();
    sorted_back.sort_by_key(|e| e.index);
    assert_eq!(sorted_back, original);
}

#[test]
fn sorts_accept_empty_and_single_element_lists() {
    let mut empty: Vec<DepthEntry> = Vec::new();
    bubble_sort_by_depth_descending(&mut empty);
    merge_sort_by_depth_descending(&mut empty);
    assert!(empty.is_empty());
    let mut one = entries(&[42]);
    bubble_sort_by_depth_descending(&mut one);
    merge_sort_by_depth_descending(&mut one);
    assert_eq!(one[0].avg_depth, 42);
}

#[test]
fn registry_keeps_insertion_order_and_looks_up_names() {
    let mut models: Registry<&str> = Registry::new();
    assert_eq!(models.len(), 0);
    let a = models.add("crab".to_string(), "crab model");
    let b = models.add("cube".to_string(), "cube model");
    assert_eq!((a, b), (0, 1));
    assert_eq!(models.len(), 2);
    assert_eq!(*models.get_index(0), "crab model");
    assert_eq!(models.name_at(1).as_str(), "cube");
    assert_eq!(models.get(&"cube".to_string()), Some(&"cube model"));
    assert_eq!(models.get(&"teapot".to_string()), None);
    assert_eq!(models.index_of(&"crab".to_string()), Some(0));
}

#[test]
fn registry_lookup_finds_the_most_recent_duplicate() {
    let mut models: Registry<u32> = Registry::new();
    models.add("mesh_0".to_string(), 10);
    models.add("mesh_0".to_string(), 20);
    assert_eq!(models.index_of(&"mesh_0".to_string()), Some(1));
    assert_eq!(models.get(&"mesh_0".to_string()), Some(&20));
}

#[test]
fn registry_remove_shifts_later_items() {
    let mut models: Registry<u32> = Registry::new();
    models.add("a".to_string(), 1);
    models.add("b".to_string(), 2);
    models.add("c".to_string(), 3);
    assert_eq!(models.remove(&"b".to_string()), Some(2));
    assert_eq!(models.len(), 2);
    assert_eq!(models.index_of(&"c".to_string()), Some(1));
    assert_eq!(*models.get_index(1), 3);
    assert_eq!(models.remove(&"b".to_string()), None);
}

#[test]
fn registry_mutable_access_updates_in_place() {
    let mut models: Registry<u32> = Registry::new();
    models.add("a".to_string(), 1);
    *models.get_index_mut(0) = 99;
    assert_eq!(*models.get_index(0), 99);
}

#[test]
fn fan_triangulation_emits_n_minus_two_triangles() {
    assert_eq!(fan_triangulation(0), vec![]);
    assert_eq!(fan_triangulation(2), vec![]);
    assert_eq!(fan_triangulation(3), vec![(0, 1, 2)]);
    assert_eq!(fan_triangulation(5), vec![(0, 1, 2), (0, 2, 3), (0, 3, 4)]);
}

#[test]
fn shader_selection_follows_the_mode_table() {
    assert_eq!(
        select_shader(TextureMode::Replace, true, ShadingMode::Flat),
        ShaderKind::TextureReplace
    );
    assert_eq!(
        select_shader(TextureMode::Modulate, true, ShadingMode::Unlit),
        ShaderKind::TextureModulate
    );
    assert_eq!(
        select_shader(TextureMode::Replace, false, ShadingMode::Gouraud),
        ShaderKind::Gouraud
    );
    assert_eq!(
        select_shader(TextureMode::Untextured, true, ShadingMode::Flat),
        ShaderKind::Flat
    );
    assert_eq!(
        select_shader(TextureMode::Untextured, false, ShadingMode::Unlit),
        ShaderKind::Flat
    );
}

#[test]
fn load_errors_describe_themselves() {
    assert_eq!(LoadError::NoModels.message(), "the file contains no models");
    assert_eq!(LoadError::NoVertices.message(), "mesh has no vertices");
    assert_eq!(
        LoadError::InvalidFaces.message(),
        "face indices are not whole in-range triangles"
    );
}

#[test]
fn modes_carry_display_labels() {
    assert_eq!(ShadingMode::Unlit.label(), "None");
    assert_eq!(ShadingMode::Gouraud.label(), "Gouraud");
    assert_eq!(TextureMode::Modulate.label(), "Modulate");
    assert_eq!(RasterizerType::EdgeFunction.label(), "EdgeFunction");
}

#[test]
fn barycentric_edge_values_sum_to_the_doubled_area() {
    // CCW in a Y-down screen: (0,0), (10,0), (0,10).
    let (ax, ay, bx, by, cx, cy) = (0, 0, 10, 0, 0, 10);
    let doubled_area = edge_function_value(ax, ay, bx, by, cx, cy);
    assert_eq!(doubled_area, 100);
    for &(px, py) in &[(3, 3), (0, 0), (10, 0), (5, 5), (-2, 7), (100, -40)] {
        let w0 = edge_function_value(bx, by, cx, cy, px, py);
        let w1 = edge_function_value(cx, cy, ax, ay, px, py);
        let w2 = edge_function_value(ax, ay, bx, by, px, py);
        assert_eq!(w0 + w1 + w2, doubled_area);
    }
}

#[test]
fn shared_edge_pixels_belong_to_exactly_one_triangle() {
    // Two CCW triangles of a Y-down screen sharing the diagonal edge
    // between (0,0) and (8,8).
    let t1 = (0, 0, 8, 8, 0, 8);
    let t2 = (8, 8, 0, 0, 8, 0);
    for py in -1..10 {
        for px in -1..10 {
            let in1 = point_covered_ccw(t1.0, t1.1, t1.2, t1.3, t1.4, t1.5, px, py);
            let in2 = point_covered_ccw(t2.0, t2.1, t2.2, t2.3, t2.4, t2.5, px, py);
            assert!(!(in1 && in2), "pixel ({}, {}) written twice", px, py);
            // Points strictly on the shared diagonal, away from the outer
            // border, are drawn by exactly one of the two.
            if px == py && 0 < px && px < 8 {
                assert!(in1 ^ in2, "pixel ({}, {}) on the shared edge", px, py);
            }
        }
    }
}

#[test]
fn top_left_edges_keep_their_boundary_pixels() {
    // A left edge (going up the screen) admits a point on it; the same
    // edge walked the other way does not.
    assert!(edge_admits_point(4, 8, 4, 0, 4, 5));
    assert!(!edge_admits_point(4, 0, 4, 8, 4, 5));
}
