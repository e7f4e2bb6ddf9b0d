use wgpu_renderer::Color;
use wgpu_renderer::RenderError;
use wgpu_renderer::Renderer;
use wgpu_renderer::Vertex;

fn red() -> Color {
    Color { r: 255, g: 0, b: 0, a: 255 }
}

fn green() -> Color {
    Color { r: 0, g: 255, b: 0, a: 255 }
}

#[test]
fn rectangle_emits_four_vertices_and_six_indices() {
    let mut r = Renderer::new(800, 600);
    r.queue_rectangle(0, 0, 10, 10, red()).unwrap();
    assert_eq!(r.vertex_count(), 4);
    assert_eq!(r.index_count(), 6);
    let v = r.vertex_data();
    assert_eq!(v[0], Vertex { x: 0, y: 0, color: red() });
    assert_eq!(v[1], Vertex { x: 10, y: 0, color: red() });
    assert_eq!(v[2], Vertex { x: 10, y: 10, color: red() });
    assert_eq!(v[3], Vertex { x: 0, y: 10, color: red() });
    assert_eq!(r.index_data(), &vec![2, 1, 0, 3, 2, 0]);
}

#[test]
fn rectangles_concatenate_with_relative_offsets() {
    let mut r = Renderer::new(800, 600);
    r.queue_rectangle(0, 0, 10, 10, red()).unwrap();
    r.queue_rectangle(20, 20, 5, 8, green()).unwrap();
    assert_eq!(r.vertex_count(), 8);
    assert_eq!(r.index_count(), 12);
    // The second rectangle's indices reference only its own four vertices.
    assert_eq!(&r.index_data()[6..], &[6, 5, 4, 7, 6, 4]);
    for &i in &r.index_data()[6..] {
        assert!((4..8).contains(&i));
    }
    assert_eq!(r.vertex_data()[4], Vertex { x: 20, y: 20, color: green() });
    assert_eq!(r.vertex_data()[6], Vertex { x: 25, y: 28, color: green() });
}

#[test]
fn square_matches_rectangle_of_equal_sides() {
    let mut a = Renderer::new(800, 600);
    let mut b = Renderer::new(800, 600);
    a.queue_square(3, 4, 7, red()).unwrap();
    b.queue_rectangle(3, 4, 7, 7, red()).unwrap();
    assert_eq!(a.vertex_data(), b.vertex_data());
    assert_eq!(a.index_data(), b.index_data());
}

#[test]
fn negative_coordinates_are_batched_exactly() {
    let mut r = Renderer::new(800, 600);
    r.queue_rectangle(-20, -30, 5, 10, red()).unwrap();
    assert_eq!(r.vertex_data()[2], Vertex { x: -15, y: -20, color: red() });
}

#[test]
fn circle_emits_33_vertices_and_96_indices() {
    let mut r = Renderer::new(800, 600);
    r.queue_circle(50, 50, 5, green()).unwrap();
    assert_eq!(r.vertex_count(), 33);
    assert_eq!(r.index_count(), 96);
    // The center vertex comes first.
    assert_eq!(r.vertex_data()[0], Vertex { x: 50, y: 50, color: green() });
}

#[test]
fn circle_last_triangle_wraps_to_first_perimeter_vertex() {
    let mut r = Renderer::new(800, 600);
    r.queue_circle(50, 50, 5, green()).unwrap();
    // Triangle 31 references perimeter vertex 0 (batch index 1), not a
    // nonexistent index 33.
    assert_eq!(&r.index_data()[93..], &[1, 32, 0]);
    for &i in r.index_data().iter() {
        assert!(i < 33);
    }
}

#[test]
fn circle_indices_are_offset_by_prior_geometry() {
    let mut r = Renderer::new(800, 600);
    r.queue_rectangle(0, 0, 10, 10, red()).unwrap();
    r.queue_circle(50, 50, 5, green()).unwrap();
    for &i in &r.index_data()[6..] {
        assert!((4..37).contains(&i));
    }
    assert_eq!(&r.index_data()[99..], &[5, 36, 4]);
}

#[test]
fn circle_perimeter_lies_within_a_pixel_of_the_radius() {
    let mut r = Renderer::new(800, 600);
    r.queue_circle(50, 50, 5, green()).unwrap();
    for v in &r.vertex_data()[1..] {
        let dx = (v.x - 50) as f32;
        let dy = (v.y - 50) as f32;
        let dist = (dx * dx + dy * dy).sqrt();
        assert!((dist - 5.0).abs() <= 0.75, "distance {} off radius 5", dist);
    }
}

#[test]
fn circle_with_larger_radius_tracks_the_radius() {
    let mut r = Renderer::new(4000, 4000);
    r.queue_circle(1000, 1000, 750, green()).unwrap();
    for v in &r.vertex_data()[1..] {
        let dx = (v.x - 1000) as f64;
        let dy = (v.y - 1000) as f64;
        let dist = (dx * dx + dy * dy).sqrt();
        assert!((dist - 750.0).abs() <= 0.75, "distance {} off radius 750", dist);
    }
    // The four cardinal points are exact.
    assert_eq!(r.vertex_data()[1], Vertex { x: 1750, y: 1000, color: green() });
    assert_eq!(r.vertex_data()[9], Vertex { x: 1000, y: 1750, color: green() });
    assert_eq!(r.vertex_data()[17], Vertex { x: 250, y: 1000, color: green() });
    assert_eq!(r.vertex_data()[25], Vertex { x: 1000, y: 250, color: green() });
}

#[test]
fn zero_radius_circle_collapses_to_center() {
    let mut r = Renderer::new(800, 600);
    r.queue_circle(7, 9, 0, red()).unwrap();
    assert_eq!(r.vertex_count(), 33);
    for v in r.vertex_data().iter() {
        assert_eq!((v.x, v.y), (7, 9));
    }
}

#[test]
fn vertex_capacity_error_leaves_batch_unchanged() {
    let mut r = Renderer::new(800, 600);
    for i in 0..64 {
        r.queue_rectangle(i, i, 1, 1, red()).unwrap();
    }
    assert_eq!(r.vertex_count(), 256);
    assert_eq!(r.index_count(), 384);
    let e = r.queue_rectangle(0, 0, 1, 1, red()).unwrap_err();
    assert!(matches!(
        e,
        RenderError::BufferSizeExceeded { requested: 260, max: 256 }
    ));
    assert_eq!(r.vertex_count(), 256);
    assert_eq!(r.index_count(), 384);
}

#[test]
fn index_capacity_error_leaves_batch_unchanged() {
    let mut r = Renderer::new(800, 600);
    for i in 0..5 {
        r.queue_circle(100 * i, 100, 10, green()).unwrap();
    }
    assert_eq!(r.vertex_count(), 165);
    assert_eq!(r.index_count(), 480);
    // A sixth circle still fits the vertex buffer but not the index buffer.
    let e = r.queue_circle(600, 100, 10, green()).unwrap_err();
    assert!(matches!(
        e,
        RenderError::BufferSizeExceeded { requested: 576, max: 512 }
    ));
    assert_eq!(r.vertex_count(), 165);
    assert_eq!(r.index_count(), 480);
}

#[test]
fn vertex_constructors() {
    let v = Vertex::new(3, 4);
    assert_eq!(v, Vertex { x: 3, y: 4, color: Color { r: 255, g: 255, b: 255, a: 255 } });
    let w = Vertex::with_color(1, 2, red());
    assert_eq!(w, Vertex { x: 1, y: 2, color: red() });
}
