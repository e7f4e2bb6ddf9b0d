use wgpu_renderer::text::renderer::TextRenderer;
use wgpu_renderer::text::types::BufferRef;
use wgpu_renderer::Color;
use wgpu_renderer::TextBounds;

fn white() -> Color {
    Color { r: 255, g: 255, b: 255, a: 255 }
}

#[test]
fn create_does_not_queue() {
    let mut t = TextRenderer::new();
    let _h = t.create_cached_text("menu", 1024);
    assert_eq!(t.cached_len(), 1);
    assert_eq!(t.queued_len(), 0);
    assert_eq!(t.prepare().len(), 0);
}

#[test]
fn handles_are_dense_and_issued_in_creation_order() {
    // Handles are creation indices: a handle issued by one store names
    // the entry at the same position in any store, so the third handle of
    // store `a` resolves to the third entry of store `b`.
    let mut a = TextRenderer::new();
    let mut b = TextRenderer::new();
    let ha0 = a.create_cached_text("a0", 1024);
    let ha1 = a.create_cached_text("a1", 1024);
    let ha2 = a.create_cached_text("a2", 1024);
    assert_ne!(ha0, ha1);
    assert_ne!(ha1, ha2);
    assert_ne!(ha0, ha2);
    b.create_cached_text("x", 1024);
    b.create_cached_text("y", 1024);
    b.create_cached_text("z", 1024);
    b.queue_cached_text(ha2, (0, 0), white(), 64);
    let areas = b.prepare();
    assert_eq!(areas.len(), 1);
    assert_eq!(areas[0].buffer.text, "z");
    // Handles are stable values.
    let copy = ha1;
    assert_eq!(copy, ha1);
}

#[test]
fn unknown_handle_resolves_to_no_op() {
    let mut a = TextRenderer::new();
    for i in 0..5 {
        a.create_cached_text(if i % 2 == 0 { "even" } else { "odd" }, 1024);
    }
    let stray = a.create_cached_text("stray", 1024);
    let mut b = TextRenderer::new();
    b.create_cached_text("only", 1024);
    b.queue_cached_text(stray, (10, 10), white(), 64);
    // The draw is queued but resolves to nothing: no fault, no entry.
    assert_eq!(b.queued_len(), 1);
    assert_eq!(b.prepare().len(), 0);
}

#[test]
fn clear_frame_removes_transient_and_keeps_cached() {
    let mut t = TextRenderer::new();
    t.create_cached_text("one", 1024);
    t.create_cached_text("two", 1024);
    t.queue_text("fps: 60", (0, 0), 1024, white(), None);
    assert_eq!(t.immediate_len(), 1);
    assert_eq!(t.queued_len(), 1);
    assert_eq!(t.cached_len(), 2);
    t.clear_frame();
    assert_eq!(t.immediate_len(), 0);
    assert_eq!(t.queued_len(), 0);
    assert_eq!(t.cached_len(), 2);
    // Clearing again changes nothing.
    t.clear_frame();
    assert_eq!(t.immediate_len(), 0);
    assert_eq!(t.queued_len(), 0);
    assert_eq!(t.cached_len(), 2);
}

#[test]
fn update_changes_only_the_target_handle() {
    let mut t = TextRenderer::new();
    let h0 = t.create_cached_text("first", 1024);
    let h1 = t.create_cached_text("second", 1536);
    t.update_cached_text(h0, "new", Some(1280));
    let e0 = t.cached_entry(h0).unwrap();
    assert_eq!(e0.buffer.text, "new");
    assert_eq!(e0.buffer.size, 1280);
    // The record of the creation size is never rewritten.
    assert_eq!(e0.size, 1024);
    let e1 = t.cached_entry(h1).unwrap();
    assert_eq!(e1.buffer.text, "second");
    assert_eq!(e1.buffer.size, 1536);
    assert_eq!(e1.size, 1536);
}

#[test]
fn update_without_size_keeps_the_metric() {
    let mut t = TextRenderer::new();
    let h = t.create_cached_text("before", 1024);
    t.update_cached_text(h, "after", None);
    let e = t.cached_entry(h).unwrap();
    assert_eq!(e.buffer.text, "after");
    assert_eq!(e.buffer.size, 1024);
}

#[test]
fn update_of_unknown_handle_is_a_no_op() {
    let mut a = TextRenderer::new();
    a.create_cached_text("pad", 1024);
    let stray = a.create_cached_text("pad2", 1024);
    let mut b = TextRenderer::new();
    let hb = b.create_cached_text("kept", 1024);
    // `stray` names position 1, which `b` has not issued.
    b.update_cached_text(stray, "clobber", Some(2048));
    assert_eq!(b.cached_len(), 1);
    assert_eq!(b.cached_entry(hb).unwrap().buffer.text, "kept");
    assert!(b.cached_entry(stray).is_none());
}

#[test]
fn queue_text_applies_defaults() {
    let mut t = TextRenderer::new();
    t.queue_text("hello", (5, 6), 1024, white(), None);
    let areas = t.prepare();
    assert_eq!(areas.len(), 1);
    let a = &areas[0];
    assert!(matches!(a.buffer_ref, BufferRef::Immediate(0)));
    assert_eq!(a.buffer.text, "hello");
    assert_eq!(a.buffer.size, 1024);
    assert_eq!(a.left, 5);
    assert_eq!(a.top, 6);
    assert_eq!(a.scale, 64);
    assert_eq!(
        a.bounds,
        TextBounds { left: 0, top: 0, right: i32::MAX, bottom: i32::MAX }
    );
    assert_eq!(a.default_color, white());
}

#[test]
fn prepare_resolves_in_queue_order_and_skips_misses() {
    let mut other = TextRenderer::new();
    other.create_cached_text("pad", 1024);
    let unknown = other.create_cached_text("pad2", 1024);

    let mut t = TextRenderer::new();
    let known = t.create_cached_text("cached here", 1024);
    t.queue_text("immediate", (1, 1), 1024, white(), Some(128));
    t.queue_cached_text(unknown, (2, 2), white(), 64);
    t.queue_cached_text(known, (3, 3), white(), 64);
    let areas = t.prepare();
    assert_eq!(areas.len(), 2);
    assert_eq!(areas[0].buffer.text, "immediate");
    assert_eq!(areas[0].scale, 128);
    assert_eq!(areas[1].buffer.text, "cached here");
    assert_eq!(areas[1].left, 3);
    // Preparation reads; it consumes nothing.
    assert_eq!(t.queued_len(), 3);
    assert_eq!(t.prepare().len(), 2);
}

#[test]
fn resize_updates_the_viewport_only() {
    let mut t = TextRenderer::new();
    assert_eq!(t.viewport(), (0, 0));
    t.create_cached_text("kept", 1024);
    t.resize(1920, 1080);
    assert_eq!(t.viewport(), (1920, 1080));
    assert_eq!(t.cached_len(), 1);
}

#[test]
fn empty_text_still_resolves_to_an_area() {
    let mut t = TextRenderer::new();
    t.queue_text("", (0, 0), 1024, white(), None);
    let areas = t.prepare();
    assert_eq!(areas.len(), 1);
    assert_eq!(areas[0].buffer.text, "");
}
