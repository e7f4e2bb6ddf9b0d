//! The renderer core: the per-frame geometry batcher and the frame
//! sequencer.
//!
//! Shape requests append vertices and indices to fixed-capacity queues
//! sized for the pre-allocated GPU buffers; an append that would overflow
//! them is refused with a capacity error and changes nothing.  The frame
//! itself runs through a fixed order of phases — shapes, then text, then
//! the transient-state clear — so text is always composited on top and no
//! request leaks into the next frame.

use vstd::prelude::*;

use crate::error::RenderError;
use crate::tessellation::CIRCLE_SEGMENTS;
use crate::tessellation::cos_q16;
use crate::tessellation::sin_q16;
use crate::tessellation::scale_radius;
use crate::tessellation::circle_direction;
use crate::tessellation::lemma_direction_bounded;
use crate::tessellation::scale_radius_exec;
use crate::text::renderer::TextRenderer;
use crate::text::renderer::TextRendererV;
use crate::text::renderer::clear_frame_m;
use crate::text::renderer::create_cached_text_m;
use crate::text::renderer::empty_text_store;
use crate::text::renderer::queue_cached_text_m;
use crate::text::renderer::queue_text_m;
use crate::text::renderer::resize_m;
use crate::text::renderer::spec_prepare;
use crate::text::renderer::update_cached_text_m;
use crate::text::types::TextArea;
use crate::text::types::TextHandle;
use crate::types::Color;
use crate::types::Vertex;

verus! {

/// Capacity of the pre-allocated GPU vertex buffer, in vertices.
pub const MAX_VERTICES: usize = 256;

/// Capacity of the pre-allocated GPU index buffer, in 32-bit indices.
pub const MAX_INDICES: usize = 512;

/// The passes of one frame, in their fixed order.  Draw order within a
/// frame is structural: the shape pass must be issued before the text
/// pass, and the transient-state clear ends the frame.
#[derive(Clone, Copy, Debug, PartialEq, Eq, Structural)]
pub enum FramePhase {
    /// Accepting draw requests; no pass of this frame has been issued.
    Queueing,
    /// The shape pass has been issued; text is drawn on top of it.
    ShapesDrawn,
    /// The text pass has been issued; present, then end the frame.
    TextDrawn,
}

/// Mathematical view of the renderer core.
#[verifier::ext_equal]
pub ghost struct RendererV {
    pub width: u32,
    pub height: u32,
    pub vertices: Seq<Vertex>,
    pub indices: Seq<u32>,
    pub text: TextRendererV,
    pub phase: FramePhase,
}

impl RendererV {
    /// Well-formed geometry: counts within the fixed buffer capacities,
    /// and every queued index naming a queued vertex.
    pub open spec fn wf(self) -> bool {
        &&& self.vertices.len() <= MAX_VERTICES
        &&& self.indices.len() <= MAX_INDICES
        &&& forall|k: int|
            0 <= k < self.indices.len() ==> (self.indices[k] as int) < self.vertices.len()
    }
}

/// A surface dimension clamped to the device's maximum texture size.
pub open spec fn clamped_to(v: u32, max_size: u32) -> u32 {
    if v <= max_size {
        v
    } else {
        max_size
    }
}

/// The four corners of a rectangle at `(x, y)` spanning `width` by
/// `height`, in the fixed winding order: top-left, top-right,
/// bottom-right, bottom-left.
pub open spec fn rectangle_vertices(x: i32, y: i32, width: u32, height: u32, color: Color) -> Seq<
    Vertex,
> {
    seq![
        Vertex { x, y, color },
        Vertex { x: (x + width) as i32, y, color },
        Vertex { x: (x + width) as i32, y: (y + height) as i32, color },
        Vertex { x, y: (y + height) as i32, color },
    ]
}

/// The six indices of a rectangle's two triangles, relative to the batch
/// position `offset` its four vertices were appended at.
pub open spec fn rectangle_indices(offset: int) -> Seq<u32> {
    seq![
        (offset + 2) as u32,
        (offset + 1) as u32,
        offset as u32,
        (offset + 3) as u32,
        (offset + 2) as u32,
        offset as u32,
    ]
}

/// Perimeter vertex `i` of a circle: the center displaced by the radius
/// scaled along the fixed direction table.
pub open spec fn circle_vertex(cx: i32, cy: i32, radius: u32, color: Color, i: int) -> Vertex {
    Vertex {
        x: (cx + scale_radius(radius as int, cos_q16(i))) as i32,
        y: (cy + scale_radius(radius as int, sin_q16(i))) as i32,
        color,
    }
}

/// The first `n` perimeter vertices of a circle, in segment order.
pub open spec fn circle_perimeter_upto(
    cx: i32,
    cy: i32,
    radius: u32,
    color: Color,
    n: int,
) -> Seq<Vertex>
    decreases n,
{
    if n <= 0 {
        Seq::empty()
    } else {
        circle_perimeter_upto(cx, cy, radius, color, n - 1).push(
            circle_vertex(cx, cy, radius, color, n - 1),
        )
    }
}

/// All 33 vertices of a circle: the center, then the 32 perimeter
/// vertices.
pub open spec fn circle_vertices(cx: i32, cy: i32, radius: u32, color: Color) -> Seq<Vertex> {
    seq![Vertex { x: cx, y: cy, color }] + circle_perimeter_upto(cx, cy, radius, color, 32)
}

/// The three indices of fan triangle `i`, relative to the batch position
/// `offset` of the circle's center vertex.  The last segment wraps back
/// to perimeter vertex 0 (batch position `offset + 1`).
pub open spec fn circle_triangle(offset: int, i: int) -> Seq<u32> {
    let next: int = if i == 31 {
        1
    } else {
        i + 2
    };
    seq![(offset + next) as u32, (offset + i + 1) as u32, offset as u32]
}

/// The indices of the first `n` fan triangles, in segment order.
pub open spec fn circle_indices_upto(offset: int, n: int) -> Seq<u32>
    decreases n,
{
    if n <= 0 {
        Seq::empty()
    } else {
        circle_indices_upto(offset, n - 1) + circle_triangle(offset, n - 1)
    }
}

/// All 96 indices of a circle's 32 fan triangles.
pub open spec fn circle_indices(offset: int) -> Seq<u32> {
    circle_indices_upto(offset, 32)
}

/// The capacity error a rectangle append reports: whichever buffer would
/// overflow first, with the element count it would have needed.
pub open spec fn rectangle_capacity_error(v: RendererV) -> RenderError {
    if v.vertices.len() + 4 > MAX_VERTICES {
        RenderError::BufferSizeExceeded {
            requested: (v.vertices.len() + 4) as u64,
            max: MAX_VERTICES as u64,
        }
    } else {
        RenderError::BufferSizeExceeded {
            requested: (v.indices.len() + 6) as u64,
            max: MAX_INDICES as u64,
        }
    }
}

/// The capacity error a circle append reports.
pub open spec fn circle_capacity_error(v: RendererV) -> RenderError {
    if v.vertices.len() + 33 > MAX_VERTICES {
        RenderError::BufferSizeExceeded {
            requested: (v.vertices.len() + 33) as u64,
            max: MAX_VERTICES as u64,
        }
    } else {
        RenderError::BufferSizeExceeded {
            requested: (v.indices.len() + 96) as u64,
            max: MAX_INDICES as u64,
        }
    }
}

/// The renderer core: the geometry queues of the current frame, the text
/// store, the surface configuration in pixels, and the frame phase.
pub struct Renderer {
    config_width: u32,
    config_height: u32,
    queued_vertices: Vec<Vertex>,
    queued_indices: Vec<u32>,
    text_renderer: TextRenderer,
    phase: FramePhase,
}

impl View for Renderer {
    type V = RendererV;

    closed spec fn view(&self) -> RendererV {
        RendererV {
            width: self.config_width,
            height: self.config_height,
            vertices: self.queued_vertices@,
            indices: self.queued_indices@,
            text: self.text_renderer@,
            phase: self.phase,
        }
    }
}

impl Renderer {
    /// An empty renderer core for a surface of the given pixel size:
    /// nothing queued, an empty text store, and a frame in its queueing
    /// phase.
    pub fn new(width: u32, height: u32) -> (r: Renderer)
        ensures
            r@.wf(),
            r@ == (RendererV {
                width,
                height,
                vertices: Seq::<Vertex>::empty(),
                indices: Seq::<u32>::empty(),
                text: empty_text_store(),
                phase: FramePhase::Queueing,
            }),
    {
        let r = Renderer {
            config_width: width,
            config_height: height,
            queued_vertices: Vec::new(),
            queued_indices: Vec::new(),
            text_renderer: TextRenderer::new(),
            phase: FramePhase::Queueing,
        };
        proof {
            assert(r@ =~= (RendererV {
                width,
                height,
                vertices: Seq::<Vertex>::empty(),
                indices: Seq::<u32>::empty(),
                text: empty_text_store(),
                phase: FramePhase::Queueing,
            }));
        }
        r
    }

    /// The configured surface width in pixels.
    pub fn width(&self) -> (w: u32)
        ensures
            w == self@.width,
    {
        self.config_width
    }

    /// The configured surface height in pixels.
    pub fn height(&self) -> (h: u32)
        ensures
            h == self@.height,
    {
        self.config_height
    }

    /// The text store.
    pub fn text_renderer(&self) -> (t: &TextRenderer)
        ensures
            t@ == self@.text,
    {
        &self.text_renderer
    }

    /// The queued vertices of the current frame, for upload.
    pub fn vertex_data(&self) -> (v: &Vec<Vertex>)
        ensures
            v@ == self@.vertices,
    {
        &self.queued_vertices
    }

    /// The queued indices of the current frame, for upload.
    pub fn index_data(&self) -> (v: &Vec<u32>)
        ensures
            v@ == self@.indices,
    {
        &self.queued_indices
    }

    /// How many vertices the current frame has queued.
    pub fn vertex_count(&self) -> (n: usize)
        ensures
            n == self@.vertices.len(),
    {
        self.queued_vertices.len()
    }

    /// How many indices the current frame has queued.
    pub fn index_count(&self) -> (n: usize)
        ensures
            n == self@.indices.len(),
    {
        self.queued_indices.len()
    }

    /// The phase the current frame is in.
    pub fn phase(&self) -> (p: FramePhase)
        ensures
            p == self@.phase,
    {
        self.phase
    }

    /// Resizes the surface configuration, clamping both dimensions to the
    /// device's maximum 2D texture size, and points the text store's
    /// viewport at the clamped resolution.
    pub fn resize(&mut self, width: u32, height: u32, max_texture_size: u32)
        ensures
            final(self)@ == (RendererV {
                width: clamped_to(width, max_texture_size),
                height: clamped_to(height, max_texture_size),
                text: resize_m(
                    old(self)@.text,
                    clamped_to(width, max_texture_size),
                    clamped_to(height, max_texture_size),
                ),
                ..old(self)@
            }),
            old(self)@.wf() ==> final(self)@.wf(),
    {
        let w = if width <= max_texture_size {
            width
        } else {
            max_texture_size
        };
        let h = if height <= max_texture_size {
            height
        } else {
            max_texture_size
        };
        self.config_width = w;
        self.config_height = h;
        self.text_renderer.resize(w, h);
        proof {
            assert(final(self)@ =~= (RendererV {
                width: w,
                height: h,
                text: resize_m(old(self)@.text, w, h),
                ..old(self)@
            }));
        }
    }

    /// Appends a rectangle at `(x, y)` spanning `width` by `height`: four
    /// vertices and the six indices of its two triangles, relative to the
    /// vertex count so shapes concatenate.  Refused with a capacity error,
    /// changing nothing, when either fixed buffer would overflow.
    pub fn queue_rectangle(
        &mut self,
        x: i32,
        y: i32,
        width: u32,
        height: u32,
        color: Color,
    ) -> (result: Result<(), RenderError>)
        requires
            old(self)@.wf(),
            x + width <= i32::MAX,
            y + height <= i32::MAX,
        ensures
            final(self)@.wf(),
            match result {
                Ok(u) => {
                    &&& old(self)@.vertices.len() + 4 <= MAX_VERTICES
                    &&& old(self)@.indices.len() + 6 <= MAX_INDICES
                    &&& final(self)@ == (RendererV {
                        vertices: old(self)@.vertices + rectangle_vertices(
                            x,
                            y,
                            width,
                            height,
                            color,
                        ),
                        indices: old(self)@.indices + rectangle_indices(
                            old(self)@.vertices.len() as int,
                        ),
                        ..old(self)@
                    })
                },
                Err(e) => {
                    &&& old(self)@.vertices.len() + 4 > MAX_VERTICES || old(self)@.indices.len() + 6
                        > MAX_INDICES
                    &&& final(self)@ == old(self)@
                    &&& e == rectangle_capacity_error(old(self)@)
                },
            },
    {
        let vlen = self.queued_vertices.len();
        let ilen = self.queued_indices.len();
        if vlen + 4 > MAX_VERTICES {
            return Err(
                RenderError::BufferSizeExceeded {
                    requested: (vlen + 4) as u64,
                    max: MAX_VERTICES as u64,
                },
            );
        }
        if ilen + 6 > MAX_INDICES {
            return Err(
                RenderError::BufferSizeExceeded {
                    requested: (ilen + 6) as u64,
                    max: MAX_INDICES as u64,
                },
            );
        }
        let x1 = ((x as i64) + (width as i64)) as i32;
        let y1 = ((y as i64) + (height as i64)) as i32;
        let offset = vlen as u32;
        self.queued_vertices.push(Vertex { x, y, color });
        self.queued_vertices.push(Vertex { x: x1, y, color });
        self.queued_vertices.push(Vertex { x: x1, y: y1, color });
        self.queued_vertices.push(Vertex { x, y: y1, color });
        self.queued_indices.push(offset + 2);
        self.queued_indices.push(offset + 1);
        self.queued_indices.push(offset);
        self.queued_indices.push(offset + 3);
        self.queued_indices.push(offset + 2);
        self.queued_indices.push(offset);
        proof {
            assert(self.queued_vertices@ =~= old(self)@.vertices + rectangle_vertices(
                x,
                y,
                width,
                height,
                color,
            ));
            assert(self.queued_indices@ =~= old(self)@.indices + rectangle_indices(vlen as int));
            assert(final(self)@ =~= (RendererV {
                vertices: old(self)@.vertices + rectangle_vertices(x, y, width, height, color),
                indices: old(self)@.indices + rectangle_indices(old(self)@.vertices.len() as int),
                ..old(self)@
            }));
        }
        Ok(())
    }

    /// Appends a square: a rectangle whose width and height are `size`.
    pub fn queue_square(&mut self, x: i32, y: i32, size: u32, color: Color) -> (result: Result<
        (),
        RenderError,
    >)
        requires
            old(self)@.wf(),
            x + size <= i32::MAX,
            y + size <= i32::MAX,
        ensures
            final(self)@.wf(),
            match result {
                Ok(u) => {
                    &&& old(self)@.vertices.len() + 4 <= MAX_VERTICES
                    &&& old(self)@.indices.len() + 6 <= MAX_INDICES
                    &&& final(self)@ == (RendererV {
                        vertices: old(self)@.vertices + rectangle_vertices(x, y, size, size, color),
                        indices: old(self)@.indices + rectangle_indices(
                            old(self)@.vertices.len() as int,
                        ),
                        ..old(self)@
                    })
                },
                Err(e) => {
                    &&& old(self)@.vertices.len() + 4 > MAX_VERTICES || old(self)@.indices.len() + 6
                        > MAX_INDICES
                    &&& final(self)@ == old(self)@
                    &&& e == rectangle_capacity_error(old(self)@)
                },
            },
    {
        self.queue_rectangle(x, y, size, size, color)
    }

    /// Appends a circle of the given radius around `(center_x, center_y)`:
    /// one center vertex, 32 perimeter vertices at uniform angular steps,
    /// and 32 triangles fanning from the center, the last wrapping back to
    /// the first perimeter vertex.  Refused with a capacity error,
    /// changing nothing, when either fixed buffer would overflow.
    pub fn queue_circle(
        &mut self,
        center_x: i32,
        center_y: i32,
        radius: u32,
        color: Color,
    ) -> (result: Result<(), RenderError>)
        requires
            old(self)@.wf(),
            center_x - radius >= i32::MIN,
            center_x + radius <= i32::MAX,
            center_y - radius >= i32::MIN,
            center_y + radius <= i32::MAX,
        ensures
            final(self)@.wf(),
            match result {
                Ok(u) => {
                    &&& old(self)@.vertices.len() + 33 <= MAX_VERTICES
                    &&& old(self)@.indices.len() + 96 <= MAX_INDICES
                    &&& final(self)@ == (RendererV {
                        vertices: old(self)@.vertices + circle_vertices(
                            center_x,
                            center_y,
                            radius,
                            color,
                        ),
                        indices: old(self)@.indices + circle_indices(
                            old(self)@.vertices.len() as int,
                        ),
                        ..old(self)@
                    })
                },
                Err(e) => {
                    &&& old(self)@.vertices.len() + 33 > MAX_VERTICES || old(self)@.indices.len()
                        + 96 > MAX_INDICES
                    &&& final(self)@ == old(self)@
                    &&& e == circle_capacity_error(old(self)@)
                },
            },
    {
        let vlen = self.queued_vertices.len();
        let ilen = self.queued_indices.len();
        if vlen + 33 > MAX_VERTICES {
            return Err(
                RenderError::BufferSizeExceeded {
                    requested: (vlen + 33) as u64,
                    max: MAX_VERTICES as u64,
                },
            );
        }
        if ilen + 96 > MAX_INDICES {
            return Err(
                RenderError::BufferSizeExceeded {
                    requested: (ilen + 96) as u64,
                    max: MAX_INDICES as u64,
                },
            );
        }
        self.queued_vertices.push(Vertex { x: center_x, y: center_y, color });
        proof {
            assert(self.queued_vertices@ =~= old(self)@.vertices + seq![
                Vertex { x: center_x, y: center_y, color },
            ] + circle_perimeter_upto(center_x, center_y, radius, color, 0));
        }
        let mut i: usize = 0;
        while i < CIRCLE_SEGMENTS
            invariant
                i <= CIRCLE_SEGMENTS,
                vlen == old(self)@.vertices.len(),
                center_x - radius >= i32::MIN,
                center_x + radius <= i32::MAX,
                center_y - radius >= i32::MIN,
                center_y + radius <= i32::MAX,
                self.queued_vertices@ == old(self)@.vertices + seq![
                    Vertex { x: center_x, y: center_y, color },
                ] + circle_perimeter_upto(center_x, center_y, radius, color, i as int),
                self.queued_indices@ == old(self)@.indices,
                self.config_width == old(self)@.width,
                self.config_height == old(self)@.height,
                self.text_renderer@ == old(self)@.text,
                self.phase == old(self)@.phase,
            decreases CIRCLE_SEGMENTS - i,
        {
            let d = circle_direction(i);
            proof {
                lemma_direction_bounded(i as int);
            }
            let dx = scale_radius_exec(radius, d.0);
            let dy = scale_radius_exec(radius, d.1);
            let px = ((center_x as i64) + dx) as i32;
            let py = ((center_y as i64) + dy) as i32;
            self.queued_vertices.push(Vertex { x: px, y: py, color });
            proof {
                assert(Vertex { x: px, y: py, color } == circle_vertex(
                    center_x,
                    center_y,
                    radius,
                    color,
                    i as int,
                ));
            }
            i = i + 1;
        }
        let offset = vlen as u32;
        proof {
            lemma_circle_perimeter_upto_len(center_x, center_y, radius, color, 32);
            assert(self.queued_vertices@ =~= old(self)@.vertices + circle_vertices(
                center_x,
                center_y,
                radius,
                color,
            ));
            assert(self.queued_indices@ =~= old(self)@.indices + circle_indices_upto(
                vlen as int,
                0,
            ));
        }
        let mut i: usize = 0;
        while i < CIRCLE_SEGMENTS
            invariant
                i <= CIRCLE_SEGMENTS,
                vlen == old(self)@.vertices.len(),
                vlen + 33 <= MAX_VERTICES,
                offset == vlen as u32,
                self.queued_vertices@ == old(self)@.vertices + circle_vertices(
                    center_x,
                    center_y,
                    radius,
                    color,
                ),
                self.queued_vertices@.len() == vlen + 33,
                self.queued_indices@ == old(self)@.indices + circle_indices_upto(
                    vlen as int,
                    i as int,
                ),
                self.config_width == old(self)@.width,
                self.config_height == old(self)@.height,
                self.text_renderer@ == old(self)@.text,
                self.phase == old(self)@.phase,
            decreases CIRCLE_SEGMENTS - i,
        {
            let next: u32 = if i == CIRCLE_SEGMENTS - 1 {
                1
            } else {
                (i as u32) + 2
            };
            self.queued_indices.push(offset + next);
            self.queued_indices.push(offset + (i as u32) + 1);
            self.queued_indices.push(offset);
            proof {
                assert(self.queued_indices@ =~= old(self)@.indices + circle_indices_upto(
                    vlen as int,
                    i as int + 1,
                ));
            }
            i = i + 1;
        }
        proof {
            lemma_circle_perimeter_upto_len(center_x, center_y, radius, color, 32);
            lemma_circle_indices_upto_local(vlen as int, 32);
            assert(final(self)@ =~= (RendererV {
                vertices: old(self)@.vertices + circle_vertices(center_x, center_y, radius, color),
                indices: old(self)@.indices + circle_indices(old(self)@.vertices.len() as int),
                ..old(self)@
            }));
        }
        Ok(())
    }

    /// Queues immediate text through the text store; see
    /// `TextRenderer::queue_text`.
    pub fn queue_text(&mut self, text: &str, position: (i32, i32), size: u32, color: Color)
        ensures
            final(self)@ == (RendererV {
                text: queue_text_m(old(self)@.text, text@, position, size, color, None),
                ..old(self)@
            }),
    {
        self.text_renderer.queue_text(text, position, size, color, None);
        proof {
            assert(final(self)@ =~= (RendererV {
                text: queue_text_m(old(self)@.text, text@, position, size, color, None),
                ..old(self)@
            }));
        }
    }

    /// Creates cached text through the text store; see
    /// `TextRenderer::create_cached_text`.
    pub fn create_cached_text(&mut self, text: &str, size: u32) -> (handle: TextHandle)
        ensures
            final(self)@ == (RendererV {
                text: create_cached_text_m(old(self)@.text, text@, size),
                ..old(self)@
            }),
            handle@ == old(self)@.text.cached.len(),
    {
        let handle = self.text_renderer.create_cached_text(text, size);
        proof {
            assert(final(self)@ =~= (RendererV {
                text: create_cached_text_m(old(self)@.text, text@, size),
                ..old(self)@
            }));
        }
        handle
    }

    /// Queues cached text through the text store; see
    /// `TextRenderer::queue_cached_text`.
    pub fn queue_cached_text(
        &mut self,
        handle: TextHandle,
        position: (i32, i32),
        color: Color,
        scale: u32,
    )
        ensures
            final(self)@ == (RendererV {
                text: queue_cached_text_m(old(self)@.text, handle, position, color, scale),
                ..old(self)@
            }),
    {
        self.text_renderer.queue_cached_text(handle, position, color, scale);
        proof {
            assert(final(self)@ =~= (RendererV {
                text: queue_cached_text_m(old(self)@.text, handle, position, color, scale),
                ..old(self)@
            }));
        }
    }

    /// Updates cached text through the text store; see
    /// `TextRenderer::update_cached_text`.
    pub fn update_cached_text(&mut self, handle: TextHandle, new_text: &str, new_size: Option<u32>)
        ensures
            final(self)@ == (RendererV {
                text: update_cached_text_m(old(self)@.text, handle@, new_text@, new_size),
                ..old(self)@
            }),
    {
        self.text_renderer.update_cached_text(handle, new_text, new_size);
        proof {
            assert(final(self)@ =~= (RendererV {
                text: update_cached_text_m(old(self)@.text, handle@, new_text@, new_size),
                ..old(self)@
            }));
        }
    }

    /// Issues the shape pass: returns the index count to draw, or nothing
    /// when no geometry was queued and the pass is skipped.  The upload
    /// and draw call happen outside; this step fixes their order before
    /// the text pass.
    pub fn shape_pass(&mut self) -> (draw: Option<u32>)
        requires
            old(self)@.phase == FramePhase::Queueing,
            old(self)@.wf(),
        ensures
            final(self)@ == (RendererV { phase: FramePhase::ShapesDrawn, ..old(self)@ }),
            final(self)@.wf(),
            draw == if old(self)@.vertices.len() > 0 {
                Some(old(self)@.indices.len() as u32)
            } else {
                None::<u32>
            },
    {
        self.phase = FramePhase::ShapesDrawn;
        proof {
            assert(final(self)@ =~= (RendererV { phase: FramePhase::ShapesDrawn, ..old(self)@ }));
        }
        if self.queued_vertices.len() > 0 {
            Some(self.queued_indices.len() as u32)
        } else {
            None
        }
    }

    /// Issues the text pass: resolves this frame's queued text draws into
    /// the list handed to the shaping engine.  Runs unconditionally after
    /// the shape pass — an empty list resolves to an empty draw.
    pub fn text_pass(&mut self) -> (areas: Vec<TextArea>)
        requires
            old(self)@.phase == FramePhase::ShapesDrawn,
        ensures
            final(self)@ == (RendererV { phase: FramePhase::TextDrawn, ..old(self)@ }),
            areas@.map_values(|a: TextArea| a@) == spec_prepare(old(self)@.text),
    {
        self.phase = FramePhase::TextDrawn;
        let areas = self.text_renderer.prepare();
        proof {
            assert(final(self)@ =~= (RendererV { phase: FramePhase::TextDrawn, ..old(self)@ }));
        }
        areas
    }

    /// Ends the frame after presentation: clears the geometry queues and
    /// the text store's transient state, in that order, and returns to the
    /// queueing phase.  Cached text and the surface configuration survive.
    pub fn end_frame(&mut self)
        requires
            old(self)@.phase == FramePhase::TextDrawn,
        ensures
            final(self)@ == (RendererV {
                vertices: Seq::<Vertex>::empty(),
                indices: Seq::<u32>::empty(),
                text: clear_frame_m(old(self)@.text),
                phase: FramePhase::Queueing,
                ..old(self)@
            }),
            final(self)@.wf(),
    {
        self.queued_vertices.clear();
        self.queued_indices.clear();
        self.text_renderer.clear_frame();
        self.phase = FramePhase::Queueing;
        proof {
            assert(final(self)@ =~= (RendererV {
                vertices: Seq::<Vertex>::empty(),
                indices: Seq::<u32>::empty(),
                text: clear_frame_m(old(self)@.text),
                phase: FramePhase::Queueing,
                ..old(self)@
            }));
        }
    }
}

/// The first `n` perimeter vertices are `n` vertices.
pub proof fn lemma_circle_perimeter_upto_len(cx: i32, cy: i32, radius: u32, color: Color, n: int)
    requires
        0 <= n,
    ensures
        circle_perimeter_upto(cx, cy, radius, color, n).len() == n,
    decreases n,
{
    if n > 0 {
        lemma_circle_perimeter_upto_len(cx, cy, radius, color, n - 1);
    }
}

/// The first `n` fan triangles contribute `3 * n` indices, each naming a
/// batch position in `[offset, offset + 33)`.
pub proof fn lemma_circle_indices_upto_local(offset: int, n: int)
    requires
        0 <= n <= 32,
        0 <= offset,
        offset + 33 <= MAX_VERTICES,
    ensures
        circle_indices_upto(offset, n).len() == 3 * n,
        forall|k: int|
            0 <= k < 3 * n ==> offset <= #[trigger] circle_indices_upto(offset, n)[k] < offset
                + 33,
    decreases n,
{
    if n > 0 {
        lemma_circle_indices_upto_local(offset, n - 1);
    }
}

/// LAW: a rectangle emits exactly 4 vertices and 6 indices, and the two
/// triangles' indices reference only those 4 new vertices — the offsets
/// are relative, so shapes concatenate correctly within a frame.
pub proof fn lemma_rectangle_indices_local(
    offset: int,
    x: i32,
    y: i32,
    width: u32,
    height: u32,
    color: Color,
)
    requires
        0 <= offset,
        offset + 4 <= MAX_VERTICES,
    ensures
        rectangle_vertices(x, y, width, height, color).len() == 4,
        rectangle_indices(offset).len() == 6,
        forall|k: int| 0 <= k < 6 ==> offset <= #[trigger] rectangle_indices(offset)[k] < offset + 4,
{
}

/// The first `n` perimeter vertices are exactly the vertices of segments
/// `0` to `n - 1`, in order.
pub proof fn lemma_circle_perimeter_upto_index(
    cx: i32,
    cy: i32,
    radius: u32,
    color: Color,
    n: int,
    k: int,
)
    requires
        0 <= k < n,
    ensures
        circle_perimeter_upto(cx, cy, radius, color, n)[k] == circle_vertex(
            cx,
            cy,
            radius,
            color,
            k,
        ),
    decreases n,
{
    lemma_circle_perimeter_upto_len(cx, cy, radius, color, n);
    if k < n - 1 {
        lemma_circle_perimeter_upto_len(cx, cy, radius, color, n - 1);
        lemma_circle_perimeter_upto_index(cx, cy, radius, color, n - 1, k);
    }
}

/// LAW: every perimeter vertex of a circle lies within the radius of the
/// center along each axis — the integer shadow of the perimeter sitting
/// on the circle itself, whose fractional remainder is below one pixel.
pub proof fn lemma_circle_perimeter_within_radius(
    cx: i32,
    cy: i32,
    radius: u32,
    color: Color,
    i: int,
)
    requires
        1 <= i < 33,
        cx - radius >= i32::MIN,
        cx + radius <= i32::MAX,
        cy - radius >= i32::MIN,
        cy + radius <= i32::MAX,
    ensures
        cx - radius <= circle_vertices(cx, cy, radius, color)[i].x <= cx + radius,
        cy - radius <= circle_vertices(cx, cy, radius, color)[i].y <= cy + radius,
{
    lemma_circle_perimeter_upto_len(cx, cy, radius, color, 32);
    lemma_circle_perimeter_upto_index(cx, cy, radius, color, 32, i - 1);
    lemma_direction_bounded(i - 1);
    crate::tessellation::lemma_scale_radius_bounded(radius as int, cos_q16(i - 1));
    crate::tessellation::lemma_scale_radius_bounded(radius as int, sin_q16(i - 1));
}

/// LAW: a circle emits exactly 33 vertices (1 center + 32 perimeter) and
/// 96 indices (32 triangles of 3); every index references one of those 33
/// new vertices; and the last triangle's leading index wraps back to
/// perimeter vertex 0 at batch position `offset + 1`, not to a
/// nonexistent 34th vertex.
pub proof fn lemma_circle_geometry(offset: int, cx: i32, cy: i32, radius: u32, color: Color)
    requires
        0 <= offset,
        offset + 33 <= MAX_VERTICES,
    ensures
        circle_vertices(cx, cy, radius, color).len() == 33,
        circle_indices(offset).len() == 96,
        forall|k: int| 0 <= k < 96 ==> offset <= #[trigger] circle_indices(offset)[k] < offset + 33,
        circle_indices(offset)[93] == offset + 1,
{
    lemma_circle_perimeter_upto_len(cx, cy, radius, color, 32);
    lemma_circle_indices_upto_local(offset, 32);
    lemma_circle_indices_upto_local(offset, 31);
    assert(circle_indices(offset)[93] == circle_triangle(offset, 31)[0]);
}

} // verus!
