//! The text store: issues stable handles for cached text, keeps the
//! frame-local immediate pool, and resolves the queued draws of the
//! current frame into the list handed to the shaping engine.
//!
//! Cached entries persist for the life of the store and are addressed by
//! dense, monotonically increasing handles; immediate entries and queued
//! draws are cleared every frame.

use vstd::prelude::*;

use crate::text::types::BufferRef;
use crate::text::types::CachedTextEntry;
use crate::text::types::QueuedText;
use crate::text::types::TextArea;
use crate::text::types::TextBuffer;
use crate::text::types::TextHandle;
use crate::types::Color;
use crate::types::TextBounds;

verus! {

/// Scale applied to queued text when the caller passes none: natural size
/// (64 in 64ths of a pixel).
pub const DEFAULT_TEXT_SCALE: u32 = 64;

/// Mathematical view of one shaped buffer.
#[verifier::ext_equal]
pub ghost struct TextBufferV {
    pub text: Seq<char>,
    pub size: u32,
}

impl View for TextBuffer {
    type V = TextBufferV;

    open spec fn view(&self) -> TextBufferV {
        TextBufferV { text: self.text@, size: self.size }
    }
}

/// Mathematical view of one cached entry.
#[verifier::ext_equal]
pub ghost struct CachedTextEntryV {
    pub buffer: TextBufferV,
    pub size: u32,
}

impl View for CachedTextEntry {
    type V = CachedTextEntryV;

    open spec fn view(&self) -> CachedTextEntryV {
        CachedTextEntryV { buffer: self.buffer@, size: self.size }
    }
}

/// Mathematical view of one queued draw.
#[verifier::ext_equal]
pub ghost struct QueuedTextV {
    pub buffer_ref: BufferRef,
    pub position: (i32, i32),
    pub color: Color,
    pub scale: u32,
    pub bounds: Option<TextBounds>,
}

impl View for QueuedText {
    type V = QueuedTextV;

    open spec fn view(&self) -> QueuedTextV {
        QueuedTextV {
            buffer_ref: self.buffer_ref,
            position: self.position,
            color: self.color,
            scale: self.scale,
            bounds: self.bounds,
        }
    }
}

/// Mathematical view of one resolved draw.
#[verifier::ext_equal]
pub ghost struct TextAreaV {
    pub buffer_ref: BufferRef,
    pub buffer: TextBufferV,
    pub left: i32,
    pub top: i32,
    pub scale: u32,
    pub bounds: TextBounds,
    pub default_color: Color,
}

impl View for TextArea {
    type V = TextAreaV;

    open spec fn view(&self) -> TextAreaV {
        TextAreaV {
            buffer_ref: self.buffer_ref,
            buffer: self.buffer@,
            left: self.left,
            top: self.top,
            scale: self.scale,
            bounds: self.bounds,
            default_color: self.default_color,
        }
    }
}

/// Mathematical view of the whole store.
#[verifier::ext_equal]
pub ghost struct TextRendererV {
    pub viewport_width: u32,
    pub viewport_height: u32,
    pub cached: Seq<CachedTextEntryV>,
    pub immediate: Seq<TextBufferV>,
    pub queued: Seq<QueuedTextV>,
}

/// The store after `queue_text`: the immediate pool gains the freshly
/// shaped buffer and a draw of it is queued at the new pool position.
pub open spec fn queue_text_m(
    v: TextRendererV,
    text: Seq<char>,
    pos: (i32, i32),
    size: u32,
    color: Color,
    scale: Option<u32>,
) -> TextRendererV {
    TextRendererV {
        immediate: v.immediate.push(TextBufferV { text, size }),
        queued: v.queued.push(
            QueuedTextV {
                buffer_ref: BufferRef::Immediate(v.immediate.len() as usize),
                position: pos,
                color,
                scale: match scale {
                    Some(s) => s,
                    None => DEFAULT_TEXT_SCALE,
                },
                bounds: None,
            },
        ),
        ..v
    }
}

/// The store after `create_cached_text`: the cached pool grows by one
/// entry shaped from `text` at `size`; nothing is queued.
pub open spec fn create_cached_text_m(v: TextRendererV, text: Seq<char>, size: u32) -> TextRendererV {
    TextRendererV {
        cached: v.cached.push(CachedTextEntryV { buffer: TextBufferV { text, size }, size }),
        ..v
    }
}

/// The store after `queue_cached_text`: one draw of the cached entry is
/// queued; the pools are untouched, whether or not the handle is known.
pub open spec fn queue_cached_text_m(
    v: TextRendererV,
    handle: TextHandle,
    pos: (i32, i32),
    color: Color,
    scale: u32,
) -> TextRendererV {
    TextRendererV {
        queued: v.queued.push(
            QueuedTextV {
                buffer_ref: BufferRef::Cached(handle),
                position: pos,
                color,
                scale,
                bounds: None,
            },
        ),
        ..v
    }
}

/// The store after `update_cached_text` of the entry at `index`: its
/// buffer is re-shaped from the new text, with its metric reset first when
/// a new size is given.  An index outside the pool changes nothing, and
/// the entry's record of its creation size is never touched.
pub open spec fn update_cached_text_m(
    v: TextRendererV,
    index: int,
    text: Seq<char>,
    new_size: Option<u32>,
) -> TextRendererV {
    if 0 <= index < v.cached.len() {
        let entry = v.cached[index];
        let size = match new_size {
            Some(s) => s,
            None => entry.buffer.size,
        };
        TextRendererV {
            cached: v.cached.update(
                index,
                CachedTextEntryV { buffer: TextBufferV { text, size }, size: entry.size },
            ),
            ..v
        }
    } else {
        v
    }
}

/// The store after `clear_frame`: the immediate pool and the queued draws
/// are gone; the cached pool and the viewport stay.
pub open spec fn clear_frame_m(v: TextRendererV) -> TextRendererV {
    TextRendererV { immediate: Seq::empty(), queued: Seq::empty(), ..v }
}

/// The store after `resize`: only the viewport resolution changes.
pub open spec fn resize_m(v: TextRendererV, width: u32, height: u32) -> TextRendererV {
    TextRendererV { viewport_width: width, viewport_height: height, ..v }
}

/// A freshly created store: no entries, nothing queued, a zero viewport.
pub open spec fn empty_text_store() -> TextRendererV {
    TextRendererV {
        viewport_width: 0,
        viewport_height: 0,
        cached: Seq::empty(),
        immediate: Seq::empty(),
        queued: Seq::empty(),
    }
}

/// Looks one queued draw up in the two pools: the resolved area, or
/// nothing when the reference misses both pools.  Unset bounds become the
/// unbounded default.
pub open spec fn resolve_one(
    cached: Seq<CachedTextEntryV>,
    immediate: Seq<TextBufferV>,
    q: QueuedTextV,
) -> Option<TextAreaV> {
    let found = match q.buffer_ref {
        BufferRef::Cached(h) => if 0 <= h@ < cached.len() {
            Some(cached[h@].buffer)
        } else {
            None
        },
        BufferRef::Immediate(i) => if (i as int) < immediate.len() {
            Some(immediate[i as int])
        } else {
            None
        },
    };
    match found {
        Some(buffer) => Some(
            TextAreaV {
                buffer_ref: q.buffer_ref,
                buffer,
                left: q.position.0,
                top: q.position.1,
                scale: q.scale,
                bounds: match q.bounds {
                    Some(b) => b,
                    None => TextBounds::spec_unbounded(),
                },
                default_color: q.color,
            },
        ),
        None => None,
    }
}

/// Resolves the queued draws in order, keeping each one the pools can
/// serve and skipping the rest.
pub open spec fn resolve_queued(
    cached: Seq<CachedTextEntryV>,
    immediate: Seq<TextBufferV>,
    queued: Seq<QueuedTextV>,
) -> Seq<TextAreaV>
    decreases queued.len(),
{
    if queued.len() == 0 {
        Seq::empty()
    } else {
        let rest = resolve_queued(cached, immediate, queued.drop_last());
        match resolve_one(cached, immediate, queued.last()) {
            Some(a) => rest.push(a),
            None => rest,
        }
    }
}

/// What `prepare` hands to the shaping engine for a store in state `v`.
pub open spec fn spec_prepare(v: TextRendererV) -> Seq<TextAreaV> {
    resolve_queued(v.cached, v.immediate, v.queued)
}

/// The text store.  Owns the cached pool (lives until the store does),
/// the immediate pool and the queued draws (both per-frame), and the
/// viewport resolution text is laid out against.
pub struct TextRenderer {
    viewport_width: u32,
    viewport_height: u32,
    cached_buffers: Vec<CachedTextEntry>,
    immediate_buffers: Vec<TextBuffer>,
    queued_renders: Vec<QueuedText>,
}

impl View for TextRenderer {
    type V = TextRendererV;

    closed spec fn view(&self) -> TextRendererV {
        TextRendererV {
            viewport_width: self.viewport_width,
            viewport_height: self.viewport_height,
            cached: self.cached_buffers@.map_values(|e: CachedTextEntry| e@),
            immediate: self.immediate_buffers@.map_values(|b: TextBuffer| b@),
            queued: self.queued_renders@.map_values(|q: QueuedText| q@),
        }
    }
}

impl TextRenderer {
    /// An empty store: no entries, nothing queued, a zero viewport until
    /// the first resize.
    pub fn new() -> (r: TextRenderer)
        ensures
            r@ == empty_text_store(),
    {
        let r = TextRenderer {
            viewport_width: 0,
            viewport_height: 0,
            cached_buffers: Vec::new(),
            immediate_buffers: Vec::new(),
            queued_renders: Vec::new(),
        };
        proof {
            assert(r@ =~= empty_text_store());
        }
        r
    }

    /// Updates the viewport resolution text positioning is computed
    /// against; must match the surface in pixels before the next prepare.
    pub fn resize(&mut self, width: u32, height: u32)
        ensures
            final(self)@ == resize_m(old(self)@, width, height),
    {
        self.viewport_width = width;
        self.viewport_height = height;
        proof {
            assert(final(self)@ =~= resize_m(old(self)@, width, height));
        }
    }

    /// The current viewport resolution, `(width, height)` in pixels.
    pub fn viewport(&self) -> (r: (u32, u32))
        ensures
            r.0 == self@.viewport_width,
            r.1 == self@.viewport_height,
    {
        (self.viewport_width, self.viewport_height)
    }

    /// How many cached entries exist.
    pub fn cached_len(&self) -> (n: usize)
        ensures
            n == self@.cached.len(),
    {
        self.cached_buffers.len()
    }

    /// How many immediate entries this frame holds so far.
    pub fn immediate_len(&self) -> (n: usize)
        ensures
            n == self@.immediate.len(),
    {
        self.immediate_buffers.len()
    }

    /// How many draws are queued this frame so far.
    pub fn queued_len(&self) -> (n: usize)
        ensures
            n == self@.queued.len(),
    {
        self.queued_renders.len()
    }

    /// The cached entry a handle names, or nothing for a handle this
    /// store never issued.
    pub fn cached_entry(&self, handle: TextHandle) -> (r: Option<&CachedTextEntry>)
        ensures
            match r {
                Some(e) => 0 <= handle@ < self@.cached.len() && e@ == self@.cached[handle@],
                None => handle@ >= self@.cached.len(),
            },
    {
        let index = handle.index();
        if index < self.cached_buffers.len() {
            Some(&self.cached_buffers[index])
        } else {
            None
        }
    }

    /// Immediate mode: shapes `text` now, adds it to this frame's pool,
    /// and queues one draw of it.  The higher-cost path, meant for text
    /// that changes every frame.
    pub fn queue_text(
        &mut self,
        text: &str,
        pos: (i32, i32),
        size: u32,
        color: Color,
        scale: Option<u32>,
    )
        ensures
            final(self)@ == queue_text_m(old(self)@, text@, pos, size, color, scale),
    {
        let buffer = self.create_buffer(text, size);
        let index = self.immediate_buffers.len();
        self.immediate_buffers.push(buffer);
        let scale_value = match scale {
            Some(s) => s,
            None => DEFAULT_TEXT_SCALE,
        };
        self.queued_renders.push(
            QueuedText {
                buffer_ref: BufferRef::Immediate(index),
                position: pos,
                color,
                scale: scale_value,
                bounds: None,
            },
        );
        proof {
            assert(final(self)@ =~= queue_text_m(old(self)@, text@, pos, size, color, scale));
        }
    }

    /// Cached mode: shapes `text` once and stores it; the returned handle
    /// is the next dense index.  Creating cached text queues nothing —
    /// each frame that wants it drawn must queue the handle.
    pub fn create_cached_text(&mut self, text: &str, size: u32) -> (handle: TextHandle)
        ensures
            final(self)@ == create_cached_text_m(old(self)@, text@, size),
            handle@ == old(self)@.cached.len(),
    {
        let buffer = self.create_buffer(text, size);
        let index = self.cached_buffers.len();
        self.cached_buffers.push(CachedTextEntry { buffer, size });
        proof {
            assert(final(self)@ =~= create_cached_text_m(old(self)@, text@, size));
        }
        TextHandle::from_index(index)
    }

    /// Cached mode: queues one draw of the entry at `handle`.  A handle
    /// this store never issued is accepted and later skipped during
    /// resolution — a recoverable, per-call condition.
    pub fn queue_cached_text(&mut self, handle: TextHandle, pos: (i32, i32), color: Color, scale: u32)
        ensures
            final(self)@ == queue_cached_text_m(old(self)@, handle, pos, color, scale),
    {
        self.queued_renders.push(
            QueuedText {
                buffer_ref: BufferRef::Cached(handle),
                position: pos,
                color,
                scale,
                bounds: None,
            },
        );
        proof {
            assert(final(self)@ =~= queue_cached_text_m(old(self)@, handle, pos, color, scale));
        }
    }

    /// Re-shapes the cached entry at `handle` from `new_text`, resetting
    /// its metric first when `new_size` is given.  No other entry is
    /// touched; an unknown handle makes this a no-op.
    pub fn update_cached_text(&mut self, handle: TextHandle, new_text: &str, new_size: Option<u32>)
        ensures
            final(self)@ == update_cached_text_m(old(self)@, handle@, new_text@, new_size),
            forall|j: int|
                0 <= j < old(self)@.cached.len() && j != handle@ ==> final(self)@.cached[j] == old(
                    self,
                )@.cached[j],
    {
        let index = handle.index();
        if index < self.cached_buffers.len() {
            let size = match new_size {
                Some(s) => s,
                None => self.cached_buffers[index].buffer.size,
            };
            let creation_size = self.cached_buffers[index].size;
            self.cached_buffers.set(
                index,
                CachedTextEntry {
                    buffer: TextBuffer { text: String::from_str(new_text), size },
                    size: creation_size,
                },
            );
            proof {
                assert(final(self)@ =~= update_cached_text_m(
                    old(self)@,
                    handle@,
                    new_text@,
                    new_size,
                ));
            }
        }
    }

    /// Resolves every queued draw of this frame against the two pools,
    /// in queue order, skipping any reference that fails to resolve, and
    /// returns the list to hand to the shaping engine.
    pub fn prepare(&self) -> (areas: Vec<TextArea>)
        ensures
            areas@.map_values(|a: TextArea| a@) == spec_prepare(self@),
    {
        let ghost cached_v = self@.cached;
        let ghost immediate_v = self@.immediate;
        let ghost queued_v = self@.queued;
        let mut areas: Vec<TextArea> = Vec::new();
        let mut k: usize = 0;
        proof {
            assert(areas@.map_values(|a: TextArea| a@) =~= resolve_queued(
                cached_v,
                immediate_v,
                queued_v.take(0),
            ));
        }
        while k < self.queued_renders.len()
            invariant
                k <= self.queued_renders@.len(),
                cached_v == self@.cached,
                immediate_v == self@.immediate,
                queued_v == self@.queued,
                areas@.map_values(|a: TextArea| a@) == resolve_queued(
                    cached_v,
                    immediate_v,
                    queued_v.take(k as int),
                ),
            decreases self.queued_renders@.len() - k,
        {
            let q = &self.queued_renders[k];
            let found: Option<TextBuffer> = match &q.buffer_ref {
                BufferRef::Cached(h) => {
                    let index = h.index();
                    if index < self.cached_buffers.len() {
                        Some(self.cached_buffers[index].buffer.duplicate())
                    } else {
                        None
                    }
                },
                BufferRef::Immediate(i) => {
                    if *i < self.immediate_buffers.len() {
                        Some(self.immediate_buffers[*i].duplicate())
                    } else {
                        None
                    }
                },
            };
            proof {
                assert(queued_v.take(k as int + 1).drop_last() =~= queued_v.take(k as int));
                assert(queued_v.take(k as int + 1).last() == queued_v[k as int]);
            }
            match found {
                Some(buffer) => {
                    let bounds = match q.bounds {
                        Some(b) => b,
                        None => TextBounds::unbounded(),
                    };
                    areas.push(
                        TextArea {
                            buffer_ref: q.buffer_ref,
                            buffer,
                            left: q.position.0,
                            top: q.position.1,
                            scale: q.scale,
                            bounds,
                            default_color: q.color,
                        },
                    );
                    proof {
                        assert(areas@.map_values(|a: TextArea| a@) =~= resolve_queued(
                            cached_v,
                            immediate_v,
                            queued_v.take(k as int + 1),
                        ));
                    }
                },
                None => {
                    proof {
                        assert(areas@.map_values(|a: TextArea| a@) =~= resolve_queued(
                            cached_v,
                            immediate_v,
                            queued_v.take(k as int + 1),
                        ));
                    }
                },
            }
            k = k + 1;
        }
        proof {
            assert(queued_v.take(queued_v.len() as int) =~= queued_v);
        }
        areas
    }

    /// Drops this frame's transient state: the immediate pool and the
    /// queued draws.  Runs once per frame, after the draw has been
    /// submitted, and never touches the cached pool.
    pub fn clear_frame(&mut self)
        ensures
            final(self)@ == clear_frame_m(old(self)@),
    {
        self.immediate_buffers.clear();
        self.queued_renders.clear();
        proof {
            assert(final(self)@.immediate =~= Seq::<TextBufferV>::empty());
            assert(final(self)@.queued =~= Seq::<QueuedTextV>::empty());
            assert(final(self)@ =~= clear_frame_m(old(self)@));
        }
    }

    /// Builds the model of one shaped buffer: in the full system this is
    /// where the shaping engine lays the text out at the given metric.
    fn create_buffer(&mut self, text: &str, size: u32) -> (b: TextBuffer)
        ensures
            b@ == (TextBufferV { text: text@, size }),
            final(self)@ == old(self)@,
    {
        TextBuffer { text: String::from_str(text), size }
    }
}

/// LAW: clearing a frame is idempotent — a second `clear_frame` changes
/// nothing — and it never touches the cached pool or the viewport.
pub proof fn lemma_clear_frame_idempotent(v: TextRendererV)
    ensures
        clear_frame_m(clear_frame_m(v)) == clear_frame_m(v),
        clear_frame_m(v).cached == v.cached,
        clear_frame_m(v).viewport_width == v.viewport_width,
        clear_frame_m(v).viewport_height == v.viewport_height,
{
    assert(clear_frame_m(clear_frame_m(v)) =~= clear_frame_m(v));
}

/// LAW: cached-text handles are dense, strictly increasing, and stable.
/// Each creation returns the pool length as the new handle and appends
/// one entry, leaving every existing entry where it was — so N creations
/// from an empty store yield exactly the handles 0 to N-1 in order.
pub proof fn lemma_create_handles_dense(v: TextRendererV, text: Seq<char>, size: u32)
    ensures
        create_cached_text_m(v, text, size).cached.len() == v.cached.len() + 1,
        forall|j: int|
            0 <= j < v.cached.len() ==> create_cached_text_m(v, text, size).cached[j]
                == v.cached[j],
        create_cached_text_m(v, text, size).cached[v.cached.len() as int] == (CachedTextEntryV {
            buffer: TextBufferV { text, size },
            size,
        }),
{
}

/// LAW: updating one cached entry touches that entry alone: every other
/// handle's content is unaffected, the pool does not change size, and an
/// unknown handle changes nothing at all.
pub proof fn lemma_update_affects_only_target(
    v: TextRendererV,
    index: int,
    text: Seq<char>,
    new_size: Option<u32>,
)
    ensures
        update_cached_text_m(v, index, text, new_size).cached.len() == v.cached.len(),
        forall|j: int|
            0 <= j < v.cached.len() && j != index ==> update_cached_text_m(
                v,
                index,
                text,
                new_size,
            ).cached[j] == v.cached[j],
        update_cached_text_m(v, index, text, new_size).immediate == v.immediate,
        update_cached_text_m(v, index, text, new_size).queued == v.queued,
        !(0 <= index < v.cached.len()) ==> update_cached_text_m(v, index, text, new_size) == v,
{
}

/// LAW: queueing a handle that was never issued resolves to nothing: the
/// prepared list is exactly what it would have been without the call.
pub proof fn lemma_unknown_handle_resolves_empty(
    v: TextRendererV,
    handle: TextHandle,
    pos: (i32, i32),
    color: Color,
    scale: u32,
)
    requires
        handle@ >= v.cached.len(),
    ensures
        spec_prepare(queue_cached_text_m(v, handle, pos, color, scale)) == spec_prepare(v),
{
    let v2 = queue_cached_text_m(v, handle, pos, color, scale);
    assert(v2.queued.drop_last() =~= v.queued);
    assert(resolve_one(v2.cached, v2.immediate, v2.queued.last()) is None);
}

} // verus!
