//! Data types of the text store.
//!
//! A shaped text buffer is modelled by what it was shaped from: its source
//! text and its current metric (font size in 64ths of a pixel).  The
//! shaping engine's own buffer object lives outside the core, keyed by the
//! same handle or frame-local index.

use vstd::prelude::*;

use crate::types::Color;
use crate::types::TextBounds;

verus! {

/// Stores a handle to cached text which can be repositioned.
///
/// Handles are issued densely in creation order and stay valid for the
/// life of the store: there is no deletion operation.
#[derive(Clone, Copy, Debug, PartialEq, Eq, Hash, Structural)]
pub struct TextHandle(pub(crate) usize);

impl View for TextHandle {
    type V = int;

    /// The position of the cached entry this handle names.
    closed spec fn view(&self) -> int {
        self.0 as int
    }
}

impl TextHandle {
    /// The handle naming the cached entry at `index`.
    pub(crate) fn from_index(index: usize) -> (h: TextHandle)
        ensures
            h@ == index,
    {
        TextHandle(index)
    }

    /// The pool position this handle names.
    pub(crate) fn index(&self) -> (i: usize)
        ensures
            i == self@,
    {
        self.0
    }
}

/// The core's model of one shaped text buffer: the text it was shaped
/// from and its current font size (64ths of a pixel).
#[derive(Clone, Debug)]
pub struct TextBuffer {
    pub text: String,
    pub size: u32,
}

impl TextBuffer {
    /// An exact copy; unlike a derived `Clone`, its contract says so.
    pub fn duplicate(&self) -> (r: TextBuffer)
        ensures
            r == *self,
    {
        TextBuffer { text: self.text.clone(), size: self.size }
    }
}

/// One cached text entry: the shaped buffer's model plus the font size it
/// was created with (kept for re-shaping; updates change the buffer's own
/// metric, never this record of the original).
#[derive(Clone, Debug)]
pub struct CachedTextEntry {
    pub buffer: TextBuffer,
    pub size: u32,
}

/// Which pool a queued draw takes its buffer from.
#[derive(Clone, Copy, Debug, PartialEq, Eq, Structural)]
pub enum BufferRef {
    /// A cached entry, addressed by its stable handle.
    Cached(TextHandle),
    /// An immediate entry, addressed by its position in this frame's pool.
    Immediate(usize),
}

/// One queued text draw: which buffer, where, in what color, at what
/// scale (64ths: 64 is natural size), and clipped by what bounds.
pub struct QueuedText {
    pub buffer_ref: BufferRef,
    pub position: (i32, i32),
    pub color: Color,
    pub scale: u32,
    pub bounds: Option<TextBounds>,
}

/// One resolved draw handed to the shaping engine: the buffer reference
/// that survived lookup, a copy of the buffer's model, and the draw
/// parameters with unset bounds replaced by the unbounded default.
#[derive(Clone, Debug)]
pub struct TextArea {
    pub buffer_ref: BufferRef,
    pub buffer: TextBuffer,
    pub left: i32,
    pub top: i32,
    pub scale: u32,
    pub bounds: TextBounds,
    pub default_color: Color,
}

} // verus!
