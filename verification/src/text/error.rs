//! Errors of the text subsystem.

use vstd::prelude::*;

verus! {

/// Everything that can go wrong in the text subsystem.  The shaping
/// engine's own failure values are opaque to the core, so its prepare and
/// render failures are carried as plain cases.
#[derive(Clone, Debug)]
pub enum TextError {
    /// A queued draw referenced a buffer missing from both pools.
    NoBufferFound,
    /// The shaping engine failed while preparing glyphs.
    TextPrepare,
    /// The shaping engine failed while rendering glyphs.
    TextRender,
    /// A font could not be loaded; carries its path or name.
    FontLoad(String),
}

} // verus!
