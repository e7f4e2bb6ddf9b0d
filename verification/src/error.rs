//! Error taxonomy of the renderer core.
//!
//! Surface conditions from the GPU layer are modelled as a plain enum so
//! the recoverable/fatal classification can be stated and checked here;
//! the unverified shell maps the GPU library's error values onto it.

use vstd::prelude::*;

use crate::text::error::TextError;

verus! {

/// Why acquiring a presentable surface failed.  Mirrors the GPU layer's
/// surface error cases as plain data.
#[derive(Clone, Copy, Debug, PartialEq, Eq, Structural)]
pub enum SurfaceError {
    /// The frame took too long to become available.
    Timeout,
    /// The surface no longer matches the window and must be reconfigured.
    Outdated,
    /// The surface was lost and must be recreated.
    Lost,
    /// The GPU is out of memory.
    OutOfMemory,
    /// Any other acquisition failure.
    Other,
}

/// Everything that can go wrong while setting up or driving the renderer.
#[derive(Clone, Debug)]
pub enum RenderError {
    /// No suitable GPU adapter was found.
    AdapterRequest,
    /// The GPU device could not be created.
    DeviceCreation,
    /// The window surface could not be created.
    SurfaceCreation,
    /// No compatible surface format was found.
    NoSurfaceFormat,
    /// Acquiring a presentable surface failed.
    Surface(SurfaceError),
    /// The GPU device was lost (sleep/wake, driver crash).
    DeviceLost,
    /// The GPU is out of memory.
    OutOfMemory,
    /// Queued geometry exceeds the fixed buffer capacity.  `requested` and
    /// `max` count buffer elements (vertices or indices).
    BufferSizeExceeded { requested: u64, max: u64 },
    /// A texture exceeds the device's maximum dimension.
    TextureSizeExceeded { width: u32, height: u32, max: u32 },
    /// A failure in the text subsystem.
    TextError(TextError),
}

impl RenderError {
    /// True exactly of surface conditions that a reconfigure repairs.
    pub open spec fn spec_is_surface_recoverable(&self) -> bool {
        match *self {
            RenderError::Surface(e) => e == SurfaceError::Lost || e == SurfaceError::Outdated,
            _ => false,
        }
    }

    /// Returns true if this error is recoverable by recreating the surface.
    pub fn is_surface_recoverable(&self) -> (r: bool)
        ensures
            r == self.spec_is_surface_recoverable(),
    {
        match self {
            RenderError::Surface(e) => *e == SurfaceError::Lost || *e == SurfaceError::Outdated,
            _ => false,
        }
    }

    /// True exactly of errors that demand a full renderer reinitialization.
    pub open spec fn spec_requires_reinit(&self) -> bool {
        *self is DeviceLost
    }

    /// Returns true if this error requires full renderer reinitialization.
    pub fn requires_reinit(&self) -> (r: bool)
        ensures
            r == self.spec_requires_reinit(),
    {
        match self {
            RenderError::DeviceLost => true,
            _ => false,
        }
    }

    /// True exactly of errors no recovery path exists for.
    pub open spec fn spec_is_fatal(&self) -> bool {
        ||| *self is AdapterRequest
        ||| *self is DeviceCreation
        ||| *self is NoSurfaceFormat
        ||| *self is OutOfMemory
    }

    /// Returns true if this is a fatal error that cannot be recovered.
    pub fn is_fatal(&self) -> (r: bool)
        ensures
            r == self.spec_is_fatal(),
    {
        match self {
            RenderError::AdapterRequest => true,
            RenderError::DeviceCreation => true,
            RenderError::NoSurfaceFormat => true,
            RenderError::OutOfMemory => true,
            _ => false,
        }
    }
}

/// What the frame orchestrator does when acquiring a surface fails.
#[derive(Clone, Copy, Debug, PartialEq, Eq, Structural)]
pub enum AcquireRecovery {
    /// Reconfigure the surface and skip this frame; nothing is presented.
    ReconfigureAndSkip,
    /// Skip this frame without touching the surface.
    Skip,
    /// Give up: the error propagates to the caller.
    Fatal,
}

/// Classifies a failed surface acquisition: a lost or outdated surface is
/// repaired by reconfiguring and the frame is abandoned; out-of-memory is
/// fatal; anything else abandons the frame without reconfiguring.
pub fn acquire_recovery(e: &SurfaceError) -> (r: AcquireRecovery)
    ensures
        r == AcquireRecovery::ReconfigureAndSkip <==> (*e == SurfaceError::Lost || *e
            == SurfaceError::Outdated),
        r == AcquireRecovery::Fatal <==> *e == SurfaceError::OutOfMemory,
        r == AcquireRecovery::Skip <==> (*e == SurfaceError::Timeout || *e == SurfaceError::Other),
{
    match e {
        SurfaceError::Lost => AcquireRecovery::ReconfigureAndSkip,
        SurfaceError::Outdated => AcquireRecovery::ReconfigureAndSkip,
        SurfaceError::OutOfMemory => AcquireRecovery::Fatal,
        SurfaceError::Timeout => AcquireRecovery::Skip,
        SurfaceError::Other => AcquireRecovery::Skip,
    }
}

} // verus!
