//! The text subsystem: dual-lifetime text storage and per-frame
//! resolution of queued text draws.

pub mod error;
pub mod renderer;
pub mod types;
