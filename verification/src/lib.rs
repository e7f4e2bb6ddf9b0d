//! CPU-side core of a small 2D renderer: a per-frame draw queue.

pub mod error;
pub mod renderer;
pub mod tessellation;
pub mod text;
pub mod types;

pub use error::RenderError;
pub use error::SurfaceError;
pub use renderer::FramePhase;
pub use renderer::Renderer;
pub use text::types::TextHandle;
pub use types::Color;
pub use types::Text;
pub use types::TextBounds;
pub use types::Vertex;
