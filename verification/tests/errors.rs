use wgpu_renderer::error::acquire_recovery;
use wgpu_renderer::error::AcquireRecovery;
use wgpu_renderer::Color;
use wgpu_renderer::RenderError;
use wgpu_renderer::SurfaceError;
use wgpu_renderer::Text;
use wgpu_renderer::TextBounds;

#[test]
fn lost_and_outdated_surfaces_are_recoverable() {
    assert!(RenderError::Surface(SurfaceError::Lost).is_surface_recoverable());
    assert!(RenderError::Surface(SurfaceError::Outdated).is_surface_recoverable());
    assert!(!RenderError::Surface(SurfaceError::Timeout).is_surface_recoverable());
    assert!(!RenderError::Surface(SurfaceError::OutOfMemory).is_surface_recoverable());
    assert!(!RenderError::Surface(SurfaceError::Other).is_surface_recoverable());
    assert!(!RenderError::OutOfMemory.is_surface_recoverable());
    assert!(!RenderError::DeviceLost.is_surface_recoverable());
}

#[test]
fn only_a_lost_device_requires_reinit() {
    assert!(RenderError::DeviceLost.requires_reinit());
    assert!(!RenderError::OutOfMemory.requires_reinit());
    assert!(!RenderError::Surface(SurfaceError::Lost).requires_reinit());
    assert!(!RenderError::NoSurfaceFormat.requires_reinit());
}

#[test]
fn fatal_errors_are_exactly_the_unrecoverable_ones() {
    assert!(RenderError::AdapterRequest.is_fatal());
    assert!(RenderError::DeviceCreation.is_fatal());
    assert!(RenderError::NoSurfaceFormat.is_fatal());
    assert!(RenderError::OutOfMemory.is_fatal());
    assert!(!RenderError::SurfaceCreation.is_fatal());
    assert!(!RenderError::DeviceLost.is_fatal());
    assert!(!RenderError::Surface(SurfaceError::OutOfMemory).is_fatal());
    assert!(!RenderError::BufferSizeExceeded { requested: 260, max: 256 }.is_fatal());
}

#[test]
fn acquire_recovery_classifies_surface_errors() {
    assert_eq!(
        acquire_recovery(&SurfaceError::Lost),
        AcquireRecovery::ReconfigureAndSkip
    );
    assert_eq!(
        acquire_recovery(&SurfaceError::Outdated),
        AcquireRecovery::ReconfigureAndSkip
    );
    assert_eq!(acquire_recovery(&SurfaceError::OutOfMemory), AcquireRecovery::Fatal);
    assert_eq!(acquire_recovery(&SurfaceError::Timeout), AcquireRecovery::Skip);
    assert_eq!(acquire_recovery(&SurfaceError::Other), AcquireRecovery::Skip);
}

#[test]
fn text_request_defaults() {
    let t = Text::default();
    assert_eq!(t.text, "");
    assert_eq!(t.position, (0, 0));
    assert_eq!(t.size, 1024);
    assert_eq!(t.color, Color { r: 255, g: 255, b: 255, a: 255 });
    assert!(t.bounds.is_none());
    let b = TextBounds::unbounded();
    assert_eq!(b, TextBounds { left: 0, top: 0, right: i32::MAX, bottom: i32::MAX });
}
