use horizon::engine::renderer::{Renderer, RendererConfig};
use horizon::engine::view::{View, ViewManager};
use horizon::engine::HorizonEngine;
use horizon::error::BrowserError;

#[test]
fn test_engine_initialization() {
    let mut engine = HorizonEngine::new();
    assert!(engine.initialize().is_ok());
}

#[test]
fn test_engine_render_before_init() {
    let mut engine = HorizonEngine::new();
    assert!(engine.render_frame().is_err());
}

#[test]
fn test_engine_lifecycle() {
    let mut engine = HorizonEngine::new();
    engine.initialize().unwrap();
    assert!(engine.render_frame().is_ok());
    assert!(engine.shutdown().is_ok());
}

#[test]
fn test_renderer_creation() {
    let renderer = Renderer::new(RendererConfig::default());
    assert_eq!(renderer.config.target_fps, 60);
}

#[test]
fn test_view_creation() {
    let view = View::new("view-1", "Test View");
    assert_eq!(view.id(), "view-1");
    assert_eq!(view.title(), "Test View");
}

#[test]
fn test_view_manager() {
    let mut manager = ViewManager::new();
    let view = View::new("view-1", "Test View");
    manager.add_view(view).unwrap();
    assert!(manager.active_view().is_some());
}

#[test]
fn engine_refuses_frames_after_shutdown() {
    let mut engine = HorizonEngine::default();
    engine.initialize().unwrap();
    engine.shutdown().unwrap();
    assert_eq!(engine.render_frame(), Err(BrowserError::EngineNotInitialized));
    assert!(!engine.is_initialized());
}

#[test]
fn first_view_stays_active() {
    let mut manager = ViewManager::default();
    assert!(manager.active_view().is_none());
    assert_eq!(manager.add_view(View::new("a", "A")), Ok(0));
    assert_eq!(manager.add_view(View::new("b", "B")), Ok(1));
    assert_eq!(manager.active_view().unwrap().id(), "a");
    assert!(manager.set_active_view(1).is_ok());
    assert_eq!(manager.active_view().unwrap().id(), "b");
    assert_eq!(manager.set_active_view(2), Err(BrowserError::InvalidViewIndex));
    assert_eq!(manager.active_view().unwrap().id(), "b");
}

#[test]
fn view_url() {
    let mut v = View::new("a", "A");
    assert_eq!(v.url(), None);
    v.set_url("https://x.test");
    assert_eq!(v.url(), Some("https://x.test"));
}

#[test]
fn renderer_always_succeeds() {
    let mut r = Renderer::new(RendererConfig { hardware_acceleration: false, target_fps: 30, vsync: false });
    assert!(r.initialize().is_ok());
    assert!(r.render().is_ok());
    assert_eq!(r.config.target_fps, 30);
}
