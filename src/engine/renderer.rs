//! Frame rendering.
use crate::error::BrowserError;
use vstd::prelude::*;

verus! {

/// How frames are produced.
#[derive(Debug, Clone)]
pub struct RendererConfig {
    pub hardware_acceleration: bool,
    pub target_fps: u32,
    pub vsync: bool,
}

impl Default for RendererConfig {
    fn default() -> (r: RendererConfig)
        ensures
            r.hardware_acceleration,
            r.target_fps == 60,
            r.vsync,
    {
        RendererConfig { hardware_acceleration: true, target_fps: 60, vsync: true }
    }
}

/// Produces frames with a fixed configuration.
pub struct Renderer {
    pub config: RendererConfig,
}

impl Renderer {
    /// A renderer with the given configuration.
    pub fn new(config: RendererConfig) -> (r: Renderer)
        ensures
            r.config == config,
    {
        Renderer { config }
    }

    /// Prepare for rendering; it always succeeds.
    pub fn initialize(&mut self) -> (r: Result<(), BrowserError>)
        ensures
            r is Ok,
            final(self).config == old(self).config,
    {
        Ok(())
    }

    /// Render one frame; it always succeeds.
    pub fn render(&mut self) -> (r: Result<(), BrowserError>)
        ensures
            r is Ok,
            final(self).config == old(self).config,
    {
        Ok(())
    }
}

} // verus!
