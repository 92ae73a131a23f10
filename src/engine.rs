//! The page engine: its life cycle, renderer and views.
use crate::error::BrowserError;
use vstd::prelude::*;

pub mod renderer;
pub mod view;

verus! {

/// A page engine's life cycle.
pub trait Engine {
    /// Make the engine ready to render.
    fn initialize(&mut self) -> Result<(), BrowserError>;

    /// Render one frame.
    fn render_frame(&mut self) -> Result<(), BrowserError>;

    /// Stop rendering.
    fn shutdown(&mut self) -> Result<(), BrowserError>;
}

/// The engine, which renders only between `initialize` and `shutdown`.
pub struct HorizonEngine {
    initialized: bool,
}

impl HorizonEngine {
    pub closed spec fn spec_initialized(&self) -> bool {
        self.initialized
    }

    /// An engine that is not yet initialised.
    pub fn new() -> (r: HorizonEngine)
        ensures
            !r.spec_initialized(),
    {
        HorizonEngine { initialized: false }
    }

    /// Whether the engine may render.
    pub fn is_initialized(&self) -> (r: bool)
        ensures
            r == self.spec_initialized(),
    {
        self.initialized
    }

    /// Make the engine ready to render.
    pub fn initialize(&mut self) -> (r: Result<(), BrowserError>)
        ensures
            r is Ok,
            final(self).spec_initialized(),
    {
        self.initialized = true;
        Ok(())
    }

    /// Render one frame; refused before `initialize`.
    pub fn render_frame(&mut self) -> (r: Result<(), BrowserError>)
        ensures
            r is Ok <==> old(self).spec_initialized(),
            r is Err ==> r == Err::<(), BrowserError>(BrowserError::EngineNotInitialized),
            final(self).spec_initialized() == old(self).spec_initialized(),
    {
        if !self.initialized {
            return Err(BrowserError::EngineNotInitialized);
        }
        Ok(())
    }

    /// Stop rendering until the next `initialize`.
    pub fn shutdown(&mut self) -> (r: Result<(), BrowserError>)
        ensures
            r is Ok,
            !final(self).spec_initialized(),
    {
        self.initialized = false;
        Ok(())
    }
}

impl Engine for HorizonEngine {
    fn initialize(&mut self) -> (r: Result<(), BrowserError>) {
        HorizonEngine::initialize(self)
    }

    fn render_frame(&mut self) -> (r: Result<(), BrowserError>) {
        HorizonEngine::render_frame(self)
    }

    fn shutdown(&mut self) -> (r: Result<(), BrowserError>) {
        HorizonEngine::shutdown(self)
    }
}

impl Default for HorizonEngine {
    fn default() -> (r: HorizonEngine)
        ensures
            !r.spec_initialized(),
    {
        HorizonEngine::new()
    }
}

} // verus!
