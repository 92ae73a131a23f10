//! Extensions: manifests, the registry of installed extensions, and their folder.
use crate::error::BrowserError;
use vstd::prelude::*;

pub mod loader;
pub mod manifest;
pub mod registry;

use registry::ExtensionRegistry;

verus! {

/// What an extension says about itself.
#[derive(Debug, Clone)]
pub struct ExtensionMetadata {
    pub id: String,
    pub name: String,
    pub version: String,
    pub description: String,
    pub author: String,
}

/// An extension, as the browser drives it.
pub trait Extension {
    /// What the extension says about itself.
    fn metadata(&self) -> &ExtensionMetadata;

    /// Prepare the extension.
    fn initialize(&mut self) -> Result<(), BrowserError>;

    /// The extension was turned on.
    fn on_enable(&mut self) -> Result<(), BrowserError> {
        Ok(())
    }

    /// The extension was turned off.
    fn on_disable(&mut self) -> Result<(), BrowserError> {
        Ok(())
    }

    /// Release what the extension holds.
    fn shutdown(&mut self) -> Result<(), BrowserError>;
}

/// Owns the registry of installed extensions.
pub struct ExtensionManager {
    registry: ExtensionRegistry,
}

impl ExtensionManager {
    pub closed spec fn spec_registry(&self) -> ExtensionRegistry {
        self.registry
    }

    /// A manager with an empty registry.
    pub fn new() -> (r: ExtensionManager)
        ensures
            r.spec_registry().wf(),
            r.spec_registry().spec_extensions().len() == 0,
    {
        ExtensionManager { registry: ExtensionRegistry::new() }
    }

    /// The registry.
    pub fn registry(&self) -> (r: &ExtensionRegistry)
        ensures
            *r == self.spec_registry(),
    {
        &self.registry
    }

    /// The registry, for changing it.
    pub fn registry_mut(&mut self) -> (r: &mut ExtensionRegistry)
        ensures
            *r == old(self).spec_registry(),
            final(self).spec_registry() == *final(r),
    {
        &mut self.registry
    }
}

impl Default for ExtensionManager {
    fn default() -> (r: ExtensionManager)
        ensures
            r.spec_registry().wf(),
            r.spec_registry().spec_extensions().len() == 0,
    {
        ExtensionManager::new()
    }
}

} // verus!
