//! Storage: passwords, profiles, secrets, settings and user-data locations.
use crate::error::BrowserError;
use crate::text::{join_path, joined_path};
use vstd::prelude::*;

pub mod passwords;
pub mod profile;
pub mod secure;
pub mod settings;
pub mod userdata;

use settings::Settings;

verus! {

/// The file name of the stored settings.
pub const SETTINGS_FILE: &'static str = "settings.toml";

/// The storage folder and the settings read from it.
pub struct StorageManager {
    base_path: String,
    settings: Settings,
}

impl StorageManager {
    pub closed spec fn spec_base_path(&self) -> Seq<char> {
        self.base_path@
    }

    pub closed spec fn spec_settings(&self) -> Settings {
        self.settings
    }

    /// A manager for the folder `base_path` with the settings read from it.
    pub fn with_settings(base_path: String, settings: Settings) -> (r: StorageManager)
        ensures
            r.spec_base_path() == base_path@,
            r.spec_settings() == settings,
    {
        StorageManager { base_path, settings }
    }

    /// Prepare the storage; it always succeeds.
    pub fn initialize(&mut self) -> (r: Result<(), BrowserError>)
        ensures
            r is Ok,
            final(self).spec_base_path() == old(self).spec_base_path(),
            final(self).spec_settings() == old(self).spec_settings(),
    {
        Ok(())
    }

    pub fn base_path(&self) -> (r: &str)
        ensures
            r@ == self.spec_base_path(),
    {
        self.base_path.as_str()
    }

    pub fn settings(&self) -> (r: &Settings)
        ensures
            *r == self.spec_settings(),
    {
        &self.settings
    }

    pub fn settings_mut(&mut self) -> (r: &mut Settings)
        ensures
            *r == old(self).spec_settings(),
            final(self).spec_settings() == *final(r),
            final(self).spec_base_path() == old(self).spec_base_path(),
    {
        &mut self.settings
    }

    /// The file the settings are saved to.
    pub fn settings_path(&self) -> (r: String)
        ensures
            r@ == joined_path(self.spec_base_path(), SETTINGS_FILE@),
    {
        join_path(self.base_path.as_str(), SETTINGS_FILE)
    }
}

} // verus!
