//! User-interface state: tabs, theme, sidebar and the settings panels.
use crate::error::BrowserError;
use vstd::prelude::*;

pub mod browser;
pub mod settings;
pub mod sidebar;
pub mod tabs;
pub mod theme;

use theme::Theme;

verus! {

/// Holds the look in use.
pub struct UIManager {
    theme: Theme,
}

impl UIManager {
    pub closed spec fn spec_theme(&self) -> Theme {
        self.theme
    }

    /// The dark look.
    pub fn new() -> (r: UIManager)
        ensures
            r.spec_theme().spec_name() == "Dark"@,
    {
        UIManager { theme: Theme::default() }
    }

    /// Prepare the interface; it always succeeds.
    pub fn initialize(&mut self) -> (r: Result<(), BrowserError>)
        ensures
            r is Ok,
            final(self).spec_theme() == old(self).spec_theme(),
    {
        Ok(())
    }

    pub fn theme(&self) -> (r: &Theme)
        ensures
            *r == self.spec_theme(),
    {
        &self.theme
    }

    /// Use `theme` from now on.
    pub fn set_theme(&mut self, theme: Theme)
        ensures
            final(self).spec_theme() == theme,
    {
        self.theme = theme;
    }
}

impl Default for UIManager {
    fn default() -> (r: UIManager)
        ensures
            r.spec_theme().spec_name() == "Dark"@,
    {
        UIManager::new()
    }
}

} // verus!
