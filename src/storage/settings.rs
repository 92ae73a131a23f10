//! The settings kept on disk.
use vstd::prelude::*;

verus! {

/// Where downloads go when the platform names no download folder.
pub const FALLBACK_DOWNLOAD_DIR: &'static str = "/tmp/downloads";

/// Relies on `dirs::download_dir`: the user's download folder when the platform
/// names one whose path is valid UTF-8. It depends on the environment, so nothing
/// is known of it.
#[verifier::external_body]
pub(crate) fn platform_download_dir() -> (r: Option<String>) {
    dirs::download_dir().and_then(|p| p.to_str().map(|s| s.to_string()))
}

/// The download folder to use, given what the platform names.
pub fn download_dir_or_fallback(found: Option<String>) -> (r: String)
    ensures
        r@ == (match found {
            Some(d) => d@,
            None => FALLBACK_DOWNLOAD_DIR@,
        }),
{
    match found {
        Some(d) => d,
        None => FALLBACK_DOWNLOAD_DIR.to_string(),
    }
}

/// Privacy switches.
#[derive(Debug, Clone)]
pub struct PrivacySettings {
    pub tracking_protection: bool,
    pub clear_on_exit: bool,
    pub do_not_track: bool,
    pub block_third_party_cookies: bool,
    pub https_only: bool,
}

impl Default for PrivacySettings {
    fn default() -> (r: PrivacySettings)
        ensures
            r.tracking_protection && !r.clear_on_exit && r.do_not_track,
            r.block_third_party_cookies && !r.https_only,
    {
        PrivacySettings {
            tracking_protection: true,
            clear_on_exit: false,
            do_not_track: true,
            block_third_party_cookies: true,
            https_only: false,
        }
    }
}

/// Look of the window, by theme name.
#[derive(Debug, Clone)]
pub struct AppearanceSettings {
    pub theme: String,
    pub font_size: u16,
    pub show_bookmarks_bar: bool,
}

impl Default for AppearanceSettings {
    fn default() -> (r: AppearanceSettings)
        ensures
            r.theme@ == "Dark"@,
            r.font_size == 14,
            r.show_bookmarks_bar,
    {
        AppearanceSettings { theme: "Dark".to_string(), font_size: 14, show_bookmarks_bar: true }
    }
}

/// Start page, search engine by name, and downloads.
#[derive(Debug, Clone)]
pub struct GeneralSettings {
    pub homepage: String,
    pub search_engine: String,
    pub download_directory: String,
    pub restore_tabs_on_startup: bool,
    pub ask_where_to_save: bool,
}

impl GeneralSettings {
    /// The defaults, downloading to `download_directory`.
    pub fn with_download_directory(download_directory: String) -> (r: GeneralSettings)
        ensures
            r.homepage@ == "about:home"@,
            r.search_engine@ == "DuckDuckGo"@,
            r.download_directory == download_directory,
            !r.restore_tabs_on_startup,
            r.ask_where_to_save,
    {
        GeneralSettings {
            homepage: "about:home".to_string(),
            search_engine: "DuckDuckGo".to_string(),
            download_directory,
            restore_tabs_on_startup: false,
            ask_where_to_save: true,
        }
    }
}

impl Default for GeneralSettings {
    fn default() -> (r: GeneralSettings)
        ensures
            r.homepage@ == "about:home"@,
            r.search_engine@ == "DuckDuckGo"@,
            !r.restore_tabs_on_startup,
            r.ask_where_to_save,
    {
        GeneralSettings::with_download_directory(download_dir_or_fallback(platform_download_dir()))
    }
}

/// Developer and rendering switches.
#[derive(Debug, Clone)]
pub struct AdvancedSettings {
    pub enable_developer_tools: bool,
    pub hardware_acceleration: bool,
    pub experimental_features: bool,
}

impl Default for AdvancedSettings {
    fn default() -> (r: AdvancedSettings)
        ensures
            !r.enable_developer_tools && r.hardware_acceleration && !r.experimental_features,
    {
        AdvancedSettings {
            enable_developer_tools: false,
            hardware_acceleration: true,
            experimental_features: false,
        }
    }
}

/// Every stored setting.
#[derive(Debug, Clone)]
pub struct Settings {
    pub privacy: PrivacySettings,
    pub appearance: AppearanceSettings,
    pub general: GeneralSettings,
    pub advanced: AdvancedSettings,
}

impl Settings {
    /// The defaults of every group.
    pub fn new() -> (r: Settings)
        ensures
            r.privacy.tracking_protection && !r.privacy.clear_on_exit && r.privacy.do_not_track,
            r.privacy.block_third_party_cookies && !r.privacy.https_only,
            r.appearance.theme@ == "Dark"@,
            r.appearance.font_size == 14,
            r.appearance.show_bookmarks_bar,
            r.general.homepage@ == "about:home"@,
            r.general.search_engine@ == "DuckDuckGo"@,
            !r.general.restore_tabs_on_startup,
            r.general.ask_where_to_save,
            !r.advanced.enable_developer_tools && r.advanced.hardware_acceleration,
            !r.advanced.experimental_features,
    {
        Settings {
            privacy: PrivacySettings::default(),
            appearance: AppearanceSettings::default(),
            general: GeneralSettings::default(),
            advanced: AdvancedSettings::default(),
        }
    }
}

impl Default for Settings {
    fn default() -> (r: Settings)
        ensures
            r.privacy.tracking_protection,
            r.appearance.theme@ == "Dark"@,
    {
        Settings::new()
    }
}

} // verus!
