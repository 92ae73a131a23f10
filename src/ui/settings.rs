//! The settings panels of the browser window.
use crate::storage::settings as stored;
use crate::storage::settings::{download_dir_or_fallback, platform_download_dir};
use vstd::prelude::*;
use vstd::utf8::encode_utf8;

verus! {

/// The panel shown in the settings page.
#[derive(Debug, Clone, Copy, PartialEq, Eq, Structural)]
pub enum SettingsPanel {
    General,
    Privacy,
    Appearance,
    Network,
    Passwords,
    Extensions,
    Downloads,
    Advanced,
}

impl Default for SettingsPanel {
    fn default() -> (r: SettingsPanel)
        ensures
            r == SettingsPanel::General,
    {
        SettingsPanel::General
    }
}

/// The search engines the address bar can send queries to.
#[derive(Debug, Clone, Copy, PartialEq, Eq, Structural)]
pub enum SearchEngine {
    DuckDuckGo,
    Google,
    Bing,
    Brave,
}

/// A byte that percent-encoding keeps as it is: an ASCII letter or digit, or one
/// of `-_.~`.
pub open spec fn unreserved(b: u8) -> bool {
    (0x30 <= b <= 0x39) || (0x41 <= b <= 0x5a) || (0x61 <= b <= 0x7a) || b == 0x2d || b == 0x5f || b
        == 0x2e || b == 0x7e
}

/// The upper-case hexadecimal digit of `n`, below 16.
pub open spec fn upper_hex_digit(n: u8) -> char {
    if n < 10 {
        (0x30 + n) as char
    } else {
        (0x41 + n - 10) as char
    }
}

/// `bytes` percent-encoded: unreserved bytes kept, every other byte written as
/// `%` and two upper-case hexadecimal digits.
pub open spec fn percent_encoded(bytes: Seq<u8>) -> Seq<char>
    decreases bytes.len(),
{
    if bytes.len() == 0 {
        Seq::empty()
    } else {
        let b = bytes[0];
        let head = if unreserved(b) {
            seq![b as char]
        } else {
            seq!['%', upper_hex_digit(b / 16), upper_hex_digit(b % 16)]
        };
        head + percent_encoded(bytes.skip(1))
    }
}

/// Text as a query parameter: its UTF-8 bytes percent-encoded.
pub open spec fn url_encoded(s: Seq<char>) -> Seq<char> {
    percent_encoded(encode_utf8(s))
}

/// Relies on `urlencoding::encode`: every UTF-8 byte of the text but ASCII
/// letters, digits and `-_.~` is written as `%` and two upper-case hexadecimal
/// digits.
#[verifier::external_body]
fn encode_query(s: &str) -> (r: String)
    ensures
        r@ == url_encoded(s@),
{
    urlencoding::encode(s).into_owned()
}

impl SearchEngine {
    pub open spec fn spec_name(self) -> Seq<char> {
        match self {
            SearchEngine::DuckDuckGo => "DuckDuckGo"@,
            SearchEngine::Google => "Google"@,
            SearchEngine::Bing => "Bing"@,
            SearchEngine::Brave => "Brave"@,
        }
    }

    /// The address a query is appended to.
    pub open spec fn spec_query_prefix(self) -> Seq<char> {
        match self {
            SearchEngine::DuckDuckGo => "https://duckduckgo.com/?q="@,
            SearchEngine::Google => "https://www.google.com/search?q="@,
            SearchEngine::Bing => "https://www.bing.com/search?q="@,
            SearchEngine::Brave => "https://search.brave.com/search?q="@,
        }
    }

    /// The engine's display name.
    pub fn name(&self) -> (r: &'static str)
        ensures
            r@ == self.spec_name(),
    {
        match self {
            SearchEngine::DuckDuckGo => "DuckDuckGo",
            SearchEngine::Google => "Google",
            SearchEngine::Bing => "Bing",
            SearchEngine::Brave => "Brave",
        }
    }

    /// The results page for a query that is already percent-encoded.
    pub fn search_url_encoded(&self, encoded_query: &str) -> (r: String)
        ensures
            r@ == self.spec_query_prefix() + encoded_query@,
    {
        let prefix = match self {
            SearchEngine::DuckDuckGo => "https://duckduckgo.com/?q=",
            SearchEngine::Google => "https://www.google.com/search?q=",
            SearchEngine::Bing => "https://www.bing.com/search?q=",
            SearchEngine::Brave => "https://search.brave.com/search?q=",
        };
        let mut r = prefix.to_string();
        r.append(encoded_query);
        r
    }

    /// The results page for `query`.
    pub fn search_url(&self, query: &str) -> (r: String)
        ensures
            r@ == self.spec_query_prefix() + url_encoded(query@),
    {
        let encoded = encode_query(query);
        self.search_url_encoded(encoded.as_str())
    }

    /// Every engine, in menu order.
    pub fn all() -> (r: Vec<SearchEngine>)
        ensures
            r@ == seq![SearchEngine::DuckDuckGo, SearchEngine::Google, SearchEngine::Bing, SearchEngine::Brave],
    {
        vec![SearchEngine::DuckDuckGo, SearchEngine::Google, SearchEngine::Bing, SearchEngine::Brave]
    }
}

/// The engine a stored name stands for; unknown names give DuckDuckGo.
pub open spec fn engine_named(n: Seq<char>) -> SearchEngine {
    if n == "Google"@ {
        SearchEngine::Google
    } else if n == "Bing"@ {
        SearchEngine::Bing
    } else if n == "Brave"@ {
        SearchEngine::Brave
    } else {
        SearchEngine::DuckDuckGo
    }
}

/// Colour scheme of the window.
#[derive(Debug, Clone, Copy, PartialEq, Eq, Structural)]
pub enum Theme {
    Dark,
    Light,
}

impl Theme {
    pub open spec fn spec_name(self) -> Seq<char> {
        match self {
            Theme::Dark => "Dark"@,
            Theme::Light => "Light"@,
        }
    }

    /// The scheme's display name.
    pub fn name(&self) -> (r: &'static str)
        ensures
            r@ == self.spec_name(),
    {
        match self {
            Theme::Dark => "Dark",
            Theme::Light => "Light",
        }
    }

    /// Every scheme, in menu order.
    pub fn all() -> (r: Vec<Theme>)
        ensures
            r@ == seq![Theme::Dark, Theme::Light],
    {
        vec![Theme::Dark, Theme::Light]
    }
}

/// The scheme a stored name stands for; unknown names give the dark one.
pub open spec fn theme_named(n: Seq<char>) -> Theme {
    if n == "Light"@ {
        Theme::Light
    } else {
        Theme::Dark
    }
}

/// The DNS services offered in the network panel.
#[derive(Debug, Clone, Copy, PartialEq, Eq, Structural)]
pub enum DnsProvider {
    System,
    Google,
    Cloudflare,
    Quad9,
    Custom,
}

impl DnsProvider {
    pub open spec fn spec_name(self) -> Seq<char> {
        match self {
            DnsProvider::System => "System Default"@,
            DnsProvider::Google => "Google DNS (8.8.8.8)"@,
            DnsProvider::Cloudflare => "Cloudflare DNS (1.1.1.1)"@,
            DnsProvider::Quad9 => "Quad9 DNS (9.9.9.9)"@,
            DnsProvider::Custom => "Custom DNS"@,
        }
    }

    /// The service's label in the panel.
    pub fn name(&self) -> (r: &'static str)
        ensures
            r@ == self.spec_name(),
    {
        match self {
            DnsProvider::System => "System Default",
            DnsProvider::Google => "Google DNS (8.8.8.8)",
            DnsProvider::Cloudflare => "Cloudflare DNS (1.1.1.1)",
            DnsProvider::Quad9 => "Quad9 DNS (9.9.9.9)",
            DnsProvider::Custom => "Custom DNS",
        }
    }

    /// Every service, in menu order.
    pub fn all() -> (r: Vec<DnsProvider>)
        ensures
            r@ == seq![
                DnsProvider::System,
                DnsProvider::Google,
                DnsProvider::Cloudflare,
                DnsProvider::Quad9,
                DnsProvider::Custom,
            ],
    {
        vec![
            DnsProvider::System,
            DnsProvider::Google,
            DnsProvider::Cloudflare,
            DnsProvider::Quad9,
            DnsProvider::Custom,
        ]
    }
}

/// The kinds of tunnel the network panel can configure.
#[derive(Debug, Clone, Copy, PartialEq, Eq, Structural)]
pub enum VpnType {
    Proxy,
    Socks5,
    OpenVpn,
}

impl VpnType {
    pub open spec fn spec_name(self) -> Seq<char> {
        match self {
            VpnType::Proxy => "HTTP/HTTPS Proxy"@,
            VpnType::Socks5 => "SOCKS5 Proxy"@,
            VpnType::OpenVpn => "OpenVPN (.ovpn file)"@,
        }
    }

    /// The kind's label in the panel.
    pub fn name(&self) -> (r: &'static str)
        ensures
            r@ == self.spec_name(),
    {
        match self {
            VpnType::Proxy => "HTTP/HTTPS Proxy",
            VpnType::Socks5 => "SOCKS5 Proxy",
            VpnType::OpenVpn => "OpenVPN (.ovpn file)",
        }
    }

    /// Every kind, in menu order.
    pub fn all() -> (r: Vec<VpnType>)
        ensures
            r@ == seq![VpnType::Proxy, VpnType::Socks5, VpnType::OpenVpn],
    {
        vec![VpnType::Proxy, VpnType::Socks5, VpnType::OpenVpn]
    }
}

/// Start page and search.
#[derive(Debug, Clone)]
pub struct GeneralSettings {
    pub homepage: String,
    pub search_engine: SearchEngine,
    pub restore_tabs_on_startup: bool,
}

impl Default for GeneralSettings {
    fn default() -> (r: GeneralSettings)
        ensures
            r.homepage@ == "about:home"@,
            r.search_engine == SearchEngine::DuckDuckGo,
            !r.restore_tabs_on_startup,
    {
        GeneralSettings {
            homepage: "about:home".to_string(),
            search_engine: SearchEngine::DuckDuckGo,
            restore_tabs_on_startup: false,
        }
    }
}

/// Privacy switches.
#[derive(Debug, Clone)]
pub struct PrivacySettings {
    pub tracking_protection: bool,
    pub do_not_track: bool,
    pub block_third_party_cookies: bool,
    pub clear_data_on_exit: bool,
    pub https_only: bool,
}

impl Default for PrivacySettings {
    fn default() -> (r: PrivacySettings)
        ensures
            r.tracking_protection && r.do_not_track && r.block_third_party_cookies,
            !r.clear_data_on_exit && !r.https_only,
    {
        PrivacySettings {
            tracking_protection: true,
            do_not_track: true,
            block_third_party_cookies: true,
            clear_data_on_exit: false,
            https_only: false,
        }
    }
}

/// Look of the window.
#[derive(Debug, Clone)]
pub struct AppearanceSettings {
    pub theme: Theme,
    pub font_size: u16,
    pub show_bookmarks_bar: bool,
}

impl Default for AppearanceSettings {
    fn default() -> (r: AppearanceSettings)
        ensures
            r.theme == Theme::Dark,
            r.font_size == 14,
            !r.show_bookmarks_bar,
    {
        AppearanceSettings { theme: Theme::Dark, font_size: 14, show_bookmarks_bar: false }
    }
}

/// Where downloads go.
#[derive(Debug, Clone)]
pub struct DownloadsSettings {
    pub download_directory: String,
    pub ask_where_to_save: bool,
}

impl Default for DownloadsSettings {
    fn default() -> (r: DownloadsSettings)
        ensures
            r.ask_where_to_save,
    {
        DownloadsSettings {
            download_directory: download_dir_or_fallback(platform_download_dir()),
            ask_where_to_save: true,
        }
    }
}

/// Developer and rendering switches.
#[derive(Debug, Clone)]
pub struct AdvancedSettings {
    pub enable_developer_tools: bool,
    pub hardware_acceleration: bool,
    pub experimental_features: bool,
}

impl Default for AdvancedSettings {
    fn default() -> (r: AdvancedSettings)
        ensures
            !r.enable_developer_tools && r.hardware_acceleration && !r.experimental_features,
    {
        AdvancedSettings {
            enable_developer_tools: false,
            hardware_acceleration: true,
            experimental_features: false,
        }
    }
}

/// DNS and tunnel choices.
#[derive(Debug, Clone)]
pub struct NetworkSettings {
    pub dns_provider: DnsProvider,
    pub custom_dns_servers: String,
    pub vpn_enabled: bool,
    pub vpn_type: VpnType,
    pub proxy_host: String,
    pub proxy_port: u16,
}

impl Default for NetworkSettings {
    fn default() -> (r: NetworkSettings)
        ensures
            r.dns_provider == DnsProvider::System,
            r.custom_dns_servers@.len() == 0,
            !r.vpn_enabled,
            r.vpn_type == VpnType::Proxy,
            r.proxy_host@.len() == 0,
            r.proxy_port == 8080,
    {
        NetworkSettings {
            dns_provider: DnsProvider::System,
            custom_dns_servers: String::new(),
            vpn_enabled: false,
            vpn_type: VpnType::Proxy,
            proxy_host: String::new(),
            proxy_port: 8080,
        }
    }
}

/// Everything the settings page edits.
#[derive(Debug, Clone)]
pub struct SettingsUI {
    pub general: GeneralSettings,
    pub privacy: PrivacySettings,
    pub appearance: AppearanceSettings,
    pub network: NetworkSettings,
    pub downloads: DownloadsSettings,
    pub advanced: AdvancedSettings,
    pub selected_panel: SettingsPanel,
}

impl SettingsUI {
    /// The defaults of every panel, showing the general one.
    pub fn new() -> (r: SettingsUI)
        ensures
            r.general.homepage@ == "about:home"@,
            r.general.search_engine == SearchEngine::DuckDuckGo,
            r.privacy.tracking_protection,
            r.appearance.theme == Theme::Dark,
            r.network.dns_provider == DnsProvider::System,
            r.downloads.ask_where_to_save,
            r.advanced.hardware_acceleration,
            r.selected_panel == SettingsPanel::General,
    {
        SettingsUI {
            general: GeneralSettings::default(),
            privacy: PrivacySettings::default(),
            appearance: AppearanceSettings::default(),
            network: NetworkSettings::default(),
            downloads: DownloadsSettings::default(),
            advanced: AdvancedSettings::default(),
            selected_panel: SettingsPanel::default(),
        }
    }

    /// The panels as the stored settings describe them; the network panel, which
    /// is not stored, takes its defaults.
    pub fn from_storage(s: &stored::Settings) -> (r: SettingsUI)
        ensures
            r.general.homepage == s.general.homepage,
            r.general.search_engine == engine_named(s.general.search_engine@),
            r.general.restore_tabs_on_startup == s.general.restore_tabs_on_startup,
            r.privacy.tracking_protection == s.privacy.tracking_protection,
            r.privacy.do_not_track == s.privacy.do_not_track,
            r.privacy.block_third_party_cookies == s.privacy.block_third_party_cookies,
            r.privacy.clear_data_on_exit == s.privacy.clear_on_exit,
            r.privacy.https_only == s.privacy.https_only,
            r.appearance.theme == theme_named(s.appearance.theme@),
            r.appearance.font_size == s.appearance.font_size,
            r.appearance.show_bookmarks_bar == s.appearance.show_bookmarks_bar,
            r.network.dns_provider == DnsProvider::System,
            r.network.custom_dns_servers@.len() == 0,
            !r.network.vpn_enabled,
            r.network.vpn_type == VpnType::Proxy,
            r.network.proxy_host@.len() == 0,
            r.network.proxy_port == 8080,
            r.downloads.download_directory == s.general.download_directory,
            r.downloads.ask_where_to_save == s.general.ask_where_to_save,
            r.advanced.enable_developer_tools == s.advanced.enable_developer_tools,
            r.advanced.hardware_acceleration == s.advanced.hardware_acceleration,
            r.advanced.experimental_features == s.advanced.experimental_features,
            r.selected_panel == SettingsPanel::General,
    {
        let engine_name = &s.general.search_engine;
        let search_engine = if *engine_name == "Google".to_string() {
            SearchEngine::Google
        } else if *engine_name == "Bing".to_string() {
            SearchEngine::Bing
        } else if *engine_name == "Brave".to_string() {
            SearchEngine::Brave
        } else {
            SearchEngine::DuckDuckGo
        };
        let theme = if s.appearance.theme == "Light".to_string() {
            Theme::Light
        } else {
            Theme::Dark
        };
        SettingsUI {
            general: GeneralSettings {
                homepage: s.general.homepage.clone(),
                search_engine,
                restore_tabs_on_startup: s.general.restore_tabs_on_startup,
            },
            privacy: PrivacySettings {
                tracking_protection: s.privacy.tracking_protection,
                do_not_track: s.privacy.do_not_track,
                block_third_party_cookies: s.privacy.block_third_party_cookies,
                clear_data_on_exit: s.privacy.clear_on_exit,
                https_only: s.privacy.https_only,
            },
            appearance: AppearanceSettings {
                theme,
                font_size: s.appearance.font_size,
                show_bookmarks_bar: s.appearance.show_bookmarks_bar,
            },
            network: NetworkSettings::default(),
            downloads: DownloadsSettings {
                download_directory: s.general.download_directory.clone(),
                ask_where_to_save: s.general.ask_where_to_save,
            },
            advanced: AdvancedSettings {
                enable_developer_tools: s.advanced.enable_developer_tools,
                hardware_acceleration: s.advanced.hardware_acceleration,
                experimental_features: s.advanced.experimental_features,
            },
            selected_panel: SettingsPanel::default(),
        }
    }

    /// The settings to store: engine and theme by name, downloads folded into the
    /// general group; the network panel is not stored.
    pub fn to_storage(&self) -> (r: stored::Settings)
        ensures
            r.general.homepage == self.general.homepage,
            r.general.search_engine@ == self.general.search_engine.spec_name(),
            r.general.download_directory == self.downloads.download_directory,
            r.general.restore_tabs_on_startup == self.general.restore_tabs_on_startup,
            r.general.ask_where_to_save == self.downloads.ask_where_to_save,
            r.privacy.tracking_protection == self.privacy.tracking_protection,
            r.privacy.do_not_track == self.privacy.do_not_track,
            r.privacy.block_third_party_cookies == self.privacy.block_third_party_cookies,
            r.privacy.clear_on_exit == self.privacy.clear_data_on_exit,
            r.privacy.https_only == self.privacy.https_only,
            r.appearance.theme@ == self.appearance.theme.spec_name(),
            r.appearance.font_size == self.appearance.font_size,
            r.appearance.show_bookmarks_bar == self.appearance.show_bookmarks_bar,
            r.advanced.enable_developer_tools == self.advanced.enable_developer_tools,
            r.advanced.hardware_acceleration == self.advanced.hardware_acceleration,
            r.advanced.experimental_features == self.advanced.experimental_features,
    {
        stored::Settings {
            general: stored::GeneralSettings {
                homepage: self.general.homepage.clone(),
                search_engine: self.general.search_engine.name().to_string(),
                download_directory: self.downloads.download_directory.clone(),
                restore_tabs_on_startup: self.general.restore_tabs_on_startup,
                ask_where_to_save: self.downloads.ask_where_to_save,
            },
            privacy: stored::PrivacySettings {
                tracking_protection: self.privacy.tracking_protection,
                do_not_track: self.privacy.do_not_track,
                block_third_party_cookies: self.privacy.block_third_party_cookies,
                clear_on_exit: self.privacy.clear_data_on_exit,
                https_only: self.privacy.https_only,
            },
            appearance: stored::AppearanceSettings {
                theme: self.appearance.theme.name().to_string(),
                font_size: self.appearance.font_size,
                show_bookmarks_bar: self.appearance.show_bookmarks_bar,
            },
            advanced: stored::AdvancedSettings {
                enable_developer_tools: self.advanced.enable_developer_tools,
                hardware_acceleration: self.advanced.hardware_acceleration,
                experimental_features: self.advanced.experimental_features,
            },
        }
    }
}

} // verus!
