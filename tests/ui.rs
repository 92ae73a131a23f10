use horizon::storage::settings::Settings;
use horizon::ui::settings::{DnsProvider, SearchEngine, SettingsPanel, SettingsUI, Theme as Scheme, VpnType};
use horizon::ui::sidebar::SidebarItem;
use horizon::ui::theme::{Color, ColorPalette, Theme};
use horizon::ui::UIManager;

#[test]
fn test_ui_manager_creation() {
    let manager = UIManager::new();
    assert_eq!(manager.theme().name(), "Dark");
}

#[test]
fn test_ui_manager_initialization() {
    let mut manager = UIManager::new();
    assert!(manager.initialize().is_ok());
}

#[test]
fn test_color_creation() {
    let color = Color::new(255, 128, 0);
    assert_eq!(color.r, 255);
    assert_eq!(color.g, 128);
    assert_eq!(color.b, 0);
}

#[test]
fn test_color_from_hex() {
    let color = Color::from_hex("#ff8000").unwrap();
    assert_eq!(color.r, 255);
    assert_eq!(color.g, 128);
    assert_eq!(color.b, 0);
}

#[test]
fn test_dark_theme() {
    let theme = Theme::default();
    assert_eq!(theme.name(), "Dark");
    assert_eq!(theme.palette().bg_window.r, 17);
}

#[test]
fn test_light_theme() {
    let theme = Theme::new("Light", ColorPalette::light());
    assert_eq!(theme.name(), "Light");
    assert_eq!(theme.palette().bg_window.r, 249);
}

#[test]
fn hex_colors_edge_cases() {
    assert_eq!(Color::from_hex("00FFaa"), Some(Color::new(0, 255, 170)));
    assert_eq!(Color::from_hex("##123456"), Some(Color::new(0x12, 0x34, 0x56)));
    assert_eq!(Color::from_hex("#12345"), None);
    assert_eq!(Color::from_hex("#1234567"), None);
    assert_eq!(Color::from_hex("#12345g"), None);
    assert_eq!(Color::from_hex("#+f+f+f"), Some(Color::new(15, 15, 15)));
    assert_eq!(Color::from_hex(""), None);
}

#[test]
fn theme_defaults() {
    let t = Theme::default();
    assert_eq!(t.font_size(), 14);
    assert_eq!(t.spacing().standard, 8);
    assert_eq!(t.radii().field, 6);
    assert_eq!(t.typography().tab_size, 13);
    assert!(t.font_family().starts_with("system-ui"));
    let mut m = UIManager::default();
    m.set_theme(Theme::new("Light", ColorPalette::light()));
    assert_eq!(m.theme().name(), "Light");
    assert_eq!(ColorPalette::dark().accent, Color::new(59, 130, 246));
}

#[test]
fn search_urls() {
    assert_eq!(SearchEngine::Google.search_url("a b&c"), "https://www.google.com/search?q=a%20b%26c");
    assert_eq!(SearchEngine::DuckDuckGo.search_url(""), "https://duckduckgo.com/?q=");
    assert_eq!(SearchEngine::Brave.search_url_encoded("x%20y"), "https://search.brave.com/search?q=x%20y");
    assert_eq!(SearchEngine::Bing.name(), "Bing");
    assert_eq!(SearchEngine::all().len(), 4);
}

#[test]
fn settings_convert_both_ways() {
    let mut stored = Settings::new();
    stored.general.search_engine = "Brave".to_string();
    stored.appearance.theme = "Light".to_string();
    stored.general.download_directory = "/dl".to_string();
    stored.privacy.clear_on_exit = true;
    let ui = SettingsUI::from_storage(&stored);
    assert_eq!(ui.general.search_engine, SearchEngine::Brave);
    assert_eq!(ui.appearance.theme, Scheme::Light);
    assert_eq!(ui.downloads.download_directory, "/dl");
    assert!(ui.privacy.clear_data_on_exit);
    assert_eq!(ui.network.proxy_port, 8080);
    assert_eq!(ui.selected_panel, SettingsPanel::General);
    let back = ui.to_storage();
    assert_eq!(back.general.search_engine, "Brave");
    assert_eq!(back.appearance.theme, "Light");
    assert_eq!(back.general.download_directory, "/dl");
    stored.general.search_engine = "Yahoo".to_string();
    stored.appearance.theme = "Solarized".to_string();
    let ui = SettingsUI::from_storage(&stored);
    assert_eq!(ui.general.search_engine, SearchEngine::DuckDuckGo);
    assert_eq!(ui.appearance.theme, Scheme::Dark);
}

#[test]
fn settings_panel_labels() {
    let s = SettingsUI::new();
    assert_eq!(s.general.homepage, "about:home");
    assert!(!s.appearance.show_bookmarks_bar);
    assert_eq!(DnsProvider::Quad9.name(), "Quad9 DNS (9.9.9.9)");
    assert_eq!(VpnType::OpenVpn.name(), "OpenVPN (.ovpn file)");
    assert_eq!(Scheme::all(), vec![Scheme::Dark, Scheme::Light]);
    assert_eq!(VpnType::all().len(), 3);
    assert_eq!(DnsProvider::all().len(), 5);
}

#[test]
fn sidebar_items() {
    assert_eq!(SidebarItem::all().len(), 6);
    assert_eq!(SidebarItem::Stocks.label(), "Stocks");
    assert_eq!(SidebarItem::Search.icon(), "\u{1F50D}");
}

#[test]
fn search_queries_encode_utf8_bytes() {
    assert_eq!(SearchEngine::Google.search_url("\u{e9}~-_."), "https://www.google.com/search?q=%C3%A9~-_.");
}
