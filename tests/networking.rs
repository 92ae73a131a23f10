use horizon::error::BrowserError;
use horizon::networking::client::HttpMethod;
use horizon::networking::dns::{DnsConfig, DnsProvider, DnsResolver, IpAddress};
use horizon::networking::request::Request;
use horizon::networking::response::Response;
use horizon::networking::speedtest::{SpeedTestConfig, SpeedTestPhase};
use horizon::networking::vpn::{ProxyProtocol, VpnConfig, VpnManager, VpnStats, VpnStatus};

#[test]
fn test_http_method() {
    assert_eq!(HttpMethod::Get, HttpMethod::Get);
    assert_ne!(HttpMethod::Get, HttpMethod::Post);
}

#[test]
fn test_get_request() {
    let req = Request::get("https://example.com");
    assert_eq!(req.method(), HttpMethod::Get);
    assert_eq!(req.url(), "https://example.com");
}

#[test]
fn test_post_request() {
    let body = b"test data".to_vec();
    let req = Request::post("https://example.com", body.clone());
    assert_eq!(req.method(), HttpMethod::Post);
    assert_eq!(req.body(), Some(body.as_slice()));
}

#[test]
fn test_request_with_headers() {
    let req = Request::get("https://example.com").header("Content-Type", "application/json");
    assert_eq!(req.headers().len(), 1);
}

#[test]
fn test_response_creation() {
    let response = Response::new(200, b"OK".to_vec());
    assert_eq!(response.status(), 200);
    assert!(response.is_success());
}

#[test]
fn test_response_body_string() {
    let response = Response::new(200, b"Hello, World!".to_vec());
    assert_eq!(response.body_string().unwrap(), "Hello, World!");
}

#[test]
fn test_response_success() {
    let success = Response::new(200, vec![]);
    let redirect = Response::new(301, vec![]);
    let error = Response::new(404, vec![]);

    assert!(success.is_success());
    assert!(!redirect.is_success());
    assert!(!error.is_success());
}

#[test]
fn test_speed_test_phase_progress() {
    assert_eq!(SpeedTestPhase::Ping.progress(), 10);
    assert_eq!(SpeedTestPhase::Download(50).progress(), 35);
    assert_eq!(SpeedTestPhase::Upload(50).progress(), 85);
    assert_eq!(SpeedTestPhase::Complete.progress(), 100);
}

#[test]
fn test_speed_test_config_default() {
    let config = SpeedTestConfig::default();
    assert_eq!(config.ping_count, 10);
    assert_eq!(config.download_duration_secs, 10);
    assert_eq!(config.upload_duration_secs, 10);
}

#[test]
fn test_vpn_manager_creation() {
    let manager = VpnManager::new();
    assert_eq!(manager.status(), VpnStatus::Disconnected);
    assert!(!manager.is_enabled());
}

#[test]
fn test_vpn_enable_disable() {
    let mut manager = VpnManager::new();
    assert!(!manager.is_enabled());

    manager.enable();
    assert!(manager.is_enabled());

    manager.disable();
    assert!(!manager.is_enabled());
}

#[test]
fn test_proxy_configuration() {
    let mut manager = VpnManager::new();
    manager.configure_proxy(
        ProxyProtocol::Http,
        "proxy.example.com".to_string(),
        8080,
        None,
        None,
    );

    assert!(manager.config().is_some());
}

#[test]
fn test_socks_configuration() {
    let mut manager = VpnManager::new();
    let result = manager.configure_socks(5, "socks.example.com".to_string(), 1080, None, None);

    assert!(result.is_ok());
    assert!(manager.config().is_some());
}

#[test]
fn test_invalid_socks_version() {
    let mut manager = VpnManager::new();
    let result = manager.configure_socks(3, "socks.example.com".to_string(), 1080, None, None);

    assert!(result.is_err());
}

#[test]
fn test_vpn_connect_without_config() {
    let mut manager = VpnManager::new();
    let result = manager.start_connect();
    assert!(result.is_err());
}

#[test]
fn response_errors_and_headers() {
    let bad = Response::new(200, vec![0xff, 0xfe]);
    assert_eq!(bad.body_string(), Err(BrowserError::InvalidUtf8));
    assert_eq!(bad.body(), &[0xff, 0xfe]);
    assert_eq!(bad.header("Content-Type"), None);
    assert!(Response::new(299, vec![]).is_success());
    assert!(!Response::new(199, vec![]).is_success());
    assert_eq!(Response::new(200, "é".as_bytes().to_vec()).body_string().unwrap(), "é");
}

#[test]
fn request_headers_in_order() {
    let req = Request::get("u").header("A", "1").header("B", "2");
    assert_eq!(req.headers()[0], ("A".to_string(), "1".to_string()));
    assert_eq!(req.headers()[1], ("B".to_string(), "2".to_string()));
    assert_eq!(req.body(), None);
    assert!(req.method().is_supported());
    assert!(!HttpMethod::Post.is_supported());
}

#[test]
fn phase_names_and_edges() {
    assert_eq!(SpeedTestPhase::Download(0).progress(), 10);
    assert_eq!(SpeedTestPhase::Download(100).progress(), 60);
    assert_eq!(SpeedTestPhase::Upload(100).progress(), 110);
    assert_eq!(SpeedTestPhase::Upload(255).progress(), 187);
    assert_eq!(SpeedTestPhase::Ping.name(), "Measuring Latency");
    assert_eq!(SpeedTestPhase::Complete.name(), "Test Complete");
    assert_eq!(SpeedTestConfig::default().server_url, "https://speed.cloudflare.com");
    assert_eq!(SpeedTestConfig::default().download_size, 10 * 1024 * 1024);
}

#[test]
fn dns_names() {
    assert_eq!(DnsProvider::default(), DnsProvider::System);
    assert_eq!(DnsProvider::Cloudflare.name(), "Cloudflare DNS");
    assert_eq!(DnsProvider::all().len(), 5);
}

#[test]
fn vpn_connect_cycle() {
    let mut m = VpnManager::default();
    m.configure_proxy(ProxyProtocol::Https, "h".to_string(), 1, None, None);
    assert!(m.start_connect().is_ok());
    assert_eq!(m.status(), VpnStatus::Connecting);
    m.finish_connect();
    assert_eq!(m.status(), VpnStatus::Connected);
    assert_eq!(m.test_connection(), Ok(true));
    assert_eq!(m.start_connect(), Err(BrowserError::VpnAlreadyConnected));
    m.update_stats(VpnStats { download_speed: 5, upload_speed: 1, bytes_downloaded: 9, bytes_uploaded: 2, duration: 3, public_ip: None });
    assert_eq!(m.stats().download_speed, 5);
    m.disable();
    assert_eq!(m.status(), VpnStatus::Disconnected);
    assert_eq!(m.stats().download_speed, 0);
    assert_eq!(m.test_connection(), Ok(false));
    m.disconnect();
    assert_eq!(m.status(), VpnStatus::Disconnected);
    assert_eq!(VpnStatus::Connecting.name(), "Connecting");
    assert_eq!(ProxyProtocol::Https.name(), "HTTPS");
}

#[test]
fn ovpn_profiles_need_the_extension() {
    let mut m = VpnManager::new();
    assert_eq!(m.load_ovpn_config("/etc/vpn/home.conf".to_string()), Err(BrowserError::NotOvpnFile));
    assert!(m.config().is_none());
    assert!(m.load_ovpn_config("/etc/vpn/home.ovpn".to_string()).is_ok());
    match m.config() {
        Some(VpnConfig::OpenVpn { config_path, .. }) => assert_eq!(config_path, "/etc/vpn/home.ovpn"),
        _ => panic!("expected an OpenVPN configuration"),
    }
    assert_eq!(m.configure_socks(4, "s".to_string(), 1, None, None), Ok(()));
    m.set_config(VpnConfig::Proxy { protocol: ProxyProtocol::Http, host: "p".to_string(), port: 2, username: None, password: None });
    assert!(matches!(m.config(), Some(VpnConfig::Proxy { .. })));
}

#[test]
fn test_dns_resolver_creation() {
    let _resolver = DnsResolver::new();
}

#[test]
fn dns_servers_follow_the_provider() {
    let mut r = DnsResolver::default();
    assert!(r.active_servers().is_empty());
    r.set_provider(DnsProvider::Cloudflare);
    assert_eq!(r.active_servers(), vec![IpAddress::V4([1, 1, 1, 1]), IpAddress::V4([1, 0, 0, 1])]);
    r.set_custom_servers(vec![IpAddress::V6([0, 0, 0, 0, 0, 0, 0, 1])]);
    assert_eq!(r.active_servers().len(), 2);
    r.set_provider(DnsProvider::Custom);
    assert_eq!(r.active_servers(), vec![IpAddress::V6([0, 0, 0, 0, 0, 0, 0, 1])]);
    r.set_config(DnsConfig::default());
    assert_eq!(r.config().provider, DnsProvider::System);
    let q = DnsResolver::with_config(DnsConfig { provider: DnsProvider::Quad9, custom_servers: vec![] });
    assert_eq!(q.active_servers()[1], IpAddress::V4([149, 112, 112, 112]));
    assert_eq!(DnsProvider::Google.servers(), vec![IpAddress::V4([8, 8, 8, 8]), IpAddress::V4([8, 8, 4, 4])]);
}
