//! The browser's own tunnel: a proxy, a SOCKS server or an OpenVPN profile.
use crate::error::BrowserError;
use vstd::prelude::*;

verus! {

/// Where the tunnel stands.
#[derive(Debug, Clone, Copy, PartialEq, Eq, Structural)]
pub enum VpnStatus {
    Disconnected,
    Connecting,
    Connected,
    Failed,
}

impl VpnStatus {
    pub open spec fn spec_name(self) -> Seq<char> {
        match self {
            VpnStatus::Disconnected => "Disconnected"@,
            VpnStatus::Connecting => "Connecting"@,
            VpnStatus::Connected => "Connected"@,
            VpnStatus::Failed => "Failed"@,
        }
    }

    /// The state's label.
    pub fn name(&self) -> (r: &'static str)
        ensures
            r@ == self.spec_name(),
    {
        match self {
            VpnStatus::Disconnected => "Disconnected",
            VpnStatus::Connecting => "Connecting",
            VpnStatus::Connected => "Connected",
            VpnStatus::Failed => "Failed",
        }
    }
}

/// The proxy protocols.
#[derive(Debug, Clone, Copy, PartialEq, Eq, Structural)]
pub enum ProxyProtocol {
    Http,
    Https,
}

impl ProxyProtocol {
    pub open spec fn spec_name(self) -> Seq<char> {
        match self {
            ProxyProtocol::Http => "HTTP"@,
            ProxyProtocol::Https => "HTTPS"@,
        }
    }

    /// The protocol's label.
    pub fn name(&self) -> (r: &'static str)
        ensures
            r@ == self.spec_name(),
    {
        match self {
            ProxyProtocol::Http => "HTTP",
            ProxyProtocol::Https => "HTTPS",
        }
    }
}

/// How the tunnel is made.
#[derive(Debug, Clone)]
pub enum VpnConfig {
    OpenVpn { config_path: String, username: Option<String>, password: Option<String> },
    Proxy {
        protocol: ProxyProtocol,
        host: String,
        port: u16,
        username: Option<String>,
        password: Option<String>,
    },
    Socks { version: u8, host: String, port: u16, username: Option<String>, password: Option<String> },
}

/// Traffic through the tunnel.
#[derive(Debug, Clone)]
pub struct VpnStats {
    pub download_speed: u64,
    pub upload_speed: u64,
    pub bytes_downloaded: u64,
    pub bytes_uploaded: u64,
    pub duration: u64,
    /// The address the outside world sees, as text.
    pub public_ip: Option<String>,
}

impl VpnStats {
    /// No traffic yet.
    pub open spec fn is_zero(&self) -> bool {
        &&& self.download_speed == 0
        &&& self.upload_speed == 0
        &&& self.bytes_downloaded == 0
        &&& self.bytes_uploaded == 0
        &&& self.duration == 0
        &&& self.public_ip is None
    }
}

impl Default for VpnStats {
    fn default() -> (r: VpnStats)
        ensures
            r.is_zero(),
    {
        VpnStats {
            download_speed: 0,
            upload_speed: 0,
            bytes_downloaded: 0,
            bytes_uploaded: 0,
            duration: 0,
            public_ip: None,
        }
    }
}

/// The extension of the last component of a path, as `Path::extension` gives it.
pub uninterp spec fn path_extension(p: Seq<char>) -> Option<Seq<char>>;

/// Relies on `std::path::Path::extension`, whose result is named
/// `path_extension`; an extension that is not valid UTF-8 counts as none.
#[verifier::external_body]
fn extension_of(path: &str) -> (r: Option<String>)
    ensures
        match r {
            Some(e) => path_extension(path@) == Some(e@),
            None => path_extension(path@) is None,
        },
{
    std::path::Path::new(path).extension().and_then(|e| e.to_str()).map(|e| e.to_string())
}

/// The tunnel: whether the user wants it, how it is made, and where it stands.
pub struct VpnManager {
    config: Option<VpnConfig>,
    status: VpnStatus,
    stats: VpnStats,
    enabled: bool,
}

impl VpnManager {
    pub closed spec fn spec_config(&self) -> Option<VpnConfig> {
        self.config
    }

    pub closed spec fn spec_status(&self) -> VpnStatus {
        self.status
    }

    pub closed spec fn spec_stats(&self) -> VpnStats {
        self.stats
    }

    pub closed spec fn spec_enabled(&self) -> bool {
        self.enabled
    }

    /// Disabled, unconfigured and disconnected.
    pub fn new() -> (r: VpnManager)
        ensures
            r.spec_config() is None,
            r.spec_status() == VpnStatus::Disconnected,
            r.spec_stats().is_zero(),
            !r.spec_enabled(),
    {
        VpnManager { config: None, status: VpnStatus::Disconnected, stats: VpnStats::default(), enabled: false }
    }

    pub fn is_enabled(&self) -> (r: bool)
        ensures
            r == self.spec_enabled(),
    {
        self.enabled
    }

    /// Switch the tunnel on; it does not connect by itself.
    pub fn enable(&mut self)
        ensures
            final(self).spec_enabled(),
            final(self).spec_config() == old(self).spec_config(),
            final(self).spec_status() == old(self).spec_status(),
            final(self).spec_stats() == old(self).spec_stats(),
    {
        self.enabled = true;
    }

    /// Switch the tunnel off, disconnecting it when connected.
    pub fn disable(&mut self)
        ensures
            !final(self).spec_enabled(),
            final(self).spec_config() == old(self).spec_config(),
            old(self).spec_status() == VpnStatus::Connected ==> final(self).spec_status()
                == VpnStatus::Disconnected && final(self).spec_stats().is_zero(),
            old(self).spec_status() != VpnStatus::Connected ==> final(self).spec_status()
                == old(self).spec_status() && final(self).spec_stats() == old(self).spec_stats(),
    {
        self.enabled = false;
        if self.status == VpnStatus::Connected {
            self.disconnect();
        }
    }

    pub fn status(&self) -> (r: VpnStatus)
        ensures
            r == self.spec_status(),
    {
        self.status
    }

    pub fn config(&self) -> (r: Option<&VpnConfig>)
        ensures
            r is Some <==> self.spec_config() is Some,
            r is Some ==> *r->0 == self.spec_config()->0,
    {
        self.config.as_ref()
    }

    pub fn stats(&self) -> (r: &VpnStats)
        ensures
            *r == self.spec_stats(),
    {
        &self.stats
    }

    /// Use `config` from now on.
    pub fn set_config(&mut self, config: VpnConfig)
        ensures
            final(self).spec_config() == Some(config),
            final(self).spec_status() == old(self).spec_status(),
            final(self).spec_stats() == old(self).spec_stats(),
            final(self).spec_enabled() == old(self).spec_enabled(),
    {
        self.config = Some(config);
    }

    /// Use the OpenVPN profile at `path`, which must end in `.ovpn`; refused, with
    /// nothing changed, otherwise. The caller checks first that the file exists.
    pub fn load_ovpn_config(&mut self, path: String) -> (r: Result<(), BrowserError>)
        ensures
            r is Ok <==> path_extension(path@) == Some("ovpn"@),
            r is Err ==> r == Err::<(), BrowserError>(BrowserError::NotOvpnFile) && final(self).spec_config()
                == old(self).spec_config(),
            r is Ok ==> final(self).spec_config() == Some(
                VpnConfig::OpenVpn { config_path: path, username: None, password: None },
            ),
            final(self).spec_status() == old(self).spec_status(),
            final(self).spec_stats() == old(self).spec_stats(),
            final(self).spec_enabled() == old(self).spec_enabled(),
    {
        let ovpn = "ovpn".to_string();
        let is_ovpn = match extension_of(path.as_str()) {
            Some(e) => e == ovpn,
            None => false,
        };
        if !is_ovpn {
            return Err(BrowserError::NotOvpnFile);
        }
        self.config = Some(VpnConfig::OpenVpn { config_path: path, username: None, password: None });
        Ok(())
    }

    /// Tunnel through an HTTP or HTTPS proxy.
    pub fn configure_proxy(
        &mut self,
        protocol: ProxyProtocol,
        host: String,
        port: u16,
        username: Option<String>,
        password: Option<String>,
    )
        ensures
            final(self).spec_config() == Some(VpnConfig::Proxy { protocol, host, port, username, password }),
            final(self).spec_status() == old(self).spec_status(),
            final(self).spec_stats() == old(self).spec_stats(),
            final(self).spec_enabled() == old(self).spec_enabled(),
    {
        self.config = Some(VpnConfig::Proxy { protocol, host, port, username, password });
    }

    /// Tunnel through a SOCKS server of version 4 or 5; refused, with nothing
    /// changed, for another version.
    pub fn configure_socks(
        &mut self,
        version: u8,
        host: String,
        port: u16,
        username: Option<String>,
        password: Option<String>,
    ) -> (r: Result<(), BrowserError>)
        ensures
            r is Ok <==> (version == 4 || version == 5),
            r is Err ==> r == Err::<(), BrowserError>(BrowserError::InvalidSocksVersion) && final(self).spec_config()
                == old(self).spec_config(),
            r is Ok ==> final(self).spec_config() == Some(
                VpnConfig::Socks { version, host, port, username, password },
            ),
            final(self).spec_status() == old(self).spec_status(),
            final(self).spec_stats() == old(self).spec_stats(),
            final(self).spec_enabled() == old(self).spec_enabled(),
    {
        if version != 4 && version != 5 {
            return Err(BrowserError::InvalidSocksVersion);
        }
        self.config = Some(VpnConfig::Socks { version, host, port, username, password });
        Ok(())
    }

    /// Start connecting: refused without a configuration or when already
    /// connected; otherwise the tunnel is connecting until `finish_connect`.
    pub fn start_connect(&mut self) -> (r: Result<(), BrowserError>)
        ensures
            old(self).spec_config() is None ==> r == Err::<(), BrowserError>(BrowserError::NoVpnConfig),
            old(self).spec_config() is Some && old(self).spec_status() == VpnStatus::Connected ==> r
                == Err::<(), BrowserError>(BrowserError::VpnAlreadyConnected),
            r is Ok <==> old(self).spec_config() is Some && old(self).spec_status() != VpnStatus::Connected,
            r is Ok ==> final(self).spec_status() == VpnStatus::Connecting,
            r is Err ==> final(self).spec_status() == old(self).spec_status(),
            final(self).spec_config() == old(self).spec_config(),
            final(self).spec_stats() == old(self).spec_stats(),
            final(self).spec_enabled() == old(self).spec_enabled(),
    {
        if self.config.is_none() {
            return Err(BrowserError::NoVpnConfig);
        }
        if self.status == VpnStatus::Connected {
            return Err(BrowserError::VpnAlreadyConnected);
        }
        self.status = VpnStatus::Connecting;
        Ok(())
    }

    /// The tunnel came up: connected, with fresh statistics.
    pub fn finish_connect(&mut self)
        ensures
            final(self).spec_status() == VpnStatus::Connected,
            final(self).spec_stats().is_zero(),
            final(self).spec_config() == old(self).spec_config(),
            final(self).spec_enabled() == old(self).spec_enabled(),
    {
        self.status = VpnStatus::Connected;
        self.stats = VpnStats::default();
    }

    /// Take the tunnel down when connected; otherwise nothing changes.
    pub fn disconnect(&mut self)
        ensures
            old(self).spec_status() == VpnStatus::Connected ==> final(self).spec_status()
                == VpnStatus::Disconnected && final(self).spec_stats().is_zero(),
            old(self).spec_status() != VpnStatus::Connected ==> final(self).spec_status()
                == old(self).spec_status() && final(self).spec_stats() == old(self).spec_stats(),
            final(self).spec_config() == old(self).spec_config(),
            final(self).spec_enabled() == old(self).spec_enabled(),
    {
        if self.status != VpnStatus::Connected {
            return;
        }
        self.status = VpnStatus::Disconnected;
        self.stats = VpnStats::default();
    }

    /// Record the latest traffic figures.
    pub fn update_stats(&mut self, stats: VpnStats)
        ensures
            final(self).spec_stats() == stats,
            final(self).spec_status() == old(self).spec_status(),
            final(self).spec_config() == old(self).spec_config(),
            final(self).spec_enabled() == old(self).spec_enabled(),
    {
        self.stats = stats;
    }

    /// Whether traffic can go through the tunnel: it is connected.
    pub fn test_connection(&self) -> (r: Result<bool, BrowserError>)
        ensures
            r == Ok::<bool, BrowserError>(self.spec_status() == VpnStatus::Connected),
    {
        Ok(self.status == VpnStatus::Connected)
    }
}

impl Default for VpnManager {
    fn default() -> (r: VpnManager)
        ensures
            r.spec_config() is None,
            r.spec_status() == VpnStatus::Disconnected,
            !r.spec_enabled(),
    {
        VpnManager::new()
    }
}

} // verus!
