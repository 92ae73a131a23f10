//! DNS services the resolver can be pointed at.
use vstd::prelude::*;

verus! {

/// An IP address: four octets, or eight 16-bit groups.
#[derive(Debug, Clone, Copy, PartialEq, Eq)]
pub enum IpAddress {
    V4([u8; 4]),
    V6([u16; 8]),
}

/// A DNS service.
#[derive(Debug, Clone, Copy, PartialEq, Eq, Structural)]
pub enum DnsProvider {
    System,
    Google,
    Cloudflare,
    Quad9,
    Custom,
}

impl Default for DnsProvider {
    fn default() -> (r: DnsProvider)
        ensures
            r == DnsProvider::System,
    {
        DnsProvider::System
    }
}

impl DnsProvider {
    pub open spec fn spec_name(self) -> Seq<char> {
        match self {
            DnsProvider::System => "System Default"@,
            DnsProvider::Google => "Google DNS"@,
            DnsProvider::Cloudflare => "Cloudflare DNS"@,
            DnsProvider::Quad9 => "Quad9 DNS"@,
            DnsProvider::Custom => "Custom DNS"@,
        }
    }

    /// The servers the service answers on; none for the system resolver and for
    /// a custom choice.
    pub open spec fn spec_servers(self) -> Seq<IpAddress> {
        match self {
            DnsProvider::System => seq![],
            DnsProvider::Google => seq![IpAddress::V4([8, 8, 8, 8]), IpAddress::V4([8, 8, 4, 4])],
            DnsProvider::Cloudflare => seq![IpAddress::V4([1, 1, 1, 1]), IpAddress::V4([1, 0, 0, 1])],
            DnsProvider::Quad9 => seq![IpAddress::V4([9, 9, 9, 9]), IpAddress::V4([149, 112, 112, 112])],
            DnsProvider::Custom => seq![],
        }
    }

    /// The servers the service answers on.
    pub fn servers(&self) -> (r: Vec<IpAddress>)
        ensures
            r@ == self.spec_servers(),
    {
        match self {
            DnsProvider::System => vec![],
            DnsProvider::Google => vec![IpAddress::V4([8, 8, 8, 8]), IpAddress::V4([8, 8, 4, 4])],
            DnsProvider::Cloudflare => vec![IpAddress::V4([1, 1, 1, 1]), IpAddress::V4([1, 0, 0, 1])],
            DnsProvider::Quad9 => vec![IpAddress::V4([9, 9, 9, 9]), IpAddress::V4([149, 112, 112, 112])],
            DnsProvider::Custom => vec![],
        }
    }

    /// The service's display name.
    pub fn name(&self) -> (r: &'static str)
        ensures
            r@ == self.spec_name(),
    {
        match self {
            DnsProvider::System => "System Default",
            DnsProvider::Google => "Google DNS",
            DnsProvider::Cloudflare => "Cloudflare DNS",
            DnsProvider::Quad9 => "Quad9 DNS",
            DnsProvider::Custom => "Custom DNS",
        }
    }

    /// Every service, in menu order.
    pub fn all() -> (r: Vec<DnsProvider>)
        ensures
            r@ == seq![
                DnsProvider::System,
                DnsProvider::Google,
                DnsProvider::Cloudflare,
                DnsProvider::Quad9,
                DnsProvider::Custom,
            ],
    {
        vec![
            DnsProvider::System,
            DnsProvider::Google,
            DnsProvider::Cloudflare,
            DnsProvider::Quad9,
            DnsProvider::Custom,
        ]
    }
}

/// The service to use, and the servers of a custom choice.
#[derive(Debug, Clone)]
pub struct DnsConfig {
    pub provider: DnsProvider,
    pub custom_servers: Vec<IpAddress>,
}

impl Default for DnsConfig {
    fn default() -> (r: DnsConfig)
        ensures
            r.provider == DnsProvider::System,
            r.custom_servers@.len() == 0,
    {
        DnsConfig { provider: DnsProvider::System, custom_servers: Vec::new() }
    }
}

/// A copy of a list of addresses.
fn copy_servers(v: &Vec<IpAddress>) -> (r: Vec<IpAddress>)
    ensures
        r@ == v@,
{
    let mut r: Vec<IpAddress> = Vec::new();
    let mut i: usize = 0;
    while i < v.len()
        invariant
            0 <= i <= v@.len(),
            r@ == v@.take(i as int),
        decreases v@.len() - i,
    {
        r.push(v[i]);
        i = i + 1;
        assert(r@ =~= v@.take(i as int));
    }
    assert(v@.take(i as int) =~= v@);
    r
}

/// Chooses the DNS servers that names are resolved with.
pub struct DnsResolver {
    config: DnsConfig,
}

impl DnsResolver {
    pub closed spec fn spec_config(&self) -> DnsConfig {
        self.config
    }

    /// The servers in use: the custom list for a custom choice, else the
    /// service's own.
    pub open spec fn spec_active_servers(&self) -> Seq<IpAddress> {
        match self.spec_config().provider {
            DnsProvider::Custom => self.spec_config().custom_servers@,
            p => p.spec_servers(),
        }
    }

    /// The system resolver, with no custom servers.
    pub fn new() -> (r: DnsResolver)
        ensures
            r.spec_config().provider == DnsProvider::System,
            r.spec_config().custom_servers@.len() == 0,
    {
        DnsResolver { config: DnsConfig::default() }
    }

    pub fn with_config(config: DnsConfig) -> (r: DnsResolver)
        ensures
            r.spec_config() == config,
    {
        DnsResolver { config }
    }

    pub fn config(&self) -> (r: &DnsConfig)
        ensures
            *r == self.spec_config(),
    {
        &self.config
    }

    pub fn set_config(&mut self, config: DnsConfig)
        ensures
            final(self).spec_config() == config,
    {
        self.config = config;
    }

    pub fn set_provider(&mut self, provider: DnsProvider)
        ensures
            final(self).spec_config() == (DnsConfig { provider, ..old(self).spec_config() }),
    {
        self.config.provider = provider;
    }

    pub fn set_custom_servers(&mut self, servers: Vec<IpAddress>)
        ensures
            final(self).spec_config() == (DnsConfig { custom_servers: servers, ..old(self).spec_config() }),
    {
        self.config.custom_servers = servers;
    }

    /// The servers in use.
    pub fn active_servers(&self) -> (r: Vec<IpAddress>)
        ensures
            r@ == self.spec_active_servers(),
    {
        match self.config.provider {
            DnsProvider::Custom => copy_servers(&self.config.custom_servers),
            _ => self.config.provider.servers(),
        }
    }
}

impl Default for DnsResolver {
    fn default() -> (r: DnsResolver)
        ensures
            r.spec_config().provider == DnsProvider::System,
    {
        DnsResolver::new()
    }
}

} // verus!
