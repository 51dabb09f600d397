//! What a runtime is launched with.
use crate::hc_auth::HcAuthConfig;
use std::path::PathBuf;
use vstd::prelude::*;

verus! {

/// Which reports the network layer writes.
#[derive(Debug, PartialEq, Eq)]
pub enum ReportConfig {
    /// None at all.
    Off,
    /// Lines of JSON.
    JsonLines { days_retained: u32, fetched_op_interval_s: u32 },
}

/// The network that the conductor joins.
#[derive(Debug, PartialEq, Eq)]
pub struct NetworkConfig {
    /// The material to authenticate with, where the network asks for it.
    pub base64_auth_material: Option<String>,
    pub bootstrap_url: String,
    pub signal_url: String,
    /// The WebRTC configuration, as JSON text.
    pub webrtc_config: Option<String>,
    pub target_arc_factor: u32,
    pub report: ReportConfig,
    /// Settings of the network modules, as JSON text.
    pub advanced: Option<String>,
}

impl NetworkConfig {
    /// The configuration with `auth_material` in it; as it was where there is none.
    pub open spec fn authenticated(self, auth_material: Option<String>) -> NetworkConfig {
        match auth_material {
            Some(material) => NetworkConfig { base64_auth_material: Some(material), ..self },
            None => self,
        }
    }

    /// Puts the material of an auth flow in. Where it gave none, what was there stays.
    pub fn with_auth_material(self, auth_material: Option<String>) -> (config: NetworkConfig)
        ensures
            config == self.authenticated(auth_material),
    {
        match auth_material {
            Some(material) => NetworkConfig { base64_auth_material: Some(material), ..self },
            None => self,
        }
    }
}

/// What a runtime is launched with.
#[derive(Debug, PartialEq, Eq)]
pub struct HolochainRuntimeConfig {
    /// The directory for the files and databases.
    pub holochain_dir: PathBuf,
    /// The network to join.
    pub network_config: NetworkConfig,
    /// The port that the admin interface has to be at.
    pub admin_port: Option<u16>,
    /// Whether to look for peers in the same local network by mDNS.
    pub mdns_discovery: bool,
    /// The hc-auth server, for networks that ask for authentication.
    pub hc_auth: Option<HcAuthConfig>,
    /// A seed of 32 bytes to import into a fresh keystore, used up by the launch.
    pub pending_import_seed: Option<Vec<u8>>,
}

impl HolochainRuntimeConfig {
    /// The configuration with nothing but the directory and the network.
    pub open spec fn plain(
        holochain_dir: PathBuf,
        network_config: NetworkConfig,
    ) -> HolochainRuntimeConfig {
        HolochainRuntimeConfig {
            holochain_dir,
            network_config,
            admin_port: None,
            mdns_discovery: false,
            hc_auth: None,
            pending_import_seed: None,
        }
    }

    /// The configuration with the admin interface at the port.
    pub open spec fn at_port(self, admin_port: u16) -> HolochainRuntimeConfig {
        HolochainRuntimeConfig { admin_port: Some(admin_port), ..self }
    }

    /// The configuration that looks for peers by mDNS.
    pub open spec fn discovering(self) -> HolochainRuntimeConfig {
        HolochainRuntimeConfig { mdns_discovery: true, ..self }
    }

    /// The configuration that authenticates with the server.
    pub open spec fn authenticating(self, server: HcAuthConfig) -> HolochainRuntimeConfig {
        HolochainRuntimeConfig { hc_auth: Some(server), ..self }
    }

    /// A configuration with nothing but a directory and a network.
    pub fn new(
        holochain_dir: PathBuf,
        network_config: NetworkConfig,
    ) -> (config: HolochainRuntimeConfig)
        ensures
            config == HolochainRuntimeConfig::plain(holochain_dir, network_config),
            config == (HolochainRuntimeConfig {
                holochain_dir,
                network_config,
                admin_port: None,
                mdns_discovery: false,
                hc_auth: None,
                pending_import_seed: None,
            }),
    {
        HolochainRuntimeConfig {
            holochain_dir,
            network_config,
            admin_port: None,
            mdns_discovery: false,
            hc_auth: None,
            pending_import_seed: None,
        }
    }

    /// Has the admin interface at the given port.
    pub fn admin_port(self, admin_port: u16) -> (config: HolochainRuntimeConfig)
        ensures
            config == self.at_port(admin_port),
            config == (HolochainRuntimeConfig { admin_port: Some(admin_port), ..self }),
    {
        HolochainRuntimeConfig { admin_port: Some(admin_port), ..self }
    }

    /// Looks for peers by mDNS.
    pub fn enable_mdns_discovery(self) -> (config: HolochainRuntimeConfig)
        ensures
            config == self.discovering(),
            config == (HolochainRuntimeConfig { mdns_discovery: true, ..self }),
    {
        HolochainRuntimeConfig { mdns_discovery: true, ..self }
    }

    /// Authenticates with the given server.
    pub fn with_hc_auth(self, config: HcAuthConfig) -> (with_auth: HolochainRuntimeConfig)
        ensures
            with_auth == self.authenticating(config),
            with_auth == (HolochainRuntimeConfig { hc_auth: Some(config), ..self }),
    {
        HolochainRuntimeConfig { hc_auth: Some(config), ..self }
    }
}

/// The material of an auth flow changes the material of the network and nothing else; without any
/// the network is as it was. What was put in last is what counts.
pub proof fn law_auth_material_changes_nothing_else(
    network: NetworkConfig,
    auth_material: Option<String>,
    later: String,
)
    ensures
        ({
            let authenticated = network.authenticated(auth_material);
            &&& authenticated.base64_auth_material == if auth_material is Some {
                auth_material
            } else {
                network.base64_auth_material
            }
            &&& authenticated.bootstrap_url == network.bootstrap_url
            &&& authenticated.signal_url == network.signal_url
            &&& authenticated.webrtc_config == network.webrtc_config
            &&& authenticated.target_arc_factor == network.target_arc_factor
            &&& authenticated.report == network.report
            &&& authenticated.advanced == network.advanced
        }),
        network.authenticated(auth_material).authenticated(Some(later)) == network.authenticated(
            Some(later),
        ),
{
}

/// A plain configuration has the directory and the network, and nothing else is set.
pub proof fn law_plain_configuration_sets_nothing_else(
    holochain_dir: PathBuf,
    network_config: NetworkConfig,
)
    ensures
        ({
            let config = HolochainRuntimeConfig::plain(holochain_dir, network_config);
            &&& config.holochain_dir == holochain_dir
            &&& config.network_config == network_config
            &&& config.admin_port is None
            &&& !config.mdns_discovery
            &&& config.hc_auth is None
            &&& config.pending_import_seed is None
        }),
{
}

/// Each setting sets what it says, for every value, and leaves the other settings as they were; so
/// they can be made in any order, and the last of one kind is what counts.
pub proof fn law_settings_do_not_get_in_each_others_way(
    config: HolochainRuntimeConfig,
    port: u16,
    other_port: u16,
    server: HcAuthConfig,
    other_server: HcAuthConfig,
)
    ensures
        config.at_port(port).admin_port == Some(port),
        config.discovering().mdns_discovery,
        config.authenticating(server).hc_auth == Some(server),
        config.at_port(port).discovering() == config.discovering().at_port(port),
        config.at_port(port).authenticating(server) == config.authenticating(server).at_port(port),
        config.discovering().authenticating(server) == config.authenticating(server).discovering(),
        config.at_port(port).at_port(other_port) == config.at_port(other_port),
        config.discovering().discovering() == config.discovering(),
        config.authenticating(server).authenticating(other_server) == config.authenticating(
            other_server,
        ),
        forall|set: HolochainRuntimeConfig|
            set == config.at_port(port) || set == config.discovering() || set
                == config.authenticating(server) ==> {
                &&& (#[trigger] set.holochain_dir) == config.holochain_dir
                &&& set.network_config == config.network_config
                &&& set.pending_import_seed == config.pending_import_seed
            },
        config.at_port(port).mdns_discovery == config.mdns_discovery,
        config.at_port(port).hc_auth == config.hc_auth,
        config.discovering().admin_port == config.admin_port,
        config.discovering().hc_auth == config.hc_auth,
        config.authenticating(server).admin_port == config.admin_port,
        config.authenticating(server).mdns_discovery == config.mdns_discovery,
{
}

} // verus!
