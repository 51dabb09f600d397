//! The configuration of the conductor.
use crate::config::NetworkConfig;
use crate::origins::AllowedOrigins;
use crate::paths::FileSystem;
use std::path::PathBuf;
use vstd::prelude::*;

verus! {

/// The file that the configuration is written to.
pub const CONDUCTOR_CONFIG_FILE: &'static str = "conductor-config.yaml";

/// Where the conductor has its keystore.
#[derive(Debug, PartialEq, Eq)]
pub enum KeystoreConfig {
    /// A Lair server in the process of the conductor, with its files in the directory given.
    LairServerInProc { lair_root: Option<PathBuf> },
}

/// How an interface is reached.
#[derive(Debug, PartialEq)]
pub enum InterfaceDriver {
    Websocket { port: u16, danger_bind_addr: Option<String>, allowed_origins: AllowedOrigins },
}

/// An admin interface of the conductor.
#[derive(Debug, PartialEq)]
pub struct AdminInterfaceConfig {
    pub driver: InterfaceDriver,
}

/// The settings of the conductor that the runtime chooses; all others keep their defaults.
#[derive(Debug, PartialEq)]
pub struct ConductorConfig {
    pub data_root_path: Option<PathBuf>,
    pub keystore: KeystoreConfig,
    pub network: NetworkConfig,
    pub admin_interfaces: Option<Vec<AdminInterfaceConfig>>,
}

/// One admin interface: a websocket at the port, bound to the default address, for any origin.
pub open spec fn is_only_admin_interface(
    interfaces: Option<Vec<AdminInterfaceConfig>>,
    admin_port: u16,
) -> bool {
    interfaces matches Some(list) && list@ == seq![
        AdminInterfaceConfig {
            driver: InterfaceDriver::Websocket {
                port: admin_port,
                danger_bind_addr: None,
                allowed_origins: AllowedOrigins::Any,
            },
        },
    ]
}

/// The configuration of a conductor with its data in the conductor directory of `fs`, its keystore
/// in `lair_root`, on the network `network`, and with its admin interface at `admin_port`.
pub open spec fn is_conductor_config(
    config: ConductorConfig,
    fs: FileSystem,
    admin_port: u16,
    lair_root: PathBuf,
    network: NetworkConfig,
) -> bool {
    &&& config.data_root_path == Some(fs.conductor_dir)
    &&& config.keystore == (KeystoreConfig::LairServerInProc { lair_root: Some(lair_root) })
    &&& config.network == network
    &&& is_only_admin_interface(config.admin_interfaces, admin_port)
}

/// The configuration of the conductor.
pub fn conductor_config(
    fs: &FileSystem,
    admin_port: u16,
    lair_root: PathBuf,
    network_config: NetworkConfig,
) -> (config: ConductorConfig)
    ensures
        is_conductor_config(config, *fs, admin_port, lair_root, network_config),
{
    let driver = InterfaceDriver::Websocket {
        port: admin_port,
        danger_bind_addr: None,
        allowed_origins: AllowedOrigins::Any,
    };
    let mut interfaces: Vec<AdminInterfaceConfig> = Vec::new();
    interfaces.push(AdminInterfaceConfig { driver });
    ConductorConfig {
        data_root_path: Some(fs.conductor_dir.clone()),
        keystore: KeystoreConfig::LairServerInProc { lair_root: Some(lair_root) },
        network: network_config,
        admin_interfaces: Some(interfaces),
    }
}

/// The conductor has its data and its keystore in the directories given and joins the network
/// given; it can be reached at the port given of this machine alone, from any origin, and nowhere
/// else.
pub proof fn law_conductor_is_reached_at_its_port_alone(
    config: ConductorConfig,
    fs: FileSystem,
    admin_port: u16,
    lair_root: PathBuf,
    network: NetworkConfig,
)
    requires
        is_conductor_config(config, fs, admin_port, lair_root, network),
    ensures
        config.data_root_path == Some(fs.conductor_dir),
        config.keystore matches KeystoreConfig::LairServerInProc { lair_root: root } && root
            == Some(lair_root),
        config.network == network,
        config.admin_interfaces matches Some(interfaces) && interfaces@.len() == 1 && (
        interfaces@[0].driver matches InterfaceDriver::Websocket {
            port,
            danger_bind_addr,
            allowed_origins,
        } && port == admin_port && danger_bind_addr is None && allowed_origins is Any),
{
}

} // verus!
