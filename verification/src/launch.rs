//! Launching a runtime: the calls that it takes, one after the other.
//!
//! A launch is in one of the states of `LaunchRuntime`. Every state but the last names a call to
//! make and holds its arguments. `LaunchRuntime::advance` takes what came of that call and gives
//! the next state.
use crate::agent_key::AgentPubKey;
use crate::config::{HolochainRuntimeConfig, NetworkConfig};
use crate::error::{Error, ErrorView};
use crate::hc_auth::{AuthFlowResult, AuthKey, HcAuthConfig, HcAuthState, HcAuthStatus};
use crate::holochain_runtime::HolochainRuntime;
use crate::keystore::{Lair, SpawnedKeystore};
use crate::paths::{FileName, FileSystem};
use crate::text::{decimal, decimal_text, trimmed};
use config::{conductor_config, is_conductor_config, ConductorConfig};
use std::path::PathBuf;
use vstd::prelude::*;

pub mod calls;
pub mod config;
pub mod laws;
pub mod write;

verus! {

/// The keystore entry of the device seed.
pub const DEVICE_SEED_LAIR_KEYSTORE_TAG: &'static str = "DEVICE_SEED";

/// The keystore entry of an imported seed.
pub const IMPORTED_AGENT_KEY_TAG: &'static str = "imported-agent-key";

/// The file that holds the text of the agent key of hc-auth.
pub const AGENT_KEY_FILE: &'static str = "hc-auth-agent-key";

/// The number of bytes of a seed.
pub const SEED_LEN: usize = 32;

/// The reason for not authenticating where no server is configured.
pub const NOT_CONFIGURED: &'static str = "Not configured";

/// What a launch knows before its directories are there.
#[derive(Debug, PartialEq, Eq)]
pub struct LaunchOptions {
    pub network_config: NetworkConfig,
    pub admin_port: Option<u16>,
    pub mdns_discovery: bool,
    pub hc_auth: Option<HcAuthConfig>,
    pub pending_import_seed: Option<Vec<u8>>,
}

/// What a launch knows from then until it configures the conductor.
#[derive(Debug, PartialEq, Eq)]
pub struct LaunchContext {
    pub filesystem: FileSystem,
    pub admin_port: u16,
    pub network_config: NetworkConfig,
    pub mdns_discovery: bool,
    pub hc_auth: Option<HcAuthConfig>,
    pub pending_import_seed: Option<Vec<u8>>,
}

/// What a launch knows once the conductor is configured.
#[derive(Debug, PartialEq, Eq)]
pub struct ConfiguredLaunch {
    pub filesystem: FileSystem,
    pub admin_port: u16,
    pub mdns_discovery: bool,
    pub hc_auth: Option<HcAuthConfig>,
    pub auth: HcAuthState,
}

/// Where a launch is: the call to make next, or how it ended.
#[derive(Debug, PartialEq)]
pub enum LaunchRuntime<P, K, S, C> {
    /// Set the directories up in `holochain_dir`.
    OpenFileSystem { holochain_dir: PathBuf, passphrase: P, options: LaunchOptions },
    /// Find a free port.
    PickPort { filesystem: FileSystem, passphrase: P, options: LaunchOptions },
    /// Start the keystore, unlocked with the passphrase.
    SpawnKeystore { config_path: PathBuf, passphrase: P, context: LaunchContext },
    /// Ask the client of the keystore for the entry of the device seed.
    FindDeviceSeed { tag: &'static str, lair: Lair<P, K, S>, context: LaunchContext },
    /// Have the client of the keystore make the device seed, locked with a passphrase of its own
    /// where one is given.
    NewDeviceSeed {
        tag: &'static str,
        deep_lock_passphrase: Option<Vec<u8>>,
        exportable: bool,
        lair: Lair<P, K, S>,
        context: LaunchContext,
    },
    /// Open the store of the keystore that runs in this process, to import the seed.
    OpenStore { seed: Vec<u8>, lair: Lair<P, K, S>, context: LaunchContext },
    /// Put the seed into locked memory.
    LockSeed { seed: Vec<u8>, lair: Lair<P, K, S>, context: LaunchContext },
    /// Put the seed into the store.
    InsertSeed {
        seed: Vec<u8>,
        tag: &'static str,
        exportable: bool,
        lair: Lair<P, K, S>,
        context: LaunchContext,
    },
    /// Write the text of the agent key of the imported seed.
    WriteKeyFile {
        file: FileName,
        contents: String,
        lair: Lair<P, K, S>,
        context: LaunchContext,
    },
    /// Authenticate, with the client of the keystore.
    RunAuthFlow {
        server: HcAuthConfig,
        dir: PathBuf,
        lair: Lair<P, K, S>,
        context: LaunchContext,
    },
    /// Get or make the agent key with the client of the keystore, without authenticating.
    CreateAuthKey { dir: PathBuf, lair: Lair<P, K, S>, context: LaunchContext },
    /// Write the configuration of the conductor into the directory.
    WriteConfig {
        dir: PathBuf,
        config: ConductorConfig,
        lair: Lair<P, K, S>,
        launch: ConfiguredLaunch,
    },
    /// Start the conductor, with the passphrase and the client of the keystore.
    BuildConductor { config: ConductorConfig, lair: Lair<P, K, S>, launch: ConfiguredLaunch },
    /// Look for peers by mDNS.
    SpawnMdns { admin_port: u16, runtime: HolochainRuntime<P, K, S, C> },
    /// The launch is over.
    Done(Result<HolochainRuntime<P, K, S, C>, Error>),
}

/// What came of a call. A failure is told by its text, or as the error to end with.
#[derive(Debug, PartialEq)]
pub enum LaunchEvent<K, S, C> {
    FileSystemOpened(Result<FileSystem, Error>),
    PortPicked(u16),
    KeystoreSpawned(Result<SpawnedKeystore<K, S>, String>),
    /// Whether there is a device seed.
    DeviceSeedSought(bool),
    DeviceSeedCreated(Result<(), String>),
    StoreOpened(Result<(), String>),
    SeedLocked(Result<(), String>),
    /// The Ed25519 public key of the seed.
    SeedInserted(Result<[u8; 32], String>),
    KeyFileWritten(Result<(), String>),
    AuthFlowEnded(Result<AuthFlowResult, String>),
    AuthKeyCreated(Result<AuthKey, String>),
    ConfigWritten(Result<(), String>),
    ConductorBuilt(Result<C, Error>),
    MdnsSpawned(Result<(), Error>),
}

impl LaunchOptions {
    /// What is known with the directories and the port.
    pub open spec fn context(self, filesystem: FileSystem, admin_port: u16) -> LaunchContext {
        LaunchContext {
            filesystem,
            admin_port,
            network_config: self.network_config,
            mdns_discovery: self.mdns_discovery,
            hc_auth: self.hc_auth,
            pending_import_seed: self.pending_import_seed,
        }
    }
}

/// The text of the key file names the agent with the given Ed25519 public key: reading the file,
/// trimmed, gives that key.
pub open spec fn key_file_names(text: Seq<char>, public_key: Seq<u8>) -> bool {
    &&& crate::agent_key::readable(trimmed(text))
    &&& crate::agent_key::reads_as(trimmed(text), crate::agent_key::key_bytes(public_key))
    &&& crate::agent_key::key_bytes(public_key).subrange(3, 35) == public_key
}

impl<P, K, S, C> LaunchRuntime<P, K, S, C> {
    /// The launch has failed with the error.
    pub open spec fn failed_with(self, error: ErrorView) -> bool {
        self matches LaunchRuntime::Done(Err(e)) && e@ == error
    }

    /// The launch has the keystore started.
    pub open spec fn spawns_keystore(self, passphrase: P, context: LaunchContext) -> bool {
        self == (LaunchRuntime::<P, K, S, C>::SpawnKeystore {
            config_path: context.filesystem.keystore_config_path,
            passphrase,
            context,
        })
    }

    /// The device seed is there: the launch goes on to import the pending seed, where there is
    /// one, and then it is pending no more. A seed of the wrong length ends the launch.
    pub open spec fn has_device_seed(self, lair: Lair<P, K, S>, context: LaunchContext) -> bool {
        match context.pending_import_seed {
            Some(seed) => if seed@.len() == SEED_LEN {
                self == (LaunchRuntime::<P, K, S, C>::OpenStore {
                    seed,
                    lair,
                    context: LaunchContext { pending_import_seed: None, ..context },
                })
            } else {
                self.failed_with(
                    ErrorView::AgentSeedError(
                        "Import seed must be exactly 32 bytes, got "@ + decimal(seed@.len()),
                    ),
                )
            },
            None => self.authenticates(lair, context),
        }
    }

    /// The launch authenticates where a server is configured, and else has the agent key made.
    pub open spec fn authenticates(self, lair: Lair<P, K, S>, context: LaunchContext) -> bool {
        match context.hc_auth {
            Some(server) => self == (LaunchRuntime::<P, K, S, C>::RunAuthFlow {
                server,
                dir: context.filesystem.app_data_dir,
                lair,
                context,
            }),
            None => self == (LaunchRuntime::<P, K, S, C>::CreateAuthKey {
                dir: context.filesystem.app_data_dir,
                lair,
                context,
            }),
        }
    }

    /// The launch has configured the conductor, with the material of authentication.
    pub open spec fn configures(
        self,
        lair: Lair<P, K, S>,
        context: LaunchContext,
        auth_material: Option<String>,
        auth: HcAuthState,
    ) -> bool {
        &&& self matches LaunchRuntime::WriteConfig { dir, config, lair: kept, launch }
        &&& kept == lair
        &&& dir == context.filesystem.app_data_dir
        &&& is_conductor_config(
            config,
            context.filesystem,
            context.admin_port,
            context.filesystem.keystore_dir,
            context.network_config.authenticated(auth_material),
        )
        &&& launch == (ConfiguredLaunch {
            filesystem: context.filesystem,
            admin_port: context.admin_port,
            mdns_discovery: context.mdns_discovery,
            hc_auth: context.hc_auth,
            auth,
        })
    }

    /// The launch has configured the conductor without authentication, with the key if any.
    pub open spec fn configures_without_auth(
        self,
        lair: Lair<P, K, S>,
        context: LaunchContext,
        key: Option<AuthKey>,
    ) -> bool {
        exists|auth: HcAuthState|
            {
                &&& #[trigger] self.configures(lair, context, None, auth)
                &&& auth.status matches HcAuthStatus::Failed(reason) && reason@ == NOT_CONFIGURED@
                &&& match key {
                    Some(k) => auth.agent_key == Some(k.agent_key) && auth.raw_ed25519_b64url
                        == Some(k.raw_ed25519_b64url),
                    None => auth.agent_key is None && auth.raw_ed25519_b64url is None,
                }
            }
    }

    /// The conductor runs: the launch looks for peers if asked to, and then is over.
    pub open spec fn has_conductor(
        self,
        lair: Lair<P, K, S>,
        launch: ConfiguredLaunch,
        conductor: C,
    ) -> bool {
        if launch.mdns_discovery {
            self matches LaunchRuntime::SpawnMdns { admin_port, runtime } && admin_port
                == launch.admin_port && launch.is_runtime(lair, conductor, runtime)
        } else {
            self matches LaunchRuntime::Done(Ok(runtime)) && launch.is_runtime(
                lair,
                conductor,
                runtime,
            )
        }
    }
}

impl ConfiguredLaunch {
    /// The runtime that the launch ends with. It knows no authentications of apps yet.
    pub open spec fn is_runtime<P, K, S, C>(
        self,
        lair: Lair<P, K, S>,
        conductor: C,
        runtime: HolochainRuntime<P, K, S, C>,
    ) -> bool {
        &&& runtime.filesystem == self.filesystem
        &&& runtime.apps_websockets_auths@.len() == 0
        &&& runtime.admin_port == self.admin_port
        &&& runtime.hc_auth_config == self.hc_auth
        &&& runtime.hc_auth_status == self.auth.status
        &&& runtime.hc_auth_agent_key == self.auth.agent_key
        &&& runtime.hc_auth_raw_ed25519_b64url == self.auth.raw_ed25519_b64url
        &&& runtime.conductor_handle == conductor
        &&& runtime.lair == lair
    }
}

/// The event tells what came of the call that the launch is at.
pub open spec fn answers<P, K, S, C>(
    launch: LaunchRuntime<P, K, S, C>,
    event: LaunchEvent<K, S, C>,
) -> bool {
    match launch {
        LaunchRuntime::OpenFileSystem { .. } => event is FileSystemOpened,
        LaunchRuntime::PickPort { .. } => event is PortPicked,
        LaunchRuntime::SpawnKeystore { .. } => event is KeystoreSpawned,
        LaunchRuntime::FindDeviceSeed { .. } => event is DeviceSeedSought,
        LaunchRuntime::NewDeviceSeed { .. } => event is DeviceSeedCreated,
        LaunchRuntime::OpenStore { .. } => event is StoreOpened,
        LaunchRuntime::LockSeed { .. } => event is SeedLocked,
        LaunchRuntime::InsertSeed { .. } => event is SeedInserted,
        LaunchRuntime::WriteKeyFile { .. } => event is KeyFileWritten,
        LaunchRuntime::RunAuthFlow { .. } => event is AuthFlowEnded,
        LaunchRuntime::CreateAuthKey { .. } => event is AuthKeyCreated,
        LaunchRuntime::WriteConfig { .. } => event is ConfigWritten,
        LaunchRuntime::BuildConductor { .. } => event is ConductorBuilt,
        LaunchRuntime::SpawnMdns { .. } => event is MdnsSpawned,
        LaunchRuntime::Done(_) => false,
    }
}

/// `next` is where the launch is after the event. An event that does not answer the call that the
/// launch is at leaves it there.
pub open spec fn steps<P, K, S, C>(
    launch: LaunchRuntime<P, K, S, C>,
    event: LaunchEvent<K, S, C>,
    next: LaunchRuntime<P, K, S, C>,
) -> bool {
    match (launch, event) {
        (
            LaunchRuntime::OpenFileSystem { passphrase, options, .. },
            LaunchEvent::FileSystemOpened(opened),
        ) => match opened {
            Ok(filesystem) => match options.admin_port {
                Some(port) => next.spawns_keystore(passphrase, options.context(filesystem, port)),
                None => next == (LaunchRuntime::<P, K, S, C>::PickPort {
                    filesystem,
                    passphrase,
                    options,
                }),
            },
            Err(error) => next == LaunchRuntime::<P, K, S, C>::Done(Err(error)),
        },
        (
            LaunchRuntime::PickPort { filesystem, passphrase, options },
            LaunchEvent::PortPicked(port),
        ) => next.spawns_keystore(passphrase, options.context(filesystem, port)),
        (
            LaunchRuntime::SpawnKeystore { passphrase, context, .. },
            LaunchEvent::KeystoreSpawned(spawned),
        ) => match spawned {
            Ok(spawned) => next == (LaunchRuntime::<P, K, S, C>::FindDeviceSeed {
                tag: DEVICE_SEED_LAIR_KEYSTORE_TAG,
                lair: Lair {
                    passphrase,
                    lair_client: spawned.lair_client,
                    in_proc_keystore: spawned.in_proc_keystore,
                },
                context,
            }),
            Err(cause) => next == LaunchRuntime::<P, K, S, C>::Done(Err(Error::LairError(cause))),
        },
        (
            LaunchRuntime::FindDeviceSeed { lair, context, .. },
            LaunchEvent::DeviceSeedSought(found),
        ) => if found {
            next.has_device_seed(lair, context)
        } else {
            next == (LaunchRuntime::<P, K, S, C>::NewDeviceSeed {
                tag: DEVICE_SEED_LAIR_KEYSTORE_TAG,
                deep_lock_passphrase: None,
                exportable: true,
                lair,
                context,
            })
        },
        (
            LaunchRuntime::NewDeviceSeed { lair, context, .. },
            LaunchEvent::DeviceSeedCreated(created),
        ) => match created {
            Ok(()) => next.has_device_seed(lair, context),
            Err(cause) => next == LaunchRuntime::<P, K, S, C>::Done(Err(Error::LairError(cause))),
        },
        (
            LaunchRuntime::OpenStore { seed, lair, context },
            LaunchEvent::StoreOpened(opened),
        ) => match opened {
            Ok(()) => next == (LaunchRuntime::<P, K, S, C>::LockSeed { seed, lair, context }),
            Err(cause) => next.failed_with(
                ErrorView::AgentSeedError("Failed to get Lair store: "@ + cause@),
            ),
        },
        (
            LaunchRuntime::LockSeed { seed, lair, context },
            LaunchEvent::SeedLocked(locked),
        ) => match locked {
            Ok(()) => next == (LaunchRuntime::<P, K, S, C>::InsertSeed {
                seed,
                tag: IMPORTED_AGENT_KEY_TAG,
                exportable: false,
                lair,
                context,
            }),
            Err(cause) => next.failed_with(
                ErrorView::AgentSeedError("Failed to create locked array: "@ + cause@),
            ),
        },
        (
            LaunchRuntime::InsertSeed { lair, context, .. },
            LaunchEvent::SeedInserted(inserted),
        ) => match inserted {
            Ok(public_key) => {
                &&& next matches LaunchRuntime::WriteKeyFile {
                    file,
                    contents,
                    lair: kept_lair,
                    context: kept,
                }
                &&& file == (FileName {
                    dir: context.filesystem.app_data_dir,
                    name: AGENT_KEY_FILE,
                })
                &&& contents@ == crate::agent_key::key_text(
                    crate::agent_key::key_bytes(public_key@),
                )
                &&& key_file_names(contents@, public_key@)
                &&& kept_lair == lair
                &&& kept == context
            },
            Err(cause) => next.failed_with(
                ErrorView::AgentSeedError("Failed to insert seed: "@ + cause@),
            ),
        },
        (
            LaunchRuntime::WriteKeyFile { lair, context, .. },
            LaunchEvent::KeyFileWritten(written),
        ) => match written {
            Ok(()) => next.authenticates(lair, context),
            Err(cause) => next.failed_with(
                ErrorView::AgentSeedError("Failed to write hc-auth-agent-key: "@ + cause@),
            ),
        },
        (
            LaunchRuntime::RunAuthFlow { lair, context, .. },
            LaunchEvent::AuthFlowEnded(ended),
        ) => match ended {
            Ok(result) => next.configures(
                lair,
                context,
                result.auth_material,
                HcAuthState {
                    status: result.status,
                    agent_key: Some(result.agent_key),
                    raw_ed25519_b64url: Some(result.raw_ed25519_b64url),
                },
            ),
            Err(cause) => next.configures(
                lair,
                context,
                None,
                HcAuthState {
                    status: HcAuthStatus::Failed(cause),
                    agent_key: None,
                    raw_ed25519_b64url: None,
                },
            ),
        },
        (
            LaunchRuntime::CreateAuthKey { lair, context, .. },
            LaunchEvent::AuthKeyCreated(created),
        ) => match created {
            Ok(key) => next.configures_without_auth(lair, context, Some(key)),
            Err(_) => next.configures_without_auth(lair, context, None),
        },
        (
            LaunchRuntime::WriteConfig { config, lair, launch, .. },
            LaunchEvent::ConfigWritten(_),
        ) => next == (LaunchRuntime::<P, K, S, C>::BuildConductor { config, lair, launch }),
        (
            LaunchRuntime::BuildConductor { lair, launch, .. },
            LaunchEvent::ConductorBuilt(built),
        ) => match built {
            Ok(conductor) => next.has_conductor(lair, launch, conductor),
            Err(error) => next == LaunchRuntime::<P, K, S, C>::Done(Err(error)),
        },
        (
            LaunchRuntime::SpawnMdns { runtime, .. },
            LaunchEvent::MdnsSpawned(spawned),
        ) => match spawned {
            Ok(()) => next == LaunchRuntime::<P, K, S, C>::Done(Ok(runtime)),
            Err(error) => next == LaunchRuntime::<P, K, S, C>::Done(Err(error)),
        },
        _ => next == launch,
    }
}

/// The options of a launch with the configuration.
pub open spec fn options_of(config: HolochainRuntimeConfig) -> LaunchOptions {
    LaunchOptions {
        network_config: config.network_config,
        admin_port: config.admin_port,
        mdns_discovery: config.mdns_discovery,
        hc_auth: config.hc_auth,
        pending_import_seed: config.pending_import_seed,
    }
}

/// Where a launch with the configuration begins: the directories come first.
pub open spec fn beginning<P, K, S, C>(
    passphrase: P,
    config: HolochainRuntimeConfig,
) -> LaunchRuntime<P, K, S, C> {
    LaunchRuntime::OpenFileSystem {
        holochain_dir: config.holochain_dir,
        passphrase,
        options: options_of(config),
    }
}

/// Begins a launch.
pub fn launch_holochain_runtime<P, K, S, C>(
    passphrase: P,
    config: HolochainRuntimeConfig,
) -> (launch: LaunchRuntime<P, K, S, C>)
    ensures
        launch == beginning::<P, K, S, C>(passphrase, config),
{
    LaunchRuntime::OpenFileSystem {
        holochain_dir: config.holochain_dir,
        passphrase,
        options: LaunchOptions {
            network_config: config.network_config,
            admin_port: config.admin_port,
            mdns_discovery: config.mdns_discovery,
            hc_auth: config.hc_auth,
            pending_import_seed: config.pending_import_seed,
        },
    }
}

fn spawn_keystore<P, K, S, C>(
    filesystem: FileSystem,
    admin_port: u16,
    passphrase: P,
    options: LaunchOptions,
) -> (next: LaunchRuntime<P, K, S, C>)
    ensures
        next.spawns_keystore(passphrase, options.context(filesystem, admin_port)),
{
    let config_path = filesystem.keystore_config_path.clone();
    let context = LaunchContext {
        filesystem,
        admin_port,
        network_config: options.network_config,
        mdns_discovery: options.mdns_discovery,
        hc_auth: options.hc_auth,
        pending_import_seed: options.pending_import_seed,
    };
    LaunchRuntime::SpawnKeystore { config_path, passphrase, context }
}

fn import_pending_seed<P, K, S, C>(
    lair: Lair<P, K, S>,
    context: LaunchContext,
) -> (next: LaunchRuntime<P, K, S, C>)
    ensures
        next.has_device_seed(lair, context),
{
    let LaunchContext {
        filesystem,
        admin_port,
        network_config,
        mdns_discovery,
        hc_auth,
        pending_import_seed,
    } = context;
    let rest = LaunchContext {
        filesystem,
        admin_port,
        network_config,
        mdns_discovery,
        hc_auth,
        pending_import_seed: None,
    };
    match pending_import_seed {
        Some(seed) => if seed.len() != SEED_LEN {
            let len = decimal_text(seed.len() as u64);
            LaunchRuntime::Done(
                Err(Error::agent_seed("Import seed must be exactly 32 bytes, got ", len.as_str())),
            )
        } else {
            LaunchRuntime::OpenStore { seed, lair, context: rest }
        },
        None => authenticate(lair, rest),
    }
}

fn authenticate<P, K, S, C>(
    lair: Lair<P, K, S>,
    context: LaunchContext,
) -> (next: LaunchRuntime<P, K, S, C>)
    ensures
        next.authenticates(lair, context),
{
    let dir = context.filesystem.app_data_dir.clone();
    let server: Option<HcAuthConfig> = match &context.hc_auth {
        Some(server) => Some(server.clone()),
        None => None,
    };
    match server {
        Some(server) => LaunchRuntime::RunAuthFlow { server, dir, lair, context },
        None => LaunchRuntime::CreateAuthKey { dir, lair, context },
    }
}

/// Has the text of the agent key of the imported seed written to its file.
pub fn write_key_file<P, K, S, C>(
    contents: String,
    lair: Lair<P, K, S>,
    context: LaunchContext,
) -> (next: LaunchRuntime<P, K, S, C>)
    ensures
        next == (LaunchRuntime::<P, K, S, C>::WriteKeyFile {
            file: FileName { dir: context.filesystem.app_data_dir, name: AGENT_KEY_FILE },
            contents,
            lair,
            context,
        }),
{
    let file = FileName {
        dir: context.filesystem.app_data_dir.clone(),
        name: AGENT_KEY_FILE,
    };
    LaunchRuntime::WriteKeyFile { file, contents, lair, context }
}

fn configure<P, K, S, C>(
    lair: Lair<P, K, S>,
    context: LaunchContext,
    auth_material: Option<String>,
    auth: HcAuthState,
) -> (next: LaunchRuntime<P, K, S, C>)
    ensures
        next.configures(lair, context, auth_material, auth),
{
    let network = context.network_config.with_auth_material(auth_material);
    let lair_root = context.filesystem.keystore_dir.clone();
    let config = conductor_config(&context.filesystem, context.admin_port, lair_root, network);
    let dir = context.filesystem.app_data_dir.clone();
    let launch = ConfiguredLaunch {
        filesystem: context.filesystem,
        admin_port: context.admin_port,
        mdns_discovery: context.mdns_discovery,
        hc_auth: context.hc_auth,
        auth,
    };
    LaunchRuntime::WriteConfig { dir, config, lair, launch }
}

impl ConfiguredLaunch {
    /// The runtime, now that its conductor runs.
    pub fn into_runtime<P, K, S, C>(
        self,
        lair: Lair<P, K, S>,
        conductor: C,
    ) -> (runtime: HolochainRuntime<P, K, S, C>)
        ensures
            self.is_runtime(lair, conductor, runtime),
    {
        HolochainRuntime {
            filesystem: self.filesystem,
            apps_websockets_auths: Vec::new(),
            admin_port: self.admin_port,
            hc_auth_config: self.hc_auth,
            hc_auth_status: self.auth.status,
            hc_auth_agent_key: self.auth.agent_key,
            hc_auth_raw_ed25519_b64url: self.auth.raw_ed25519_b64url,
            conductor_handle: conductor,
            lair,
        }
    }
}

fn finish<P, K, S, C>(
    lair: Lair<P, K, S>,
    launch: ConfiguredLaunch,
    conductor: C,
) -> (next: LaunchRuntime<P, K, S, C>)
    ensures
        next.has_conductor(lair, launch, conductor),
{
    let admin_port: u16 = launch.admin_port;
    if launch.mdns_discovery {
        LaunchRuntime::SpawnMdns { admin_port, runtime: launch.into_runtime(lair, conductor) }
    } else {
        LaunchRuntime::Done(Ok(launch.into_runtime(lair, conductor)))
    }
}

impl<P, K, S, C> LaunchRuntime<P, K, S, C> {
    /// Takes what came of the call that the launch is at, and gives where it is then.
    pub fn advance(self, event: LaunchEvent<K, S, C>) -> (next: LaunchRuntime<P, K, S, C>)
        ensures
            steps(self, event, next),
    {
        match (self, event) {
            (
                LaunchRuntime::OpenFileSystem { passphrase, options, .. },
                LaunchEvent::FileSystemOpened(opened),
            ) => match opened {
                Ok(filesystem) => match options.admin_port {
                    Some(port) => spawn_keystore(filesystem, port, passphrase, options),
                    None => LaunchRuntime::PickPort { filesystem, passphrase, options },
                },
                Err(error) => LaunchRuntime::Done(Err(error)),
            },
            (
                LaunchRuntime::PickPort { filesystem, passphrase, options },
                LaunchEvent::PortPicked(port),
            ) => spawn_keystore(filesystem, port, passphrase, options),
            (
                LaunchRuntime::SpawnKeystore { passphrase, context, .. },
                LaunchEvent::KeystoreSpawned(spawned),
            ) => match spawned {
                Ok(spawned) => LaunchRuntime::FindDeviceSeed {
                    tag: DEVICE_SEED_LAIR_KEYSTORE_TAG,
                    lair: Lair {
                        passphrase,
                        lair_client: spawned.lair_client,
                        in_proc_keystore: spawned.in_proc_keystore,
                    },
                    context,
                },
                Err(cause) => LaunchRuntime::Done(Err(Error::LairError(cause))),
            },
            (
                LaunchRuntime::FindDeviceSeed { lair, context, .. },
                LaunchEvent::DeviceSeedSought(found),
            ) => if found {
                import_pending_seed(lair, context)
            } else {
                LaunchRuntime::NewDeviceSeed {
                    tag: DEVICE_SEED_LAIR_KEYSTORE_TAG,
                    deep_lock_passphrase: None,
                    exportable: true,
                    lair,
                    context,
                }
            },
            (
                LaunchRuntime::NewDeviceSeed { lair, context, .. },
                LaunchEvent::DeviceSeedCreated(created),
            ) => match created {
                Ok(()) => import_pending_seed(lair, context),
                Err(cause) => LaunchRuntime::Done(Err(Error::LairError(cause))),
            },
            (
                LaunchRuntime::OpenStore { seed, lair, context },
                LaunchEvent::StoreOpened(opened),
            ) => match opened {
                Ok(()) => LaunchRuntime::LockSeed { seed, lair, context },
                Err(cause) => LaunchRuntime::Done(
                    Err(Error::agent_seed("Failed to get Lair store: ", cause.as_str())),
                ),
            },
            (
                LaunchRuntime::LockSeed { seed, lair, context },
                LaunchEvent::SeedLocked(locked),
            ) => match locked {
                Ok(()) => LaunchRuntime::InsertSeed {
                    seed,
                    tag: IMPORTED_AGENT_KEY_TAG,
                    exportable: false,
                    lair,
                    context,
                },
                Err(cause) => LaunchRuntime::Done(
                    Err(Error::agent_seed("Failed to create locked array: ", cause.as_str())),
                ),
            },
            (
                LaunchRuntime::InsertSeed { lair, context, .. },
                LaunchEvent::SeedInserted(inserted),
            ) => match inserted {
                Ok(public_key) => write_key_file(
                    AgentPubKey::from_raw_32(public_key).to_text(),
                    lair,
                    context,
                ),
                Err(cause) => LaunchRuntime::Done(
                    Err(Error::agent_seed("Failed to insert seed: ", cause.as_str())),
                ),
            },
            (
                LaunchRuntime::WriteKeyFile { lair, context, .. },
                LaunchEvent::KeyFileWritten(written),
            ) => match written {
                Ok(()) => authenticate(lair, context),
                Err(cause) => LaunchRuntime::Done(
                    Err(Error::agent_seed("Failed to write hc-auth-agent-key: ", cause.as_str())),
                ),
            },
            (
                LaunchRuntime::RunAuthFlow { lair, context, .. },
                LaunchEvent::AuthFlowEnded(ended),
            ) => match ended {
                Ok(result) => configure(
                    lair,
                    context,
                    result.auth_material,
                    HcAuthState {
                        status: result.status,
                        agent_key: Some(result.agent_key),
                        raw_ed25519_b64url: Some(result.raw_ed25519_b64url),
                    },
                ),
                Err(cause) => configure(
                    lair,
                    context,
                    None,
                    HcAuthState {
                        status: HcAuthStatus::Failed(cause),
                        agent_key: None,
                        raw_ed25519_b64url: None,
                    },
                ),
            },
            (
                LaunchRuntime::CreateAuthKey { lair, context, .. },
                LaunchEvent::AuthKeyCreated(created),
            ) => {
                let status = HcAuthStatus::Failed(NOT_CONFIGURED.to_owned());
                match created {
                    Ok(key) => configure(
                        lair,
                        context,
                        None,
                        HcAuthState {
                            status,
                            agent_key: Some(key.agent_key),
                            raw_ed25519_b64url: Some(key.raw_ed25519_b64url),
                        },
                    ),
                    Err(_) => configure(
                        lair,
                        context,
                        None,
                        HcAuthState { status, agent_key: None, raw_ed25519_b64url: None },
                    ),
                }
            },
            (
                LaunchRuntime::WriteConfig { config, lair, launch, .. },
                LaunchEvent::ConfigWritten(_),
            ) => LaunchRuntime::BuildConductor { config, lair, launch },
            (
                LaunchRuntime::BuildConductor { lair, launch, .. },
                LaunchEvent::ConductorBuilt(built),
            ) => match built {
                Ok(conductor) => finish(lair, launch, conductor),
                Err(error) => LaunchRuntime::Done(Err(error)),
            },
            (
                LaunchRuntime::SpawnMdns { runtime, .. },
                LaunchEvent::MdnsSpawned(spawned),
            ) => match spawned {
                Ok(()) => LaunchRuntime::Done(Ok(runtime)),
                Err(error) => LaunchRuntime::Done(Err(error)),
            },
            (launch, _) => launch,
        }
    }
}

} // verus!
