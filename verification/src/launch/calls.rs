//! The calls that a launch makes, one after the other, and how it ends.
use super::config::{is_conductor_config, ConductorConfig};
use super::laws::is_run;
use super::{answers, beginning, steps, ConfiguredLaunch, LaunchContext, LaunchEvent, LaunchRuntime};
use crate::agent_key::{key_bytes, key_text, AgentPubKey};
use crate::config::{HolochainRuntimeConfig, NetworkConfig};
use crate::error::Error;
use crate::hc_auth::HcAuthStatus;
use crate::holochain_runtime::HolochainRuntime;
use crate::keystore::Lair;
use crate::paths::FileSystem;
use crate::text::decimal;
use vstd::prelude::*;

verus! {

/// The error is a fault with the agent seed, told by this text.
pub open spec fn is_seed_fault(error: Error, text: Seq<char>) -> bool {
    error matches Error::AgentSeedError(told) && told@ == text
}

/// Which call starts the keystore: the one after the directories were opened, or after a port was
/// picked too, where the configuration forces none.
pub open spec fn keystore_at(config: HolochainRuntimeConfig) -> int {
    if config.admin_port is Some {
        1
    } else {
        2
    }
}

/// Which call comes after the device seed is there: with one more call before it where the keystore
/// had none.
pub open spec fn seed_at<K, S, C>(
    config: HolochainRuntimeConfig,
    events: Seq<LaunchEvent<K, S, C>>,
) -> int {
    if events[keystore_at(config) + 1] == LaunchEvent::<K, S, C>::DeviceSeedSought(true) {
        keystore_at(config) + 2
    } else {
        keystore_at(config) + 3
    }
}

/// Which call authenticates, or makes the agent key without: with four more calls before it where a
/// seed is to be imported.
pub open spec fn auth_at<K, S, C>(
    config: HolochainRuntimeConfig,
    events: Seq<LaunchEvent<K, S, C>>,
) -> int {
    if config.pending_import_seed is Some {
        seed_at(config, events) + 4
    } else {
        seed_at(config, events)
    }
}

/// The directories are those that were opened, and the port is the one that the configuration
/// forces, or the one that was picked.
pub open spec fn are_at<K, S, C>(
    config: HolochainRuntimeConfig,
    events: Seq<LaunchEvent<K, S, C>>,
    filesystem: FileSystem,
    admin_port: u16,
) -> bool {
    &&& events[0] == LaunchEvent::<K, S, C>::FileSystemOpened(Ok(filesystem))
    &&& match config.admin_port {
        Some(forced) => admin_port == forced,
        None => events[1] == LaunchEvent::<K, S, C>::PortPicked(admin_port),
    }
}

/// The launch knows the directories and the port, and what the configuration says.
pub open spec fn is_context<K, S, C>(
    config: HolochainRuntimeConfig,
    events: Seq<LaunchEvent<K, S, C>>,
    context: LaunchContext,
) -> bool {
    &&& are_at(config, events, context.filesystem, context.admin_port)
    &&& context.network_config == config.network_config
    &&& context.mdns_discovery == config.mdns_discovery
    &&& context.hc_auth == config.hc_auth
}

/// The handles are the passphrase that the launch was given, and those that the keystore gave.
pub open spec fn is_lair<P, K, S, C>(
    passphrase: P,
    config: HolochainRuntimeConfig,
    events: Seq<LaunchEvent<K, S, C>>,
    lair: Lair<P, K, S>,
) -> bool {
    &&& lair.passphrase == passphrase
    &&& events[keystore_at(config)] matches LaunchEvent::KeystoreSpawned(Ok(spawned))
    &&& lair.lair_client == spawned.lair_client
    &&& lair.in_proc_keystore == spawned.in_proc_keystore
}

/// The device seed is there: the keystore had one, or made one.
pub open spec fn has_seed<K, S, C>(
    config: HolochainRuntimeConfig,
    events: Seq<LaunchEvent<K, S, C>>,
) -> bool {
    ||| events[keystore_at(config) + 1] == LaunchEvent::<K, S, C>::DeviceSeedSought(true)
    ||| (events[keystore_at(config) + 2] matches LaunchEvent::DeviceSeedCreated(Ok(_)))
}

/// The seed that was to be imported was put into the keystore, and its agent key was written.
pub open spec fn is_imported<K, S, C>(
    config: HolochainRuntimeConfig,
    events: Seq<LaunchEvent<K, S, C>>,
) -> bool {
    config.pending_import_seed matches Some(seed) ==> {
        let at = seed_at(config, events);
        &&& seed@.len() == 32
        &&& events[at] matches LaunchEvent::StoreOpened(Ok(_))
        &&& events[at + 1] matches LaunchEvent::SeedLocked(Ok(_))
        &&& events[at + 2] matches LaunchEvent::SeedInserted(Ok(_))
        &&& events[at + 3] matches LaunchEvent::KeyFileWritten(Ok(_))
    }
}

/// What is remembered of authentication is what the auth flow gave, or the reason that it failed
/// for; without an auth flow it is the agent key that was made, and that no server is configured.
pub open spec fn is_remembered<K, S, C>(
    event: LaunchEvent<K, S, C>,
    status: HcAuthStatus,
    agent_key: Option<AgentPubKey>,
    raw_ed25519_b64url: Option<String>,
) -> bool {
    match event {
        LaunchEvent::AuthFlowEnded(Ok(result)) => status == result.status && agent_key == Some(
            result.agent_key,
        ) && raw_ed25519_b64url == Some(result.raw_ed25519_b64url),
        LaunchEvent::AuthFlowEnded(Err(cause)) => status == HcAuthStatus::Failed(cause)
            && agent_key is None && raw_ed25519_b64url is None,
        LaunchEvent::AuthKeyCreated(created) => (status matches HcAuthStatus::Failed(reason)
            && reason@ == "Not configured"@) && match created {
            Ok(key) => agent_key == Some(key.agent_key) && raw_ed25519_b64url == Some(
                key.raw_ed25519_b64url,
            ),
            Err(_) => agent_key is None && raw_ed25519_b64url is None,
        },
        _ => false,
    }
}

/// The network is that of the configuration, with the material in it that the auth flow gave.
pub open spec fn is_network<K, S, C>(
    config: HolochainRuntimeConfig,
    event: LaunchEvent<K, S, C>,
    network: NetworkConfig,
) -> bool {
    match event {
        LaunchEvent::AuthFlowEnded(Ok(result)) => network == config.network_config.authenticated(
            result.auth_material,
        ),
        _ => network == config.network_config,
    }
}

/// The conductor is configured for the directories and the port, on the network.
pub open spec fn is_configured<K, S, C>(
    config: HolochainRuntimeConfig,
    events: Seq<LaunchEvent<K, S, C>>,
    conductor: ConductorConfig,
    launch: ConfiguredLaunch,
) -> bool {
    let answer = events[auth_at(config, events)];
    &&& are_at(config, events, launch.filesystem, launch.admin_port)
    &&& launch.mdns_discovery == config.mdns_discovery
    &&& launch.hc_auth == config.hc_auth
    &&& is_remembered(
        answer,
        launch.auth.status,
        launch.auth.agent_key,
        launch.auth.raw_ed25519_b64url,
    )
    &&& is_network(config, answer, conductor.network)
    &&& is_conductor_config(
        conductor,
        launch.filesystem,
        launch.admin_port,
        launch.filesystem.keystore_dir,
        conductor.network,
    )
}

/// The runtime has the directories, the port, the handles of the keystore, the conductor that was
/// started and what is remembered of authentication, and no authentications of apps.
pub open spec fn is_runtime<P, K, S, C>(
    passphrase: P,
    config: HolochainRuntimeConfig,
    events: Seq<LaunchEvent<K, S, C>>,
    runtime: HolochainRuntime<P, K, S, C>,
) -> bool {
    let at = auth_at(config, events);
    &&& are_at(config, events, runtime.filesystem, runtime.admin_port)
    &&& is_lair(passphrase, config, events, runtime.lair)
    &&& events[at + 2] == LaunchEvent::<K, S, C>::ConductorBuilt(Ok(runtime.conductor_handle))
    &&& runtime.hc_auth_config == config.hc_auth
    &&& is_remembered(
        events[at],
        runtime.hc_auth_status,
        runtime.hc_auth_agent_key,
        runtime.hc_auth_raw_ed25519_b64url,
    )
    &&& runtime.apps_websockets_auths@.len() == 0
}

/// Why the launch failed: with the call that was answered last, or for a seed of the wrong length
/// once the device seed is there.
pub open spec fn is_failure<K, S, C>(
    config: HolochainRuntimeConfig,
    event: LaunchEvent<K, S, C>,
    error: Error,
) -> bool {
    match event {
        LaunchEvent::FileSystemOpened(Err(e)) => error == e,
        LaunchEvent::KeystoreSpawned(Err(cause)) => error == Error::LairError(cause),
        LaunchEvent::DeviceSeedCreated(Err(cause)) => error == Error::LairError(cause),
        LaunchEvent::DeviceSeedSought(true) => is_wrong_length(config, error),
        LaunchEvent::DeviceSeedCreated(Ok(_)) => is_wrong_length(config, error),
        LaunchEvent::StoreOpened(Err(cause)) => is_seed_fault(
            error,
            "Failed to get Lair store: "@ + cause@,
        ),
        LaunchEvent::SeedLocked(Err(cause)) => is_seed_fault(
            error,
            "Failed to create locked array: "@ + cause@,
        ),
        LaunchEvent::SeedInserted(Err(cause)) => is_seed_fault(
            error,
            "Failed to insert seed: "@ + cause@,
        ),
        LaunchEvent::KeyFileWritten(Err(cause)) => is_seed_fault(
            error,
            "Failed to write hc-auth-agent-key: "@ + cause@,
        ),
        LaunchEvent::ConductorBuilt(Err(e)) => error == e,
        LaunchEvent::MdnsSpawned(Err(e)) => error == e,
        _ => false,
    }
}

/// The seed that is to be imported has not 32 bytes, and the error tells how many it has.
pub open spec fn is_wrong_length(config: HolochainRuntimeConfig, error: Error) -> bool {
    &&& config.pending_import_seed matches Some(seed)
    &&& seed@.len() != 32
    &&& is_seed_fault(error, "Import seed must be exactly 32 bytes, got "@ + decimal(seed@.len()))
}

/// Where a launch is after `i` calls, up to the device seed.
pub open spec fn is_early_call<P, K, S, C>(
    passphrase: P,
    config: HolochainRuntimeConfig,
    events: Seq<LaunchEvent<K, S, C>>,
    launch: LaunchRuntime<P, K, S, C>,
    i: int,
) -> bool {
    match launch {
        LaunchRuntime::OpenFileSystem { holochain_dir, passphrase: p, options } => {
            &&& i == 0
            &&& holochain_dir == config.holochain_dir
            &&& p == passphrase
            &&& options.admin_port == config.admin_port
            &&& options.network_config == config.network_config
            &&& options.mdns_discovery == config.mdns_discovery
            &&& options.hc_auth == config.hc_auth
            &&& options.pending_import_seed == config.pending_import_seed
        },
        LaunchRuntime::PickPort { filesystem, passphrase: p, options } => {
            &&& i == 1
            &&& config.admin_port is None
            &&& events[0] == LaunchEvent::<K, S, C>::FileSystemOpened(Ok(filesystem))
            &&& p == passphrase
            &&& options.network_config == config.network_config
            &&& options.mdns_discovery == config.mdns_discovery
            &&& options.hc_auth == config.hc_auth
            &&& options.pending_import_seed == config.pending_import_seed
        },
        LaunchRuntime::SpawnKeystore { config_path, passphrase: p, context } => {
            &&& i == keystore_at(config)
            &&& config_path == context.filesystem.keystore_config_path
            &&& p == passphrase
            &&& is_context(config, events, context)
            &&& context.pending_import_seed == config.pending_import_seed
        },
        LaunchRuntime::FindDeviceSeed { tag, lair, context } => {
            &&& i == keystore_at(config) + 1
            &&& tag@ == "DEVICE_SEED"@
            &&& is_lair(passphrase, config, events, lair)
            &&& is_context(config, events, context)
            &&& context.pending_import_seed == config.pending_import_seed
        },
        LaunchRuntime::NewDeviceSeed { tag, deep_lock_passphrase, exportable, lair, context } => {
            &&& i == keystore_at(config) + 2
            &&& events[i - 1] == LaunchEvent::<K, S, C>::DeviceSeedSought(false)
            &&& tag@ == "DEVICE_SEED"@
            &&& deep_lock_passphrase is None
            &&& exportable
            &&& is_lair(passphrase, config, events, lair)
            &&& is_context(config, events, context)
            &&& context.pending_import_seed == config.pending_import_seed
        },
        _ => false,
    }
}

/// Where a launch with a seed to import is after `i` calls, once the device seed is there.
pub open spec fn is_import_call<P, K, S, C>(
    passphrase: P,
    config: HolochainRuntimeConfig,
    events: Seq<LaunchEvent<K, S, C>>,
    launch: LaunchRuntime<P, K, S, C>,
    i: int,
) -> bool {
    let at = seed_at(config, events);
    &&& has_seed(config, events)
    &&& match launch {
        LaunchRuntime::OpenStore { seed, lair, context } => {
            &&& i == at
            &&& config.pending_import_seed == Some(seed)
            &&& seed@.len() == 32
            &&& is_lair(passphrase, config, events, lair)
            &&& is_context(config, events, context)
        },
        LaunchRuntime::LockSeed { seed, lair, context } => {
            &&& i == at + 1
            &&& events[at] matches LaunchEvent::StoreOpened(Ok(_))
            &&& config.pending_import_seed == Some(seed)
            &&& seed@.len() == 32
            &&& is_lair(passphrase, config, events, lair)
            &&& is_context(config, events, context)
        },
        LaunchRuntime::InsertSeed { seed, tag, exportable, lair, context } => {
            &&& i == at + 2
            &&& events[at] matches LaunchEvent::StoreOpened(Ok(_))
            &&& events[at + 1] matches LaunchEvent::SeedLocked(Ok(_))
            &&& config.pending_import_seed == Some(seed)
            &&& seed@.len() == 32
            &&& tag@ == "imported-agent-key"@
            &&& !exportable
            &&& is_lair(passphrase, config, events, lair)
            &&& is_context(config, events, context)
        },
        LaunchRuntime::WriteKeyFile { file, contents, lair, context } => {
            &&& i == at + 3
            &&& events[at] matches LaunchEvent::StoreOpened(Ok(_))
            &&& events[at + 1] matches LaunchEvent::SeedLocked(Ok(_))
            &&& events[at + 2] matches LaunchEvent::SeedInserted(Ok(public_key)) && contents@
                == key_text(key_bytes(public_key@))
            &&& config.pending_import_seed matches Some(seed) && seed@.len() == 32
            &&& file.dir == context.filesystem.app_data_dir
            &&& file.name@ == "hc-auth-agent-key"@
            &&& is_lair(passphrase, config, events, lair)
            &&& is_context(config, events, context)
        },
        _ => false,
    }
}

/// Where a launch is after `i` calls, from authenticating on.
pub open spec fn is_late_call<P, K, S, C>(
    passphrase: P,
    config: HolochainRuntimeConfig,
    events: Seq<LaunchEvent<K, S, C>>,
    launch: LaunchRuntime<P, K, S, C>,
    i: int,
) -> bool {
    let at = auth_at(config, events);
    &&& has_seed(config, events)
    &&& is_imported(config, events)
    &&& match launch {
        LaunchRuntime::RunAuthFlow { server, dir, lair, context } => {
            &&& i == at
            &&& config.hc_auth == Some(server)
            &&& dir == context.filesystem.app_data_dir
            &&& is_lair(passphrase, config, events, lair)
            &&& is_context(config, events, context)
        },
        LaunchRuntime::CreateAuthKey { dir, lair, context } => {
            &&& i == at
            &&& config.hc_auth is None
            &&& dir == context.filesystem.app_data_dir
            &&& is_lair(passphrase, config, events, lair)
            &&& is_context(config, events, context)
        },
        LaunchRuntime::WriteConfig { dir, config: conductor, lair, launch } => {
            &&& i == at + 1
            &&& dir == launch.filesystem.app_data_dir
            &&& is_lair(passphrase, config, events, lair)
            &&& is_configured(config, events, conductor, launch)
        },
        LaunchRuntime::BuildConductor { config: conductor, lair, launch } => {
            &&& i == at + 2
            &&& is_lair(passphrase, config, events, lair)
            &&& is_configured(config, events, conductor, launch)
        },
        LaunchRuntime::SpawnMdns { admin_port, runtime } => {
            &&& i == at + 3
            &&& config.mdns_discovery
            &&& admin_port == runtime.admin_port
            &&& is_runtime(passphrase, config, events, runtime)
        },
        LaunchRuntime::Done(Ok(runtime)) => {
            &&& is_runtime(passphrase, config, events, runtime)
            &&& if config.mdns_discovery {
                i == at + 4 && (events[at + 3] matches LaunchEvent::MdnsSpawned(Ok(_)))
            } else {
                i == at + 3
            }
        },
        _ => false,
    }
}

/// A launch whose calls are answered makes exactly the calls that its configuration and the answers
/// ask for, each with the arguments that they give, and ends as they say: the directories are
/// opened; a port is picked, unless one is forced; the keystore is started; the device seed is
/// sought, and made where there is none; the seed to import, where there is one of 32 bytes, is put
/// into the keystore, and its agent key is written; the launch authenticates, or makes an agent key
/// where no server is configured, neither of which can fail it; the configuration of the conductor
/// is written, which cannot fail it either; the conductor is started; and peers are looked for, if
/// asked for. It fails only with a call that it cannot do without, or for a seed of the wrong
/// length, and with the error that tells which.
pub proof fn law_launch_makes_the_calls_that_it_takes<P, K, S, C>(
    passphrase: P,
    config: HolochainRuntimeConfig,
    states: Seq<LaunchRuntime<P, K, S, C>>,
    events: Seq<LaunchEvent<K, S, C>>,
    i: int,
)
    requires
        is_run(states, events),
        states[0] == beginning::<P, K, S, C>(passphrase, config),
        forall|j: int| 0 <= j < events.len() ==> answers(states[j], #[trigger] events[j]),
        0 <= i < states.len(),
    ensures
        match states[i] {
            LaunchRuntime::Done(Err(error)) => i > 0 && is_failure(config, events[i - 1], error),
            _ => {
                ||| is_early_call(passphrase, config, events, states[i], i)
                ||| is_import_call(passphrase, config, events, states[i], i)
                ||| is_late_call(passphrase, config, events, states[i], i)
            },
        },
    decreases i,
{
    if i > 0 {
        law_launch_makes_the_calls_that_it_takes(passphrase, config, states, events, i - 1);
        assert(steps(states[i - 1], events[i - 1], states[i]));
        assert(answers(states[i - 1], events[i - 1]));
    }
}

} // verus!
