//! What holds of every launch, whatever comes of its calls.
use super::config::{is_conductor_config, is_only_admin_interface, ConductorConfig};
use super::{
    answers, beginning, options_of, steps, ConfiguredLaunch, LaunchContext, LaunchEvent,
    LaunchRuntime, IMPORTED_AGENT_KEY_TAG, NOT_CONFIGURED, SEED_LEN,
};
use crate::agent_key::AgentPubKey;
use crate::config::{HolochainRuntimeConfig, NetworkConfig};
use crate::hc_auth::{AuthFlowResult, HcAuthStatus};
use crate::holochain_runtime::HolochainRuntime;
use crate::keystore::{Lair, SpawnedKeystore};
use crate::paths::FileSystem;
use vstd::prelude::*;

verus! {

/// The states that a launch goes through, and the events that take it from each to the next.
pub open spec fn is_run<P, K, S, C>(
    states: Seq<LaunchRuntime<P, K, S, C>>,
    events: Seq<LaunchEvent<K, S, C>>,
) -> bool {
    &&& states.len() == events.len() + 1
    &&& forall|i: int|
        0 <= i < events.len() ==> steps(states[i], #[trigger] events[i], states[i + 1])
}

/// The port is the one that the configuration forces, where it forces one.
pub open spec fn port_obeys(config: HolochainRuntimeConfig, admin_port: u16) -> bool {
    config.admin_port matches Some(forced) ==> admin_port == forced
}

/// The seed to import, where there is one, is of the right length.
pub open spec fn seed_is_valid(config: HolochainRuntimeConfig) -> bool {
    config.pending_import_seed matches Some(seed) ==> seed@.len() == SEED_LEN
}

/// The network is that of the configuration, save for the material of an auth flow.
pub open spec fn network_obeys(config: HolochainRuntimeConfig, network: NetworkConfig) -> bool {
    exists|auth_material: Option<String>|
        {
            &&& network == #[trigger] config.network_config.authenticated(auth_material)
            &&& config.hc_auth is None ==> auth_material is None
        }
}

/// What the launch knows is what the configuration says.
pub open spec fn context_obeys(config: HolochainRuntimeConfig, context: LaunchContext) -> bool {
    &&& port_obeys(config, context.admin_port)
    &&& context.network_config == config.network_config
    &&& context.mdns_discovery == config.mdns_discovery
    &&& context.hc_auth == config.hc_auth
}

/// Where no server is configured, the status of authentication says so.
pub open spec fn status_obeys(config: HolochainRuntimeConfig, status: HcAuthStatus) -> bool {
    config.hc_auth is None ==> (status matches HcAuthStatus::Failed(reason) && reason@
        == NOT_CONFIGURED@)
}

/// The conductor is configured as the configuration says.
pub open spec fn conductor_obeys(
    config: HolochainRuntimeConfig,
    conductor: ConductorConfig,
    launch: ConfiguredLaunch,
) -> bool {
    &&& port_obeys(config, launch.admin_port)
    &&& launch.mdns_discovery == config.mdns_discovery
    &&& launch.hc_auth == config.hc_auth
    &&& status_obeys(config, launch.auth.status)
    &&& launch.auth.agent_key is Some == launch.auth.raw_ed25519_b64url is Some
    &&& network_obeys(config, conductor.network)
    &&& is_conductor_config(
        conductor,
        launch.filesystem,
        launch.admin_port,
        launch.filesystem.keystore_dir,
        conductor.network,
    )
}

/// The runtime is as the configuration says.
pub open spec fn runtime_obeys<P, K, S, C>(
    config: HolochainRuntimeConfig,
    runtime: HolochainRuntime<P, K, S, C>,
) -> bool {
    &&& port_obeys(config, runtime.admin_port)
    &&& runtime.hc_auth_config == config.hc_auth
    &&& status_obeys(config, runtime.hc_auth_status)
    &&& runtime.hc_auth_agent_key is Some == runtime.hc_auth_raw_ed25519_b64url is Some
    &&& runtime.apps_websockets_auths@.len() == 0
    &&& seed_is_valid(config)
}

/// The launch is one with the configuration.
pub open spec fn obeys<P, K, S, C>(
    config: HolochainRuntimeConfig,
    launch: LaunchRuntime<P, K, S, C>,
) -> bool {
    match launch {
        LaunchRuntime::OpenFileSystem { holochain_dir, options, .. } => holochain_dir
            == config.holochain_dir && options == options_of(config),
        LaunchRuntime::PickPort { options, .. } => options == options_of(config)
            && config.admin_port is None,
        LaunchRuntime::SpawnKeystore { context, .. } => context_obeys(config, context)
            && context.pending_import_seed == config.pending_import_seed,
        LaunchRuntime::FindDeviceSeed { context, .. } => context_obeys(config, context)
            && context.pending_import_seed == config.pending_import_seed,
        LaunchRuntime::NewDeviceSeed { context, .. } => context_obeys(config, context)
            && context.pending_import_seed == config.pending_import_seed,
        LaunchRuntime::OpenStore { seed, context, .. } => context_obeys(config, context)
            && config.pending_import_seed == Some(seed) && seed_is_valid(config),
        LaunchRuntime::LockSeed { seed, context, .. } => context_obeys(config, context)
            && config.pending_import_seed == Some(seed) && seed_is_valid(config),
        LaunchRuntime::InsertSeed { seed, tag, exportable, context, .. } => context_obeys(
            config,
            context,
        ) && config.pending_import_seed == Some(seed) && seed_is_valid(config) && tag
            == IMPORTED_AGENT_KEY_TAG && !exportable,
        LaunchRuntime::WriteKeyFile { context, .. } => context_obeys(config, context)
            && config.pending_import_seed is Some && seed_is_valid(config),
        LaunchRuntime::RunAuthFlow { server, context, .. } => context_obeys(config, context)
            && config.hc_auth == Some(server) && seed_is_valid(config),
        LaunchRuntime::CreateAuthKey { context, .. } => context_obeys(config, context)
            && config.hc_auth is None && seed_is_valid(config),
        LaunchRuntime::WriteConfig { config: conductor, launch, .. } => conductor_obeys(
            config,
            conductor,
            launch,
        ) && seed_is_valid(config),
        LaunchRuntime::BuildConductor { config: conductor, launch, .. } => conductor_obeys(
            config,
            conductor,
            launch,
        ) && seed_is_valid(config),
        LaunchRuntime::SpawnMdns { admin_port, runtime } => runtime_obeys(config, runtime)
            && admin_port == runtime.admin_port && config.mdns_discovery,
        LaunchRuntime::Done(Ok(runtime)) => runtime_obeys(config, runtime),
        LaunchRuntime::Done(Err(_)) => true,
    }
}

proof fn lemma_configuring_obeys<P, K, S, C>(
    config: HolochainRuntimeConfig,
    lair: Lair<P, K, S>,
    context: LaunchContext,
    auth_material: Option<String>,
    auth: crate::hc_auth::HcAuthState,
    next: LaunchRuntime<P, K, S, C>,
)
    requires
        context_obeys(config, context),
        seed_is_valid(config),
        config.hc_auth is None ==> auth_material is None,
        status_obeys(config, auth.status),
        auth.agent_key is Some == auth.raw_ed25519_b64url is Some,
        next.configures(lair, context, auth_material, auth),
    ensures
        obeys(config, next),
{
    assert(network_obeys(config, config.network_config.authenticated(auth_material)));
}

/// A step of a launch with the configuration leads to a launch with the configuration.
pub proof fn lemma_step_obeys<P, K, S, C>(
    config: HolochainRuntimeConfig,
    launch: LaunchRuntime<P, K, S, C>,
    event: LaunchEvent<K, S, C>,
    next: LaunchRuntime<P, K, S, C>,
)
    requires
        obeys(config, launch),
        steps(launch, event, next),
    ensures
        obeys(config, next),
{
    match (launch, event) {
        (
            LaunchRuntime::RunAuthFlow { lair, context, .. },
            LaunchEvent::AuthFlowEnded(Ok(result)),
        ) => {
            lemma_configuring_obeys(
                config,
                lair,
                context,
                result.auth_material,
                crate::hc_auth::HcAuthState {
                    status: result.status,
                    agent_key: Some(result.agent_key),
                    raw_ed25519_b64url: Some(result.raw_ed25519_b64url),
                },
                next,
            );
        },
        (
            LaunchRuntime::RunAuthFlow { lair, context, .. },
            LaunchEvent::AuthFlowEnded(Err(cause)),
        ) => {
            lemma_configuring_obeys(
                config,
                lair,
                context,
                None,
                crate::hc_auth::HcAuthState {
                    status: HcAuthStatus::Failed(cause),
                    agent_key: None,
                    raw_ed25519_b64url: None,
                },
                next,
            );
        },
        (LaunchRuntime::CreateAuthKey { lair, context, .. }, LaunchEvent::AuthKeyCreated(_)) => {
            let auth = choose|auth: crate::hc_auth::HcAuthState|
                {
                    &&& #[trigger] next.configures(lair, context, None, auth)
                    &&& auth.status matches HcAuthStatus::Failed(reason) && reason@
                        == NOT_CONFIGURED@
                    &&& auth.agent_key is Some == auth.raw_ed25519_b64url is Some
                };
            lemma_configuring_obeys(config, lair, context, None, auth, next);
        },
        _ => {},
    }
}

/// A launch does what it was configured to do, at every point: it keeps to the port that the
/// configuration forces, to its network, save for the material of an auth flow, to its hc-auth
/// server, and to its seed; it looks for peers by mDNS only if told to; and the runtime that it
/// ends with has no authentications of apps, and has an agent key exactly where it has its text.
pub proof fn law_launch_obeys_its_configuration<P, K, S, C>(
    passphrase: P,
    config: HolochainRuntimeConfig,
    states: Seq<LaunchRuntime<P, K, S, C>>,
    events: Seq<LaunchEvent<K, S, C>>,
    i: int,
)
    requires
        is_run(states, events),
        states[0] == beginning::<P, K, S, C>(passphrase, config),
        0 <= i < states.len(),
    ensures
        obeys(config, states[i]),
    decreases i,
{
    if i > 0 {
        law_launch_obeys_its_configuration(passphrase, config, states, events, i - 1);
        lemma_step_obeys(config, states[i - 1], events[i - 1], states[i]);
    }
}

/// Where the configuration forces the admin interface to a port, the conductor is started with its
/// only admin interface there, and the runtime knows that port.
pub proof fn law_forced_admin_port_is_used<P, K, S, C>(
    passphrase: P,
    config: HolochainRuntimeConfig,
    forced: u16,
    states: Seq<LaunchRuntime<P, K, S, C>>,
    events: Seq<LaunchEvent<K, S, C>>,
    i: int,
)
    requires
        config.admin_port == Some(forced),
        is_run(states, events),
        states[0] == beginning::<P, K, S, C>(passphrase, config),
        0 <= i < states.len(),
    ensures
        !(states[i] is PickPort),
        states[i] matches LaunchRuntime::BuildConductor { config: conductor, .. }
            ==> is_only_admin_interface(conductor.admin_interfaces, forced),
        states[i] matches LaunchRuntime::Done(Ok(runtime)) ==> runtime.admin_port == forced,
{
    law_launch_obeys_its_configuration(passphrase, config, states, events, i);
}

/// A seed of the wrong length is never imported, no conductor is started with it, and the launch
/// does not succeed.
pub proof fn law_seed_of_wrong_length_is_refused<P, K, S, C>(
    passphrase: P,
    config: HolochainRuntimeConfig,
    states: Seq<LaunchRuntime<P, K, S, C>>,
    events: Seq<LaunchEvent<K, S, C>>,
    i: int,
)
    requires
        !seed_is_valid(config),
        is_run(states, events),
        states[0] == beginning::<P, K, S, C>(passphrase, config),
        0 <= i < states.len(),
    ensures
        !(states[i] is OpenStore),
        !(states[i] is InsertSeed),
        !(states[i] is BuildConductor),
        !(states[i] matches LaunchRuntime::Done(Ok(_))),
{
    law_launch_obeys_its_configuration(passphrase, config, states, events, i);
}

/// How far a launch is.
pub open spec fn stage<P, K, S, C>(launch: LaunchRuntime<P, K, S, C>) -> nat {
    match launch {
        LaunchRuntime::OpenFileSystem { .. } => 0,
        LaunchRuntime::PickPort { .. } => 1,
        LaunchRuntime::SpawnKeystore { .. } => 2,
        LaunchRuntime::FindDeviceSeed { .. } => 3,
        LaunchRuntime::NewDeviceSeed { .. } => 4,
        LaunchRuntime::OpenStore { .. } => 5,
        LaunchRuntime::LockSeed { .. } => 6,
        LaunchRuntime::InsertSeed { .. } => 7,
        LaunchRuntime::WriteKeyFile { .. } => 8,
        LaunchRuntime::RunAuthFlow { .. } => 9,
        LaunchRuntime::CreateAuthKey { .. } => 9,
        LaunchRuntime::WriteConfig { .. } => 10,
        LaunchRuntime::BuildConductor { .. } => 11,
        LaunchRuntime::SpawnMdns { .. } => 12,
        LaunchRuntime::Done(_) => 13,
    }
}

/// Every call that is answered takes the launch further; an event that answers no call changes
/// nothing.
pub proof fn law_launch_moves_forward<P, K, S, C>(
    launch: LaunchRuntime<P, K, S, C>,
    event: LaunchEvent<K, S, C>,
    next: LaunchRuntime<P, K, S, C>,
)
    requires
        steps(launch, event, next),
    ensures
        answers(launch, event) ==> stage(launch) < stage(next) <= 13,
        !answers(launch, event) ==> next == launch,
{
}

/// A launch whose calls are answered is over after at most 13 of them.
pub proof fn law_launch_ends<P, K, S, C>(
    states: Seq<LaunchRuntime<P, K, S, C>>,
    events: Seq<LaunchEvent<K, S, C>>,
    i: int,
)
    requires
        is_run(states, events),
        forall|j: int| 0 <= j < events.len() ==> answers(states[j], #[trigger] events[j]),
        0 <= i < states.len(),
    ensures
        i <= stage(states[i]) <= 13,
        i == 13 ==> states[i] is Done,
    decreases i,
{
    if i > 0 {
        law_launch_ends(states, events, i - 1);
        law_launch_moves_forward(states[i - 1], events[i - 1], states[i]);
    }
}

/// The directories that the launch uses, once they are there.
pub open spec fn directories<P, K, S, C>(launch: LaunchRuntime<P, K, S, C>) -> Option<FileSystem> {
    match launch {
        LaunchRuntime::OpenFileSystem { .. } => None,
        LaunchRuntime::PickPort { filesystem, .. } => Some(filesystem),
        LaunchRuntime::SpawnKeystore { context, .. } => Some(context.filesystem),
        LaunchRuntime::FindDeviceSeed { context, .. } => Some(context.filesystem),
        LaunchRuntime::NewDeviceSeed { context, .. } => Some(context.filesystem),
        LaunchRuntime::OpenStore { context, .. } => Some(context.filesystem),
        LaunchRuntime::LockSeed { context, .. } => Some(context.filesystem),
        LaunchRuntime::InsertSeed { context, .. } => Some(context.filesystem),
        LaunchRuntime::WriteKeyFile { context, .. } => Some(context.filesystem),
        LaunchRuntime::RunAuthFlow { context, .. } => Some(context.filesystem),
        LaunchRuntime::CreateAuthKey { context, .. } => Some(context.filesystem),
        LaunchRuntime::WriteConfig { launch, .. } => Some(launch.filesystem),
        LaunchRuntime::BuildConductor { launch, .. } => Some(launch.filesystem),
        LaunchRuntime::SpawnMdns { runtime, .. } => Some(runtime.filesystem),
        LaunchRuntime::Done(Ok(runtime)) => Some(runtime.filesystem),
        LaunchRuntime::Done(Err(_)) => None,
    }
}

/// A launch keeps to the directories that were opened for it, to the end.
pub proof fn law_launch_keeps_to_its_directories<P, K, S, C>(
    states: Seq<LaunchRuntime<P, K, S, C>>,
    events: Seq<LaunchEvent<K, S, C>>,
    i: int,
    j: int,
)
    requires
        is_run(states, events),
        0 <= i <= j < states.len(),
        directories(states[i]) is Some,
        !(states[j] matches LaunchRuntime::Done(Err(_))),
    ensures
        directories(states[j]) == directories(states[i]),
    decreases j - i,
{
    if i < j {
        assert(steps(states[j - 1], events[j - 1], states[j]));
        law_launch_keeps_to_its_directories(states, events, i, j - 1);
    }
}

/// The launch is about to authenticate, or to have the agent key made without.
pub open spec fn is_authenticating<P, K, S, C>(launch: LaunchRuntime<P, K, S, C>) -> bool {
    launch is RunAuthFlow || launch is CreateAuthKey
}

/// The conductor is started only after the keystore was started and authentication had its turn,
/// in this order, so that the configuration of the conductor can hold the auth material.
pub proof fn law_keystore_then_authentication_then_conductor<P, K, S, C>(
    passphrase: P,
    config: HolochainRuntimeConfig,
    states: Seq<LaunchRuntime<P, K, S, C>>,
    events: Seq<LaunchEvent<K, S, C>>,
    i: int,
)
    requires
        is_run(states, events),
        states[0] == beginning::<P, K, S, C>(passphrase, config),
        0 <= i < states.len(),
        states[i] is BuildConductor || states[i] is SpawnMdns || (states[i] matches
            LaunchRuntime::Done(Ok(_))),
    ensures
        exists|j: int, k: int|
            0 <= j < k < i && #[trigger] states[j] is SpawnKeystore && is_authenticating(
                #[trigger] states[k],
            ),
{
    lemma_authentication_came_before(passphrase, config, states, events, i);
    let k = choose|k: int| 0 <= k < i && is_authenticating(#[trigger] states[k]);
    lemma_keystore_came_before(passphrase, config, states, events, k);
    let j = choose|j: int| 0 <= j < k && #[trigger] states[j] is SpawnKeystore;
    assert(states[j] is SpawnKeystore && is_authenticating(states[k]));
}

proof fn lemma_authentication_came_before<P, K, S, C>(
    passphrase: P,
    config: HolochainRuntimeConfig,
    states: Seq<LaunchRuntime<P, K, S, C>>,
    events: Seq<LaunchEvent<K, S, C>>,
    i: int,
)
    requires
        is_run(states, events),
        states[0] == beginning::<P, K, S, C>(passphrase, config),
        0 <= i < states.len(),
        stage(states[i]) > 9,
        !(states[i] matches LaunchRuntime::Done(Err(_))),
    ensures
        exists|k: int| 0 <= k < i && is_authenticating(#[trigger] states[k]),
    decreases i,
{
    assert(i > 0);
    assert(steps(states[i - 1], events[i - 1], states[i]));
    if !is_authenticating(states[i - 1]) {
        lemma_authentication_came_before(passphrase, config, states, events, i - 1);
    }
}

proof fn lemma_keystore_came_before<P, K, S, C>(
    passphrase: P,
    config: HolochainRuntimeConfig,
    states: Seq<LaunchRuntime<P, K, S, C>>,
    events: Seq<LaunchEvent<K, S, C>>,
    i: int,
)
    requires
        is_run(states, events),
        states[0] == beginning::<P, K, S, C>(passphrase, config),
        0 <= i < states.len(),
        2 < stage(states[i]) < 13,
    ensures
        exists|j: int| 0 <= j < i && #[trigger] states[j] is SpawnKeystore,
    decreases i,
{
    assert(i > 0);
    assert(steps(states[i - 1], events[i - 1], states[i]));
    if !(states[i - 1] is SpawnKeystore) {
        lemma_keystore_came_before(passphrase, config, states, events, i - 1);
    }
}

/// The device seed is made exactly where the keystore had none.
pub proof fn law_device_seed_is_made_once<P, K, S, C>(
    launch: LaunchRuntime<P, K, S, C>,
    event: LaunchEvent<K, S, C>,
    next: LaunchRuntime<P, K, S, C>,
)
    requires
        steps(launch, event, next),
        !(launch is NewDeviceSeed),
    ensures
        next is NewDeviceSeed <==> launch is FindDeviceSeed && event
            == LaunchEvent::<K, S, C>::DeviceSeedSought(false),
{
}

/// The agent key that the launch has settled on, once it has authenticated or done without.
pub open spec fn settled_key<P, K, S, C>(
    launch: LaunchRuntime<P, K, S, C>,
) -> Option<Option<AgentPubKey>> {
    match launch {
        LaunchRuntime::WriteConfig { launch, .. } => Some(launch.auth.agent_key),
        LaunchRuntime::BuildConductor { launch, .. } => Some(launch.auth.agent_key),
        LaunchRuntime::SpawnMdns { runtime, .. } => Some(runtime.hc_auth_agent_key),
        LaunchRuntime::Done(Ok(runtime)) => Some(runtime.hc_auth_agent_key),
        _ => None,
    }
}

/// The event is the failure of the auth flow, or of making the agent key without it.
pub open spec fn authentication_fails<P, K, S, C>(
    launch: LaunchRuntime<P, K, S, C>,
    event: LaunchEvent<K, S, C>,
) -> bool {
    ||| launch is RunAuthFlow && (event matches LaunchEvent::AuthFlowEnded(Err(_)))
    ||| launch is CreateAuthKey && (event matches LaunchEvent::AuthKeyCreated(Err(_)))
}

/// The agent key, and with it its text, is missing exactly where the auth flow failed, or where
/// none was configured and making the key failed.
pub proof fn law_agent_key_is_missing_only_after_a_failure<P, K, S, C>(
    passphrase: P,
    config: HolochainRuntimeConfig,
    states: Seq<LaunchRuntime<P, K, S, C>>,
    events: Seq<LaunchEvent<K, S, C>>,
    i: int,
)
    requires
        is_run(states, events),
        states[0] == beginning::<P, K, S, C>(passphrase, config),
        0 <= i < states.len(),
    ensures
        settled_key(states[i]) matches Some(key) ==> (key is None <==> exists|j: int|
            0 <= j < i && authentication_fails(states[j], #[trigger] events[j])),
        states[i] matches LaunchRuntime::Done(Ok(runtime)) ==> (runtime.hc_auth_agent_key is None
            <==> runtime.hc_auth_raw_ed25519_b64url is None),
    decreases i,
{
    law_launch_obeys_its_configuration(passphrase, config, states, events, i);
    if settled_key(states[i]) is Some {
        assert(i > 0);
        assert(steps(states[i - 1], events[i - 1], states[i]));
        law_agent_key_is_missing_only_after_a_failure(passphrase, config, states, events, i - 1);
        if settled_key(states[i - 1]) is Some {
            if settled_key(states[i]) == Some(None::<AgentPubKey>) {
                let j = choose|j: int|
                    0 <= j < i - 1 && authentication_fails(states[j], #[trigger] events[j]);
                assert(authentication_fails(states[j], events[j]));
            }
        } else {
            lemma_no_failure_before(states, events, i - 1);
        }
    }
}

/// Until a launch is past authenticating, authenticating has not failed.
proof fn lemma_no_failure_before<P, K, S, C>(
    states: Seq<LaunchRuntime<P, K, S, C>>,
    events: Seq<LaunchEvent<K, S, C>>,
    i: int,
)
    requires
        is_run(states, events),
        0 <= i < states.len(),
        stage(states[i]) <= 9,
    ensures
        forall|j: int| 0 <= j < i ==> !authentication_fails(states[j], #[trigger] events[j]),
    decreases i,
{
    if i > 0 {
        assert(steps(states[i - 1], events[i - 1], states[i]));
        law_launch_moves_forward(states[i - 1], events[i - 1], states[i]);
        lemma_no_failure_before(states, events, i - 1);
    }
}

/// The seed is put into the keystore with the `j`-th call, under the tag of an imported seed and
/// not to be exported, and the keystore gives the public key for it.
pub open spec fn inserts<P, K, S, C>(
    states: Seq<LaunchRuntime<P, K, S, C>>,
    events: Seq<LaunchEvent<K, S, C>>,
    j: int,
    seed: Vec<u8>,
    public_key: [u8; 32],
) -> bool {
    &&& 0 <= j < events.len()
    &&& states[j] matches LaunchRuntime::InsertSeed { seed: inserted, tag, exportable, .. }
    &&& inserted == seed
    &&& tag == IMPORTED_AGENT_KEY_TAG
    &&& !exportable
    &&& events[j] == LaunchEvent::<K, S, C>::SeedInserted(Ok(public_key))
}

/// A launch with a seed to import succeeds only once that seed was put into the keystore.
pub proof fn law_pending_seed_is_imported<P, K, S, C>(
    passphrase: P,
    config: HolochainRuntimeConfig,
    seed: Vec<u8>,
    states: Seq<LaunchRuntime<P, K, S, C>>,
    events: Seq<LaunchEvent<K, S, C>>,
    i: int,
)
    requires
        config.pending_import_seed == Some(seed),
        is_run(states, events),
        states[0] == beginning::<P, K, S, C>(passphrase, config),
        0 <= i < states.len(),
        stage(states[i]) >= 8,
        !(states[i] matches LaunchRuntime::Done(Err(_))),
    ensures
        exists|j: int, public_key: [u8; 32]|
            j < i && #[trigger] inserts(states, events, j, seed, public_key),
    decreases i,
{
    assert(i > 0);
    assert(steps(states[i - 1], events[i - 1], states[i]));
    law_launch_obeys_its_configuration(passphrase, config, states, events, i - 1);
    if stage(states[i - 1]) >= 8 {
        law_pending_seed_is_imported(passphrase, config, seed, states, events, i - 1);
    } else {
        let public_key = events[i - 1]->SeedInserted_0->Ok_0;
        assert(inserts(states, events, i - 1, seed, public_key));
    }
}

/// The material that an auth flow gave is what the conductor is started with; where it gave none,
/// the network is as it was configured.
pub proof fn law_auth_material_reaches_the_conductor<P, K, S, C>(
    launch: LaunchRuntime<P, K, S, C>,
    result: AuthFlowResult,
    configured: LaunchRuntime<P, K, S, C>,
    written: Result<(), String>,
    next: LaunchRuntime<P, K, S, C>,
)
    requires
        launch is RunAuthFlow,
        steps(launch, LaunchEvent::AuthFlowEnded(Ok(result)), configured),
        steps(configured, LaunchEvent::ConfigWritten(written), next),
    ensures
        next matches LaunchRuntime::BuildConductor { config, .. } && config.network
            == launch->RunAuthFlow_context.network_config.authenticated(result.auth_material),
{
}

/// Neither a failure to authenticate, nor to make the agent key, nor to write the configuration
/// file ends a launch.
pub proof fn law_authentication_cannot_fail_a_launch<P, K, S, C>(
    launch: LaunchRuntime<P, K, S, C>,
    event: LaunchEvent<K, S, C>,
    next: LaunchRuntime<P, K, S, C>,
)
    requires
        is_authenticating(launch) || launch is WriteConfig,
        steps(launch, event, next),
    ensures
        !(next is Done),
{
}

/// The event is the failure of a call that a launch cannot do without.
pub open spec fn is_fatal<K, S, C>(event: LaunchEvent<K, S, C>) -> bool {
    match event {
        LaunchEvent::FileSystemOpened(Err(_)) => true,
        LaunchEvent::KeystoreSpawned(Err(_)) => true,
        LaunchEvent::DeviceSeedCreated(Err(_)) => true,
        LaunchEvent::StoreOpened(Err(_)) => true,
        LaunchEvent::SeedLocked(Err(_)) => true,
        LaunchEvent::SeedInserted(Err(_)) => true,
        LaunchEvent::KeyFileWritten(Err(_)) => true,
        LaunchEvent::ConductorBuilt(Err(_)) => true,
        LaunchEvent::MdnsSpawned(Err(_)) => true,
        _ => false,
    }
}

/// With a seed of the right length, or none, a launch fails only where one of the calls failed that
/// it cannot do without.
pub proof fn law_launch_fails_only_with_a_call<P, K, S, C>(
    passphrase: P,
    config: HolochainRuntimeConfig,
    states: Seq<LaunchRuntime<P, K, S, C>>,
    events: Seq<LaunchEvent<K, S, C>>,
    i: int,
)
    requires
        seed_is_valid(config),
        is_run(states, events),
        states[0] == beginning::<P, K, S, C>(passphrase, config),
        0 <= i < states.len(),
        states[i] matches LaunchRuntime::Done(Err(_)),
    ensures
        exists|j: int| 0 <= j < i && is_fatal(#[trigger] events[j]),
    decreases i,
{
    assert(i > 0);
    assert(steps(states[i - 1], events[i - 1], states[i]));
    law_launch_obeys_its_configuration(passphrase, config, states, events, i - 1);
    if states[i - 1] matches LaunchRuntime::Done(Err(_)) {
        law_launch_fails_only_with_a_call(passphrase, config, states, events, i - 1);
    } else {
        assert(is_fatal(events[i - 1]));
    }
}

/// The passphrase is the one that the launch was given, and before the `i`-th state the keystore
/// was spawned with it, which gave the handles.
pub open spec fn was_spawned<P, K, S, C>(
    states: Seq<LaunchRuntime<P, K, S, C>>,
    events: Seq<LaunchEvent<K, S, C>>,
    i: int,
    passphrase: P,
    lair: Lair<P, K, S>,
) -> bool {
    &&& lair.passphrase == passphrase
    &&& exists|j: int|
        {
            &&& 0 <= j < i
            &&& states[j] matches LaunchRuntime::SpawnKeystore { passphrase: given, .. } && given
                == passphrase
            &&& #[trigger] events[j] == LaunchEvent::<K, S, C>::KeystoreSpawned(
                Ok(
                    SpawnedKeystore {
                        lair_client: lair.lair_client,
                        in_proc_keystore: lair.in_proc_keystore,
                    },
                ),
            )
        }
}

/// Before the `i`-th state the conductor was started with the passphrase and the keystore of
/// `lair`, which gave the conductor.
pub open spec fn was_built<P, K, S, C>(
    states: Seq<LaunchRuntime<P, K, S, C>>,
    events: Seq<LaunchEvent<K, S, C>>,
    i: int,
    lair: Lair<P, K, S>,
    conductor: C,
) -> bool {
    exists|j: int|
        {
            &&& 0 <= j < i
            &&& states[j] matches LaunchRuntime::BuildConductor { lair: given, .. } && given == lair
            &&& #[trigger] events[j] == LaunchEvent::<K, S, C>::ConductorBuilt(Ok(conductor))
        }
}

/// The handles that the launch has, once the keystore is spawned.
pub open spec fn lair_of<P, K, S, C>(launch: LaunchRuntime<P, K, S, C>) -> Option<Lair<P, K, S>> {
    match launch {
        LaunchRuntime::FindDeviceSeed { lair, .. } => Some(lair),
        LaunchRuntime::NewDeviceSeed { lair, .. } => Some(lair),
        LaunchRuntime::OpenStore { lair, .. } => Some(lair),
        LaunchRuntime::LockSeed { lair, .. } => Some(lair),
        LaunchRuntime::InsertSeed { lair, .. } => Some(lair),
        LaunchRuntime::WriteKeyFile { lair, .. } => Some(lair),
        LaunchRuntime::RunAuthFlow { lair, .. } => Some(lair),
        LaunchRuntime::CreateAuthKey { lair, .. } => Some(lair),
        LaunchRuntime::WriteConfig { lair, .. } => Some(lair),
        LaunchRuntime::BuildConductor { lair, .. } => Some(lair),
        LaunchRuntime::SpawnMdns { runtime, .. } => Some(runtime.lair),
        LaunchRuntime::Done(Ok(runtime)) => Some(runtime.lair),
        _ => None,
    }
}

/// The passphrase that a launch was given unlocks the keystore and goes to the conductor, the
/// conductor gets the very keystore that was spawned, and the runtime keeps all of them: the
/// passphrase, both handles of the keystore, and the conductor that was started with them.
pub proof fn law_one_keystore_serves_the_conductor_and_the_runtime<P, K, S, C>(
    passphrase: P,
    config: HolochainRuntimeConfig,
    states: Seq<LaunchRuntime<P, K, S, C>>,
    events: Seq<LaunchEvent<K, S, C>>,
    i: int,
)
    requires
        is_run(states, events),
        states[0] == beginning::<P, K, S, C>(passphrase, config),
        0 <= i < states.len(),
    ensures
        match states[i] {
            LaunchRuntime::OpenFileSystem { passphrase: kept, .. } => kept == passphrase,
            LaunchRuntime::PickPort { passphrase: kept, .. } => kept == passphrase,
            LaunchRuntime::SpawnKeystore { passphrase: kept, .. } => kept == passphrase,
            _ => lair_of(states[i]) matches Some(lair) ==> was_spawned(
                states,
                events,
                i,
                passphrase,
                lair,
            ),
        },
        states[i] matches LaunchRuntime::SpawnMdns { runtime, .. } ==> was_built(
            states,
            events,
            i,
            runtime.lair,
            runtime.conductor_handle,
        ),
        states[i] matches LaunchRuntime::Done(Ok(runtime)) ==> was_built(
            states,
            events,
            i,
            runtime.lair,
            runtime.conductor_handle,
        ),
    decreases i,
{
    if i > 0 {
        law_one_keystore_serves_the_conductor_and_the_runtime(
            passphrase,
            config,
            states,
            events,
            i - 1,
        );
        assert(steps(states[i - 1], events[i - 1], states[i]));
        if lair_of(states[i]) is Some {
            let lair = lair_of(states[i])->0;
            if states[i - 1] is SpawnKeystore {
                let spawned = events[i - 1]->KeystoreSpawned_0->Ok_0;
                assert(spawned == (SpawnedKeystore {
                    lair_client: lair.lair_client,
                    in_proc_keystore: lair.in_proc_keystore,
                }));
                assert(was_spawned(states, events, i, passphrase, lair));
            } else {
                assert(lair_of(states[i - 1]) == Some(lair));
            }
        }
    }
}

} // verus!
