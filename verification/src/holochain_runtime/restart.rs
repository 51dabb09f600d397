//! Restarting the conductor with fresh material for authentication, while the keystore goes on
//! running.
use super::shutdown::{Shutdown, ShutdownEvent};
use super::{is_admin_connect, HolochainRuntime};
use crate::apps::{law_shutdown_leaves_apps_for_the_next_launch, DisabledAppReason};
use crate::config::NetworkConfig;
use crate::error::{Error, ErrorView};
use crate::hc_auth::{AuthFlowResult, HcAuthConfig, HcAuthState};
use crate::keystore::{is_copy, Lair};
use crate::launch::config::{
    conductor_config, is_conductor_config, is_only_admin_interface, ConductorConfig,
};
use crate::launch::ConfiguredLaunch;
use crate::paths::FileSystem;
use std::path::PathBuf;
use vstd::pervasive::cloned;
use vstd::prelude::*;

verus! {

/// What a restart keeps of the runtime, and the network that it is to join.
#[derive(Debug, PartialEq, Eq)]
pub struct RestartContext<P, K, S> {
    pub filesystem: FileSystem,
    pub hc_auth: HcAuthConfig,
    pub network_config: NetworkConfig,
    /// The keystore, which goes on running.
    pub lair: Lair<P, K, S>,
}

/// Where a restart is: the call to make next, or how it ended.
#[derive(Debug, PartialEq)]
pub enum Restart<P, K, S, C> {
    /// Shut the conductor down.
    Stop { shutdown: Shutdown<C>, context: RestartContext<P, K, S> },
    /// Authenticate, with the client of the keystore.
    RunAuthFlow { server: HcAuthConfig, dir: PathBuf, context: RestartContext<P, K, S> },
    /// Find a free port.
    PickPort { context: RestartContext<P, K, S>, auth: HcAuthState },
    /// Write the configuration of the conductor into the directory.
    WriteConfig {
        dir: PathBuf,
        config: ConductorConfig,
        lair: Lair<P, K, S>,
        launch: ConfiguredLaunch,
    },
    /// Start the conductor, with the passphrase and the client of the keystore that is running.
    BuildConductor { config: ConductorConfig, lair: Lair<P, K, S>, launch: ConfiguredLaunch },
    /// The restart is over.
    Done(Result<HolochainRuntime<P, K, S, C>, Error>),
}

/// What came of a call. A failure is told by its text, or as the error to end with.
#[derive(Debug, PartialEq)]
pub enum RestartEvent<C> {
    Stop(ShutdownEvent),
    AuthFlowEnded(Result<AuthFlowResult, Error>),
    PortPicked(u16),
    ConfigWritten(Result<(), String>),
    ConductorBuilt(Result<C, Error>),
}

/// Where a restart of the runtime begins: with shutting the conductor down, or where hc-auth is
/// not configured with failing.
pub open spec fn is_beginning<P: Clone, K: Clone, S: Clone, C: Clone>(
    restart: Restart<P, K, S, C>,
    runtime: HolochainRuntime<P, K, S, C>,
    network_config: NetworkConfig,
) -> bool {
    match runtime.hc_auth_config {
        Some(hc_auth) => {
            &&& restart matches Restart::Stop { shutdown, context }
            &&& super::shutdown::is_beginning(shutdown, runtime)
            &&& context.filesystem == runtime.filesystem
            &&& context.hc_auth == hc_auth
            &&& context.network_config == network_config
            &&& is_copy(context.lair, runtime.lair)
        },
        None => restart matches Restart::Done(Err(error)) && error@ == ErrorView::HcAuthError(
            "hc-auth not configured"@,
        ),
    }
}

impl<P, K, S> RestartContext<P, K, S> {
    /// What is known once the conductor is configured at the port.
    pub open spec fn configured(self, admin_port: u16, auth: HcAuthState) -> ConfiguredLaunch {
        ConfiguredLaunch {
            filesystem: self.filesystem,
            admin_port,
            mdns_discovery: false,
            hc_auth: Some(self.hc_auth),
            auth,
        }
    }
}

/// Where the restart is once the shutdown is at `stopped`.
pub open spec fn goes_on<P, K, S, C>(
    stopped: Shutdown<C>,
    context: RestartContext<P, K, S>,
    next: Restart<P, K, S, C>,
) -> bool {
    match stopped {
        Shutdown::Done(Ok(())) => next == (Restart::<P, K, S, C>::RunAuthFlow {
            server: context.hc_auth,
            dir: context.filesystem.app_data_dir,
            context,
        }),
        Shutdown::Done(Err(error)) => next == Restart::<P, K, S, C>::Done(Err(error)),
        _ => next == (Restart::<P, K, S, C>::Stop { shutdown: stopped, context }),
    }
}

/// `next` is where the restart is after the event. An event that does not answer the call that the
/// restart is at leaves it there.
pub open spec fn steps<P, K, S, C>(
    restart: Restart<P, K, S, C>,
    event: RestartEvent<C>,
    next: Restart<P, K, S, C>,
) -> bool {
    match (restart, event) {
        (Restart::Stop { shutdown, context }, RestartEvent::Stop(event)) => exists|
            stopped: Shutdown<C>,
        |
            #[trigger] super::shutdown::steps(shutdown, event, stopped) && goes_on(
                stopped,
                context,
                next,
            ),
        (
            Restart::RunAuthFlow { context, .. },
            RestartEvent::AuthFlowEnded(ended),
        ) => match ended {
            Ok(result) => next == (Restart::<P, K, S, C>::PickPort {
                context: RestartContext {
                    network_config: context.network_config.authenticated(result.auth_material),
                    ..context
                },
                auth: HcAuthState {
                    status: result.status,
                    agent_key: Some(result.agent_key),
                    raw_ed25519_b64url: Some(result.raw_ed25519_b64url),
                },
            }),
            Err(error) => next == Restart::<P, K, S, C>::Done(Err(error)),
        },
        (Restart::PickPort { context, auth }, RestartEvent::PortPicked(admin_port)) => {
            &&& next matches Restart::WriteConfig { dir, config, lair, launch }
            &&& lair == context.lair
            &&& dir == context.filesystem.app_data_dir
            &&& is_conductor_config(
                config,
                context.filesystem,
                admin_port,
                context.filesystem.keystore_dir,
                context.network_config,
            )
            &&& launch == context.configured(admin_port, auth)
        },
        (
            Restart::WriteConfig { config, lair, launch, .. },
            RestartEvent::ConfigWritten(_),
        ) => next == (Restart::<P, K, S, C>::BuildConductor { config, lair, launch }),
        (
            Restart::BuildConductor { lair, launch, .. },
            RestartEvent::ConductorBuilt(built),
        ) => match built {
            Ok(conductor) => next matches Restart::Done(Ok(runtime)) && launch.is_runtime(
                lair,
                conductor,
                runtime,
            ),
            Err(error) => next == Restart::<P, K, S, C>::Done(Err(error)),
        },
        _ => next == restart,
    }
}

impl<P, K, S, C> Restart<P, K, S, C> {
    /// Takes what came of the call that the restart is at, and gives where it is then.
    pub fn advance(self, event: RestartEvent<C>) -> (next: Restart<P, K, S, C>)
        ensures
            steps(self, event, next),
    {
        match (self, event) {
            (Restart::Stop { shutdown, context }, RestartEvent::Stop(event)) => {
                match shutdown.advance(event) {
                    Shutdown::Done(Ok(())) => Restart::RunAuthFlow {
                        server: context.hc_auth.clone(),
                        dir: context.filesystem.app_data_dir.clone(),
                        context,
                    },
                    Shutdown::Done(Err(error)) => Restart::Done(Err(error)),
                    shutdown => Restart::Stop { shutdown, context },
                }
            },
            (
                Restart::RunAuthFlow { context, .. },
                RestartEvent::AuthFlowEnded(ended),
            ) => match ended {
                Ok(result) => Restart::PickPort {
                    context: RestartContext {
                        filesystem: context.filesystem,
                        hc_auth: context.hc_auth,
                        network_config: context.network_config.with_auth_material(
                            result.auth_material,
                        ),
                        lair: context.lair,
                    },
                    auth: HcAuthState {
                        status: result.status,
                        agent_key: Some(result.agent_key),
                        raw_ed25519_b64url: Some(result.raw_ed25519_b64url),
                    },
                },
                Err(error) => Restart::Done(Err(error)),
            },
            (Restart::PickPort { context, auth }, RestartEvent::PortPicked(admin_port)) => {
                let lair_root = context.filesystem.keystore_dir.clone();
                let config = conductor_config(
                    &context.filesystem,
                    admin_port,
                    lair_root,
                    context.network_config,
                );
                let dir = context.filesystem.app_data_dir.clone();
                let launch = ConfiguredLaunch {
                    filesystem: context.filesystem,
                    admin_port,
                    mdns_discovery: false,
                    hc_auth: Some(context.hc_auth),
                    auth,
                };
                Restart::WriteConfig { dir, config, lair: context.lair, launch }
            },
            (
                Restart::WriteConfig { config, lair, launch, .. },
                RestartEvent::ConfigWritten(_),
            ) => Restart::BuildConductor { config, lair, launch },
            (
                Restart::BuildConductor { lair, launch, .. },
                RestartEvent::ConductorBuilt(built),
            ) => match built {
                Ok(conductor) => Restart::Done(Ok(launch.into_runtime(lair, conductor))),
                Err(error) => Restart::Done(Err(error)),
            },
            (restart, _) => restart,
        }
    }
}

impl<P: Clone, K: Clone, S: Clone, C: Clone> HolochainRuntime<P, K, S, C> {
    /// Begins to restart the conductor with fresh material for authentication.
    pub fn restart_with_hc_auth(
        &self,
        network_config: NetworkConfig,
    ) -> (restart: Restart<P, K, S, C>)
        ensures
            is_beginning(restart, *self, network_config),
    {
        match &self.hc_auth_config {
            Some(hc_auth) => Restart::Stop {
                shutdown: self.shutdown_conductor_only(),
                context: RestartContext {
                    filesystem: self.filesystem.clone(),
                    hc_auth: hc_auth.clone(),
                    network_config,
                    lair: self.lair.clone(),
                },
            },
            None => Restart::Done(Err(Error::HcAuthError("hc-auth not configured".to_owned()))),
        }
    }
}

/// The states that a restart goes through, and the events that take it from each to the next.
pub open spec fn is_run<P, K, S, C>(
    states: Seq<Restart<P, K, S, C>>,
    events: Seq<RestartEvent<C>>,
) -> bool {
    &&& states.len() == events.len() + 1
    &&& forall|i: int|
        0 <= i < events.len() ==> steps(states[i], #[trigger] events[i], states[i + 1])
}

/// The network is the given one with the material of the auth flow in it, where it gave any.
pub open spec fn network_obeys(
    network: NetworkConfig,
    wanted: NetworkConfig,
) -> bool {
    exists|auth_material: Option<String>|
        network == #[trigger] wanted.authenticated(auth_material)
}

/// The restart is one of the runtime, onto the network.
pub open spec fn obeys<P: Clone, K: Clone, S: Clone, C: Clone>(
    runtime: HolochainRuntime<P, K, S, C>,
    wanted: NetworkConfig,
    restart: Restart<P, K, S, C>,
) -> bool {
    match restart {
        Restart::Stop { context, .. } => context.filesystem == runtime.filesystem && Some(
            context.hc_auth,
        ) == runtime.hc_auth_config && context.network_config == wanted && is_copy(
            context.lair,
            runtime.lair,
        ),
        Restart::RunAuthFlow { server, dir, context } => context.filesystem == runtime.filesystem
            && Some(context.hc_auth) == runtime.hc_auth_config && context.network_config == wanted
            && server == context.hc_auth && dir == runtime.filesystem.app_data_dir && is_copy(
            context.lair,
            runtime.lair,
        ),
        Restart::PickPort { context, auth } => context.filesystem == runtime.filesystem && Some(
            context.hc_auth,
        ) == runtime.hc_auth_config && network_obeys(context.network_config, wanted)
            && auth.agent_key is Some && auth.raw_ed25519_b64url is Some && is_copy(
            context.lair,
            runtime.lair,
        ),
        Restart::WriteConfig { config, lair, launch, .. } => conductor_obeys(
            runtime,
            wanted,
            config,
            lair,
            launch,
        ),
        Restart::BuildConductor { config, lair, launch } => conductor_obeys(
            runtime,
            wanted,
            config,
            lair,
            launch,
        ),
        Restart::Done(Ok(restarted)) => {
            &&& is_copy(restarted.lair, runtime.lair)
            &&& restarted.filesystem == runtime.filesystem
            &&& restarted.hc_auth_config == runtime.hc_auth_config
            &&& restarted.apps_websockets_auths@.len() == 0
            &&& restarted.hc_auth_agent_key is Some
            &&& restarted.hc_auth_raw_ed25519_b64url is Some
        },
        Restart::Done(Err(_)) => true,
    }
}

/// The conductor is configured for the files of the runtime and the network.
pub open spec fn conductor_obeys<P: Clone, K: Clone, S: Clone, C: Clone>(
    runtime: HolochainRuntime<P, K, S, C>,
    wanted: NetworkConfig,
    conductor: ConductorConfig,
    lair: Lair<P, K, S>,
    launch: ConfiguredLaunch,
) -> bool {
    &&& is_copy(lair, runtime.lair)
    &&& launch.filesystem == runtime.filesystem
    &&& launch.hc_auth == runtime.hc_auth_config
    &&& launch.auth.agent_key is Some
    &&& launch.auth.raw_ed25519_b64url is Some
    &&& network_obeys(conductor.network, wanted)
    &&& is_conductor_config(
        conductor,
        runtime.filesystem,
        launch.admin_port,
        runtime.filesystem.keystore_dir,
        conductor.network,
    )
}

/// A restart keeps the files, the hc-auth server and the keystore of the runtime, with its
/// passphrase, at every point, so that these are what the conductor is started with; it starts the
/// conductor on the network that was asked for, save for the material of the auth flow; and the
/// runtime that it ends with has an agent key and no authentications of apps.
pub proof fn law_restart_keeps_files_and_server<P: Clone, K: Clone, S: Clone, C: Clone>(
    runtime: HolochainRuntime<P, K, S, C>,
    wanted: NetworkConfig,
    states: Seq<Restart<P, K, S, C>>,
    events: Seq<RestartEvent<C>>,
    i: int,
)
    requires
        is_run(states, events),
        is_beginning(states[0], runtime, wanted),
        0 <= i < states.len(),
    ensures
        obeys(runtime, wanted, states[i]),
    decreases i,
{
    if i > 0 {
        law_restart_keeps_files_and_server(runtime, wanted, states, events, i - 1);
        let event = events[i - 1];
        assert(steps(states[i - 1], event, states[i]));
        match (states[i - 1], event) {
            (Restart::Stop { shutdown, context }, RestartEvent::Stop(event)) => {
                let stopped = choose|stopped: Shutdown<C>|
                    #[trigger] super::shutdown::steps(shutdown, event, stopped) && goes_on(
                        stopped,
                        context,
                        states[i],
                    );
                assert(goes_on(stopped, context, states[i]));
            },
            (
                Restart::RunAuthFlow { context, .. },
                RestartEvent::AuthFlowEnded(Ok(result)),
            ) => {
                assert(network_obeys(wanted.authenticated(result.auth_material), wanted));
            },
            _ => {},
        }
    }
}

/// Without hc-auth configured a restart fails at once, and the conductor goes on running.
pub proof fn law_restart_needs_hc_auth<P: Clone, K: Clone, S: Clone, C: Clone>(
    runtime: HolochainRuntime<P, K, S, C>,
    wanted: NetworkConfig,
    states: Seq<Restart<P, K, S, C>>,
    events: Seq<RestartEvent<C>>,
    i: int,
)
    requires
        runtime.hc_auth_config is None,
        is_run(states, events),
        is_beginning(states[0], runtime, wanted),
        0 <= i < states.len(),
    ensures
        states[i] == states[0],
        states[i] matches Restart::Done(Err(error)) && error@ == ErrorView::HcAuthError(
            "hc-auth not configured"@,
        ),
    decreases i,
{
    if i > 0 {
        law_restart_needs_hc_auth(runtime, wanted, states, events, i - 1);
        assert(steps(states[i - 1], events[i - 1], states[i]));
    }
}

/// The conductor is started again only after the old one was shut down with success and then the
/// auth flow had succeeded.
pub proof fn law_conductor_starts_only_after_shutdown_and_authentication<
    P: Clone,
    K: Clone,
    S: Clone,
    C: Clone,
>(
    runtime: HolochainRuntime<P, K, S, C>,
    wanted: NetworkConfig,
    states: Seq<Restart<P, K, S, C>>,
    events: Seq<RestartEvent<C>>,
    i: int,
)
    requires
        is_run(states, events),
        is_beginning(states[0], runtime, wanted),
        0 <= i < states.len(),
        stage(states[i]) > 1,
        !(states[i] matches Restart::Done(Err(_))),
    ensures
        exists|j: int, k: int|
            {
                &&& 0 <= j < k < i
                &&& #[trigger] states[j] matches Restart::Stop { shutdown, .. }
                &&& shutdown is StopConductor
                &&& events[j] matches RestartEvent::Stop(
                    ShutdownEvent::ConductorStopped(Ok(Ok(_))),
                )
                &&& #[trigger] states[k] is RunAuthFlow
                &&& events[k] matches RestartEvent::AuthFlowEnded(Ok(_))
            },
    decreases i,
{
    assert(i > 0);
    assert(steps(states[i - 1], events[i - 1], states[i]));
    if states[i - 1] is RunAuthFlow {
        lemma_shutdown_came_before(runtime, wanted, states, events, i - 1);
        let j = choose|j: int|
            {
                &&& 0 <= j < i - 1
                &&& #[trigger] states[j] matches Restart::Stop { shutdown, .. }
                &&& shutdown is StopConductor
                &&& events[j] matches RestartEvent::Stop(
                    ShutdownEvent::ConductorStopped(Ok(Ok(_))),
                )
            };
        assert(states[j] is Stop && states[i - 1] is RunAuthFlow);
    } else {
        law_conductor_starts_only_after_shutdown_and_authentication(
            runtime,
            wanted,
            states,
            events,
            i - 1,
        );
    }
}

/// How far a restart is.
pub open spec fn stage<P, K, S, C>(restart: Restart<P, K, S, C>) -> nat {
    match restart {
        Restart::Stop { .. } => 0,
        Restart::RunAuthFlow { .. } => 1,
        Restart::PickPort { .. } => 2,
        Restart::WriteConfig { .. } => 3,
        Restart::BuildConductor { .. } => 4,
        Restart::Done(_) => 5,
    }
}

/// A restart that has not begun with a shutdown that is over is never at one.
proof fn lemma_shutdown_is_under_way<P: Clone, K: Clone, S: Clone, C: Clone>(
    runtime: HolochainRuntime<P, K, S, C>,
    wanted: NetworkConfig,
    states: Seq<Restart<P, K, S, C>>,
    events: Seq<RestartEvent<C>>,
    i: int,
)
    requires
        is_run(states, events),
        is_beginning(states[0], runtime, wanted),
        0 <= i < states.len(),
        states[i] is Stop,
    ensures
        !(states[i]->shutdown is Done),
    decreases i,
{
    if i > 0 {
        assert(steps(states[i - 1], events[i - 1], states[i]));
        if states[i - 1] is Stop {
            lemma_shutdown_is_under_way(runtime, wanted, states, events, i - 1);
        }
    }
}

proof fn lemma_shutdown_came_before<P: Clone, K: Clone, S: Clone, C: Clone>(
    runtime: HolochainRuntime<P, K, S, C>,
    wanted: NetworkConfig,
    states: Seq<Restart<P, K, S, C>>,
    events: Seq<RestartEvent<C>>,
    i: int,
)
    requires
        is_run(states, events),
        is_beginning(states[0], runtime, wanted),
        0 <= i < states.len(),
        states[i] is RunAuthFlow,
    ensures
        exists|j: int|
            {
                &&& 0 <= j < i
                &&& #[trigger] states[j] matches Restart::Stop { shutdown, .. }
                &&& shutdown is StopConductor
                &&& events[j] matches RestartEvent::Stop(
                    ShutdownEvent::ConductorStopped(Ok(Ok(_))),
                )
            },
    decreases i,
{
    assert(i > 0);
    assert(steps(states[i - 1], events[i - 1], states[i]));
    if states[i - 1] is RunAuthFlow {
        lemma_shutdown_came_before(runtime, wanted, states, events, i - 1);
    } else {
        lemma_shutdown_is_under_way(runtime, wanted, states, events, i - 1);
        assert(states[i - 1] is Stop);
    }
}

/// The material that the auth flow gave is what the conductor is started again with; where it gave
/// none, the network is the one that was asked for.
pub proof fn law_fresh_material_reaches_the_conductor<P, K, S, C>(
    restart: Restart<P, K, S, C>,
    result: AuthFlowResult,
    authenticated: Restart<P, K, S, C>,
    admin_port: u16,
    configured: Restart<P, K, S, C>,
    written: Result<(), String>,
    next: Restart<P, K, S, C>,
)
    requires
        restart is RunAuthFlow,
        steps(restart, RestartEvent::AuthFlowEnded(Ok(result)), authenticated),
        steps(authenticated, RestartEvent::PortPicked(admin_port), configured),
        steps(configured, RestartEvent::ConfigWritten(written), next),
    ensures
        next matches Restart::BuildConductor { config, .. } && config.network
            == restart->RunAuthFlow_context.network_config.authenticated(result.auth_material),
{
}

/// A restart fails where authenticating fails, while a failure to write the configuration file
/// does not matter.
pub proof fn law_restart_fails_with_authentication<P, K, S, C>(
    restart: Restart<P, K, S, C>,
    event: RestartEvent<C>,
    next: Restart<P, K, S, C>,
)
    requires
        steps(restart, event, next),
    ensures
        restart is RunAuthFlow && event is AuthFlowEnded ==> ((next is Done) <==> (
        event matches RestartEvent::AuthFlowEnded(Err(_)))),
        restart is WriteConfig ==> !(next is Done),
{
}

/// The conductor of the restarted runtime is the one that was started with the passphrase and the
/// client of the keystore that the runtime has, and the port of the runtime is that of its only
/// admin interface.
pub proof fn law_restarted_conductor_uses_the_running_keystore<
    P: Clone,
    K: Clone,
    S: Clone,
    C: Clone,
>(
    runtime: HolochainRuntime<P, K, S, C>,
    wanted: NetworkConfig,
    states: Seq<Restart<P, K, S, C>>,
    events: Seq<RestartEvent<C>>,
    i: int,
    restarted: HolochainRuntime<P, K, S, C>,
)
    requires
        is_run(states, events),
        is_beginning(states[0], runtime, wanted),
        0 <= i < states.len(),
        states[i] == Restart::<P, K, S, C>::Done(Ok(restarted)),
    ensures
        is_copy(restarted.lair, runtime.lair),
        exists|j: int|
            {
                &&& 0 <= j < i
                &&& states[j] matches Restart::BuildConductor { config, lair, .. }
                &&& lair == restarted.lair
                &&& is_only_admin_interface(config.admin_interfaces, restarted.admin_port)
                &&& #[trigger] events[j] == RestartEvent::<C>::ConductorBuilt(
                    Ok(restarted.conductor_handle),
                )
            },
    decreases i,
{
    assert(i > 0);
    assert(steps(states[i - 1], events[i - 1], states[i]));
    law_restart_keeps_files_and_server(runtime, wanted, states, events, i);
    law_restart_keeps_files_and_server(runtime, wanted, states, events, i - 1);
    if states[i - 1] is Done {
        law_restarted_conductor_uses_the_running_keystore(
            runtime,
            wanted,
            states,
            events,
            i - 1,
            restarted,
        );
    } else if states[i - 1] is Stop {
        let event = events[i - 1]->Stop_0;
        let shutdown = states[i - 1]->shutdown;
        let context = states[i - 1]->Stop_context;
        let stopped = choose|stopped: Shutdown<C>|
            #[trigger] super::shutdown::steps(shutdown, event, stopped) && goes_on(
                stopped,
                context,
                states[i],
            );
        assert(goes_on(stopped, context, states[i]));
    } else {
        assert(events[i - 1] == RestartEvent::<C>::ConductorBuilt(Ok(restarted.conductor_handle)));
    }
}

/// The event tells what came of the call that the restart is at.
pub open spec fn answers<P, K, S, C>(restart: Restart<P, K, S, C>, event: RestartEvent<C>) -> bool {
    match (restart, event) {
        (Restart::Stop { shutdown, .. }, RestartEvent::Stop(event)) => super::shutdown::answers(
            shutdown,
            event,
        ),
        (Restart::RunAuthFlow { .. }, RestartEvent::AuthFlowEnded(_)) => true,
        (Restart::PickPort { .. }, RestartEvent::PortPicked(_)) => true,
        (Restart::WriteConfig { .. }, RestartEvent::ConfigWritten(_)) => true,
        (Restart::BuildConductor { .. }, RestartEvent::ConductorBuilt(_)) => true,
        _ => false,
    }
}

/// An event that answers no call of a restart changes nothing.
pub proof fn law_stray_event_does_not_change_a_restart<P, K, S, C>(
    restart: Restart<P, K, S, C>,
    event: RestartEvent<C>,
    next: Restart<P, K, S, C>,
)
    requires
        steps(restart, event, next),
        restart matches Restart::Stop { shutdown, .. } ==> !(shutdown is Done),
        !answers(restart, event),
    ensures
        next == restart,
{
}

/// The conductor is stopped as a shutdown does it, after `i` calls: the admin interface is reached,
/// the enabled apps are listed, each is asked to be disabled with the error that stands for the
/// shutdown of the network, and the conductor is stopped.
pub open spec fn is_stopping_after<P, K, S, C: Clone>(
    shutdown: Shutdown<C>,
    i: int,
    runtime: HolochainRuntime<P, K, S, C>,
    events: Seq<RestartEvent<C>>,
) -> bool {
    match shutdown {
        Shutdown::ConnectAdmin { connect, conductor } => i == 0 && is_admin_connect(
            connect,
            runtime.admin_port,
        ) && cloned(runtime.conductor_handle, conductor),
        Shutdown::ListApps { filter, conductor } => i == 1 && filter is Enabled && cloned(
            runtime.conductor_handle,
            conductor,
        ) && (events[0] matches RestartEvent::Stop(ShutdownEvent::AdminConnected(Ok(_)))),
        Shutdown::DisableApps { requests, conductor } => i == 2 && cloned(
            runtime.conductor_handle,
            conductor,
        ) && (events[1] matches RestartEvent::Stop(ShutdownEvent::AppsListed(Ok(apps)))
            && requests@.len() == apps@.len() && forall|k: int| #![trigger requests@[k]]
            0 <= k < requests@.len() ==> requests@[k].app_id == apps@[k].installed_app_id && (
            requests@[k].reason matches DisabledAppReason::Error(text) && text@
                == "holochain_runtime/network_shutdown"@)),
        Shutdown::StopConductor { conductor } => i == 3 && cloned(
            runtime.conductor_handle,
            conductor,
        ),
        Shutdown::Done(_) => false,
    }
}

/// The auth flow of the restart has given this.
pub open spec fn is_authenticated<C>(
    events: Seq<RestartEvent<C>>,
    network: NetworkConfig,
    wanted: NetworkConfig,
    auth: HcAuthState,
) -> bool {
    &&& events[4] matches RestartEvent::AuthFlowEnded(Ok(result))
    &&& network == wanted.authenticated(result.auth_material)
    &&& auth.status == result.status
    &&& auth.agent_key == Some(result.agent_key)
    &&& auth.raw_ed25519_b64url == Some(result.raw_ed25519_b64url)
}

/// The conductor is configured for the files of the runtime, at the port that was picked, on the
/// network that was asked for with the material of the auth flow in it.
pub open spec fn is_configured<P, K, S, C>(
    config: ConductorConfig,
    launch: ConfiguredLaunch,
    runtime: HolochainRuntime<P, K, S, C>,
    wanted: NetworkConfig,
    events: Seq<RestartEvent<C>>,
) -> bool {
    &&& is_authenticated(events, config.network, wanted, launch.auth)
    &&& events[5] == RestartEvent::<C>::PortPicked(launch.admin_port)
    &&& launch.filesystem == runtime.filesystem
    &&& launch.hc_auth == runtime.hc_auth_config
    &&& is_conductor_config(
        config,
        runtime.filesystem,
        launch.admin_port,
        runtime.filesystem.keystore_dir,
        config.network,
    )
}

/// A restart of a runtime with hc-auth is over after eight calls, or with the first that fails:
/// the four of a shutdown; the auth flow, with the server and the keystore of the runtime; picking
/// a port; writing the configuration, which may fail; and starting the conductor. Where they
/// succeed it ends with a runtime, whether or not the auth flow gave material: with the conductor
/// that was started, the port that was picked and what the auth flow gave, with the files, the
/// server and the keystore of the old runtime, and with no authentications of apps. It fails only
/// with a call, and with the error of that call.
pub proof fn law_restart_is_over_after_eight_calls<P: Clone, K: Clone, S: Clone, C: Clone>(
    runtime: HolochainRuntime<P, K, S, C>,
    wanted: NetworkConfig,
    states: Seq<Restart<P, K, S, C>>,
    events: Seq<RestartEvent<C>>,
    i: int,
)
    requires
        runtime.hc_auth_config is Some,
        is_run(states, events),
        is_beginning(states[0], runtime, wanted),
        forall|j: int| 0 <= j < events.len() ==> answers(states[j], #[trigger] events[j]),
        0 <= i < states.len(),
    ensures
        i <= 8,
        match states[i] {
            Restart::Stop { shutdown, .. } => i <= 3 && is_stopping_after(
                shutdown,
                i,
                runtime,
                events,
            ),
            Restart::RunAuthFlow { server, dir, context } => i == 4 && runtime.hc_auth_config
                == Some(server) && dir == runtime.filesystem.app_data_dir && is_copy(
                context.lair,
                runtime.lair,
            ) && (events[3] matches RestartEvent::Stop(ShutdownEvent::ConductorStopped(Ok(Ok(_))))),
            Restart::PickPort { context, auth } => i == 5 && is_authenticated(
                events,
                context.network_config,
                wanted,
                auth,
            ),
            Restart::WriteConfig { dir, config, launch, .. } => i == 6 && dir
                == runtime.filesystem.app_data_dir && is_configured(
                config,
                launch,
                runtime,
                wanted,
                events,
            ),
            Restart::BuildConductor { config, lair, launch } => i == 7 && is_copy(
                lair,
                runtime.lair,
            ) && is_configured(config, launch, runtime, wanted, events),
            Restart::Done(Ok(restarted)) => {
                &&& i == 8
                &&& events[7] == RestartEvent::<C>::ConductorBuilt(Ok(restarted.conductor_handle))
                &&& events[5] == RestartEvent::<C>::PortPicked(restarted.admin_port)
                &&& events[4] matches RestartEvent::AuthFlowEnded(Ok(result))
                &&& restarted.hc_auth_status == result.status
                &&& restarted.hc_auth_agent_key == Some(result.agent_key)
                &&& restarted.hc_auth_raw_ed25519_b64url == Some(result.raw_ed25519_b64url)
                &&& restarted.filesystem == runtime.filesystem
                &&& restarted.hc_auth_config == runtime.hc_auth_config
                &&& restarted.apps_websockets_auths@.len() == 0
                &&& is_copy(restarted.lair, runtime.lair)
            },
            Restart::Done(Err(error)) => i > 0 && match events[i - 1] {
                RestartEvent::Stop(ShutdownEvent::AdminConnected(Err(cause))) => error
                    == Error::WebsocketConnectionError(cause),
                RestartEvent::Stop(ShutdownEvent::AppsListed(Err(e))) => error == e,
                RestartEvent::Stop(ShutdownEvent::ConductorStopped(Err(cause))) => error
                    == Error::HolochainShutdownError(cause),
                RestartEvent::Stop(ShutdownEvent::ConductorStopped(Ok(Err(cause)))) => error
                    == Error::HolochainShutdownError(cause),
                RestartEvent::AuthFlowEnded(Err(e)) => error == e,
                RestartEvent::ConductorBuilt(Err(e)) => error == e,
                _ => false,
            },
        },
    decreases i,
{
    if i > 0 {
        law_restart_is_over_after_eight_calls(runtime, wanted, states, events, i - 1);
        law_restart_keeps_files_and_server(runtime, wanted, states, events, i - 1);
        let event = events[i - 1];
        assert(steps(states[i - 1], event, states[i]));
        assert(answers(states[i - 1], event));
        match (states[i - 1], event) {
            (Restart::Stop { shutdown, context }, RestartEvent::Stop(answer)) => {
                let stopped = choose|stopped: Shutdown<C>|
                    #[trigger] super::shutdown::steps(shutdown, answer, stopped) && goes_on(
                        stopped,
                        context,
                        states[i],
                    );
                assert(goes_on(stopped, context, states[i]));
                if let Shutdown::DisableApps { requests, .. } = stopped {
                    let apps = answer->AppsListed_0->Ok_0;
                    law_shutdown_leaves_apps_for_the_next_launch(requests@, apps@);
                    assert forall|k: int| #![trigger requests@[k]]
                        0 <= k < requests@.len() implies requests@[k].app_id
                        == apps@[k].installed_app_id && (
                    requests@[k].reason matches DisabledAppReason::Error(text) && text@
                        == "holochain_runtime/network_shutdown"@) by {}
                }
            },
            _ => {},
        }
    }
}

} // verus!
