//! Launching a runtime, and enabling again the apps that a shutdown disabled.
use super::{is_admin_connect, AdminConnect, HolochainRuntime};
use crate::apps::{
    apps_to_reenable, are_ids_at, is_left_by_shutdown,
    law_launch_enables_what_is_left_by_a_shutdown, reenabled_ids, AppInfo, AppStatusFilter,
};
use crate::config::HolochainRuntimeConfig;
use crate::error::Error;
use crate::launch::laws::{
    law_launch_moves_forward, law_one_keystore_serves_the_conductor_and_the_runtime,
    lemma_step_obeys, obeys, runtime_obeys, was_built, was_spawned,
};
use crate::launch::{beginning, launch_holochain_runtime, LaunchEvent, LaunchRuntime};
use vstd::prelude::*;

verus! {

/// Where a launch is: the call to make next, or how it ended.
#[derive(Debug, PartialEq)]
pub enum Launch<P, K, S, C> {
    /// Get the conductor running.
    Build(LaunchRuntime<P, K, S, C>),
    /// Connect to the admin interface.
    ConnectAdmin { connect: AdminConnect, runtime: HolochainRuntime<P, K, S, C> },
    /// List the apps that pass the filter.
    ListApps { filter: AppStatusFilter, runtime: HolochainRuntime<P, K, S, C> },
    /// Enable the apps.
    EnableApps { app_ids: Vec<String>, runtime: HolochainRuntime<P, K, S, C> },
    /// The launch is over.
    Done(Result<HolochainRuntime<P, K, S, C>, Error>),
}

/// What came of a call.
#[derive(Debug, PartialEq)]
pub enum StartEvent<K, S, C> {
    Build(LaunchEvent<K, S, C>),
    AdminConnected(Result<(), String>),
    AppsListed(Result<Vec<AppInfo>, Error>),
    /// Every app was asked to be enabled, with success or without.
    AppsEnabled,
}

/// Where the launch is once the conductor's own launch is at `built`.
pub open spec fn goes_on<P, K, S, C>(
    built: LaunchRuntime<P, K, S, C>,
    next: Launch<P, K, S, C>,
) -> bool {
    match built {
        LaunchRuntime::Done(Ok(runtime)) => {
            &&& next matches Launch::ConnectAdmin { connect, runtime: kept }
            &&& is_admin_connect(connect, runtime.admin_port)
            &&& kept == runtime
        },
        LaunchRuntime::Done(Err(error)) => next == Launch::<P, K, S, C>::Done(Err(error)),
        _ => next == Launch::<P, K, S, C>::Build(built),
    }
}

/// `next` is where the launch is after the event. An event that does not answer the call that the
/// launch is at leaves it there.
pub open spec fn steps<P, K, S, C>(
    launch: Launch<P, K, S, C>,
    event: StartEvent<K, S, C>,
    next: Launch<P, K, S, C>,
) -> bool {
    match (launch, event) {
        (Launch::Build(building), StartEvent::Build(event)) => exists|
            built: LaunchRuntime<P, K, S, C>,
        |
            #[trigger] crate::launch::steps(building, event, built) && goes_on(built, next),
        (
            Launch::ConnectAdmin { runtime, .. },
            StartEvent::AdminConnected(connected),
        ) => match connected {
            Ok(()) => next == (Launch::<P, K, S, C>::ListApps {
                filter: AppStatusFilter::Disabled,
                runtime,
            }),
            Err(cause) => next == Launch::<P, K, S, C>::Done(
                Err(Error::WebsocketConnectionError(cause)),
            ),
        },
        (Launch::ListApps { runtime, .. }, StartEvent::AppsListed(listed)) => match listed {
            Ok(apps) => if reenabled_ids(apps@).len() == 0 {
                next == Launch::<P, K, S, C>::Done(Ok(runtime))
            } else {
                &&& next matches Launch::EnableApps { app_ids, runtime: kept }
                &&& app_ids@ == reenabled_ids(apps@)
                &&& kept == runtime
            },
            Err(error) => next == Launch::<P, K, S, C>::Done(Err(error)),
        },
        (
            Launch::EnableApps { runtime, .. },
            StartEvent::AppsEnabled,
        ) => next == Launch::<P, K, S, C>::Done(Ok(runtime)),
        _ => next == launch,
    }
}

impl<P, K, S, C> Launch<P, K, S, C> {
    /// Takes what came of the call that the launch is at, and gives where it is then.
    pub fn advance(self, event: StartEvent<K, S, C>) -> (next: Launch<P, K, S, C>)
        ensures
            steps(self, event, next),
    {
        match (self, event) {
            (Launch::Build(building), StartEvent::Build(event)) => {
                let built = building.advance(event);
                match built {
                    LaunchRuntime::Done(Ok(runtime)) => {
                        let connect = runtime.admin_websocket();
                        Launch::ConnectAdmin { connect, runtime }
                    },
                    LaunchRuntime::Done(Err(error)) => Launch::Done(Err(error)),
                    building => Launch::Build(building),
                }
            },
            (
                Launch::ConnectAdmin { runtime, .. },
                StartEvent::AdminConnected(connected),
            ) => match connected {
                Ok(()) => Launch::ListApps { filter: AppStatusFilter::Disabled, runtime },
                Err(cause) => Launch::Done(Err(Error::WebsocketConnectionError(cause))),
            },
            (Launch::ListApps { runtime, .. }, StartEvent::AppsListed(listed)) => match listed {
                Ok(apps) => {
                    let app_ids: Vec<String> = apps_to_reenable(&apps);
                    if app_ids.len() == 0 {
                        Launch::Done(Ok(runtime))
                    } else {
                        Launch::EnableApps { app_ids, runtime }
                    }
                },
                Err(error) => Launch::Done(Err(error)),
            },
            (Launch::EnableApps { runtime, .. }, StartEvent::AppsEnabled) => Launch::Done(
                Ok(runtime),
            ),
            (launch, _) => launch,
        }
    }
}

impl<P, K, S, C> HolochainRuntime<P, K, S, C> {
    /// Begins to launch a runtime.
    pub fn launch(
        passphrase: P,
        config: HolochainRuntimeConfig,
    ) -> (launch: Launch<P, K, S, C>)
        ensures
            launch == Launch::Build(beginning::<P, K, S, C>(passphrase, config)),
    {
        Launch::Build(launch_holochain_runtime(passphrase, config))
    }
}

/// The states that a launch goes through, and the events that take it from each to the next.
pub open spec fn is_run<P, K, S, C>(
    states: Seq<Launch<P, K, S, C>>,
    events: Seq<StartEvent<K, S, C>>,
) -> bool {
    &&& states.len() == events.len() + 1
    &&& forall|i: int|
        0 <= i < events.len() ==> steps(states[i], #[trigger] events[i], states[i + 1])
}

/// Before the `i`-th state the disabled apps were listed, and these are the ids of those that a
/// shutdown had disabled.
pub open spec fn were_disabled_by_shutdown<P, K, S, C>(
    states: Seq<Launch<P, K, S, C>>,
    events: Seq<StartEvent<K, S, C>>,
    i: int,
    app_ids: Seq<String>,
) -> bool {
    exists|j: int|
        {
            &&& 0 <= j < i
            &&& states[j] matches Launch::ListApps { filter, .. } && filter
                == AppStatusFilter::Disabled
            &&& #[trigger] events[j] matches StartEvent::AppsListed(Ok(apps)) && app_ids
                == reenabled_ids(apps@)
        }
}

/// A launch does what it was configured to do, from its first call to the runtime that it ends
/// with, and the apps that it enables are exactly those that a shutdown had disabled.
pub proof fn law_launch_gives_the_configured_runtime<P, K, S, C>(
    passphrase: P,
    config: HolochainRuntimeConfig,
    states: Seq<Launch<P, K, S, C>>,
    events: Seq<StartEvent<K, S, C>>,
    i: int,
)
    requires
        is_run(states, events),
        states[0] == Launch::Build(beginning::<P, K, S, C>(passphrase, config)),
        0 <= i < states.len(),
    ensures
        match states[i] {
            Launch::Build(building) => obeys(config, building) && !(building is Done),
            Launch::ConnectAdmin { connect, runtime } => runtime_obeys(config, runtime)
                && is_admin_connect(connect, runtime.admin_port),
            Launch::ListApps { filter, runtime } => runtime_obeys(config, runtime) && filter
                == AppStatusFilter::Disabled,
            Launch::EnableApps { app_ids, runtime } => runtime_obeys(config, runtime)
                && were_disabled_by_shutdown(states, events, i, app_ids@),
            Launch::Done(Ok(runtime)) => runtime_obeys(config, runtime),
            Launch::Done(Err(_)) => true,
        },
    decreases i,
{
    if i > 0 {
        law_launch_gives_the_configured_runtime(passphrase, config, states, events, i - 1);
        let event = events[i - 1];
        assert(steps(states[i - 1], event, states[i]));
        match (states[i - 1], event) {
            (Launch::Build(building), StartEvent::Build(event)) => {
                let built = choose|built: LaunchRuntime<P, K, S, C>|
                    #[trigger] crate::launch::steps(building, event, built) && goes_on(
                        built,
                        states[i],
                    );
                lemma_step_obeys(config, building, event, built);
            },
            _ => {},
        }
    }
}

/// Where the launch of the conductor is that a launch is or was about; over, once the conductor
/// runs.
pub open spec fn conductor_launch<P, K, S, C>(
    launch: Launch<P, K, S, C>,
) -> Option<LaunchRuntime<P, K, S, C>> {
    match launch {
        Launch::Build(building) => Some(building),
        Launch::ConnectAdmin { runtime, .. } => Some(LaunchRuntime::Done(Ok(runtime))),
        Launch::ListApps { runtime, .. } => Some(LaunchRuntime::Done(Ok(runtime))),
        Launch::EnableApps { runtime, .. } => Some(LaunchRuntime::Done(Ok(runtime))),
        Launch::Done(Ok(runtime)) => Some(LaunchRuntime::Done(Ok(runtime))),
        Launch::Done(Err(_)) => None,
    }
}

/// The states and events are a launch of the conductor with the passphrase and the configuration,
/// as far as `reached`.
pub open spec fn is_run_to<P, K, S, C>(
    passphrase: P,
    config: HolochainRuntimeConfig,
    states: Seq<LaunchRuntime<P, K, S, C>>,
    events: Seq<LaunchEvent<K, S, C>>,
    reached: LaunchRuntime<P, K, S, C>,
) -> bool {
    &&& crate::launch::laws::is_run(states, events)
    &&& states[0] == beginning::<P, K, S, C>(passphrase, config)
    &&& states.last() == reached
}

/// The runtime that a launch ends with is one that a launch of the conductor ended with, with the
/// same passphrase and configuration, so that whatever holds of all of those holds of it. It keeps
/// the passphrase, both handles of the keystore that was spawned with it, and the conductor that
/// was started with that passphrase and that keystore.
pub proof fn law_launch_holds_a_launch_of_the_conductor<P, K, S, C>(
    passphrase: P,
    config: HolochainRuntimeConfig,
    states: Seq<Launch<P, K, S, C>>,
    events: Seq<StartEvent<K, S, C>>,
    i: int,
)
    requires
        is_run(states, events),
        states[0] == Launch::Build(beginning::<P, K, S, C>(passphrase, config)),
        0 <= i < states.len(),
    ensures
        conductor_launch(states[i]) matches Some(reached) ==> exists|
            inner: Seq<LaunchRuntime<P, K, S, C>>,
            replies: Seq<LaunchEvent<K, S, C>>,
        | #[trigger]
            is_run_to(passphrase, config, inner, replies, reached),
        states[i] matches Launch::Done(Ok(runtime)) ==> exists|
            inner: Seq<LaunchRuntime<P, K, S, C>>,
            replies: Seq<LaunchEvent<K, S, C>>,
        |
            {
                &&& #[trigger] is_run_to(
                    passphrase,
                    config,
                    inner,
                    replies,
                    LaunchRuntime::Done(Ok(runtime)),
                )
                &&& was_spawned(inner, replies, inner.len() - 1, passphrase, runtime.lair)
                &&& was_built(
                    inner,
                    replies,
                    inner.len() - 1,
                    runtime.lair,
                    runtime.conductor_handle,
                )
            },
    decreases i,
{
    if i == 0 {
        let inner = seq![beginning::<P, K, S, C>(passphrase, config)];
        let replies = Seq::<LaunchEvent<K, S, C>>::empty();
        assert(is_run_to(passphrase, config, inner, replies, inner[0]));
    } else {
        law_launch_holds_a_launch_of_the_conductor(passphrase, config, states, events, i - 1);
        let event = events[i - 1];
        assert(steps(states[i - 1], event, states[i]));
        if conductor_launch(states[i]) is Some {
            let before = conductor_launch(states[i - 1])->0;
            let (inner, replies) = choose|
                inner: Seq<LaunchRuntime<P, K, S, C>>,
                replies: Seq<LaunchEvent<K, S, C>>,
            | #[trigger]
                is_run_to(passphrase, config, inner, replies, before);
            if states[i - 1] is Build && event is Build {
                let built = choose|built: LaunchRuntime<P, K, S, C>|
                    #[trigger] crate::launch::steps(before, event->Build_0, built) && goes_on(
                        built,
                        states[i],
                    );
                let longer = inner.push(built);
                let more = replies.push(event->Build_0);
                assert forall|k: int| 0 <= k < more.len() implies crate::launch::steps(
                    longer[k],
                    #[trigger] more[k],
                    longer[k + 1],
                ) by {
                    if k < replies.len() {
                        assert(more[k] == replies[k]);
                    }
                }
                assert(is_run_to(passphrase, config, longer, more, built));
            }
        }
    }
    if let Launch::Done(Ok(runtime)) = states[i] {
        let reached = LaunchRuntime::<P, K, S, C>::Done(Ok(runtime));
        let (inner, replies) = choose|
            inner: Seq<LaunchRuntime<P, K, S, C>>,
            replies: Seq<LaunchEvent<K, S, C>>,
        | #[trigger]
            is_run_to(passphrase, config, inner, replies, reached);
        law_one_keystore_serves_the_conductor_and_the_runtime(
            passphrase,
            config,
            inner,
            replies,
            inner.len() - 1,
        );
    }
}

/// Once the conductor runs, the launch ends with exactly that runtime, unless the admin interface
/// cannot be reached or does not list the apps; failures to enable an app do not matter.
pub proof fn law_launch_ends_with_the_runtime_that_was_built<P, K, S, C>(
    launch: Launch<P, K, S, C>,
    runtime: HolochainRuntime<P, K, S, C>,
    event: StartEvent<K, S, C>,
    next: Launch<P, K, S, C>,
)
    requires
        steps(launch, event, next),
        ({
            ||| launch matches Launch::ConnectAdmin { runtime: r, .. } && r == runtime
            ||| launch matches Launch::ListApps { runtime: r, .. } && r == runtime
            ||| launch matches Launch::EnableApps { runtime: r, .. } && r == runtime
        }),
    ensures
        match next {
            Launch::Build(_) => false,
            Launch::ConnectAdmin { runtime: r, .. } => r == runtime,
            Launch::ListApps { runtime: r, .. } => r == runtime,
            Launch::EnableApps { runtime: r, .. } => r == runtime,
            Launch::Done(Ok(r)) => r == runtime,
            Launch::Done(Err(_)) => {
                ||| event matches StartEvent::AdminConnected(Err(_))
                ||| event matches StartEvent::AppsListed(Err(_))
            },
        },
{
}

/// The event tells what came of the call that the launch is at.
pub open spec fn answers<P, K, S, C>(
    launch: Launch<P, K, S, C>,
    event: StartEvent<K, S, C>,
) -> bool {
    match (launch, event) {
        (Launch::Build(building), StartEvent::Build(event)) => crate::launch::answers(
            building,
            event,
        ),
        (Launch::ConnectAdmin { .. }, StartEvent::AdminConnected(_)) => true,
        (Launch::ListApps { .. }, StartEvent::AppsListed(_)) => true,
        (Launch::EnableApps { .. }, StartEvent::AppsEnabled) => true,
        _ => false,
    }
}

/// An event that answers no call of a launch changes nothing.
pub proof fn law_stray_event_does_not_change_a_launch<P, K, S, C>(
    launch: Launch<P, K, S, C>,
    event: StartEvent<K, S, C>,
    next: Launch<P, K, S, C>,
)
    requires
        steps(launch, event, next),
        launch matches Launch::Build(building) ==> !(building is Done),
        !answers(launch, event),
    ensures
        next == launch,
{
    if let (Launch::Build(building), StartEvent::Build(answer)) = (launch, event) {
        let built = choose|built: LaunchRuntime<P, K, S, C>|
            #[trigger] crate::launch::steps(building, answer, built) && goes_on(built, next);
        law_launch_moves_forward(building, answer, built);
    }
}

/// The first `i` events of a launch are answers to the calls of a launch of the conductor, which is
/// then at `reached`.
pub open spec fn has_reached<P, K, S, C>(
    passphrase: P,
    config: HolochainRuntimeConfig,
    events: Seq<StartEvent<K, S, C>>,
    i: int,
    inner: Seq<LaunchRuntime<P, K, S, C>>,
    replies: Seq<LaunchEvent<K, S, C>>,
    reached: LaunchRuntime<P, K, S, C>,
) -> bool {
    &&& is_run_to(passphrase, config, inner, replies, reached)
    &&& replies.len() == i
    &&& forall|k: int|
        0 <= k < i ==> events[k] == StartEvent::Build(#[trigger] replies[k])
            && crate::launch::answers(inner[k], replies[k])
}

/// A launch is first of all a launch of the conductor, call by call. Where that ends with a
/// runtime, the admin interface of the runtime is reached next; where it fails, the launch fails
/// with the same error.
pub proof fn law_launch_begins_with_the_conductor<P, K, S, C>(
    passphrase: P,
    config: HolochainRuntimeConfig,
    states: Seq<Launch<P, K, S, C>>,
    events: Seq<StartEvent<K, S, C>>,
    i: int,
)
    requires
        is_run(states, events),
        states[0] == Launch::Build(beginning::<P, K, S, C>(passphrase, config)),
        forall|j: int| 0 <= j < events.len() ==> answers(states[j], #[trigger] events[j]),
        0 <= i < states.len(),
        i > 0 ==> states[i - 1] is Build,
    ensures
        exists|
            inner: Seq<LaunchRuntime<P, K, S, C>>,
            replies: Seq<LaunchEvent<K, S, C>>,
            reached: LaunchRuntime<P, K, S, C>,
        |
            {
                &&& #[trigger] has_reached(
                    passphrase,
                    config,
                    events,
                    i,
                    inner,
                    replies,
                    reached,
                )
                &&& match reached {
                    LaunchRuntime::Done(Ok(runtime)) => states[i] matches Launch::ConnectAdmin {
                        connect,
                        runtime: kept,
                    } && kept == runtime && is_admin_connect(connect, runtime.admin_port),
                    LaunchRuntime::Done(Err(error)) => states[i] == Launch::<P, K, S, C>::Done(
                        Err(error),
                    ),
                    _ => states[i] == Launch::<P, K, S, C>::Build(reached),
                }
            },
    decreases i,
{
    if i == 0 {
        let inner = seq![beginning::<P, K, S, C>(passphrase, config)];
        let replies = Seq::<LaunchEvent<K, S, C>>::empty();
        assert(has_reached(passphrase, config, events, 0, inner, replies, inner[0]));
    } else {
        assert(steps(states[i - 1], events[i - 1], states[i]));
        assert(answers(states[i - 1], events[i - 1]));
        if i > 1 {
            assert(steps(states[i - 2], events[i - 2], states[i - 1]));
        }
        law_launch_begins_with_the_conductor(passphrase, config, states, events, i - 1);
        let (inner, replies, before) = choose|
            inner: Seq<LaunchRuntime<P, K, S, C>>,
            replies: Seq<LaunchEvent<K, S, C>>,
            reached: LaunchRuntime<P, K, S, C>,
        |
            {
                &&& #[trigger] has_reached(
                    passphrase,
                    config,
                    events,
                    i - 1,
                    inner,
                    replies,
                    reached,
                )
                &&& match reached {
                    LaunchRuntime::Done(Ok(_)) => states[i - 1] is ConnectAdmin,
                    LaunchRuntime::Done(Err(_)) => states[i - 1] is Done,
                    _ => states[i - 1] == Launch::<P, K, S, C>::Build(reached),
                }
            };
        let event = events[i - 1]->Build_0;
        let built = choose|built: LaunchRuntime<P, K, S, C>|
            #[trigger] crate::launch::steps(before, event, built) && goes_on(built, states[i]);
        let longer = inner.push(built);
        let more = replies.push(event);
        assert forall|k: int| 0 <= k < more.len() implies crate::launch::steps(
            longer[k],
            #[trigger] more[k],
            longer[k + 1],
        ) && events[k] == StartEvent::Build(more[k]) && crate::launch::answers(
            longer[k],
            more[k],
        ) by {
            if k < replies.len() {
                assert(more[k] == replies[k]);
            }
        }
        assert(has_reached(passphrase, config, events, i, longer, more, built));
    }
}

/// The ids are those of the apps that a shutdown left disabled, each once and in the order of the
/// list, and no others.
pub open spec fn are_left_by_shutdown(app_ids: Seq<String>, apps: Seq<AppInfo>) -> bool {
    exists|at: Seq<int>|
        {
            &&& #[trigger] are_ids_at(app_ids, apps, at)
            &&& forall|k: int| 0 <= k < at.len() ==> is_left_by_shutdown(apps[#[trigger] at[k]])
            &&& forall|i: int|
                0 <= i < apps.len() && is_left_by_shutdown(#[trigger] apps[i]) ==> at.contains(i)
        }
}

/// Some app of the list was left disabled by a shutdown.
pub open spec fn has_left_by_shutdown(apps: Seq<AppInfo>) -> bool {
    exists|i: int| 0 <= i < apps.len() && is_left_by_shutdown(#[trigger] apps[i])
}

/// Once the conductor runs, a launch is over after at most three calls, or with the first that
/// fails: the admin interface is reached; the disabled apps are listed; and where a shutdown left
/// any of them disabled, exactly those are enabled, however many other apps are listed. It ends
/// with the runtime whose conductor runs; straight from the list only where a shutdown left no app
/// disabled.
pub proof fn law_launch_is_over_three_calls_after_the_conductor_runs<P, K, S, C>(
    states: Seq<Launch<P, K, S, C>>,
    events: Seq<StartEvent<K, S, C>>,
    connect: AdminConnect,
    runtime: HolochainRuntime<P, K, S, C>,
    b: int,
    i: int,
)
    requires
        is_run(states, events),
        forall|j: int| 0 <= j < events.len() ==> answers(states[j], #[trigger] events[j]),
        0 <= b <= i < states.len(),
        states[b] == (Launch::ConnectAdmin { connect, runtime }),
    ensures
        i <= b + 3,
        match states[i] {
            Launch::Build(_) => false,
            Launch::ConnectAdmin { .. } => i == b,
            Launch::ListApps { filter, runtime: r } => i == b + 1 && filter is Disabled && r
                == runtime && (events[b] matches StartEvent::AdminConnected(Ok(_))),
            Launch::EnableApps { app_ids, runtime: r } => i == b + 2 && r == runtime && (events[b
                + 1] matches StartEvent::AppsListed(Ok(apps)) && has_left_by_shutdown(apps@)
                && are_left_by_shutdown(app_ids@, apps@)),
            Launch::Done(Ok(r)) => r == runtime && (events[b + 1] matches StartEvent::AppsListed(
                Ok(apps),
            ) && if has_left_by_shutdown(apps@) {
                i == b + 3
            } else {
                i == b + 2
            }),
            Launch::Done(Err(error)) => i > b && match events[i - 1] {
                StartEvent::AdminConnected(Err(cause)) => error == Error::WebsocketConnectionError(
                    cause,
                ),
                StartEvent::AppsListed(Err(e)) => error == e,
                _ => false,
            },
        },
    decreases i,
{
    if i > b {
        law_launch_is_over_three_calls_after_the_conductor_runs(
            states,
            events,
            connect,
            runtime,
            b,
            i - 1,
        );
        assert(steps(states[i - 1], events[i - 1], states[i]));
        assert(answers(states[i - 1], events[i - 1]));
        if let StartEvent::AppsListed(Ok(apps)) = events[i - 1] {
            law_launch_enables_what_is_left_by_a_shutdown(apps@);
        }
    }
}

/// In every launch that ends with success, every app that was listed as one that a shutdown left
/// disabled was among the apps that the launch had enabled before its end.
pub proof fn law_launch_ends_only_once_the_apps_are_enabled<P, K, S, C>(
    states: Seq<Launch<P, K, S, C>>,
    events: Seq<StartEvent<K, S, C>>,
    j: int,
    apps: Vec<AppInfo>,
    k: int,
    i: int,
)
    requires
        is_run(states, events),
        0 <= j < i < states.len(),
        states[j] is ListApps,
        events[j] == StartEvent::<K, S, C>::AppsListed(Ok(apps)),
        0 <= k < apps@.len(),
        is_left_by_shutdown(apps@[k]),
        states[i] matches Launch::Done(Ok(_)),
    ensures
        exists|m: int|
            {
                &&& j < m < i
                &&& #[trigger] states[m] matches Launch::EnableApps { app_ids, .. }
                    && app_ids@.contains(apps@[k].installed_app_id)
                &&& events[m] is AppsEnabled
            },
{
    assert(steps(states[j], events[j], states[j + 1]));
    law_launch_enables_what_is_left_by_a_shutdown(apps@);
    let app_ids = states[j + 1]->app_ids;
    let at = choose|at: Seq<int>|
        {
            &&& #[trigger] are_ids_at(app_ids@, apps@, at)
            &&& forall|k: int| 0 <= k < at.len() ==> is_left_by_shutdown(apps@[#[trigger] at[k]])
            &&& forall|i: int|
                0 <= i < apps@.len() && is_left_by_shutdown(#[trigger] apps@[i]) ==> at.contains(i)
        };
    let place = choose|place: int| 0 <= place < at.len() && at[place] == k;
    assert(app_ids@[place] == apps@[k].installed_app_id);
    lemma_apps_are_enabled_before_the_end(states, events, j + 1, i);
}

/// A launch that is to enable apps, and ends, has had them enabled.
proof fn lemma_apps_are_enabled_before_the_end<P, K, S, C>(
    states: Seq<Launch<P, K, S, C>>,
    events: Seq<StartEvent<K, S, C>>,
    j: int,
    i: int,
)
    requires
        is_run(states, events),
        0 <= j <= i < states.len(),
        states[j] is EnableApps,
        states[i] is Done,
    ensures
        exists|m: int|
            j <= m < i && #[trigger] states[m] == states[j] && events[m] is AppsEnabled,
    decreases i - j,
{
    assert(steps(states[j], events[j], states[j + 1]));
    if !(events[j] is AppsEnabled) {
        assert(states[j + 1] == states[j]);
        lemma_apps_are_enabled_before_the_end(states, events, j + 1, i);
    }
}

} // verus!
