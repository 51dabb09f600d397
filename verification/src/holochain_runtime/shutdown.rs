//! Shutting the conductor down.
use super::{is_admin_connect, AdminConnect, HolochainRuntime};
use crate::apps::{
    apps_to_disable, disables_all, law_shutdown_leaves_apps_for_the_next_launch, AppInfo,
    AppStatusFilter, DisableApp, DisabledAppReason,
};
use crate::error::Error;
use vstd::pervasive::cloned;
use vstd::prelude::*;

verus! {

/// Where a shutdown is: the call to make next, or how it ended.
#[derive(Debug, PartialEq)]
pub enum Shutdown<C> {
    /// Connect to the admin interface.
    ConnectAdmin { connect: AdminConnect, conductor: C },
    /// List the apps that pass the filter.
    ListApps { filter: AppStatusFilter, conductor: C },
    /// Have the conductor disable the apps, so that their cells leave the network.
    DisableApps { requests: Vec<DisableApp>, conductor: C },
    /// Stop the conductor.
    StopConductor { conductor: C },
    /// The shutdown is over.
    Done(Result<(), Error>),
}

/// What came of a call.
#[derive(Debug, PartialEq)]
pub enum ShutdownEvent {
    AdminConnected(Result<(), String>),
    AppsListed(Result<Vec<AppInfo>, Error>),
    /// Every app was asked to be disabled, with success or without.
    AppsDisabled,
    /// The task that stops the conductor was lost, or it ended with or without success.
    ConductorStopped(Result<Result<(), String>, String>),
}

/// The event tells what came of the call that the shutdown is at.
pub open spec fn answers<C>(shutdown: Shutdown<C>, event: ShutdownEvent) -> bool {
    match shutdown {
        Shutdown::ConnectAdmin { .. } => event is AdminConnected,
        Shutdown::ListApps { .. } => event is AppsListed,
        Shutdown::DisableApps { .. } => event is AppsDisabled,
        Shutdown::StopConductor { .. } => event is ConductorStopped,
        Shutdown::Done(_) => false,
    }
}

/// Where a shutdown of the runtime, and so of its conductor, begins.
pub open spec fn is_beginning<P, K, S, C: Clone>(
    shutdown: Shutdown<C>,
    runtime: HolochainRuntime<P, K, S, C>,
) -> bool {
    &&& shutdown matches Shutdown::ConnectAdmin { connect, conductor }
    &&& is_admin_connect(connect, runtime.admin_port)
    &&& cloned(runtime.conductor_handle, conductor)
}

/// `next` is where the shutdown is after the event. An event that does not answer the call that
/// the shutdown is at leaves it there.
pub open spec fn steps<C>(shutdown: Shutdown<C>, event: ShutdownEvent, next: Shutdown<C>) -> bool {
    match (shutdown, event) {
        (
            Shutdown::ConnectAdmin { conductor, .. },
            ShutdownEvent::AdminConnected(connected),
        ) => match connected {
            Ok(()) => next == (Shutdown::ListApps { filter: AppStatusFilter::Enabled, conductor }),
            Err(cause) => next == Shutdown::<C>::Done(Err(Error::WebsocketConnectionError(cause))),
        },
        (
            Shutdown::ListApps { conductor, .. },
            ShutdownEvent::AppsListed(listed),
        ) => match listed {
            Ok(apps) => {
                &&& next matches Shutdown::DisableApps { requests, conductor: kept }
                &&& disables_all(requests@, apps@)
                &&& kept == conductor
            },
            Err(error) => next == Shutdown::<C>::Done(Err(error)),
        },
        (Shutdown::DisableApps { conductor, .. }, ShutdownEvent::AppsDisabled) => next == (
        Shutdown::StopConductor { conductor }),
        (
            Shutdown::StopConductor { .. },
            ShutdownEvent::ConductorStopped(stopped),
        ) => match stopped {
            Ok(Ok(())) => next == Shutdown::<C>::Done(Ok(())),
            Ok(Err(cause)) => next == Shutdown::<C>::Done(
                Err(Error::HolochainShutdownError(cause)),
            ),
            Err(cause) => next == Shutdown::<C>::Done(Err(Error::HolochainShutdownError(cause))),
        },
        _ => next == shutdown,
    }
}

impl<C> Shutdown<C> {
    /// Takes what came of the call that the shutdown is at, and gives where it is then.
    pub fn advance(self, event: ShutdownEvent) -> (next: Shutdown<C>)
        ensures
            steps(self, event, next),
    {
        match (self, event) {
            (
                Shutdown::ConnectAdmin { conductor, .. },
                ShutdownEvent::AdminConnected(connected),
            ) => match connected {
                Ok(()) => Shutdown::ListApps { filter: AppStatusFilter::Enabled, conductor },
                Err(cause) => Shutdown::Done(Err(Error::WebsocketConnectionError(cause))),
            },
            (
                Shutdown::ListApps { conductor, .. },
                ShutdownEvent::AppsListed(listed),
            ) => match listed {
                Ok(apps) => Shutdown::DisableApps { requests: apps_to_disable(&apps), conductor },
                Err(error) => Shutdown::Done(Err(error)),
            },
            (
                Shutdown::DisableApps { conductor, .. },
                ShutdownEvent::AppsDisabled,
            ) => Shutdown::StopConductor { conductor },
            (
                Shutdown::StopConductor { .. },
                ShutdownEvent::ConductorStopped(stopped),
            ) => match stopped {
                Ok(Ok(())) => Shutdown::Done(Ok(())),
                Ok(Err(cause)) => Shutdown::Done(Err(Error::HolochainShutdownError(cause))),
                Err(cause) => Shutdown::Done(Err(Error::HolochainShutdownError(cause))),
            },
            (shutdown, _) => shutdown,
        }
    }
}

impl<P, K, S, C: Clone> HolochainRuntime<P, K, S, C> {
    /// Begins to shut the conductor down, with all enabled apps taken off their networks first.
    pub fn shutdown(&self) -> (shutdown: Shutdown<C>)
        ensures
            is_beginning(shutdown, *self),
    {
        Shutdown::ConnectAdmin {
            connect: self.admin_websocket(),
            conductor: self.conductor_handle.clone(),
        }
    }

    /// Begins to shut the conductor down while the keystore goes on running.
    pub fn shutdown_conductor_only(&self) -> (shutdown: Shutdown<C>)
        ensures
            is_beginning(shutdown, *self),
    {
        Shutdown::ConnectAdmin {
            connect: self.admin_websocket(),
            conductor: self.conductor_handle.clone(),
        }
    }
}

/// The states that a shutdown goes through, and the events that take it from each to the next.
pub open spec fn is_run<C>(states: Seq<Shutdown<C>>, events: Seq<ShutdownEvent>) -> bool {
    &&& states.len() == events.len() + 1
    &&& forall|i: int|
        0 <= i < events.len() ==> steps(states[i], #[trigger] events[i], states[i + 1])
}

/// Before the conductor is stopped, every app that was listed as enabled is asked to be disabled,
/// with the reason that the next launch knows it by.
pub proof fn law_apps_leave_their_networks_before_the_conductor_stops<P, K, S, C: Clone>(
    runtime: HolochainRuntime<P, K, S, C>,
    states: Seq<Shutdown<C>>,
    events: Seq<ShutdownEvent>,
    i: int,
)
    requires
        is_run(states, events),
        is_beginning(states[0], runtime),
        0 <= i < states.len(),
        states[i] is StopConductor,
    ensures
        exists|j: int, apps: Vec<AppInfo>|
            {
                &&& 0 <= j < i - 1
                &&& #[trigger] states[j] matches Shutdown::ListApps { filter, .. } && filter
                    == AppStatusFilter::Enabled
                &&& events[j] == ShutdownEvent::AppsListed(Ok(apps))
                &&& states[j + 1] matches Shutdown::DisableApps { requests, .. } && disables_all(
                    requests@,
                    #[trigger] apps@,
                )
            },
    decreases i,
{
    assert(i > 0);
    assert(steps(states[i - 1], events[i - 1], states[i]));
    if states[i - 1] is StopConductor {
        law_apps_leave_their_networks_before_the_conductor_stops(runtime, states, events, i - 1);
    } else {
        assert(states[i - 1] is DisableApps);
        lemma_apps_were_listed(runtime, states, events, i - 1);
    }
}

proof fn lemma_apps_were_listed<P, K, S, C: Clone>(
    runtime: HolochainRuntime<P, K, S, C>,
    states: Seq<Shutdown<C>>,
    events: Seq<ShutdownEvent>,
    i: int,
)
    requires
        is_run(states, events),
        is_beginning(states[0], runtime),
        0 <= i < states.len(),
        states[i] is DisableApps,
    ensures
        exists|j: int, apps: Vec<AppInfo>|
            {
                &&& 0 <= j < i
                &&& #[trigger] states[j] matches Shutdown::ListApps { filter, .. } && filter
                    == AppStatusFilter::Enabled
                &&& events[j] == ShutdownEvent::AppsListed(Ok(apps))
                &&& states[j + 1] matches Shutdown::DisableApps { requests, .. } && disables_all(
                    requests@,
                    #[trigger] apps@,
                )
            },
    decreases i,
{
    assert(i > 0);
    assert(steps(states[i - 1], events[i - 1], states[i]));
    if states[i - 1] is DisableApps {
        lemma_apps_were_listed(runtime, states, events, i - 1);
    } else {
        lemma_enabled_apps_are_listed(runtime, states, events, i - 1);
        let apps = events[i - 1]->AppsListed_0->Ok_0;
        assert(events[i - 1] == ShutdownEvent::AppsListed(Ok(apps)));
        assert(states[i - 1 + 1] == states[i]);
        assert(disables_all(states[i]->requests@, apps@));
    }
}

proof fn lemma_enabled_apps_are_listed<P, K, S, C: Clone>(
    runtime: HolochainRuntime<P, K, S, C>,
    states: Seq<Shutdown<C>>,
    events: Seq<ShutdownEvent>,
    i: int,
)
    requires
        is_run(states, events),
        is_beginning(states[0], runtime),
        0 <= i < states.len(),
        states[i] is ListApps,
    ensures
        states[i] matches Shutdown::ListApps { filter, .. } && filter == AppStatusFilter::Enabled,
    decreases i,
{
    if i > 0 {
        assert(steps(states[i - 1], events[i - 1], states[i]));
        if states[i - 1] is ListApps {
            lemma_enabled_apps_are_listed(runtime, states, events, i - 1);
        }
    }
}

/// An app that cannot be disabled does not keep the conductor from being stopped, and the shutdown
/// succeeds exactly where the conductor stopped with success.
pub proof fn law_shutdown_succeeds_with_the_conductor_stopped<C>(
    shutdown: Shutdown<C>,
    event: ShutdownEvent,
    next: Shutdown<C>,
)
    requires
        steps(shutdown, event, next),
        !(shutdown is Done),
    ensures
        shutdown is DisableApps && answers(shutdown, event) ==> next is StopConductor,
        (next matches Shutdown::Done(Ok(_))) <==> shutdown is StopConductor && (
        event matches ShutdownEvent::ConductorStopped(Ok(Ok(_)))),
{
}

/// The conductor that the shutdown is of, until it is over.
pub open spec fn conductor_of<C>(shutdown: Shutdown<C>) -> Option<C> {
    match shutdown {
        Shutdown::ConnectAdmin { conductor, .. } => Some(conductor),
        Shutdown::ListApps { conductor, .. } => Some(conductor),
        Shutdown::DisableApps { conductor, .. } => Some(conductor),
        Shutdown::StopConductor { conductor } => Some(conductor),
        Shutdown::Done(_) => None,
    }
}

/// The apps are disabled on the conductor of the runtime, and it is that conductor which is
/// stopped.
pub proof fn law_shutdown_is_of_the_conductor_of_the_runtime<P, K, S, C: Clone>(
    runtime: HolochainRuntime<P, K, S, C>,
    states: Seq<Shutdown<C>>,
    events: Seq<ShutdownEvent>,
    i: int,
)
    requires
        is_run(states, events),
        is_beginning(states[0], runtime),
        0 <= i < states.len(),
    ensures
        conductor_of(states[i]) matches Some(conductor) ==> cloned(
            runtime.conductor_handle,
            conductor,
        ),
    decreases i,
{
    if i > 0 {
        law_shutdown_is_of_the_conductor_of_the_runtime(runtime, states, events, i - 1);
        assert(steps(states[i - 1], events[i - 1], states[i]));
    }
}

/// An event that answers no call of a shutdown changes nothing.
pub proof fn law_stray_event_does_not_change_a_shutdown<C>(
    shutdown: Shutdown<C>,
    event: ShutdownEvent,
    next: Shutdown<C>,
)
    requires
        steps(shutdown, event, next),
        !answers(shutdown, event),
    ensures
        next == shutdown,
{
}

/// A shutdown is over after four calls, or with the first that fails: the admin interface is
/// reached; the enabled apps are listed; every one of them is asked to be disabled, with the error
/// that stands for the shutdown of the network, also where there is none or where some fail; and
/// the conductor is stopped. It ends with success exactly where the conductor stopped with success.
pub proof fn law_shutdown_is_over_after_four_calls<P, K, S, C: Clone>(
    runtime: HolochainRuntime<P, K, S, C>,
    states: Seq<Shutdown<C>>,
    events: Seq<ShutdownEvent>,
    i: int,
)
    requires
        is_run(states, events),
        is_beginning(states[0], runtime),
        forall|j: int| 0 <= j < events.len() ==> answers(states[j], #[trigger] events[j]),
        0 <= i < states.len(),
    ensures
        i <= 4,
        match states[i] {
            Shutdown::ConnectAdmin { connect, conductor } => i == 0 && is_admin_connect(
                connect,
                runtime.admin_port,
            ) && cloned(runtime.conductor_handle, conductor),
            Shutdown::ListApps { filter, conductor } => i == 1 && filter is Enabled && cloned(
                runtime.conductor_handle,
                conductor,
            ) && (events[0] matches ShutdownEvent::AdminConnected(Ok(_))),
            Shutdown::DisableApps { requests, conductor } => i == 2 && cloned(
                runtime.conductor_handle,
                conductor,
            ) && (events[1] matches ShutdownEvent::AppsListed(Ok(apps)) && requests@.len()
                == apps@.len() && forall|k: int| #![trigger requests@[k]]
                0 <= k < requests@.len() ==> requests@[k].app_id == apps@[k].installed_app_id && (
                requests@[k].reason matches DisabledAppReason::Error(text) && text@
                    == "holochain_runtime/network_shutdown"@)),
            Shutdown::StopConductor { conductor } => i == 3 && cloned(
                runtime.conductor_handle,
                conductor,
            ),
            Shutdown::Done(Ok(_)) => i == 4 && (events[3] matches ShutdownEvent::ConductorStopped(
                Ok(Ok(_)),
            )),
            Shutdown::Done(Err(error)) => i > 0 && match events[i - 1] {
                ShutdownEvent::AdminConnected(Err(cause)) => error
                    == Error::WebsocketConnectionError(cause),
                ShutdownEvent::AppsListed(Err(e)) => error == e,
                ShutdownEvent::ConductorStopped(Err(cause)) => error
                    == Error::HolochainShutdownError(cause),
                ShutdownEvent::ConductorStopped(Ok(Err(cause))) => error
                    == Error::HolochainShutdownError(cause),
                _ => false,
            },
        },
    decreases i,
{
    if i > 0 {
        law_shutdown_is_over_after_four_calls(runtime, states, events, i - 1);
        assert(steps(states[i - 1], events[i - 1], states[i]));
        assert(answers(states[i - 1], events[i - 1]));
        if let Shutdown::DisableApps { requests, .. } = states[i] {
            let apps = events[i - 1]->AppsListed_0->Ok_0;
            law_shutdown_leaves_apps_for_the_next_launch(requests@, apps@);
            assert forall|k: int| #![trigger requests@[k]]
                0 <= k < requests@.len() implies requests@[k].app_id == apps@[k].installed_app_id
                && (requests@[k].reason matches DisabledAppReason::Error(text) && text@
                == "holochain_runtime/network_shutdown"@) by {}
        }
    }
}

} // verus!
