//! Installing an app from a bundle that holds the app alone, or the app with its UI.
//!
//! The bundles, the settings of the roles and what the conductor tells of an installed app are
//! carried through as they are, so they are type parameters: `W` a bundle with a UI, `B` a bundle
//! of an app, `R` the settings of the roles, `I` what is told of the installed app.
use super::{is_admin_connect, AdminConnect, HolochainRuntime};
use crate::agent_key::AgentPubKey;
use crate::error::Error;
use crate::paths::FileSystem;
use std::path::PathBuf;
use vstd::prelude::*;

verus! {

/// What an app is to be installed with.
#[derive(Debug, PartialEq, Eq)]
pub struct InstallOptions<R> {
    /// The id to give to the installed app.
    pub app_id: String,
    pub roles_settings: Option<R>,
    /// The agent to install the app for.
    pub agent: Option<AgentPubKey>,
    pub network_seed: Option<String>,
}

/// What the conductor is asked to install.
#[derive(Debug, PartialEq, Eq)]
pub struct InstallRequest<R> {
    pub bundle_path: PathBuf,
    pub options: InstallOptions<R>,
}

/// Where installing an app with a UI is: the call to make next, or how it ended.
#[derive(Debug, PartialEq)]
pub enum InstallWebApp<W, B, R, I> {
    /// Store the bundle among the files, under the id of the app.
    StoreBundle {
        files: FileSystem,
        web_bundle: W,
        options: InstallOptions<R>,
        connect: AdminConnect,
    },
    /// Take the bundle of the app out of the bundle with the UI.
    TakeHappBundle {
        files: FileSystem,
        web_bundle: W,
        options: InstallOptions<R>,
        connect: AdminConnect,
    },
    /// Find where among the files the bundle of the app is stored.
    LocateBundle {
        files: FileSystem,
        bundle: B,
        options: InstallOptions<R>,
        connect: AdminConnect,
    },
    /// Connect to the admin interface.
    ConnectAdmin { connect: AdminConnect, install: InstallRequest<R> },
    /// Install the app.
    Install { install: InstallRequest<R> },
    /// It is over.
    Done(Result<I, Error>),
}

/// Where installing an app is: the call to make next, or how it ended.
#[derive(Debug, PartialEq)]
pub enum InstallApp<B, R, I> {
    /// Connect to the admin interface.
    ConnectAdmin {
        connect: AdminConnect,
        files: FileSystem,
        bundle: B,
        options: InstallOptions<R>,
    },
    /// Store the bundle among the files, under the id of the app.
    StoreBundle { files: FileSystem, bundle: B, options: InstallOptions<R> },
    /// Find where among the files the bundle is stored.
    LocateBundle { files: FileSystem, bundle: B, options: InstallOptions<R> },
    /// Install the app.
    Install { install: InstallRequest<R> },
    /// It is over.
    Done(Result<I, Error>),
}

/// What came of a call.
#[derive(Debug, PartialEq)]
pub enum InstallEvent<B, I> {
    BundleStored(Result<(), Error>),
    HappBundleTaken(Result<B, Error>),
    BundleLocated(Result<PathBuf, Error>),
    AdminConnected(Result<(), String>),
    Installed(Result<I, Error>),
}

/// Where installing an app with a UI begins: with storing its bundle.
pub open spec fn web_app_begins<W, B, R, I>(
    install: InstallWebApp<W, B, R, I>,
    admin_port: u16,
    files: FileSystem,
    web_bundle: W,
    options: InstallOptions<R>,
) -> bool {
    &&& install matches InstallWebApp::StoreBundle {
        files: kept_files,
        web_bundle: stored,
        options: kept,
        connect,
    }
    &&& kept_files == files
    &&& stored == web_bundle
    &&& kept == options
    &&& is_admin_connect(connect, admin_port)
}

/// Where installing an app begins: with connecting to the admin interface.
pub open spec fn app_begins<B, R, I>(
    install: InstallApp<B, R, I>,
    admin_port: u16,
    files: FileSystem,
    bundle: B,
    options: InstallOptions<R>,
) -> bool {
    &&& install matches InstallApp::ConnectAdmin {
        connect,
        files: kept_files,
        bundle: kept_bundle,
        options: kept,
    }
    &&& kept_files == files
    &&& is_admin_connect(connect, admin_port)
    &&& kept_bundle == bundle
    &&& kept == options
}

/// Where installing the app with a UI is after the event. An event that does not answer the call
/// that it is at leaves it there.
pub open spec fn web_app_next<W, B, R, I>(
    install: InstallWebApp<W, B, R, I>,
    event: InstallEvent<B, I>,
) -> InstallWebApp<W, B, R, I> {
    match (install, event) {
        (
            InstallWebApp::StoreBundle { files, web_bundle, options, connect },
            InstallEvent::BundleStored(stored),
        ) => match stored {
            Ok(()) => InstallWebApp::TakeHappBundle { files, web_bundle, options, connect },
            Err(error) => InstallWebApp::Done(Err(error)),
        },
        (
            InstallWebApp::TakeHappBundle { files, options, connect, .. },
            InstallEvent::HappBundleTaken(taken),
        ) => match taken {
            Ok(bundle) => InstallWebApp::LocateBundle { files, bundle, options, connect },
            Err(error) => InstallWebApp::Done(Err(error)),
        },
        (
            InstallWebApp::LocateBundle { options, connect, .. },
            InstallEvent::BundleLocated(located),
        ) => match located {
            Ok(bundle_path) => InstallWebApp::ConnectAdmin {
                connect,
                install: InstallRequest { bundle_path, options },
            },
            Err(error) => InstallWebApp::Done(Err(error)),
        },
        (
            InstallWebApp::ConnectAdmin { install, .. },
            InstallEvent::AdminConnected(connected),
        ) => match connected {
            Ok(()) => InstallWebApp::Install { install },
            Err(cause) => InstallWebApp::Done(Err(Error::WebsocketConnectionError(cause))),
        },
        (
            InstallWebApp::Install { .. },
            InstallEvent::Installed(installed),
        ) => InstallWebApp::Done(installed),
        _ => install,
    }
}

/// Where installing the app is after the event. An event that does not answer the call that it is
/// at leaves it there.
pub open spec fn app_next<B, R, I>(
    install: InstallApp<B, R, I>,
    event: InstallEvent<B, I>,
) -> InstallApp<B, R, I> {
    match (install, event) {
        (
            InstallApp::ConnectAdmin { files, bundle, options, .. },
            InstallEvent::AdminConnected(connected),
        ) => match connected {
            Ok(()) => InstallApp::StoreBundle { files, bundle, options },
            Err(cause) => InstallApp::Done(Err(Error::WebsocketConnectionError(cause))),
        },
        (
            InstallApp::StoreBundle { files, bundle, options },
            InstallEvent::BundleStored(stored),
        ) => match stored {
            Ok(()) => InstallApp::LocateBundle { files, bundle, options },
            Err(error) => InstallApp::Done(Err(error)),
        },
        (
            InstallApp::LocateBundle { options, .. },
            InstallEvent::BundleLocated(located),
        ) => match located {
            Ok(bundle_path) => InstallApp::Install {
                install: InstallRequest { bundle_path, options },
            },
            Err(error) => InstallApp::Done(Err(error)),
        },
        (
            InstallApp::Install { .. },
            InstallEvent::Installed(installed),
        ) => InstallApp::Done(installed),
        _ => install,
    }
}

impl<W, B, R, I> InstallWebApp<W, B, R, I> {
    /// Takes what came of the call that it is at, and gives where it is then.
    pub fn advance(self, event: InstallEvent<B, I>) -> (next: InstallWebApp<W, B, R, I>)
        ensures
            next == web_app_next(self, event),
    {
        match (self, event) {
            (
                InstallWebApp::StoreBundle { files, web_bundle, options, connect },
                InstallEvent::BundleStored(stored),
            ) => match stored {
                Ok(()) => InstallWebApp::TakeHappBundle { files, web_bundle, options, connect },
                Err(error) => InstallWebApp::Done(Err(error)),
            },
            (
                InstallWebApp::TakeHappBundle { files, options, connect, .. },
                InstallEvent::HappBundleTaken(taken),
            ) => match taken {
                Ok(bundle) => InstallWebApp::LocateBundle { files, bundle, options, connect },
                Err(error) => InstallWebApp::Done(Err(error)),
            },
            (
                InstallWebApp::LocateBundle { options, connect, .. },
                InstallEvent::BundleLocated(located),
            ) => match located {
                Ok(bundle_path) => InstallWebApp::ConnectAdmin {
                    connect,
                    install: InstallRequest { bundle_path, options },
                },
                Err(error) => InstallWebApp::Done(Err(error)),
            },
            (
                InstallWebApp::ConnectAdmin { install, .. },
                InstallEvent::AdminConnected(connected),
            ) => match connected {
                Ok(()) => InstallWebApp::Install { install },
                Err(cause) => InstallWebApp::Done(Err(Error::WebsocketConnectionError(cause))),
            },
            (
                InstallWebApp::Install { .. },
                InstallEvent::Installed(installed),
            ) => InstallWebApp::Done(installed),
            (install, _) => install,
        }
    }
}

impl<B, R, I> InstallApp<B, R, I> {
    /// Takes what came of the call that it is at, and gives where it is then.
    pub fn advance(self, event: InstallEvent<B, I>) -> (next: InstallApp<B, R, I>)
        ensures
            next == app_next(self, event),
    {
        match (self, event) {
            (
                InstallApp::ConnectAdmin { files, bundle, options, .. },
                InstallEvent::AdminConnected(connected),
            ) => match connected {
                Ok(()) => InstallApp::StoreBundle { files, bundle, options },
                Err(cause) => InstallApp::Done(Err(Error::WebsocketConnectionError(cause))),
            },
            (
                InstallApp::StoreBundle { files, bundle, options },
                InstallEvent::BundleStored(stored),
            ) => match stored {
                Ok(()) => InstallApp::LocateBundle { files, bundle, options },
                Err(error) => InstallApp::Done(Err(error)),
            },
            (
                InstallApp::LocateBundle { options, .. },
                InstallEvent::BundleLocated(located),
            ) => match located {
                Ok(bundle_path) => InstallApp::Install {
                    install: InstallRequest { bundle_path, options },
                },
                Err(error) => InstallApp::Done(Err(error)),
            },
            (
                InstallApp::Install { .. },
                InstallEvent::Installed(installed),
            ) => InstallApp::Done(installed),
            (install, _) => install,
        }
    }
}

impl<P, K, S, C> HolochainRuntime<P, K, S, C> {
    /// Begins to install an app with its UI.
    pub fn install_web_app<W, B, R, I>(
        &self,
        app_id: String,
        web_app_bundle: W,
        roles_settings: Option<R>,
        agent: Option<AgentPubKey>,
        network_seed: Option<String>,
    ) -> (install: InstallWebApp<W, B, R, I>)
        ensures
            web_app_begins(
                install,
                self.admin_port,
                self.filesystem,
                web_app_bundle,
                (InstallOptions { app_id, roles_settings, agent, network_seed }),
            ),
    {
        InstallWebApp::StoreBundle {
            files: self.filesystem.clone(),
            web_bundle: web_app_bundle,
            options: InstallOptions { app_id, roles_settings, agent, network_seed },
            connect: self.admin_websocket(),
        }
    }

    /// Begins to install an app.
    pub fn install_app<B, R, I>(
        &self,
        app_id: String,
        app_bundle: B,
        roles_settings: Option<R>,
        agent: Option<AgentPubKey>,
        network_seed: Option<String>,
    ) -> (install: InstallApp<B, R, I>)
        ensures
            app_begins(
                install,
                self.admin_port,
                self.filesystem,
                app_bundle,
                (InstallOptions { app_id, roles_settings, agent, network_seed }),
            ),
    {
        InstallApp::ConnectAdmin {
            connect: self.admin_websocket(),
            files: self.filesystem.clone(),
            bundle: app_bundle,
            options: InstallOptions { app_id, roles_settings, agent, network_seed },
        }
    }
}

/// The states that installing an app with a UI goes through, and the events that take it from each
/// to the next.
pub open spec fn is_web_app_run<W, B, R, I>(
    states: Seq<InstallWebApp<W, B, R, I>>,
    events: Seq<InstallEvent<B, I>>,
) -> bool {
    &&& states.len() == events.len() + 1
    &&& forall|i: int|
        0 <= i < events.len() ==> states[i + 1] == web_app_next(states[i], #[trigger] events[i])
}

/// The states that installing an app goes through, and the events that take it from each to the
/// next.
pub open spec fn is_app_run<B, R, I>(
    states: Seq<InstallApp<B, R, I>>,
    events: Seq<InstallEvent<B, I>>,
) -> bool {
    &&& states.len() == events.len() + 1
    &&& forall|i: int|
        0 <= i < events.len() ==> states[i + 1] == app_next(states[i], #[trigger] events[i])
}

/// An app with a UI is installed with the options that were asked for, and only after its bundle
/// was stored and the bundle of the app was taken out of it, from where that bundle was found among
/// the files of the runtime.
pub proof fn law_web_app_is_installed_as_asked<W, B, R, I>(
    admin_port: u16,
    files: FileSystem,
    web_bundle: W,
    options: InstallOptions<R>,
    states: Seq<InstallWebApp<W, B, R, I>>,
    events: Seq<InstallEvent<B, I>>,
    i: int,
)
    requires
        is_web_app_run(states, events),
        web_app_begins(states[0], admin_port, files, web_bundle, options),
        0 <= i < states.len(),
    ensures
        match states[i] {
            InstallWebApp::StoreBundle { files: f, web_bundle: b, options: o, connect } => f
                == files && b == web_bundle && o == options && is_admin_connect(
                connect,
                admin_port,
            ),
            InstallWebApp::TakeHappBundle { files: f, web_bundle: b, options: o, connect } => f
                == files && b == web_bundle && o == options && is_admin_connect(
                connect,
                admin_port,
            ) && bundle_was_stored(events, i),
            InstallWebApp::LocateBundle { files: f, bundle, options: o, connect } => f == files
                && o == options && is_admin_connect(connect, admin_port) && bundle_was_stored(
                events,
                i,
            ) && bundle_was_taken(events, i, bundle),
            InstallWebApp::ConnectAdmin { connect, install } => install.options == options
                && is_admin_connect(connect, admin_port) && bundle_was_stored(events, i)
                && bundle_was_located(events, i, install.bundle_path),
            InstallWebApp::Install { install } => install.options == options && bundle_was_stored(
                events,
                i,
            ) && bundle_was_located(events, i, install.bundle_path) && admin_was_connected(
                events,
                i,
            ),
            InstallWebApp::Done(Ok(info)) => bundle_was_stored(events, i) && was_installed(
                events,
                i,
                info,
            ),
            InstallWebApp::Done(Err(_)) => true,
        },
    decreases i,
{
    if i > 0 {
        law_web_app_is_installed_as_asked(
            admin_port,
            files,
            web_bundle,
            options,
            states,
            events,
            i - 1,
        );
        assert(states[i] == web_app_next(states[i - 1], events[i - 1]));
    }
}

/// With the `k`-th call the bundle with a UI was stored among the files, under the id of the app.
pub open spec fn stores_web_bundle<W, B, R, I>(
    states: Seq<InstallWebApp<W, B, R, I>>,
    events: Seq<InstallEvent<B, I>>,
    k: int,
    files: FileSystem,
    app_id: String,
    web_bundle: W,
) -> bool {
    &&& 0 <= k < events.len()
    &&& states[k] matches InstallWebApp::StoreBundle {
        files: kept,
        web_bundle: stored,
        options,
        ..
    }
    &&& kept == files
    &&& stored == web_bundle
    &&& options.app_id == app_id
    &&& events[k] matches InstallEvent::BundleStored(Ok(_))
}

/// An app with a UI is past storing its bundle, other than by a failure, only once the bundle that
/// was asked for was stored under the id that was asked for.
pub proof fn law_web_bundle_is_stored<W, B, R, I>(
    admin_port: u16,
    files: FileSystem,
    web_bundle: W,
    options: InstallOptions<R>,
    states: Seq<InstallWebApp<W, B, R, I>>,
    events: Seq<InstallEvent<B, I>>,
    i: int,
)
    requires
        is_web_app_run(states, events),
        web_app_begins(states[0], admin_port, files, web_bundle, options),
        0 <= i < states.len(),
        !(states[i] is StoreBundle),
        !(states[i] matches InstallWebApp::Done(Err(_))),
    ensures
        exists|k: int|
            k < i && #[trigger] stores_web_bundle(
                states,
                events,
                k,
                files,
                options.app_id,
                web_bundle,
            ),
    decreases i,
{
    assert(i > 0);
    assert(states[i] == web_app_next(states[i - 1], events[i - 1]));
    if states[i - 1] is StoreBundle {
        law_web_app_is_installed_as_asked(
            admin_port,
            files,
            web_bundle,
            options,
            states,
            events,
            i - 1,
        );
        assert(stores_web_bundle(states, events, i - 1, files, options.app_id, web_bundle));
    } else {
        law_web_bundle_is_stored(
            admin_port,
            files,
            web_bundle,
            options,
            states,
            events,
            i - 1,
        );
    }
}

/// With the `k`-th call the bundle was stored among the files, under the id of the app.
pub open spec fn stores_bundle<B, R, I>(
    states: Seq<InstallApp<B, R, I>>,
    events: Seq<InstallEvent<B, I>>,
    k: int,
    files: FileSystem,
    app_id: String,
    bundle: B,
) -> bool {
    &&& 0 <= k < events.len()
    &&& states[k] matches InstallApp::StoreBundle { files: kept, bundle: stored, options }
    &&& kept == files
    &&& stored == bundle
    &&& options.app_id == app_id
    &&& events[k] matches InstallEvent::BundleStored(Ok(_))
}

/// An app is past storing its bundle, other than by a failure, only once the bundle that was asked
/// for was stored under the id that was asked for.
pub proof fn law_bundle_is_stored<B, R, I>(
    admin_port: u16,
    files: FileSystem,
    bundle: B,
    options: InstallOptions<R>,
    states: Seq<InstallApp<B, R, I>>,
    events: Seq<InstallEvent<B, I>>,
    i: int,
)
    requires
        is_app_run(states, events),
        app_begins(states[0], admin_port, files, bundle, options),
        0 <= i < states.len(),
        !(states[i] is ConnectAdmin),
        !(states[i] is StoreBundle),
        !(states[i] matches InstallApp::Done(Err(_))),
    ensures
        exists|k: int|
            k < i && #[trigger] stores_bundle(states, events, k, files, options.app_id, bundle),
    decreases i,
{
    assert(i > 0);
    assert(states[i] == app_next(states[i - 1], events[i - 1]));
    if states[i - 1] is StoreBundle {
        law_app_is_installed_as_asked(
            admin_port,
            files,
            bundle,
            options,
            states,
            events,
            i - 1,
        );
        assert(stores_bundle(states, events, i - 1, files, options.app_id, bundle));
    } else {
        law_bundle_is_stored(
            admin_port,
            files,
            bundle,
            options,
            states,
            events,
            i - 1,
        );
    }
}

/// An app is installed with the options that were asked for, and only after the admin interface
/// was reached and then its bundle was stored, from where that bundle was found among the files of
/// the runtime.
pub proof fn law_app_is_installed_as_asked<B, R, I>(
    admin_port: u16,
    files: FileSystem,
    bundle: B,
    options: InstallOptions<R>,
    states: Seq<InstallApp<B, R, I>>,
    events: Seq<InstallEvent<B, I>>,
    i: int,
)
    requires
        is_app_run(states, events),
        app_begins(states[0], admin_port, files, bundle, options),
        0 <= i < states.len(),
    ensures
        match states[i] {
            InstallApp::ConnectAdmin { connect, files: f, bundle: b, options: o } => f == files && b
                == bundle && o == options && is_admin_connect(connect, admin_port),
            InstallApp::StoreBundle { files: f, bundle: b, options: o } => f == files && b == bundle
                && o == options && admin_was_connected(events, i),
            InstallApp::LocateBundle { files: f, bundle: b, options: o } => f == files && b
                == bundle && o == options && admin_was_connected(events, i) && bundle_was_stored(
                events,
                i,
            ),
            InstallApp::Install { install } => install.options == options && admin_was_connected(
                events,
                i,
            ) && bundle_was_stored(events, i) && bundle_was_located(
                events,
                i,
                install.bundle_path,
            ),
            InstallApp::Done(Ok(info)) => admin_was_connected(events, i) && bundle_was_stored(
                events,
                i,
            ) && was_installed(events, i, info),
            InstallApp::Done(Err(_)) => true,
        },
    decreases i,
{
    if i > 0 {
        law_app_is_installed_as_asked(
            admin_port,
            files,
            bundle,
            options,
            states,
            events,
            i - 1,
        );
        assert(states[i] == app_next(states[i - 1], events[i - 1]));
    }
}

/// Before the `i`-th state the bundle was stored.
pub open spec fn bundle_was_stored<B, I>(events: Seq<InstallEvent<B, I>>, i: int) -> bool {
    exists|j: int| 0 <= j < i && (#[trigger] events[j] matches InstallEvent::BundleStored(Ok(_)))
}

/// Before the `i`-th state the bundle was taken out of the bundle with the UI.
pub open spec fn bundle_was_taken<B, I>(
    events: Seq<InstallEvent<B, I>>,
    i: int,
    bundle: B,
) -> bool {
    exists|j: int|
        0 <= j < i && (#[trigger] events[j] matches InstallEvent::HappBundleTaken(Ok(taken))
            && taken == bundle)
}

/// Before the `i`-th state the bundle was found at the path.
pub open spec fn bundle_was_located<B, I>(
    events: Seq<InstallEvent<B, I>>,
    i: int,
    path: PathBuf,
) -> bool {
    exists|j: int|
        0 <= j < i && (#[trigger] events[j] matches InstallEvent::BundleLocated(Ok(located))
            && located == path)
}

/// Before the `i`-th state the admin interface was reached.
pub open spec fn admin_was_connected<B, I>(events: Seq<InstallEvent<B, I>>, i: int) -> bool {
    exists|j: int| 0 <= j < i && (#[trigger] events[j] matches InstallEvent::AdminConnected(Ok(_)))
}

/// Before the `i`-th state the conductor told that it installed the app.
pub open spec fn was_installed<B, I>(events: Seq<InstallEvent<B, I>>, i: int, info: I) -> bool {
    exists|j: int|
        0 <= j < i && (#[trigger] events[j] matches InstallEvent::Installed(Ok(told)) && told
            == info)
}

/// The event is a failure, which ends an install with the error.
pub open spec fn fails_with<B, I>(event: InstallEvent<B, I>, error: Error) -> bool {
    match event {
        InstallEvent::BundleStored(Err(e)) => e == error,
        InstallEvent::HappBundleTaken(Err(e)) => e == error,
        InstallEvent::BundleLocated(Err(e)) => e == error,
        InstallEvent::AdminConnected(Err(cause)) => error == Error::WebsocketConnectionError(cause),
        InstallEvent::Installed(Err(e)) => e == error,
        _ => false,
    }
}

/// An install fails exactly with the first call that fails, and with its error.
pub proof fn law_install_fails_with_a_call<W, B, R, I>(
    web_app: InstallWebApp<W, B, R, I>,
    app: InstallApp<B, R, I>,
    event: InstallEvent<B, I>,
    error: Error,
)
    requires
        !(web_app is Done),
        !(app is Done),
    ensures
        web_app_next(web_app, event) == InstallWebApp::<W, B, R, I>::Done(Err(error)) <==> (
        fails_with(event, error) && web_app_next(web_app, event) != web_app),
        app_next(app, event) == InstallApp::<B, R, I>::Done(Err(error)) <==> (fails_with(
            event,
            error,
        ) && app_next(app, event) != app),
{
}

/// The event tells what came of the call that the install is at.
pub open spec fn answers<B, R, I>(install: InstallApp<B, R, I>, event: InstallEvent<B, I>) -> bool {
    match install {
        InstallApp::ConnectAdmin { .. } => event is AdminConnected,
        InstallApp::StoreBundle { .. } => event is BundleStored,
        InstallApp::LocateBundle { .. } => event is BundleLocated,
        InstallApp::Install { .. } => event is Installed,
        InstallApp::Done(_) => false,
    }
}

/// The event tells what came of the call that the install of an app with a UI is at.
pub open spec fn web_answers<W, B, R, I>(
    install: InstallWebApp<W, B, R, I>,
    event: InstallEvent<B, I>,
) -> bool {
    match install {
        InstallWebApp::StoreBundle { .. } => event is BundleStored,
        InstallWebApp::TakeHappBundle { .. } => event is HappBundleTaken,
        InstallWebApp::LocateBundle { .. } => event is BundleLocated,
        InstallWebApp::ConnectAdmin { .. } => event is AdminConnected,
        InstallWebApp::Install { .. } => event is Installed,
        InstallWebApp::Done(_) => false,
    }
}

/// An event that answers no call of an install changes nothing.
pub proof fn law_stray_event_does_not_change_an_install<W, B, R, I>(
    app: InstallApp<B, R, I>,
    web_app: InstallWebApp<W, B, R, I>,
    event: InstallEvent<B, I>,
)
    ensures
        !answers(app, event) ==> app_next(app, event) == app,
        !web_answers(web_app, event) ==> web_app_next(web_app, event) == web_app,
{
}

/// An install of an app whose calls are answered is over after four of them, or with the first
/// that fails, whatever the options are. First the admin interface is reached; then the bundle is
/// stored, under the id of the app; then it is looked up; and then the conductor is asked, once, to
/// install it from where it was found, with the options. The install ends with what the conductor
/// told of the app, or with the error of the call that failed.
pub proof fn law_app_install_is_over_after_four_calls<B, R, I>(
    admin_port: u16,
    files: FileSystem,
    bundle: B,
    options: InstallOptions<R>,
    states: Seq<InstallApp<B, R, I>>,
    events: Seq<InstallEvent<B, I>>,
    i: int,
)
    requires
        is_app_run(states, events),
        app_begins(states[0], admin_port, files, bundle, options),
        forall|j: int| 0 <= j < events.len() ==> answers(states[j], #[trigger] events[j]),
        0 <= i < states.len(),
    ensures
        i <= 4,
        match states[i] {
            InstallApp::ConnectAdmin { connect, .. } => i == 0 && is_admin_connect(
                connect,
                admin_port,
            ),
            InstallApp::StoreBundle { files: f, bundle: b, options: o } => i == 1 && f == files && b
                == bundle && o == options && (events[0] matches InstallEvent::AdminConnected(
                Ok(_),
            )),
            InstallApp::LocateBundle { files: f, bundle: b, .. } => i == 2 && f == files && b
                == bundle && (events[1] matches InstallEvent::BundleStored(Ok(_))),
            InstallApp::Install { install } => i == 3 && install.options == options && events[2]
                == InstallEvent::<B, I>::BundleLocated(Ok(install.bundle_path)),
            InstallApp::Done(Ok(info)) => i == 4 && events[3] == InstallEvent::<B, I>::Installed(
                Ok(info),
            ),
            InstallApp::Done(Err(error)) => i > 0 && fails_with(events[i - 1], error),
        },
    decreases i,
{
    if i > 0 {
        law_app_install_is_over_after_four_calls(
            admin_port,
            files,
            bundle,
            options,
            states,
            events,
            i - 1,
        );
        law_app_is_installed_as_asked(admin_port, files, bundle, options, states, events, i - 1);
        assert(states[i] == app_next(states[i - 1], events[i - 1]));
        assert(answers(states[i - 1], events[i - 1]));
    }
}

/// An install of an app with a UI whose calls are answered is over after five of them, or with the
/// first that fails, whatever the options are. First the bundle is stored, under the id of the app;
/// then the bundle of the app is taken out of it; then that is looked up; then the admin interface
/// is reached; and then the conductor is asked, once, to install the app from where it was found,
/// with the options. The install ends with what the conductor told of the app, or with the error of
/// the call that failed.
pub proof fn law_web_app_install_is_over_after_five_calls<W, B, R, I>(
    admin_port: u16,
    files: FileSystem,
    web_bundle: W,
    options: InstallOptions<R>,
    states: Seq<InstallWebApp<W, B, R, I>>,
    events: Seq<InstallEvent<B, I>>,
    i: int,
)
    requires
        is_web_app_run(states, events),
        web_app_begins(states[0], admin_port, files, web_bundle, options),
        forall|j: int| 0 <= j < events.len() ==> web_answers(states[j], #[trigger] events[j]),
        0 <= i < states.len(),
    ensures
        i <= 5,
        match states[i] {
            InstallWebApp::StoreBundle { files: f, web_bundle: b, options: o, .. } => i == 0 && f
                == files && b == web_bundle && o == options,
            InstallWebApp::TakeHappBundle { web_bundle: b, .. } => i == 1 && b == web_bundle && (
            events[0] matches InstallEvent::BundleStored(Ok(_))),
            InstallWebApp::LocateBundle { files: f, bundle, .. } => i == 2 && f == files
                && events[1] == InstallEvent::<B, I>::HappBundleTaken(Ok(bundle)),
            InstallWebApp::ConnectAdmin { connect, install } => i == 3 && is_admin_connect(
                connect,
                admin_port,
            ) && install.options == options && events[2] == InstallEvent::<B, I>::BundleLocated(
                Ok(install.bundle_path),
            ),
            InstallWebApp::Install { install } => i == 4 && install.options == options && events[2]
                == InstallEvent::<B, I>::BundleLocated(Ok(install.bundle_path)) && (
            events[3] matches InstallEvent::AdminConnected(Ok(_))),
            InstallWebApp::Done(Ok(info)) => i == 5 && events[4] == InstallEvent::<B, I>::Installed(
                Ok(info),
            ),
            InstallWebApp::Done(Err(error)) => i > 0 && fails_with(events[i - 1], error),
        },
    decreases i,
{
    if i > 0 {
        law_web_app_install_is_over_after_five_calls(
            admin_port,
            files,
            web_bundle,
            options,
            states,
            events,
            i - 1,
        );
        law_web_app_is_installed_as_asked(
            admin_port,
            files,
            web_bundle,
            options,
            states,
            events,
            i - 1,
        );
        assert(states[i] == web_app_next(states[i - 1], events[i - 1]));
        assert(web_answers(states[i - 1], events[i - 1]));
    }
}

} // verus!
