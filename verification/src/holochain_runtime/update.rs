//! Updating an installed app, at once or only where its bundle has changed.
//!
//! The bundles are carried through as they are, so they are type parameters: `W` a bundle with a
//! UI, `B` a bundle of an app.
use super::{is_admin_connect, AdminConnect, HolochainRuntime};
use super::install::{
    law_bundle_is_stored, law_web_bundle_is_stored, stores_bundle, stores_web_bundle, InstallApp,
    InstallEvent, InstallOptions, InstallWebApp,
};
use crate::error::{Error, UpdateHappError};
use crate::paths::FileSystem;
use vstd::prelude::*;

verus! {

/// What is kept of an installed app.
#[derive(Debug, PartialEq, Eq)]
pub struct InstalledApp {
    pub app_id: String,
    /// The hash of the bundle that was installed.
    pub happ_bundle_hash: String,
}

/// Where updating an app is: the call to make next, or how it ended.
#[derive(Debug, PartialEq)]
pub enum UpdateApp<B> {
    /// Connect to the admin interface.
    ConnectAdmin { connect: AdminConnect, app_id: String, bundle: B },
    /// Update the app.
    Update { app_id: String, bundle: B },
    /// It is over.
    Done(Result<(), UpdateHappError>),
}

/// Where updating an app with its UI is: the call to make next, or how it ended.
#[derive(Debug, PartialEq)]
pub enum UpdateWebApp<W, B> {
    /// Store the bundle among the files, under the id of the app.
    StoreBundle { files: FileSystem, app_id: String, web_bundle: W, connect: AdminConnect },
    /// Connect to the admin interface.
    ConnectAdmin { connect: AdminConnect, app_id: String, web_bundle: W },
    /// Take the bundle of the app out of the bundle with the UI.
    TakeHappBundle { app_id: String, web_bundle: W },
    /// Update the app.
    Update { app_id: String, bundle: B },
    /// It is over.
    Done(Result<(), Error>),
}

/// What came of a call. Whatever kept the admin interface from being reached is not told.
#[derive(Debug, PartialEq)]
pub enum UpdateEvent<B> {
    BundleStored(Result<(), Error>),
    AdminConnected(Result<(), String>),
    HappBundleTaken(Result<B, Error>),
    Updated(Result<(), UpdateHappError>),
}

/// Where an update of an app begins: with connecting to the admin interface.
pub open spec fn app_begins<B>(
    update: UpdateApp<B>,
    connects_to: u16,
    app_id: String,
    bundle: B,
) -> bool {
    &&& update matches UpdateApp::ConnectAdmin { connect, app_id: kept_id, bundle: kept }
    &&& is_admin_connect(connect, connects_to)
    &&& kept_id == app_id
    &&& kept == bundle
}

/// Where an update of an app with its UI begins: with storing its bundle.
pub open spec fn web_app_begins<W, B>(
    update: UpdateWebApp<W, B>,
    connects_to: u16,
    files: FileSystem,
    app_id: String,
    web_bundle: W,
) -> bool {
    &&& update matches UpdateWebApp::StoreBundle {
        files: kept_files,
        app_id: kept_id,
        web_bundle: kept,
        connect,
    }
    &&& kept_files == files
    &&& is_admin_connect(connect, connects_to)
    &&& kept_id == app_id
    &&& kept == web_bundle
}

/// Where updating the app is after the event. An event that does not answer the call that it is at
/// leaves it there.
pub open spec fn app_next<B>(update: UpdateApp<B>, event: UpdateEvent<B>) -> UpdateApp<B> {
    match (update, event) {
        (
            UpdateApp::ConnectAdmin { app_id, bundle, .. },
            UpdateEvent::AdminConnected(connected),
        ) => match connected {
            Ok(()) => UpdateApp::Update { app_id, bundle },
            Err(_) => UpdateApp::Done(Err(UpdateHappError::WebsocketError)),
        },
        (UpdateApp::Update { .. }, UpdateEvent::Updated(updated)) => UpdateApp::Done(updated),
        _ => update,
    }
}

/// How an update of an app with its UI ends with what came of updating the app.
pub open spec fn web_app_outcome(updated: Result<(), UpdateHappError>) -> Result<(), Error> {
    match updated {
        Ok(()) => Ok(()),
        Err(error) => Err(Error::UpdateHappError(error)),
    }
}

/// Where updating the app with its UI is after the event. An event that does not answer the call
/// that it is at leaves it there.
pub open spec fn web_app_next<W, B>(
    update: UpdateWebApp<W, B>,
    event: UpdateEvent<B>,
) -> UpdateWebApp<W, B> {
    match (update, event) {
        (
            UpdateWebApp::StoreBundle { app_id, web_bundle, connect, .. },
            UpdateEvent::BundleStored(stored),
        ) => match stored {
            Ok(()) => UpdateWebApp::ConnectAdmin { connect, app_id, web_bundle },
            Err(error) => UpdateWebApp::Done(Err(error)),
        },
        (
            UpdateWebApp::ConnectAdmin { app_id, web_bundle, .. },
            UpdateEvent::AdminConnected(connected),
        ) => match connected {
            Ok(()) => UpdateWebApp::TakeHappBundle { app_id, web_bundle },
            Err(_) => UpdateWebApp::Done(
                Err(Error::UpdateHappError(UpdateHappError::WebsocketError)),
            ),
        },
        (
            UpdateWebApp::TakeHappBundle { app_id, .. },
            UpdateEvent::HappBundleTaken(taken),
        ) => match taken {
            Ok(bundle) => UpdateWebApp::Update { app_id, bundle },
            Err(error) => UpdateWebApp::Done(Err(error)),
        },
        (UpdateWebApp::Update { .. }, UpdateEvent::Updated(updated)) => UpdateWebApp::Done(
            web_app_outcome(updated),
        ),
        _ => update,
    }
}

impl<B> UpdateApp<B> {
    /// Takes what came of the call that it is at, and gives where it is then.
    pub fn advance(self, event: UpdateEvent<B>) -> (next: UpdateApp<B>)
        ensures
            next == app_next(self, event),
    {
        match (self, event) {
            (
                UpdateApp::ConnectAdmin { app_id, bundle, .. },
                UpdateEvent::AdminConnected(connected),
            ) => match connected {
                Ok(()) => UpdateApp::Update { app_id, bundle },
                Err(_) => UpdateApp::Done(Err(UpdateHappError::WebsocketError)),
            },
            (UpdateApp::Update { .. }, UpdateEvent::Updated(updated)) => UpdateApp::Done(updated),
            (update, _) => update,
        }
    }
}

fn outcome_of(updated: Result<(), UpdateHappError>) -> (outcome: Result<(), Error>)
    ensures
        outcome == web_app_outcome(updated),
{
    match updated {
        Ok(done) => Ok(done),
        Err(error) => Err(Error::UpdateHappError(error)),
    }
}

impl<W, B> UpdateWebApp<W, B> {
    /// Takes what came of the call that it is at, and gives where it is then.
    pub fn advance(self, event: UpdateEvent<B>) -> (next: UpdateWebApp<W, B>)
        ensures
            next == web_app_next(self, event),
    {
        match (self, event) {
            (
                UpdateWebApp::StoreBundle { app_id, web_bundle, connect, .. },
                UpdateEvent::BundleStored(stored),
            ) => match stored {
                Ok(()) => UpdateWebApp::ConnectAdmin { connect, app_id, web_bundle },
                Err(error) => UpdateWebApp::Done(Err(error)),
            },
            (
                UpdateWebApp::ConnectAdmin { app_id, web_bundle, .. },
                UpdateEvent::AdminConnected(connected),
            ) => match connected {
                Ok(()) => UpdateWebApp::TakeHappBundle { app_id, web_bundle },
                Err(_) => UpdateWebApp::Done(
                    Err(Error::UpdateHappError(UpdateHappError::WebsocketError)),
                ),
            },
            (
                UpdateWebApp::TakeHappBundle { app_id, .. },
                UpdateEvent::HappBundleTaken(taken),
            ) => match taken {
                Ok(bundle) => UpdateWebApp::Update { app_id, bundle },
                Err(error) => UpdateWebApp::Done(Err(error)),
            },
            (UpdateWebApp::Update { .. }, UpdateEvent::Updated(updated)) => UpdateWebApp::Done(
                outcome_of(updated),
            ),
            (update, _) => update,
        }
    }
}

/// The states that updating an app goes through, and the events that take it from each to the next.
pub open spec fn is_app_run<B>(states: Seq<UpdateApp<B>>, events: Seq<UpdateEvent<B>>) -> bool {
    &&& states.len() == events.len() + 1
    &&& forall|i: int|
        0 <= i < events.len() ==> states[i + 1] == app_next(states[i], #[trigger] events[i])
}

/// The states that updating an app with its UI goes through, and the events that take it from each
/// to the next.
pub open spec fn is_web_app_run<W, B>(
    states: Seq<UpdateWebApp<W, B>>,
    events: Seq<UpdateEvent<B>>,
) -> bool {
    &&& states.len() == events.len() + 1
    &&& forall|i: int|
        0 <= i < events.len() ==> states[i + 1] == web_app_next(states[i], #[trigger] events[i])
}

/// Before the `i`-th state the bundle was stored.
pub open spec fn bundle_was_stored<B>(events: Seq<UpdateEvent<B>>, i: int) -> bool {
    exists|j: int| 0 <= j < i && (#[trigger] events[j] matches UpdateEvent::BundleStored(Ok(_)))
}

/// Before the `i`-th state the bundle of the app was taken out of the bundle with the UI.
pub open spec fn bundle_was_taken<B>(events: Seq<UpdateEvent<B>>, i: int, bundle: B) -> bool {
    exists|j: int|
        0 <= j < i && (#[trigger] events[j] matches UpdateEvent::HappBundleTaken(Ok(taken))
            && taken == bundle)
}

/// Before the `i`-th state the admin interface was reached.
pub open spec fn admin_was_connected<B>(events: Seq<UpdateEvent<B>>, i: int) -> bool {
    exists|j: int| 0 <= j < i && (#[trigger] events[j] matches UpdateEvent::AdminConnected(Ok(_)))
}

/// Before the `i`-th state the conductor has updated the app.
pub open spec fn app_was_updated<B>(events: Seq<UpdateEvent<B>>, i: int) -> bool {
    exists|j: int| 0 <= j < i && (#[trigger] events[j] matches UpdateEvent::Updated(Ok(_)))
}

/// An app is updated to the bundle and under the id that were asked for, once the admin interface
/// was reached; an update is over with success only where the conductor has made it.
pub proof fn law_app_is_updated_as_asked<B>(
    admin_port: u16,
    app_id: String,
    bundle: B,
    states: Seq<UpdateApp<B>>,
    events: Seq<UpdateEvent<B>>,
    i: int,
)
    requires
        is_app_run(states, events),
        app_begins(states[0], admin_port, app_id, bundle),
        0 <= i < states.len(),
    ensures
        match states[i] {
            UpdateApp::ConnectAdmin { connect, app_id: id, bundle: b } => is_admin_connect(
                connect,
                admin_port,
            ) && id == app_id && b == bundle,
            UpdateApp::Update { app_id: id, bundle: b } => id == app_id && b == bundle
                && admin_was_connected(events, i),
            UpdateApp::Done(Ok(_)) => admin_was_connected(events, i) && app_was_updated(events, i),
            UpdateApp::Done(Err(_)) => true,
        },
    decreases i,
{
    if i > 0 {
        law_app_is_updated_as_asked(admin_port, app_id, bundle, states, events, i - 1);
        assert(states[i] == app_next(states[i - 1], events[i - 1]));
    }
}

/// An app with its UI is updated under the id that was asked for, only after its bundle was stored
/// and the admin interface was reached, and to the bundle that was taken out of it.
pub proof fn law_web_app_is_updated_as_asked<W, B>(
    admin_port: u16,
    files: FileSystem,
    app_id: String,
    web_bundle: W,
    states: Seq<UpdateWebApp<W, B>>,
    events: Seq<UpdateEvent<B>>,
    i: int,
)
    requires
        is_web_app_run(states, events),
        web_app_begins(states[0], admin_port, files, app_id, web_bundle),
        0 <= i < states.len(),
    ensures
        match states[i] {
            UpdateWebApp::StoreBundle { files: f, app_id: id, web_bundle: b, connect } => f == files
                && id == app_id && b == web_bundle && is_admin_connect(connect, admin_port),
            UpdateWebApp::ConnectAdmin { connect, app_id: id, web_bundle: b } => id == app_id && b
                == web_bundle && is_admin_connect(connect, admin_port) && bundle_was_stored(
                events,
                i,
            ),
            UpdateWebApp::TakeHappBundle { app_id: id, web_bundle: b } => id == app_id && b
                == web_bundle && bundle_was_stored(events, i) && admin_was_connected(events, i),
            UpdateWebApp::Update { app_id: id, bundle } => id == app_id && bundle_was_stored(
                events,
                i,
            ) && admin_was_connected(events, i) && bundle_was_taken(events, i, bundle),
            UpdateWebApp::Done(Ok(_)) => bundle_was_stored(events, i) && app_was_updated(events, i),
            UpdateWebApp::Done(Err(_)) => true,
        },
    decreases i,
{
    if i > 0 {
        law_web_app_is_updated_as_asked(
            admin_port,
            files,
            app_id,
            web_bundle,
            states,
            events,
            i - 1,
        );
        assert(states[i] == web_app_next(states[i - 1], events[i - 1]));
    }
}

/// The hash that is kept of the app, where it is installed. Were an app listed twice, the first
/// would count.
pub open spec fn installed_hash(
    installed: Seq<InstalledApp>,
    app_id: Seq<char>,
) -> Option<Seq<char>>
    decreases installed.len(),
{
    if installed.len() == 0 {
        None
    } else if installed[0].app_id@ == app_id {
        Some(installed[0].happ_bundle_hash@)
    } else {
        installed_hash(installed.drop_first(), app_id)
    }
}

/// Whether an app is to be updated.
#[derive(Clone, Copy, Debug, PartialEq, Eq, Structural)]
pub enum UpdateNeed {
    /// It is not installed.
    NotInstalled,
    /// The bundle that was installed is the current one.
    UpToDate,
    /// The bundle that was installed is another one.
    Outdated,
}

/// Whether the app is to be updated to the bundle with the hash.
pub open spec fn need(
    installed: Seq<InstalledApp>,
    app_id: Seq<char>,
    hash: Seq<char>,
) -> UpdateNeed {
    match installed_hash(installed, app_id) {
        None => UpdateNeed::NotInstalled,
        Some(kept) => if kept == hash {
            UpdateNeed::UpToDate
        } else {
            UpdateNeed::Outdated
        },
    }
}

/// Finds out whether the app is to be updated to the bundle with the hash.
pub fn update_need(
    installed: &Vec<InstalledApp>,
    app_id: &String,
    hash: &String,
) -> (found: UpdateNeed)
    ensures
        found == need(installed@, app_id@, hash@),
{
    let mut i: usize = 0;
    assert(installed@.skip(0) =~= installed@);
    while i < installed.len()
        invariant
            i <= installed.len(),
            installed_hash(installed@, app_id@) == installed_hash(
                installed@.skip(i as int),
                app_id@,
            ),
        decreases installed.len() - i,
    {
        assert(installed@.skip(i as int)[0] == installed@[i as int]);
        assert(installed@.skip(i as int).drop_first() =~= installed@.skip(i + 1));
        if installed[i].app_id == *app_id {
            return if installed[i].happ_bundle_hash == *hash {
                UpdateNeed::UpToDate
            } else {
                UpdateNeed::Outdated
            };
        }
        i = i + 1;
    }
    UpdateNeed::NotInstalled
}

/// Where updating an app that may need it is: the call to make next, or how it ended.
#[derive(Debug, PartialEq)]
pub enum UpdateAppIfNecessary<B> {
    /// Take the hash of the bundle.
    HashBundle { files: FileSystem, app_id: String, bundle: B, connect: AdminConnect },
    /// Read what is kept among the files of the installed apps.
    ReadInstalled {
        files: FileSystem,
        hash: String,
        app_id: String,
        bundle: B,
        connect: AdminConnect,
    },
    /// Update the app.
    Update(UpdateApp<B>),
    /// It is over.
    Done(Result<(), Error>),
}

/// Where updating an app with its UI that may need it is: the call to make next, or how it ended.
#[derive(Debug, PartialEq)]
pub enum UpdateWebAppIfNecessary<W, B> {
    /// Take the hash of the bundle.
    HashBundle { files: FileSystem, app_id: String, web_bundle: W, connect: AdminConnect },
    /// Read what is kept among the files of the installed apps.
    ReadInstalled {
        files: FileSystem,
        hash: String,
        app_id: String,
        web_bundle: W,
        connect: AdminConnect,
    },
    /// Update the app.
    Update(UpdateWebApp<W, B>),
    /// It is over.
    Done(Result<(), Error>),
}

/// What came of a call.
#[derive(Debug, PartialEq)]
pub enum UpdateIfNecessaryEvent<B> {
    BundleHashed(Result<String, Error>),
    InstalledRead(Result<Vec<InstalledApp>, Error>),
    Update(UpdateEvent<B>),
}

/// No such app is installed.
pub open spec fn not_found(app_id: String) -> Error {
    Error::UpdateHappError(UpdateHappError::AppNotFound(app_id))
}

/// Where updating the app is after the event. An event that does not answer the call that it is at
/// leaves it there.
pub open spec fn if_necessary_next<B>(
    update: UpdateAppIfNecessary<B>,
    event: UpdateIfNecessaryEvent<B>,
) -> UpdateAppIfNecessary<B> {
    match (update, event) {
        (
            UpdateAppIfNecessary::HashBundle { files, app_id, bundle, connect },
            UpdateIfNecessaryEvent::BundleHashed(hashed),
        ) => match hashed {
            Ok(hash) => UpdateAppIfNecessary::ReadInstalled {
                files,
                hash,
                app_id,
                bundle,
                connect,
            },
            Err(error) => UpdateAppIfNecessary::Done(Err(error)),
        },
        (
            UpdateAppIfNecessary::ReadInstalled { hash, app_id, bundle, connect, .. },
            UpdateIfNecessaryEvent::InstalledRead(read),
        ) => match read {
            Ok(installed) => match need(installed@, app_id@, hash@) {
                UpdateNeed::NotInstalled => UpdateAppIfNecessary::Done(Err(not_found(app_id))),
                UpdateNeed::UpToDate => UpdateAppIfNecessary::Done(Ok(())),
                UpdateNeed::Outdated => UpdateAppIfNecessary::Update(
                    UpdateApp::ConnectAdmin { connect, app_id, bundle },
                ),
            },
            Err(error) => UpdateAppIfNecessary::Done(Err(error)),
        },
        (
            UpdateAppIfNecessary::Update(updating),
            UpdateIfNecessaryEvent::Update(event),
        ) => match app_next(updating, event) {
            UpdateApp::Done(updated) => UpdateAppIfNecessary::Done(web_app_outcome(updated)),
            updating => UpdateAppIfNecessary::Update(updating),
        },
        _ => update,
    }
}

/// Where updating the app with its UI is after the event. An event that does not answer the call
/// that it is at leaves it there.
pub open spec fn web_if_necessary_next<W, B>(
    update: UpdateWebAppIfNecessary<W, B>,
    event: UpdateIfNecessaryEvent<B>,
) -> UpdateWebAppIfNecessary<W, B> {
    match (update, event) {
        (
            UpdateWebAppIfNecessary::HashBundle { files, app_id, web_bundle, connect },
            UpdateIfNecessaryEvent::BundleHashed(hashed),
        ) => match hashed {
            Ok(hash) => UpdateWebAppIfNecessary::ReadInstalled {
                files,
                hash,
                app_id,
                web_bundle,
                connect,
            },
            Err(error) => UpdateWebAppIfNecessary::Done(Err(error)),
        },
        (
            UpdateWebAppIfNecessary::ReadInstalled {
                files,
                hash,
                app_id,
                web_bundle,
                connect,
            },
            UpdateIfNecessaryEvent::InstalledRead(read),
        ) => match read {
            Ok(installed) => match need(installed@, app_id@, hash@) {
                UpdateNeed::NotInstalled => UpdateWebAppIfNecessary::Done(Err(not_found(app_id))),
                UpdateNeed::UpToDate => UpdateWebAppIfNecessary::Done(Ok(())),
                UpdateNeed::Outdated => UpdateWebAppIfNecessary::Update(
                    UpdateWebApp::StoreBundle { files, app_id, web_bundle, connect },
                ),
            },
            Err(error) => UpdateWebAppIfNecessary::Done(Err(error)),
        },
        (
            UpdateWebAppIfNecessary::Update(updating),
            UpdateIfNecessaryEvent::Update(event),
        ) => match web_app_next(updating, event) {
            UpdateWebApp::Done(updated) => UpdateWebAppIfNecessary::Done(updated),
            updating => UpdateWebAppIfNecessary::Update(updating),
        },
        _ => update,
    }
}

impl<B> UpdateAppIfNecessary<B> {
    /// Takes what came of the call that it is at, and gives where it is then.
    pub fn advance(self, event: UpdateIfNecessaryEvent<B>) -> (next: UpdateAppIfNecessary<B>)
        ensures
            next == if_necessary_next(self, event),
    {
        match (self, event) {
            (
                UpdateAppIfNecessary::HashBundle { files, app_id, bundle, connect },
                UpdateIfNecessaryEvent::BundleHashed(hashed),
            ) => match hashed {
                Ok(hash) => UpdateAppIfNecessary::ReadInstalled {
                    files,
                    hash,
                    app_id,
                    bundle,
                    connect,
                },
                Err(error) => UpdateAppIfNecessary::Done(Err(error)),
            },
            (
                UpdateAppIfNecessary::ReadInstalled { hash, app_id, bundle, connect, .. },
                UpdateIfNecessaryEvent::InstalledRead(read),
            ) => match read {
                Ok(installed) => match update_need(&installed, &app_id, &hash) {
                    UpdateNeed::NotInstalled => UpdateAppIfNecessary::Done(
                        Err(Error::UpdateHappError(UpdateHappError::AppNotFound(app_id))),
                    ),
                    UpdateNeed::UpToDate => UpdateAppIfNecessary::Done(Ok(())),
                    UpdateNeed::Outdated => UpdateAppIfNecessary::Update(
                        UpdateApp::ConnectAdmin { connect, app_id, bundle },
                    ),
                },
                Err(error) => UpdateAppIfNecessary::Done(Err(error)),
            },
            (
                UpdateAppIfNecessary::Update(updating),
                UpdateIfNecessaryEvent::Update(event),
            ) => match updating.advance(event) {
                UpdateApp::Done(updated) => UpdateAppIfNecessary::Done(outcome_of(updated)),
                updating => UpdateAppIfNecessary::Update(updating),
            },
            (update, _) => update,
        }
    }
}

impl<W, B> UpdateWebAppIfNecessary<W, B> {
    /// Takes what came of the call that it is at, and gives where it is then.
    pub fn advance(
        self,
        event: UpdateIfNecessaryEvent<B>,
    ) -> (next: UpdateWebAppIfNecessary<W, B>)
        ensures
            next == web_if_necessary_next(self, event),
    {
        match (self, event) {
            (
                UpdateWebAppIfNecessary::HashBundle { files, app_id, web_bundle, connect },
                UpdateIfNecessaryEvent::BundleHashed(hashed),
            ) => match hashed {
                Ok(hash) => UpdateWebAppIfNecessary::ReadInstalled {
                    files,
                    hash,
                    app_id,
                    web_bundle,
                    connect,
                },
                Err(error) => UpdateWebAppIfNecessary::Done(Err(error)),
            },
            (
                UpdateWebAppIfNecessary::ReadInstalled {
                    files,
                    hash,
                    app_id,
                    web_bundle,
                    connect,
                },
                UpdateIfNecessaryEvent::InstalledRead(read),
            ) => match read {
                Ok(installed) => match update_need(&installed, &app_id, &hash) {
                    UpdateNeed::NotInstalled => UpdateWebAppIfNecessary::Done(
                        Err(Error::UpdateHappError(UpdateHappError::AppNotFound(app_id))),
                    ),
                    UpdateNeed::UpToDate => UpdateWebAppIfNecessary::Done(Ok(())),
                    UpdateNeed::Outdated => UpdateWebAppIfNecessary::Update(
                        UpdateWebApp::StoreBundle { files, app_id, web_bundle, connect },
                    ),
                },
                Err(error) => UpdateWebAppIfNecessary::Done(Err(error)),
            },
            (
                UpdateWebAppIfNecessary::Update(updating),
                UpdateIfNecessaryEvent::Update(event),
            ) => match updating.advance(event) {
                UpdateWebApp::Done(updated) => UpdateWebAppIfNecessary::Done(updated),
                updating => UpdateWebAppIfNecessary::Update(updating),
            },
            (update, _) => update,
        }
    }
}

impl<P, K, S, C> HolochainRuntime<P, K, S, C> {
    /// Begins to update an app to the bundle.
    pub fn update_app<B>(&self, app_id: String, app_bundle: B) -> (update: UpdateApp<B>)
        ensures
            app_begins(update, self.admin_port, app_id, app_bundle),
    {
        UpdateApp::ConnectAdmin { connect: self.admin_websocket(), app_id, bundle: app_bundle }
    }

    /// Begins to update an app and its UI to the bundle.
    pub fn update_web_app<W, B>(
        &self,
        app_id: String,
        web_app_bundle: W,
    ) -> (update: UpdateWebApp<W, B>)
        ensures
            web_app_begins(update, self.admin_port, self.filesystem, app_id, web_app_bundle),
    {
        UpdateWebApp::StoreBundle {
            files: self.filesystem.clone(),
            app_id,
            web_bundle: web_app_bundle,
            connect: self.admin_websocket(),
        }
    }

    /// Begins to update an app to the bundle, if the bundle that was installed is another one.
    pub fn update_app_if_necessary<B>(
        &self,
        app_id: String,
        current_app_bundle: B,
    ) -> (update: UpdateAppIfNecessary<B>)
        ensures
            if_necessary_begins(
                update,
                self.admin_port,
                self.filesystem,
                app_id,
                current_app_bundle,
            ),
    {
        UpdateAppIfNecessary::HashBundle {
            files: self.filesystem.clone(),
            app_id,
            bundle: current_app_bundle,
            connect: self.admin_websocket(),
        }
    }

    /// Begins to update an app and its UI to the bundle, if the bundle that was installed is
    /// another one.
    pub fn update_web_app_if_necessary<W, B>(
        &self,
        app_id: String,
        current_web_app_bundle: W,
    ) -> (update: UpdateWebAppIfNecessary<W, B>)
        ensures
            web_if_necessary_begins(
                update,
                self.admin_port,
                self.filesystem,
                app_id,
                current_web_app_bundle,
            ),
    {
        UpdateWebAppIfNecessary::HashBundle {
            files: self.filesystem.clone(),
            app_id,
            web_bundle: current_web_app_bundle,
            connect: self.admin_websocket(),
        }
    }
}

/// Where updating an app that may need it begins: with the hash of the bundle.
pub open spec fn if_necessary_begins<B>(
    update: UpdateAppIfNecessary<B>,
    connects_to: u16,
    files: FileSystem,
    app_id: String,
    bundle: B,
) -> bool {
    &&& update matches UpdateAppIfNecessary::HashBundle {
        files: kept_files,
        app_id: kept_id,
        bundle: kept,
        connect,
    }
    &&& kept_files == files
    &&& is_admin_connect(connect, connects_to)
    &&& kept_id == app_id
    &&& kept == bundle
}

/// Where updating an app with its UI that may need it begins: with the hash of the bundle.
pub open spec fn web_if_necessary_begins<W, B>(
    update: UpdateWebAppIfNecessary<W, B>,
    connects_to: u16,
    files: FileSystem,
    app_id: String,
    web_bundle: W,
) -> bool {
    &&& update matches UpdateWebAppIfNecessary::HashBundle {
        files: kept_files,
        app_id: kept_id,
        web_bundle: kept,
        connect,
    }
    &&& kept_files == files
    &&& is_admin_connect(connect, connects_to)
    &&& kept_id == app_id
    &&& kept == web_bundle
}

/// An app is found not to be installed exactly where no installed app has its id; where one has,
/// and no other has that id, its hash decides.
pub proof fn law_update_goes_by_the_app_with_the_id(
    installed: Seq<InstalledApp>,
    app_id: Seq<char>,
    hash: Seq<char>,
)
    ensures
        need(installed, app_id, hash) == UpdateNeed::NotInstalled <==> forall|i: int|
            0 <= i < installed.len() ==> (#[trigger] installed[i]).app_id@ != app_id,
        forall|i: int|
            0 <= i < installed.len() && (#[trigger] installed[i]).app_id@ == app_id && (forall|
                j: int,
            |
                0 <= j < installed.len() && j != i ==> (#[trigger] installed[j]).app_id@ != app_id)
                ==> need(installed, app_id, hash) == if installed[i].happ_bundle_hash@ == hash {
                UpdateNeed::UpToDate
            } else {
                UpdateNeed::Outdated
            },
    decreases installed.len(),
{
    if installed.len() > 0 && installed[0].app_id@ != app_id {
        let rest = installed.drop_first();
        law_update_goes_by_the_app_with_the_id(rest, app_id, hash);
        assert forall|i: int| 0 < i < installed.len() implies #[trigger] installed[i] == rest[i
            - 1] by {}
        assert forall|i: int| 0 <= i < rest.len() implies #[trigger] rest[i] == installed[i
            + 1] by {}
    }
}

/// The states that updating an app that may need it goes through, and the events that take it from
/// each to the next.
pub open spec fn is_run<B>(
    states: Seq<UpdateAppIfNecessary<B>>,
    events: Seq<UpdateIfNecessaryEvent<B>>,
) -> bool {
    &&& states.len() == events.len() + 1
    &&& forall|i: int|
        0 <= i < events.len() ==> states[i + 1] == if_necessary_next(
            states[i],
            #[trigger] events[i],
        )
}

/// The states that updating an app with its UI that may need it goes through, and the events that
/// take it from each to the next.
pub open spec fn is_web_run<W, B>(
    states: Seq<UpdateWebAppIfNecessary<W, B>>,
    events: Seq<UpdateIfNecessaryEvent<B>>,
) -> bool {
    &&& states.len() == events.len() + 1
    &&& forall|i: int|
        0 <= i < events.len() ==> states[i + 1] == web_if_necessary_next(
            states[i],
            #[trigger] events[i],
        )
}

/// Before the `i`-th state the hash of the bundle was taken, and then the installed apps were
/// read, by which the app has the need.
pub open spec fn was_found<B>(
    events: Seq<UpdateIfNecessaryEvent<B>>,
    i: int,
    app_id: Seq<char>,
    found: UpdateNeed,
) -> bool {
    exists|j: int, k: int|
        {
            &&& 0 <= j < k < i
            &&& #[trigger] events[j] matches UpdateIfNecessaryEvent::BundleHashed(Ok(hash))
            &&& #[trigger] events[k] matches UpdateIfNecessaryEvent::InstalledRead(Ok(installed))
            &&& need(installed@, app_id, hash@) == found
        }
}

/// Before the `i`-th state the hash was taken.
pub open spec fn was_hashed<B>(
    events: Seq<UpdateIfNecessaryEvent<B>>,
    i: int,
    hash: String,
) -> bool {
    exists|j: int|
        0 <= j < i && (#[trigger] events[j] matches UpdateIfNecessaryEvent::BundleHashed(Ok(taken))
            && taken == hash)
}

/// Before the `i`-th state the conductor has updated the app.
pub open spec fn was_updated<B>(events: Seq<UpdateIfNecessaryEvent<B>>, i: int) -> bool {
    exists|j: int|
        0 <= j < i && (#[trigger] events[j] matches UpdateIfNecessaryEvent::Update(
            UpdateEvent::Updated(Ok(_)),
        ))
}

/// The conductor is asked to update an app only where it is installed with a bundle of another
/// hash, and then to the bundle and under the id that were asked for; that there is nothing to do
/// is said only where the hash is the same, or once the update has succeeded.
pub proof fn law_app_is_updated_only_where_the_hash_differs<B>(
    admin_port: u16,
    files: FileSystem,
    app_id: String,
    bundle: B,
    states: Seq<UpdateAppIfNecessary<B>>,
    events: Seq<UpdateIfNecessaryEvent<B>>,
    i: int,
)
    requires
        is_run(states, events),
        if_necessary_begins(states[0], admin_port, files, app_id, bundle),
        0 <= i < states.len(),
    ensures
        match states[i] {
            UpdateAppIfNecessary::HashBundle { files: f, app_id: id, bundle: b, connect } => f
                == files && id == app_id && b == bundle && is_admin_connect(connect, admin_port),
            UpdateAppIfNecessary::ReadInstalled {
                files: f,
                hash,
                app_id: id,
                bundle: b,
                connect,
            } => f == files && id == app_id && b == bundle && is_admin_connect(connect, admin_port)
                && was_hashed(events, i, hash),
            UpdateAppIfNecessary::Update(update) => was_found(
                events,
                i,
                app_id@,
                UpdateNeed::Outdated,
            ) && match update {
                UpdateApp::ConnectAdmin { connect, app_id: id, bundle: b } => is_admin_connect(
                    connect,
                    admin_port,
                ) && id == app_id && b == bundle,
                UpdateApp::Update { app_id: id, bundle: b } => id == app_id && b == bundle,
                UpdateApp::Done(_) => false,
            },
            UpdateAppIfNecessary::Done(Ok(_)) => was_found(events, i, app_id@, UpdateNeed::UpToDate)
                || (was_found(events, i, app_id@, UpdateNeed::Outdated) && was_updated(events, i)),
            UpdateAppIfNecessary::Done(Err(_)) => true,
        },
    decreases i,
{
    if i > 0 {
        law_app_is_updated_only_where_the_hash_differs(
            admin_port,
            files,
            app_id,
            bundle,
            states,
            events,
            i - 1,
        );
        assert(states[i] == if_necessary_next(states[i - 1], events[i - 1]));
        lemma_found_stays(events, i - 1, i, app_id@);
        if states[i - 1] is ReadInstalled && events[i - 1] is InstalledRead {
            let hash = states[i - 1]->ReadInstalled_hash;
            let j = choose|j: int|
                0 <= j < i - 1 && (#[trigger] events[j] matches
                    UpdateIfNecessaryEvent::BundleHashed(Ok(taken)) && taken == hash);
            assert(events[j] is BundleHashed && events[i - 1] is InstalledRead);
        }
    }
}

/// What was found before one state was found before every later one.
proof fn lemma_found_stays<B>(
    events: Seq<UpdateIfNecessaryEvent<B>>,
    i: int,
    later: int,
    app_id: Seq<char>,
)
    requires
        i <= later,
    ensures
        forall|found: UpdateNeed|
            was_found(events, i, app_id, found) ==> #[trigger] was_found(
                events,
                later,
                app_id,
                found,
            ),
{
}

/// The same of an app with its UI, which is updated from storing its bundle on.
pub proof fn law_web_app_is_updated_only_where_the_hash_differs<W, B>(
    admin_port: u16,
    files: FileSystem,
    app_id: String,
    web_bundle: W,
    states: Seq<UpdateWebAppIfNecessary<W, B>>,
    events: Seq<UpdateIfNecessaryEvent<B>>,
    i: int,
)
    requires
        is_web_run(states, events),
        web_if_necessary_begins(states[0], admin_port, files, app_id, web_bundle),
        0 <= i < states.len(),
    ensures
        match states[i] {
            UpdateWebAppIfNecessary::HashBundle { files: f, app_id: id, web_bundle: b, connect } =>
            f == files && id == app_id && b == web_bundle && is_admin_connect(connect, admin_port),
            UpdateWebAppIfNecessary::ReadInstalled {
                files: f,
                hash,
                app_id: id,
                web_bundle: b,
                connect,
            } => f == files && id == app_id && b == web_bundle && is_admin_connect(
                connect,
                admin_port,
            ) && was_hashed(events, i, hash),
            UpdateWebAppIfNecessary::Update(update) => was_found(
                events,
                i,
                app_id@,
                UpdateNeed::Outdated,
            ) && match update {
                UpdateWebApp::StoreBundle { files: f, app_id: id, web_bundle: b, connect } => f
                    == files && is_admin_connect(connect, admin_port) && id == app_id && b
                    == web_bundle,
                UpdateWebApp::ConnectAdmin { connect, app_id: id, web_bundle: b } =>
                is_admin_connect(connect, admin_port) && id == app_id && b == web_bundle,
                UpdateWebApp::TakeHappBundle { app_id: id, web_bundle: b } => id == app_id && b
                    == web_bundle,
                UpdateWebApp::Update { app_id: id, .. } => id == app_id,
                UpdateWebApp::Done(_) => false,
            },
            UpdateWebAppIfNecessary::Done(Ok(_)) => was_found(
                events,
                i,
                app_id@,
                UpdateNeed::UpToDate,
            ) || (was_found(events, i, app_id@, UpdateNeed::Outdated) && was_updated(events, i)),
            UpdateWebAppIfNecessary::Done(Err(_)) => true,
        },
    decreases i,
{
    if i > 0 {
        law_web_app_is_updated_only_where_the_hash_differs(
            admin_port,
            files,
            app_id,
            web_bundle,
            states,
            events,
            i - 1,
        );
        assert(states[i] == web_if_necessary_next(states[i - 1], events[i - 1]));
        lemma_found_stays(events, i - 1, i, app_id@);
        if states[i - 1] is ReadInstalled && events[i - 1] is InstalledRead {
            let hash = states[i - 1]->ReadInstalled_hash;
            let j = choose|j: int|
                0 <= j < i - 1 && (#[trigger] events[j] matches
                    UpdateIfNecessaryEvent::BundleHashed(Ok(taken)) && taken == hash);
            assert(events[j] is BundleHashed && events[i - 1] is InstalledRead);
        }
    }
}

/// The event tells what came of the call that the update is at.
pub open spec fn answers<B>(
    update: UpdateAppIfNecessary<B>,
    event: UpdateIfNecessaryEvent<B>,
) -> bool {
    match update {
        UpdateAppIfNecessary::HashBundle { .. } => event is BundleHashed,
        UpdateAppIfNecessary::ReadInstalled { .. } => event is InstalledRead,
        UpdateAppIfNecessary::Update(_) => event is Update,
        UpdateAppIfNecessary::Done(_) => false,
    }
}

/// The event tells what came of the call that the update of an app with its UI is at.
pub open spec fn web_answers<W, B>(
    update: UpdateWebAppIfNecessary<W, B>,
    event: UpdateIfNecessaryEvent<B>,
) -> bool {
    match update {
        UpdateWebAppIfNecessary::HashBundle { .. } => event is BundleHashed,
        UpdateWebAppIfNecessary::ReadInstalled { .. } => event is InstalledRead,
        UpdateWebAppIfNecessary::Update(_) => event is Update,
        UpdateWebAppIfNecessary::Done(_) => false,
    }
}

/// Taking a hash gives `hash`, and the record of the installed apps holds `kept` for the app.
pub open spec fn tells<B>(
    event: UpdateIfNecessaryEvent<B>,
    app_id: Seq<char>,
    hash: Seq<char>,
    kept: Option<Seq<char>>,
) -> bool {
    match event {
        UpdateIfNecessaryEvent::BundleHashed(hashed) => hashed matches Ok(taken) && taken@ == hash,
        UpdateIfNecessaryEvent::InstalledRead(read) => read matches Ok(installed)
            && installed_hash(installed@, app_id) == kept,
        UpdateIfNecessaryEvent::Update(_) => true,
    }
}

/// Where the record holds for the app the hash that is taken of the current bundle, the update is
/// over with success after two calls, which take the hash and read the record: no admin interface
/// is reached, and no update is made.
pub proof fn law_app_with_the_same_hash_is_left_alone<B>(
    admin_port: u16,
    files: FileSystem,
    app_id: String,
    bundle: B,
    hash: Seq<char>,
    states: Seq<UpdateAppIfNecessary<B>>,
    events: Seq<UpdateIfNecessaryEvent<B>>,
    i: int,
)
    requires
        is_run(states, events),
        if_necessary_begins(states[0], admin_port, files, app_id, bundle),
        forall|k: int|
            0 <= k < events.len() ==> tells(#[trigger] events[k], app_id@, hash, Some(hash)),
        0 <= i < states.len(),
    ensures
        match states[i] {
            UpdateAppIfNecessary::HashBundle { files: f, app_id: id, bundle: b, .. } => f == files
                && id == app_id && b == bundle,
            UpdateAppIfNecessary::ReadInstalled { files: f, hash: h, app_id: id, .. } => f == files
                && h@ == hash && id == app_id,
            UpdateAppIfNecessary::Update(_) => false,
            UpdateAppIfNecessary::Done(result) => result is Ok,
        },
        (forall|k: int| 0 <= k < events.len() ==> answers(states[k], #[trigger] events[k])) ==> {
            &&& i <= 2
            &&& i == 2 ==> states[i] is Done
        },
    decreases i,
{
    if i > 0 {
        law_app_with_the_same_hash_is_left_alone(
            admin_port,
            files,
            app_id,
            bundle,
            hash,
            states,
            events,
            i - 1,
        );
        assert(states[i] == if_necessary_next(states[i - 1], events[i - 1]));
        assert(tells(events[i - 1], app_id@, hash, Some(hash)));
        if i > 1 {
            assert(states[i - 1] == if_necessary_next(states[i - 2], events[i - 2]));
        }
    }
}

/// Where the record holds for the app the hash that is taken of the current bundle with its UI, the
/// update is over with success after two calls, which take the hash and read the record: nothing is
/// stored, no admin interface is reached, and no update is made.
pub proof fn law_web_app_with_the_same_hash_is_left_alone<W, B>(
    admin_port: u16,
    files: FileSystem,
    app_id: String,
    web_bundle: W,
    hash: Seq<char>,
    states: Seq<UpdateWebAppIfNecessary<W, B>>,
    events: Seq<UpdateIfNecessaryEvent<B>>,
    i: int,
)
    requires
        is_web_run(states, events),
        web_if_necessary_begins(states[0], admin_port, files, app_id, web_bundle),
        forall|k: int|
            0 <= k < events.len() ==> tells(#[trigger] events[k], app_id@, hash, Some(hash)),
        0 <= i < states.len(),
    ensures
        match states[i] {
            UpdateWebAppIfNecessary::HashBundle { files: f, app_id: id, web_bundle: b, .. } => f
                == files && id == app_id && b == web_bundle,
            UpdateWebAppIfNecessary::ReadInstalled { files: f, hash: h, app_id: id, .. } => f
                == files && h@ == hash && id == app_id,
            UpdateWebAppIfNecessary::Update(_) => false,
            UpdateWebAppIfNecessary::Done(result) => result is Ok,
        },
        (forall|k: int| 0 <= k < events.len() ==> web_answers(states[k], #[trigger] events[k]))
            ==> {
            &&& i <= 2
            &&& i == 2 ==> states[i] is Done
        },
    decreases i,
{
    if i > 0 {
        law_web_app_with_the_same_hash_is_left_alone(
            admin_port,
            files,
            app_id,
            web_bundle,
            hash,
            states,
            events,
            i - 1,
        );
        assert(states[i] == web_if_necessary_next(states[i - 1], events[i - 1]));
        assert(tells(events[i - 1], app_id@, hash, Some(hash)));
        if i > 1 {
            assert(states[i - 1] == web_if_necessary_next(states[i - 2], events[i - 2]));
        }
    }
}

/// An app with its UI that was installed, and not installed or updated since, is not updated to a
/// bundle with the same hash: the update succeeds, stores nothing, reaches no admin interface and
/// changes nothing. `hash_of` is the hash of a bundle with a UI, and `record` what is recorded for
/// each app among the files, which both are of; this takes that storing a bundle for an app records
/// its hash for it.
pub proof fn law_installed_web_app_is_not_updated_to_the_same_bundle<W, B, R, I>(
    hash_of: spec_fn(W) -> Seq<char>,
    files: FileSystem,
    record: Map<Seq<char>, Seq<char>>,
    install_port: u16,
    web_bundle: W,
    options: InstallOptions<R>,
    installs: Seq<InstallWebApp<W, B, R, I>>,
    replies: Seq<InstallEvent<B, I>>,
    admin_port: u16,
    current: W,
    states: Seq<UpdateWebAppIfNecessary<W, B>>,
    events: Seq<UpdateIfNecessaryEvent<B>>,
    i: int,
)
    requires
        super::install::is_web_app_run(installs, replies),
        super::install::web_app_begins(installs[0], install_port, files, web_bundle, options),
        installs.last() matches InstallWebApp::Done(Ok(_)),
        forall|k: int, app_id: String, stored: W| #[trigger]
            stores_web_bundle(installs, replies, k, files, app_id, stored) ==> record.contains_pair(
                app_id@,
                hash_of(stored),
            ),
        hash_of(web_bundle) == hash_of(current),
        is_web_run(states, events),
        web_if_necessary_begins(states[0], admin_port, files, options.app_id, current),
        forall|k: int|
            0 <= k < events.len() ==> tells(
                #[trigger] events[k],
                options.app_id@,
                hash_of(current),
                record.get(options.app_id@),
            ),
        0 <= i < states.len(),
    ensures
        !(states[i] is Update),
        states[i] matches UpdateWebAppIfNecessary::Done(result) ==> result is Ok,
        (forall|k: int| 0 <= k < events.len() ==> web_answers(states[k], #[trigger] events[k]))
            ==> {
            &&& i <= 2
            &&& i == 2 ==> states[i] is Done
        },
{
    law_web_bundle_is_stored(
        install_port,
        files,
        web_bundle,
        options,
        installs,
        replies,
        installs.len() - 1,
    );
    let k = choose|k: int| #[trigger]
        stores_web_bundle(installs, replies, k, files, options.app_id, web_bundle);
    assert(record.contains_pair(options.app_id@, hash_of(web_bundle)));
    assert(record.get(options.app_id@) == Some(hash_of(current)));
    law_web_app_with_the_same_hash_is_left_alone(
        admin_port,
        files,
        options.app_id,
        current,
        hash_of(current),
        states,
        events,
        i,
    );
}

/// The same of an app without a UI, where storing its bundle records the hash of that bundle.
pub proof fn law_installed_app_is_not_updated_to_the_same_bundle<B, R, I>(
    hash_of: spec_fn(B) -> Seq<char>,
    files: FileSystem,
    record: Map<Seq<char>, Seq<char>>,
    install_port: u16,
    bundle: B,
    options: InstallOptions<R>,
    installs: Seq<InstallApp<B, R, I>>,
    replies: Seq<InstallEvent<B, I>>,
    admin_port: u16,
    current: B,
    states: Seq<UpdateAppIfNecessary<B>>,
    events: Seq<UpdateIfNecessaryEvent<B>>,
    i: int,
)
    requires
        super::install::is_app_run(installs, replies),
        super::install::app_begins(installs[0], install_port, files, bundle, options),
        installs.last() matches InstallApp::Done(Ok(_)),
        forall|k: int, app_id: String, stored: B| #[trigger]
            stores_bundle(installs, replies, k, files, app_id, stored) ==> record.contains_pair(
                app_id@,
                hash_of(stored),
            ),
        hash_of(bundle) == hash_of(current),
        is_run(states, events),
        if_necessary_begins(states[0], admin_port, files, options.app_id, current),
        forall|k: int|
            0 <= k < events.len() ==> tells(
                #[trigger] events[k],
                options.app_id@,
                hash_of(current),
                record.get(options.app_id@),
            ),
        0 <= i < states.len(),
    ensures
        !(states[i] is Update),
        states[i] matches UpdateAppIfNecessary::Done(result) ==> result is Ok,
        (forall|k: int| 0 <= k < events.len() ==> answers(states[k], #[trigger] events[k])) ==> {
            &&& i <= 2
            &&& i == 2 ==> states[i] is Done
        },
{
    law_bundle_is_stored(
        install_port,
        files,
        bundle,
        options,
        installs,
        replies,
        installs.len() - 1,
    );
    let k = choose|k: int| #[trigger]
        stores_bundle(installs, replies, k, files, options.app_id, bundle);
    assert(record.contains_pair(options.app_id@, hash_of(bundle)));
    assert(record.get(options.app_id@) == Some(hash_of(current)));
    law_app_with_the_same_hash_is_left_alone(
        admin_port,
        files,
        options.app_id,
        current,
        hash_of(current),
        states,
        events,
        i,
    );
}

/// The event tells what came of the call that the update is at.
pub open spec fn update_answers<B>(update: UpdateApp<B>, event: UpdateEvent<B>) -> bool {
    match update {
        UpdateApp::ConnectAdmin { .. } => event is AdminConnected,
        UpdateApp::Update { .. } => event is Updated,
        UpdateApp::Done(_) => false,
    }
}

/// The event tells what came of the call that the update of an app with its UI is at.
pub open spec fn web_update_answers<W, B>(
    update: UpdateWebApp<W, B>,
    event: UpdateEvent<B>,
) -> bool {
    match update {
        UpdateWebApp::StoreBundle { .. } => event is BundleStored,
        UpdateWebApp::ConnectAdmin { .. } => event is AdminConnected,
        UpdateWebApp::TakeHappBundle { .. } => event is HappBundleTaken,
        UpdateWebApp::Update { .. } => event is Updated,
        UpdateWebApp::Done(_) => false,
    }
}

/// The event tells what came of the very call that the update is at, if it is under way already.
pub open spec fn if_necessary_answers<B>(
    update: UpdateAppIfNecessary<B>,
    event: UpdateIfNecessaryEvent<B>,
) -> bool {
    match (update, event) {
        (
            UpdateAppIfNecessary::Update(updating),
            UpdateIfNecessaryEvent::Update(event),
        ) => update_answers(updating, event),
        _ => answers(update, event),
    }
}

/// The event tells what came of the very call that the update of an app with its UI is at, if it is
/// under way already.
pub open spec fn web_if_necessary_answers<W, B>(
    update: UpdateWebAppIfNecessary<W, B>,
    event: UpdateIfNecessaryEvent<B>,
) -> bool {
    match (update, event) {
        (
            UpdateWebAppIfNecessary::Update(updating),
            UpdateIfNecessaryEvent::Update(event),
        ) => web_update_answers(updating, event),
        _ => web_answers(update, event),
    }
}

/// An event that answers no call of an update changes nothing.
pub proof fn law_stray_event_does_not_change_an_update<W, B>(
    app: UpdateApp<B>,
    web_app: UpdateWebApp<W, B>,
    event: UpdateEvent<B>,
)
    ensures
        !update_answers(app, event) ==> app_next(app, event) == app,
        !web_update_answers(web_app, event) ==> web_app_next(web_app, event) == web_app,
{
}

/// An event that answers no call of an update that may not be needed changes nothing.
pub proof fn law_stray_event_does_not_change_an_update_if_necessary<W, B>(
    app: UpdateAppIfNecessary<B>,
    web_app: UpdateWebAppIfNecessary<W, B>,
    event: UpdateIfNecessaryEvent<B>,
)
    requires
        app matches UpdateAppIfNecessary::Update(updating) ==> !(updating is Done),
        web_app matches UpdateWebAppIfNecessary::Update(updating) ==> !(updating is Done),
    ensures
        !if_necessary_answers(app, event) ==> if_necessary_next(app, event) == app,
        !web_if_necessary_answers(web_app, event) ==> web_if_necessary_next(web_app, event)
            == web_app,
{
}

/// An update of an app whose calls are answered is over after two of them, or with the first that
/// fails: the admin interface is reached, and then the conductor is asked, once, to update the app
/// to the bundle; its answer is how the update ends. That the admin interface is not reached is
/// told without the cause.
pub proof fn law_app_update_is_over_after_two_calls<B>(
    admin_port: u16,
    app_id: String,
    bundle: B,
    states: Seq<UpdateApp<B>>,
    events: Seq<UpdateEvent<B>>,
    i: int,
)
    requires
        is_app_run(states, events),
        app_begins(states[0], admin_port, app_id, bundle),
        forall|j: int| 0 <= j < events.len() ==> update_answers(states[j], #[trigger] events[j]),
        0 <= i < states.len(),
    ensures
        i <= 2,
        match states[i] {
            UpdateApp::ConnectAdmin { connect, .. } => i == 0 && is_admin_connect(
                connect,
                admin_port,
            ),
            UpdateApp::Update { app_id: id, bundle: b } => i == 1 && id == app_id && b == bundle
                && (events[0] matches UpdateEvent::AdminConnected(Ok(_))),
            UpdateApp::Done(Ok(_)) => i == 2 && (events[1] matches UpdateEvent::Updated(Ok(_))),
            UpdateApp::Done(Err(error)) => i > 0 && match events[i - 1] {
                UpdateEvent::AdminConnected(Err(_)) => error is WebsocketError,
                UpdateEvent::Updated(Err(e)) => error == e,
                _ => false,
            },
        },
    decreases i,
{
    if i > 0 {
        law_app_update_is_over_after_two_calls(admin_port, app_id, bundle, states, events, i - 1);
        law_app_is_updated_as_asked(admin_port, app_id, bundle, states, events, i - 1);
        assert(states[i] == app_next(states[i - 1], events[i - 1]));
        assert(update_answers(states[i - 1], events[i - 1]));
    }
}

/// An update of an app with its UI whose calls are answered is over after four of them, or with the
/// first that fails: the bundle is stored, under the id of the app; the admin interface is reached;
/// the bundle of the app is taken out of the one with the UI; and the conductor is asked, once, to
/// update the app to it; its answer is how the update ends.
pub proof fn law_web_app_update_is_over_after_four_calls<W, B>(
    admin_port: u16,
    files: FileSystem,
    app_id: String,
    web_bundle: W,
    states: Seq<UpdateWebApp<W, B>>,
    events: Seq<UpdateEvent<B>>,
    i: int,
)
    requires
        is_web_app_run(states, events),
        web_app_begins(states[0], admin_port, files, app_id, web_bundle),
        forall|j: int|
            0 <= j < events.len() ==> web_update_answers(states[j], #[trigger] events[j]),
        0 <= i < states.len(),
    ensures
        i <= 4,
        match states[i] {
            UpdateWebApp::StoreBundle { files: f, app_id: id, web_bundle: b, .. } => i == 0 && f
                == files && id == app_id && b == web_bundle,
            UpdateWebApp::ConnectAdmin { connect, .. } => i == 1 && is_admin_connect(
                connect,
                admin_port,
            ) && (events[0] matches UpdateEvent::BundleStored(Ok(_))),
            UpdateWebApp::TakeHappBundle { web_bundle: b, .. } => i == 2 && b == web_bundle && (
            events[1] matches UpdateEvent::AdminConnected(Ok(_))),
            UpdateWebApp::Update { app_id: id, bundle } => i == 3 && id == app_id && events[2]
                == UpdateEvent::HappBundleTaken(Ok(bundle)),
            UpdateWebApp::Done(Ok(_)) => i == 4 && (events[3] matches UpdateEvent::Updated(Ok(_))),
            UpdateWebApp::Done(Err(error)) => i > 0 && match events[i - 1] {
                UpdateEvent::BundleStored(Err(e)) => error == e,
                UpdateEvent::AdminConnected(Err(_)) => error == Error::UpdateHappError(
                    UpdateHappError::WebsocketError,
                ),
                UpdateEvent::HappBundleTaken(Err(e)) => error == e,
                UpdateEvent::Updated(Err(e)) => error == Error::UpdateHappError(e),
                _ => false,
            },
        },
    decreases i,
{
    if i > 0 {
        law_web_app_update_is_over_after_four_calls(
            admin_port,
            files,
            app_id,
            web_bundle,
            states,
            events,
            i - 1,
        );
        law_web_app_is_updated_as_asked(
            admin_port,
            files,
            app_id,
            web_bundle,
            states,
            events,
            i - 1,
        );
        assert(states[i] == web_app_next(states[i - 1], events[i - 1]));
        assert(web_update_answers(states[i - 1], events[i - 1]));
    }
}

/// The record holds the hash for the app: that of the first entry with its id.
pub open spec fn holds(installed: Seq<InstalledApp>, app_id: Seq<char>, hash: Seq<char>) -> bool {
    exists|k: int|
        {
            &&& 0 <= k < installed.len()
            &&& (#[trigger] installed[k]).app_id@ == app_id
            &&& installed[k].happ_bundle_hash@ == hash
            &&& forall|m: int| 0 <= m < k ==> (#[trigger] installed[m]).app_id@ != app_id
        }
}

/// The record holds a hash for the app, which is another one.
pub open spec fn holds_other(
    installed: Seq<InstalledApp>,
    app_id: Seq<char>,
    hash: Seq<char>,
) -> bool {
    exists|other: Seq<char>| #[trigger] holds(installed, app_id, other) && other != hash
}

/// No entry of the record has the id.
pub open spec fn holds_none(installed: Seq<InstalledApp>, app_id: Seq<char>) -> bool {
    forall|k: int| 0 <= k < installed.len() ==> (#[trigger] installed[k]).app_id@ != app_id
}

proof fn lemma_hash_that_is_held(installed: Seq<InstalledApp>, app_id: Seq<char>)
    ensures
        match installed_hash(installed, app_id) {
            Some(hash) => holds(installed, app_id, hash) && !holds_none(installed, app_id),
            None => holds_none(installed, app_id),
        },
        forall|hash: Seq<char>| #[trigger]
            holds(installed, app_id, hash) ==> installed_hash(installed, app_id) == Some(hash),
    decreases installed.len(),
{
    if installed.len() > 0 {
        let rest = installed.drop_first();
        lemma_hash_that_is_held(rest, app_id);
        assert forall|k: int| 0 < k < installed.len() implies #[trigger] installed[k] == rest[k
            - 1] by {}
        assert forall|k: int| 0 <= k < rest.len() implies #[trigger] rest[k] == installed[k
            + 1] by {}
        if installed[0].app_id@ == app_id {
            assert(holds(installed, app_id, installed[0].happ_bundle_hash@));
        } else {
            if let Some(hash) = installed_hash(rest, app_id) {
                let k = choose|k: int|
                    {
                        &&& 0 <= k < rest.len()
                        &&& (#[trigger] rest[k]).app_id@ == app_id
                        &&& rest[k].happ_bundle_hash@ == hash
                        &&& forall|m: int| 0 <= m < k ==> (#[trigger] rest[m]).app_id@ != app_id
                    };
                assert(installed[k + 1].app_id@ == app_id);
                assert forall|m: int| 0 <= m < k + 1 implies (
                #[trigger] installed[m]).app_id@ != app_id by {
                    if m > 0 {
                        assert(rest[m - 1].app_id@ != app_id);
                    }
                }
                assert(holds(installed, app_id, hash));
            }
            assert forall|hash: Seq<char>| #[trigger] holds(installed, app_id, hash) implies holds(
                rest,
                app_id,
                hash,
            ) by {
                let k = choose|k: int|
                    {
                        &&& 0 <= k < installed.len()
                        &&& (#[trigger] installed[k]).app_id@ == app_id
                        &&& installed[k].happ_bundle_hash@ == hash
                        &&& forall|m: int|
                            0 <= m < k ==> (#[trigger] installed[m]).app_id@ != app_id
                    };
                assert(rest[k - 1].app_id@ == app_id);
                assert forall|m: int| 0 <= m < k - 1 implies (
                #[trigger] rest[m]).app_id@ != app_id by {
                    assert(installed[m + 1].app_id@ != app_id);
                }
            }
        }
    }
}

/// Whether an app is to be updated goes by the hash that the record holds for it: it is up to date
/// where that is the hash given, outdated where it is another, and not installed where the record
/// holds none.
proof fn lemma_need_goes_by_the_record(
    installed: Seq<InstalledApp>,
    app_id: Seq<char>,
    hash: Seq<char>,
)
    ensures
        need(installed, app_id, hash) == UpdateNeed::UpToDate <==> holds(installed, app_id, hash),
        need(installed, app_id, hash) == UpdateNeed::Outdated <==> holds_other(
            installed,
            app_id,
            hash,
        ),
        need(installed, app_id, hash) == UpdateNeed::NotInstalled <==> holds_none(
            installed,
            app_id,
        ),
{
    lemma_hash_that_is_held(installed, app_id);
    if let Some(kept) = installed_hash(installed, app_id) {
        assert(holds(installed, app_id, kept));
    }
    if holds_other(installed, app_id, hash) {
        let other = choose|other: Seq<char>| #[trigger]
            holds(installed, app_id, other) && other != hash;
        assert(installed_hash(installed, app_id) == Some(other));
    }
}

/// The first call has given this hash of the bundle.
pub open spec fn has_hash<B>(events: Seq<UpdateIfNecessaryEvent<B>>, hash: Seq<char>) -> bool {
    events[0] matches UpdateIfNecessaryEvent::BundleHashed(Ok(taken)) && taken@ == hash
}

/// By the first two calls, the record holds another hash for the app than that of the bundle.
pub open spec fn is_outdated<B>(
    events: Seq<UpdateIfNecessaryEvent<B>>,
    app_id: Seq<char>,
) -> bool {
    &&& events[0] matches UpdateIfNecessaryEvent::BundleHashed(Ok(hash))
    &&& events[1] matches UpdateIfNecessaryEvent::InstalledRead(Ok(installed))
    &&& holds_other(installed@, app_id, hash@)
}

/// By the first two calls, the record holds the hash of the bundle for the app.
pub open spec fn is_up_to_date<B>(
    events: Seq<UpdateIfNecessaryEvent<B>>,
    app_id: Seq<char>,
) -> bool {
    &&& events[0] matches UpdateIfNecessaryEvent::BundleHashed(Ok(hash))
    &&& events[1] matches UpdateIfNecessaryEvent::InstalledRead(Ok(installed))
    &&& holds(installed@, app_id, hash@)
}

/// By the second call, the record holds nothing for the app.
pub open spec fn is_not_installed<B>(
    events: Seq<UpdateIfNecessaryEvent<B>>,
    app_id: Seq<char>,
) -> bool {
    events[1] matches UpdateIfNecessaryEvent::InstalledRead(Ok(installed)) && holds_none(
        installed@,
        app_id,
    )
}

/// An update of an app that may not be needed takes the hash of the bundle and then reads the
/// record of the installed apps. Where the record holds another hash for the app, the app is then
/// updated to the bundle, with two more calls, whatever else the record holds; where it holds the
/// same hash the update is over with success at once; and only where no entry has the id it ends
/// with `AppNotFound`. A call that fails ends it with the error of that call.
pub proof fn law_app_is_updated_exactly_where_it_is_outdated<B>(
    admin_port: u16,
    files: FileSystem,
    app_id: String,
    bundle: B,
    states: Seq<UpdateAppIfNecessary<B>>,
    events: Seq<UpdateIfNecessaryEvent<B>>,
    i: int,
)
    requires
        is_run(states, events),
        if_necessary_begins(states[0], admin_port, files, app_id, bundle),
        forall|j: int|
            0 <= j < events.len() ==> if_necessary_answers(states[j], #[trigger] events[j]),
        0 <= i < states.len(),
    ensures
        i <= 4,
        match states[i] {
            UpdateAppIfNecessary::HashBundle { bundle: b, .. } => i == 0 && b == bundle,
            UpdateAppIfNecessary::ReadInstalled { files: f, hash, .. } => i == 1 && f == files
                && has_hash(events, hash@),
            UpdateAppIfNecessary::Update(update) => is_outdated(events, app_id@) && match update {
                UpdateApp::ConnectAdmin { connect, .. } => i == 2 && is_admin_connect(
                    connect,
                    admin_port,
                ),
                UpdateApp::Update { app_id: id, bundle: b } => i == 3 && id == app_id && b == bundle
                    && (events[2] matches UpdateIfNecessaryEvent::Update(
                    UpdateEvent::AdminConnected(Ok(_)),
                )),
                UpdateApp::Done(_) => false,
            },
            UpdateAppIfNecessary::Done(Ok(_)) => {
                ||| i == 2 && is_up_to_date(events, app_id@)
                ||| i == 4 && is_outdated(events, app_id@) && (
                events[3] matches UpdateIfNecessaryEvent::Update(UpdateEvent::Updated(Ok(_))))
            },
            UpdateAppIfNecessary::Done(Err(error)) => i > 0 && match events[i - 1] {
                UpdateIfNecessaryEvent::BundleHashed(Err(e)) => error == e,
                UpdateIfNecessaryEvent::InstalledRead(Err(e)) => error == e,
                UpdateIfNecessaryEvent::InstalledRead(Ok(_)) => i == 2 && is_not_installed(
                    events,
                    app_id@,
                ) && error == Error::UpdateHappError(UpdateHappError::AppNotFound(app_id)),
                UpdateIfNecessaryEvent::Update(UpdateEvent::AdminConnected(Err(_))) => error
                    == Error::UpdateHappError(UpdateHappError::WebsocketError),
                UpdateIfNecessaryEvent::Update(UpdateEvent::Updated(Err(e))) => error
                    == Error::UpdateHappError(e),
                _ => false,
            },
        },
    decreases i,
{
    if i > 0 {
        law_app_is_updated_exactly_where_it_is_outdated(
            admin_port,
            files,
            app_id,
            bundle,
            states,
            events,
            i - 1,
        );
        law_app_is_updated_only_where_the_hash_differs(
            admin_port,
            files,
            app_id,
            bundle,
            states,
            events,
            i - 1,
        );
        assert(states[i] == if_necessary_next(states[i - 1], events[i - 1]));
        assert(if_necessary_answers(states[i - 1], events[i - 1]));
        if let UpdateIfNecessaryEvent::InstalledRead(Ok(installed)) = events[i - 1] {
            let hash = states[i - 1]->ReadInstalled_hash;
            lemma_need_goes_by_the_record(installed@, app_id@, hash@);
        }
    }
}

/// The same of an app with its UI, whose update takes four more calls and begins with storing the
/// bundle.
pub proof fn law_web_app_is_updated_exactly_where_it_is_outdated<W, B>(
    admin_port: u16,
    files: FileSystem,
    app_id: String,
    web_bundle: W,
    states: Seq<UpdateWebAppIfNecessary<W, B>>,
    events: Seq<UpdateIfNecessaryEvent<B>>,
    i: int,
)
    requires
        is_web_run(states, events),
        web_if_necessary_begins(states[0], admin_port, files, app_id, web_bundle),
        forall|j: int|
            0 <= j < events.len() ==> web_if_necessary_answers(states[j], #[trigger] events[j]),
        0 <= i < states.len(),
    ensures
        i <= 6,
        match states[i] {
            UpdateWebAppIfNecessary::HashBundle { web_bundle: b, .. } => i == 0 && b == web_bundle,
            UpdateWebAppIfNecessary::ReadInstalled { files: f, hash, .. } => i == 1 && f == files
                && has_hash(events, hash@),
            UpdateWebAppIfNecessary::Update(update) => is_outdated(events, app_id@)
                && match update {
                UpdateWebApp::StoreBundle { files: f, app_id: id, web_bundle: b, .. } => i == 2 && f
                    == files && id == app_id && b == web_bundle,
                UpdateWebApp::ConnectAdmin { connect, .. } => i == 3 && is_admin_connect(
                    connect,
                    admin_port,
                ) && (events[2] matches UpdateIfNecessaryEvent::Update(
                    UpdateEvent::BundleStored(Ok(_)),
                )),
                UpdateWebApp::TakeHappBundle { web_bundle: b, .. } => i == 4 && b == web_bundle && (
                events[3] matches UpdateIfNecessaryEvent::Update(
                    UpdateEvent::AdminConnected(Ok(_)),
                )),
                UpdateWebApp::Update { app_id: id, bundle } => i == 5 && id == app_id && events[4]
                    == UpdateIfNecessaryEvent::Update(UpdateEvent::HappBundleTaken(Ok(bundle))),
                UpdateWebApp::Done(_) => false,
            },
            UpdateWebAppIfNecessary::Done(Ok(_)) => {
                ||| i == 2 && is_up_to_date(events, app_id@)
                ||| i == 6 && is_outdated(events, app_id@) && (
                events[5] matches UpdateIfNecessaryEvent::Update(UpdateEvent::Updated(Ok(_))))
            },
            UpdateWebAppIfNecessary::Done(Err(error)) => i > 0 && match events[i - 1] {
                UpdateIfNecessaryEvent::BundleHashed(Err(e)) => error == e,
                UpdateIfNecessaryEvent::InstalledRead(Err(e)) => error == e,
                UpdateIfNecessaryEvent::InstalledRead(Ok(_)) => i == 2 && is_not_installed(
                    events,
                    app_id@,
                ) && error == Error::UpdateHappError(UpdateHappError::AppNotFound(app_id)),
                UpdateIfNecessaryEvent::Update(UpdateEvent::BundleStored(Err(e))) => error == e,
                UpdateIfNecessaryEvent::Update(UpdateEvent::AdminConnected(Err(_))) => error
                    == Error::UpdateHappError(UpdateHappError::WebsocketError),
                UpdateIfNecessaryEvent::Update(UpdateEvent::HappBundleTaken(Err(e))) => error == e,
                UpdateIfNecessaryEvent::Update(UpdateEvent::Updated(Err(e))) => error
                    == Error::UpdateHappError(e),
                _ => false,
            },
        },
    decreases i,
{
    if i > 0 {
        law_web_app_is_updated_exactly_where_it_is_outdated(
            admin_port,
            files,
            app_id,
            web_bundle,
            states,
            events,
            i - 1,
        );
        law_web_app_is_updated_only_where_the_hash_differs(
            admin_port,
            files,
            app_id,
            web_bundle,
            states,
            events,
            i - 1,
        );
        assert(states[i] == web_if_necessary_next(states[i - 1], events[i - 1]));
        assert(web_if_necessary_answers(states[i - 1], events[i - 1]));
        if let UpdateIfNecessaryEvent::InstalledRead(Ok(installed)) = events[i - 1] {
            let hash = states[i - 1]->ReadInstalled_hash;
            lemma_need_goes_by_the_record(installed@, app_id@, hash@);
        }
    }
}

} // verus!
