//! Asking the conductor about an app, and having it enabled, disabled or uninstalled.
use super::{is_admin_connect, AdminConnect, HolochainRuntime};
use crate::apps::{is_listed, lists_app, AppInfo, AppStatus, AppStatusFilter};
use crate::error::Error;
use vstd::prelude::*;

verus! {

/// Where asking for an app is: the call to make next, or how it ended.
#[derive(Debug, PartialEq, Eq)]
pub enum IsAppInstalled {
    /// Connect to the admin interface.
    ConnectAdmin { connect: AdminConnect, app_id: String },
    /// List the apps that pass the filter; all of them without one.
    ListApps { filter: Option<AppStatusFilter>, app_id: String },
    /// It is over.
    Done(Result<bool, Error>),
}

/// What came of a call.
#[derive(Debug, PartialEq, Eq)]
pub enum AskEvent {
    AdminConnected(Result<(), String>),
    AppsListed(Result<Vec<AppInfo>, Error>),
}

/// A change to an app that the admin interface makes.
#[derive(Debug, PartialEq, Eq)]
pub enum AppCommand {
    Uninstall { app_id: String, force: bool },
    Enable { app_id: String },
    Disable { app_id: String },
}

/// Where changing an app is: the call to make next, or how it ended.
#[derive(Debug, PartialEq, Eq)]
pub enum ChangeApp {
    /// Connect to the admin interface.
    ConnectAdmin { connect: AdminConnect, command: AppCommand },
    /// Make the change.
    Send { command: AppCommand },
    /// It is over.
    Done(Result<(), Error>),
}

/// What came of a call.
#[derive(Debug, PartialEq, Eq)]
pub enum ChangeEvent {
    AdminConnected(Result<(), String>),
    Answered(Result<(), Error>),
}

/// Where asking for an app is after the event. An event that does not answer the call that it is
/// at leaves it there.
pub open spec fn asked(ask: IsAppInstalled, event: AskEvent) -> IsAppInstalled {
    match (ask, event) {
        (
            IsAppInstalled::ConnectAdmin { app_id, .. },
            AskEvent::AdminConnected(connected),
        ) => match connected {
            Ok(()) => IsAppInstalled::ListApps { filter: None, app_id },
            Err(cause) => IsAppInstalled::Done(Err(Error::WebsocketConnectionError(cause))),
        },
        (IsAppInstalled::ListApps { app_id, .. }, AskEvent::AppsListed(listed)) => match listed {
            Ok(apps) => IsAppInstalled::Done(Ok(lists_app(apps@, app_id@))),
            Err(error) => IsAppInstalled::Done(Err(error)),
        },
        _ => ask,
    }
}

/// Where changing an app is after the event. An event that does not answer the call that it is at
/// leaves it there.
pub open spec fn changed(change: ChangeApp, event: ChangeEvent) -> ChangeApp {
    match (change, event) {
        (
            ChangeApp::ConnectAdmin { command, .. },
            ChangeEvent::AdminConnected(connected),
        ) => match connected {
            Ok(()) => ChangeApp::Send { command },
            Err(cause) => ChangeApp::Done(Err(Error::WebsocketConnectionError(cause))),
        },
        (ChangeApp::Send { .. }, ChangeEvent::Answered(answer)) => ChangeApp::Done(answer),
        _ => change,
    }
}

/// Where asking for an app begins: with connecting to the admin interface.
pub open spec fn ask_begins(ask: IsAppInstalled, admin_port: u16, app_id: String) -> bool {
    &&& ask matches IsAppInstalled::ConnectAdmin { connect, app_id: kept }
    &&& is_admin_connect(connect, admin_port)
    &&& kept == app_id
}

/// The command to uninstall the app, though not where others depend on it.
pub open spec fn uninstalling(app_id: String) -> AppCommand {
    AppCommand::Uninstall { app_id, force: false }
}

/// The command to enable the app.
pub open spec fn enabling(app_id: String) -> AppCommand {
    AppCommand::Enable { app_id }
}

/// The command to disable the app.
pub open spec fn disabling(app_id: String) -> AppCommand {
    AppCommand::Disable { app_id }
}

/// Where a change begins: with connecting to the admin interface.
pub open spec fn change_begins(
    change: ChangeApp,
    admin_port: u16,
    command: AppCommand,
) -> bool {
    &&& change matches ChangeApp::ConnectAdmin { connect, command: kept }
    &&& is_admin_connect(connect, admin_port)
    &&& kept == command
}

impl IsAppInstalled {
    /// Takes what came of the call that it is at, and gives where it is then.
    pub fn advance(self, event: AskEvent) -> (next: IsAppInstalled)
        ensures
            next == asked(self, event),
    {
        match (self, event) {
            (
                IsAppInstalled::ConnectAdmin { app_id, .. },
                AskEvent::AdminConnected(connected),
            ) => match connected {
                Ok(()) => IsAppInstalled::ListApps { filter: None, app_id },
                Err(cause) => IsAppInstalled::Done(Err(Error::WebsocketConnectionError(cause))),
            },
            (
                IsAppInstalled::ListApps { app_id, .. },
                AskEvent::AppsListed(listed),
            ) => match listed {
                Ok(apps) => IsAppInstalled::Done(Ok(is_listed(&apps, &app_id))),
                Err(error) => IsAppInstalled::Done(Err(error)),
            },
            (ask, _) => ask,
        }
    }
}

impl ChangeApp {
    /// Takes what came of the call that it is at, and gives where it is then.
    pub fn advance(self, event: ChangeEvent) -> (next: ChangeApp)
        ensures
            next == changed(self, event),
    {
        match (self, event) {
            (
                ChangeApp::ConnectAdmin { command, .. },
                ChangeEvent::AdminConnected(connected),
            ) => match connected {
                Ok(()) => ChangeApp::Send { command },
                Err(cause) => ChangeApp::Done(Err(Error::WebsocketConnectionError(cause))),
            },
            (ChangeApp::Send { .. }, ChangeEvent::Answered(answer)) => ChangeApp::Done(answer),
            (change, _) => change,
        }
    }
}

impl<P, K, S, C> HolochainRuntime<P, K, S, C> {
    /// Begins to ask whether an app with the id is installed.
    pub fn is_app_installed(&self, app_id: String) -> (ask: IsAppInstalled)
        ensures
            ask_begins(ask, self.admin_port, app_id),
            ask matches IsAppInstalled::ConnectAdmin { connect, app_id: kept } && is_admin_connect(
                connect,
                self.admin_port,
            ) && kept == app_id,
    {
        IsAppInstalled::ConnectAdmin { connect: self.admin_websocket(), app_id }
    }

    /// Begins to uninstall the app, though not where others depend on it.
    pub fn uninstall_app(&self, app_id: String) -> (change: ChangeApp)
        ensures
            change_begins(change, self.admin_port, uninstalling(app_id)),
            change_begins(
                change,
                self.admin_port,
                (AppCommand::Uninstall { app_id, force: false }),
            ),
    {
        ChangeApp::ConnectAdmin {
            connect: self.admin_websocket(),
            command: AppCommand::Uninstall { app_id, force: false },
        }
    }

    /// Begins to enable the app.
    pub fn enable_app(&self, app_id: String) -> (change: ChangeApp)
        ensures
            change_begins(change, self.admin_port, enabling(app_id)),
            change_begins(change, self.admin_port, (AppCommand::Enable { app_id })),
    {
        ChangeApp::ConnectAdmin {
            connect: self.admin_websocket(),
            command: AppCommand::Enable { app_id },
        }
    }

    /// Begins to disable the app.
    pub fn disable_app(&self, app_id: String) -> (change: ChangeApp)
        ensures
            change_begins(change, self.admin_port, disabling(app_id)),
            change_begins(change, self.admin_port, (AppCommand::Disable { app_id })),
    {
        ChangeApp::ConnectAdmin {
            connect: self.admin_websocket(),
            command: AppCommand::Disable { app_id },
        }
    }
}

/// The states that changing an app goes through, and the events that take it from each to the
/// next.
pub open spec fn is_run(states: Seq<ChangeApp>, events: Seq<ChangeEvent>) -> bool {
    &&& states.len() == events.len() + 1
    &&& forall|i: int|
        0 <= i < events.len() ==> states[i + 1] == changed(states[i], #[trigger] events[i])
}

/// The change that is made is the one that was asked for, and it is over with success only where
/// the conductor has answered so.
pub proof fn law_change_is_made_as_asked(
    admin_port: u16,
    command: AppCommand,
    states: Seq<ChangeApp>,
    events: Seq<ChangeEvent>,
    i: int,
)
    requires
        is_run(states, events),
        change_begins(states[0], admin_port, command),
        0 <= i < states.len(),
    ensures
        match states[i] {
            ChangeApp::ConnectAdmin { connect, command: kept } => is_admin_connect(
                connect,
                admin_port,
            ) && kept == command,
            ChangeApp::Send { command: kept } => kept == command,
            ChangeApp::Done(Ok(_)) => exists|j: int|
                0 <= j < i && (#[trigger] events[j] matches ChangeEvent::Answered(Ok(_))),
            ChangeApp::Done(Err(_)) => true,
        },
    decreases i,
{
    if i > 0 {
        law_change_is_made_as_asked(admin_port, command, states, events, i - 1);
        assert(states[i] == changed(states[i - 1], events[i - 1]));
    }
}

/// The conductor carries the command out on the apps that it keeps by their ids, and changes
/// nothing else: enabling or disabling an app that is installed changes its status, and
/// uninstalling an app removes it.
pub open spec fn carries_out(
    before: Map<Seq<char>, AppStatus>,
    command: AppCommand,
    after: Map<Seq<char>, AppStatus>,
) -> bool {
    match command {
        AppCommand::Uninstall { app_id, .. } => after == before.remove(app_id@),
        AppCommand::Enable { app_id } => if before.contains_key(app_id@) {
            after == before.insert(app_id@, AppStatus::Enabled)
        } else {
            after == before
        },
        AppCommand::Disable { app_id } => {
            &&& after.dom() == before.dom()
            &&& forall|other: Seq<char>| #[trigger]
                after.contains_key(other) ==> if other == app_id@ {
                    after[other] is Disabled
                } else {
                    after[other] == before[other]
                }
        },
    }
}

/// The states that changing an app goes through, the events that take it from each to the next, and
/// the apps of the conductor at each: they change where a command is answered with success, as the
/// command says, and nowhere else up to then.
pub open spec fn is_run_on(
    states: Seq<ChangeApp>,
    events: Seq<ChangeEvent>,
    apps: Seq<Map<Seq<char>, AppStatus>>,
) -> bool {
    &&& is_run(states, events)
    &&& apps.len() == states.len()
    &&& forall|i: int|
        0 <= i < events.len() ==> match (states[i], #[trigger] events[i]) {
            (ChangeApp::Send { command }, ChangeEvent::Answered(Ok(_))) => carries_out(
                apps[i],
                command,
                apps[i + 1],
            ),
            _ => apps[i + 1] == apps[i],
        }
}

/// A change that ended with success was carried out on the apps, once.
proof fn lemma_change_is_carried_out(
    admin_port: u16,
    command: AppCommand,
    states: Seq<ChangeApp>,
    events: Seq<ChangeEvent>,
    apps: Seq<Map<Seq<char>, AppStatus>>,
    i: int,
)
    requires
        is_run_on(states, events, apps),
        change_begins(states[0], admin_port, command),
        0 <= i < states.len(),
    ensures
        match states[i] {
            ChangeApp::Done(Ok(_)) => carries_out(apps[0], command, apps[i]),
            ChangeApp::Done(Err(_)) => true,
            _ => apps[i] == apps[0],
        },
    decreases i,
{
    if i > 0 {
        lemma_change_is_carried_out(admin_port, command, states, events, apps, i - 1);
        law_change_is_made_as_asked(admin_port, command, states, events, i - 1);
        assert(states[i] == changed(states[i - 1], events[i - 1]));
    }
}

/// All apps are listed, where no filter is given.
pub open spec fn lists_all(listed: Seq<AppInfo>, apps: Map<Seq<char>, AppStatus>) -> bool {
    forall|app_id: Seq<char>| #[trigger] lists_app(listed, app_id) == apps.contains_key(app_id)
}

/// Asking whether the app is installed ends with yes, where the conductor lists these apps.
pub open spec fn is_found(app_id: String, apps: Map<Seq<char>, AppStatus>) -> bool {
    forall|listed: Vec<AppInfo>| #[trigger]
        lists_all(listed@, apps) ==> asked(
            IsAppInstalled::ListApps { filter: None, app_id },
            AskEvent::AppsListed(Ok(listed)),
        ) == IsAppInstalled::Done(Ok(true))
}

/// Disabling an app that is enabled and then enabling it, both with success, leaves it enabled, and
/// leaves every app as it was. In between it is disabled, and every other app is as it was. It is
/// found to be installed before, between and after.
pub proof fn law_enabling_undoes_disabling(
    admin_port: u16,
    app_id: String,
    disables: Seq<ChangeApp>,
    disable_events: Seq<ChangeEvent>,
    disable_apps: Seq<Map<Seq<char>, AppStatus>>,
    enables: Seq<ChangeApp>,
    enable_events: Seq<ChangeEvent>,
    enable_apps: Seq<Map<Seq<char>, AppStatus>>,
)
    requires
        is_run_on(disables, disable_events, disable_apps),
        change_begins(disables[0], admin_port, AppCommand::Disable { app_id }),
        disables.last() matches ChangeApp::Done(Ok(_)),
        disable_apps[0].contains_key(app_id@),
        disable_apps[0][app_id@] is Enabled,
        is_run_on(enables, enable_events, enable_apps),
        change_begins(enables[0], admin_port, AppCommand::Enable { app_id }),
        enables.last() matches ChangeApp::Done(Ok(_)),
        enable_apps[0] == disable_apps.last(),
    ensures
        enable_apps.last() == disable_apps[0],
        enable_apps[0].contains_key(app_id@) && enable_apps[0][app_id@] is Disabled,
        enable_apps[0].remove(app_id@) == disable_apps[0].remove(app_id@),
        is_found(app_id, disable_apps[0]),
        is_found(app_id, enable_apps[0]),
        is_found(app_id, enable_apps.last()),
{
    let before = disable_apps[0];
    let between = enable_apps[0];
    let after = enable_apps.last();
    let disable = AppCommand::Disable { app_id };
    let enable = AppCommand::Enable { app_id };
    lemma_change_is_carried_out(
        admin_port,
        disable,
        disables,
        disable_events,
        disable_apps,
        disables.len() - 1,
    );
    lemma_change_is_carried_out(
        admin_port,
        enable,
        enables,
        enable_events,
        enable_apps,
        enables.len() - 1,
    );
    assert(between.contains_key(app_id@));
    assert(between.remove(app_id@) =~= before.remove(app_id@)) by {
        assert forall|other: Seq<char>| #[trigger]
            between.remove(app_id@).contains_key(other) implies between.remove(app_id@)[other]
            == before.remove(app_id@)[other] by {
            assert(between.contains_key(other));
        }
    }
    assert(after =~= before) by {
        assert forall|other: Seq<char>| #[trigger] after.contains_key(other) implies after[other]
            == before[other] by {
            if other != app_id@ {
                assert(between.contains_key(other));
            }
        }
    }
}

/// The event tells what came of the call that asking for an app is at.
pub open spec fn answers(ask: IsAppInstalled, event: AskEvent) -> bool {
    match ask {
        IsAppInstalled::ConnectAdmin { .. } => event is AdminConnected,
        IsAppInstalled::ListApps { .. } => event is AppsListed,
        IsAppInstalled::Done(_) => false,
    }
}

/// The event tells what came of the call that changing an app is at.
pub open spec fn change_answers(change: ChangeApp, event: ChangeEvent) -> bool {
    match change {
        ChangeApp::ConnectAdmin { .. } => event is AdminConnected,
        ChangeApp::Send { .. } => event is Answered,
        ChangeApp::Done(_) => false,
    }
}

/// An event that answers no call changes nothing.
pub proof fn law_stray_event_changes_nothing(
    ask: IsAppInstalled,
    ask_event: AskEvent,
    change: ChangeApp,
    change_event: ChangeEvent,
)
    ensures
        !answers(ask, ask_event) ==> asked(ask, ask_event) == ask,
        !change_answers(change, change_event) ==> changed(change, change_event) == change,
{
}

/// The states that asking for an app goes through, and the events that take it from each to the
/// next.
pub open spec fn is_ask_run(states: Seq<IsAppInstalled>, events: Seq<AskEvent>) -> bool {
    &&& states.len() == events.len() + 1
    &&& forall|i: int|
        0 <= i < events.len() ==> states[i + 1] == asked(states[i], #[trigger] events[i])
}

/// Asking for an app is over after two calls, or with the first that fails. All apps are listed,
/// whatever their status is, and the answer is yes exactly where one of them has the id.
pub proof fn law_app_is_installed_where_it_is_listed(
    admin_port: u16,
    app_id: String,
    states: Seq<IsAppInstalled>,
    events: Seq<AskEvent>,
    i: int,
)
    requires
        is_ask_run(states, events),
        ask_begins(states[0], admin_port, app_id),
        forall|j: int| 0 <= j < events.len() ==> answers(states[j], #[trigger] events[j]),
        0 <= i < states.len(),
    ensures
        i <= 2,
        match states[i] {
            IsAppInstalled::ConnectAdmin { connect, app_id: id } => i == 0 && is_admin_connect(
                connect,
                admin_port,
            ) && id == app_id,
            IsAppInstalled::ListApps { filter, app_id: id } => i == 1 && filter is None && id
                == app_id && (events[0] matches AskEvent::AdminConnected(Ok(_))),
            IsAppInstalled::Done(Ok(yes)) => i == 2 && (events[1] matches AskEvent::AppsListed(
                Ok(apps),
            ) && (yes <==> exists|k: int|
                0 <= k < apps@.len() && (#[trigger] apps@[k]).installed_app_id@ == app_id@)),
            IsAppInstalled::Done(Err(error)) => i > 0 && match events[i - 1] {
                AskEvent::AdminConnected(Err(cause)) => error == Error::WebsocketConnectionError(
                    cause,
                ),
                AskEvent::AppsListed(Err(e)) => error == e,
                _ => false,
            },
        },
    decreases i,
{
    if i > 0 {
        law_app_is_installed_where_it_is_listed(admin_port, app_id, states, events, i - 1);
        assert(states[i] == asked(states[i - 1], events[i - 1]));
        assert(answers(states[i - 1], events[i - 1]));
    }
}

/// A change to an app is over after two calls, or with the first that fails: the admin interface is
/// reached, and then the conductor is asked, once, to make the change; its answer is how it ends.
pub proof fn law_change_is_over_after_two_calls(
    admin_port: u16,
    command: AppCommand,
    states: Seq<ChangeApp>,
    events: Seq<ChangeEvent>,
    i: int,
)
    requires
        is_run(states, events),
        change_begins(states[0], admin_port, command),
        forall|j: int| 0 <= j < events.len() ==> change_answers(states[j], #[trigger] events[j]),
        0 <= i < states.len(),
    ensures
        i <= 2,
        match states[i] {
            ChangeApp::ConnectAdmin { connect, .. } => i == 0 && is_admin_connect(
                connect,
                admin_port,
            ),
            ChangeApp::Send { command: sent } => i == 1 && sent == command && (
            events[0] matches ChangeEvent::AdminConnected(Ok(_))),
            ChangeApp::Done(Ok(_)) => i == 2 && (events[1] matches ChangeEvent::Answered(Ok(_))),
            ChangeApp::Done(Err(error)) => i > 0 && match events[i - 1] {
                ChangeEvent::AdminConnected(Err(cause)) => error == Error::WebsocketConnectionError(
                    cause,
                ),
                ChangeEvent::Answered(Err(e)) => error == e,
                _ => false,
            },
        },
    decreases i,
{
    if i > 0 {
        law_change_is_over_after_two_calls(admin_port, command, states, events, i - 1);
        law_change_is_made_as_asked(admin_port, command, states, events, i - 1);
        assert(states[i] == changed(states[i - 1], events[i - 1]));
        assert(change_answers(states[i - 1], events[i - 1]));
    }
}

/// What is asked of the conductor is about the app that was asked for, and about no other: to
/// uninstall it without force, to enable it, or to disable it.
pub proof fn law_commands_are_about_the_app(app_id: String)
    ensures
        uninstalling(app_id) matches AppCommand::Uninstall { app_id: id, force } && id == app_id
            && !force,
        enabling(app_id) matches AppCommand::Enable { app_id: id } && id == app_id,
        disabling(app_id) matches AppCommand::Disable { app_id: id } && id == app_id,
{
}

} // verus!
