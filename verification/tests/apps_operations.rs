use holochain_runtime::agent_key::AgentPubKey;
use holochain_runtime::apps::{AppInfo, AppStatus, DisabledAppReason};
use holochain_runtime::error::{Error, UpdateHappError};
use holochain_runtime::hc_auth::HcAuthStatus;
use holochain_runtime::holochain_runtime::admin::{
    AppCommand, AskEvent, ChangeApp, ChangeEvent, IsAppInstalled,
};
use holochain_runtime::holochain_runtime::install::{InstallApp, InstallEvent, InstallWebApp};
use holochain_runtime::holochain_runtime::update::{
    update_need, InstalledApp, UpdateApp, UpdateAppIfNecessary, UpdateEvent,
    UpdateIfNecessaryEvent, UpdateNeed, UpdateWebApp, UpdateWebAppIfNecessary,
};
use holochain_runtime::holochain_runtime::HolochainRuntime;
use holochain_runtime::keystore::Lair;
use holochain_runtime::paths::FileSystem;
use std::path::PathBuf;

type Web = InstallWebApp<&'static str, u8, u32, i64>;
type Plain = InstallApp<u8, u32, i64>;

type Runtime = HolochainRuntime<&'static str, u8, u16, u32>;

fn runtime() -> Runtime {
    HolochainRuntime {
        filesystem: FileSystem {
            app_data_dir: PathBuf::from("/d"),
            conductor_dir: PathBuf::from("/d/conductor"),
            keystore_dir: PathBuf::from("/d/keystore"),
            keystore_config_path: PathBuf::from("/d/keystore/lair.yaml"),
        },
        apps_websockets_auths: vec![],
        admin_port: 1234,
        hc_auth_config: None,
        hc_auth_status: HcAuthStatus::Failed("Not configured".to_string()),
        hc_auth_agent_key: None,
        hc_auth_raw_ed25519_b64url: None,
        conductor_handle: 40,
        lair: Lair { passphrase: "pass", lair_client: 10, in_proc_keystore: 20 },
    }
}

fn id(text: &str) -> String {
    text.to_string()
}

fn e() -> Error {
    Error::Other("e".to_string())
}

fn agent() -> AgentPubKey {
    AgentPubKey::from_raw_32([4; 32])
}

fn install_web() -> Web {
    runtime().install_web_app(id("a"), "web", Some(6), Some(agent()), Some(id("seed")))
}

fn install() -> Plain {
    runtime().install_app(id("a"), 8, Some(6), Some(agent()), Some(id("seed")))
}

#[test]
fn web_app_is_stored_unpacked_and_installed() {
    let install = install_web();
    let InstallWebApp::StoreBundle { ref files, web_bundle, ref options, .. } = install else {
        panic!()
    };
    assert_eq!(*files, runtime().filesystem);
    assert_eq!(web_bundle, "web");
    assert_eq!(options.app_id, "a");
    let install = install.advance(InstallEvent::BundleStored(Ok(())));
    assert!(matches!(install, InstallWebApp::TakeHappBundle { web_bundle: "web", .. }));
    let install = install.advance(InstallEvent::HappBundleTaken(Ok(8)));
    let InstallWebApp::LocateBundle { ref files, bundle, .. } = install else { panic!() };
    assert_eq!(*files, runtime().filesystem);
    assert_eq!(bundle, 8);
    let install = install.advance(InstallEvent::BundleLocated(Ok(PathBuf::from("/d/a.happ"))));
    let InstallWebApp::ConnectAdmin { ref connect, .. } = install else { panic!() };
    assert_eq!(connect.address, "localhost:1234");
    let install = install.advance(InstallEvent::AdminConnected(Ok(())));
    let InstallWebApp::Install { install: ref request } = install else { panic!() };
    assert_eq!(request.bundle_path, PathBuf::from("/d/a.happ"));
    assert_eq!(request.options.app_id, "a");
    assert_eq!(request.options.roles_settings, Some(6));
    assert_eq!(request.options.agent, Some(agent()));
    assert_eq!(request.options.network_seed, Some(id("seed")));
    let install = install.advance(InstallEvent::Installed(Ok(-1)));
    assert_eq!(install, InstallWebApp::Done(Ok(-1)));
}

#[test]
fn web_app_install_tells_what_went_wrong() {
    let stored = || install_web().advance(InstallEvent::BundleStored(Ok(())));
    let taken = || stored().advance(InstallEvent::HappBundleTaken(Ok(8)));
    let located = || taken().advance(InstallEvent::BundleLocated(Ok(PathBuf::from("/p"))));
    let connected = || located().advance(InstallEvent::AdminConnected(Ok(())));
    for failed in [
        install_web().advance(InstallEvent::BundleStored(Err(e()))),
        stored().advance(InstallEvent::HappBundleTaken(Err(e()))),
        taken().advance(InstallEvent::BundleLocated(Err(e()))),
        connected().advance(InstallEvent::Installed(Err(e()))),
    ] {
        assert_eq!(failed, InstallWebApp::Done(Err(e())));
    }
    assert_eq!(
        located().advance(InstallEvent::AdminConnected(Err(id("e")))),
        InstallWebApp::Done(Err(Error::WebsocketConnectionError(id("e"))))
    );
}

#[test]
fn app_is_stored_once_the_admin_interface_is_reached() {
    let install = install();
    let InstallApp::ConnectAdmin { ref connect, .. } = install else { panic!() };
    assert_eq!(connect.address, "localhost:1234");
    let install = install.advance(InstallEvent::AdminConnected(Ok(())));
    let InstallApp::StoreBundle { ref files, bundle, .. } = install else { panic!() };
    assert_eq!(*files, runtime().filesystem);
    assert_eq!(bundle, 8);
    let install = install.advance(InstallEvent::BundleStored(Ok(())));
    let InstallApp::LocateBundle { ref files, bundle, .. } = install else { panic!() };
    assert_eq!(*files, runtime().filesystem);
    assert_eq!(bundle, 8);
    let install = install.advance(InstallEvent::BundleLocated(Ok(PathBuf::from("/d/a.happ"))));
    let InstallApp::Install { install: ref request } = install else { panic!() };
    assert_eq!(request.bundle_path, PathBuf::from("/d/a.happ"));
    assert_eq!(request.options.app_id, "a");
    let install = install.advance(InstallEvent::Installed(Ok(5)));
    assert_eq!(install, InstallApp::Done(Ok(5)));
}

#[test]
fn app_install_tells_what_went_wrong() {
    let connected = || install().advance(InstallEvent::AdminConnected(Ok(())));
    let stored = || connected().advance(InstallEvent::BundleStored(Ok(())));
    let located = || stored().advance(InstallEvent::BundleLocated(Ok(PathBuf::from("/p"))));
    for failed in [
        connected().advance(InstallEvent::BundleStored(Err(e()))),
        stored().advance(InstallEvent::BundleLocated(Err(e()))),
        located().advance(InstallEvent::Installed(Err(e()))),
    ] {
        assert_eq!(failed, InstallApp::Done(Err(e())));
    }
    assert_eq!(
        install().advance(InstallEvent::AdminConnected(Err(id("e")))),
        InstallApp::Done(Err(Error::WebsocketConnectionError(id("e"))))
    );
}

#[test]
fn app_is_updated_over_the_admin_interface() {
    let update = || runtime().update_app(id("a"), 8u8);
    let UpdateApp::ConnectAdmin { connect, .. } = update() else { panic!() };
    assert_eq!(connect.address, "localhost:1234");
    let connected = || update().advance(UpdateEvent::AdminConnected(Ok(())));
    assert_eq!(connected(), UpdateApp::Update { app_id: id("a"), bundle: 8 });
    assert_eq!(connected().advance(UpdateEvent::Updated(Ok(()))), UpdateApp::Done(Ok(())));
    assert_eq!(
        update().advance(UpdateEvent::AdminConnected(Err(id("e")))),
        UpdateApp::Done(Err(UpdateHappError::WebsocketError))
    );
    let failed = || UpdateHappError::Other(id("bad dna"));
    assert_eq!(
        connected().advance(UpdateEvent::Updated(Err(failed()))),
        UpdateApp::Done(Err(failed()))
    );
}

#[test]
fn web_app_is_stored_and_then_updated() {
    let update = || -> UpdateWebApp<&'static str, u8> { runtime().update_web_app(id("a"), "web") };
    let UpdateWebApp::StoreBundle { files, web_bundle, .. } = update() else { panic!() };
    assert_eq!(files, runtime().filesystem);
    assert_eq!(web_bundle, "web");
    let stored = || update().advance(UpdateEvent::BundleStored(Ok(())));
    let UpdateWebApp::ConnectAdmin { connect, .. } = stored() else { panic!() };
    assert_eq!(connect.address, "localhost:1234");
    let connected = || stored().advance(UpdateEvent::AdminConnected(Ok(())));
    assert!(matches!(connected(), UpdateWebApp::TakeHappBundle { web_bundle: "web", .. }));
    let taken = || connected().advance(UpdateEvent::HappBundleTaken(Ok(8)));
    assert_eq!(taken(), UpdateWebApp::Update { app_id: id("a"), bundle: 8 });
    assert_eq!(taken().advance(UpdateEvent::Updated(Ok(()))), UpdateWebApp::Done(Ok(())));
    assert_eq!(
        update().advance(UpdateEvent::BundleStored(Err(e()))),
        UpdateWebApp::Done(Err(e()))
    );
    assert_eq!(
        stored().advance(UpdateEvent::AdminConnected(Err(id("e")))),
        UpdateWebApp::Done(Err(Error::UpdateHappError(UpdateHappError::WebsocketError)))
    );
    assert_eq!(
        connected().advance(UpdateEvent::HappBundleTaken(Err(e()))),
        UpdateWebApp::Done(Err(e()))
    );
    assert_eq!(
        taken().advance(UpdateEvent::Updated(Err(UpdateHappError::Other(id("x"))))),
        UpdateWebApp::Done(Err(Error::UpdateHappError(UpdateHappError::Other(id("x")))))
    );
}

fn installed() -> Vec<InstalledApp> {
    vec![
        InstalledApp { app_id: id("b"), happ_bundle_hash: id("h1") },
        InstalledApp { app_id: id("a"), happ_bundle_hash: id("h2") },
    ]
}

#[test]
fn update_is_needed_where_the_hash_differs() {
    assert_eq!(update_need(&installed(), &id("a"), &id("h2")), UpdateNeed::UpToDate);
    assert_eq!(update_need(&installed(), &id("a"), &id("h1")), UpdateNeed::Outdated);
    assert_eq!(update_need(&installed(), &id("c"), &id("h1")), UpdateNeed::NotInstalled);
}

#[test]
fn app_is_updated_only_if_necessary() {
    let begin = || runtime().update_app_if_necessary(id("a"), 8u8);
    assert!(matches!(begin(), UpdateAppIfNecessary::HashBundle { bundle: 8, .. }));
    let hashed = |hash: &str| begin().advance(UpdateIfNecessaryEvent::BundleHashed(Ok(id(hash))));
    let UpdateAppIfNecessary::ReadInstalled { files, hash, .. } = hashed("h2") else { panic!() };
    assert_eq!(files, runtime().filesystem);
    assert_eq!(hash, "h2");
    let read = |hash: &str, apps| {
        hashed(hash).advance(UpdateIfNecessaryEvent::InstalledRead(Ok(apps)))
    };
    assert_eq!(read("h2", installed()), UpdateAppIfNecessary::Done(Ok(())));
    assert_eq!(
        read("h2", vec![]),
        UpdateAppIfNecessary::Done(Err(Error::UpdateHappError(UpdateHappError::AppNotFound(
            id("a")
        ))))
    );
    let outdated = || read("h3", installed());
    assert_eq!(
        outdated(),
        UpdateAppIfNecessary::Update(runtime().update_app(id("a"), 8))
    );
    let updating = || {
        outdated().advance(UpdateIfNecessaryEvent::Update(UpdateEvent::AdminConnected(Ok(()))))
    };
    assert_eq!(
        updating().advance(UpdateIfNecessaryEvent::Update(UpdateEvent::Updated(Ok(())))),
        UpdateAppIfNecessary::Done(Ok(()))
    );
    assert_eq!(
        outdated()
            .advance(UpdateIfNecessaryEvent::Update(UpdateEvent::AdminConnected(Err(id("e"))))),
        UpdateAppIfNecessary::Done(Err(Error::UpdateHappError(UpdateHappError::WebsocketError)))
    );
    assert_eq!(
        begin().advance(UpdateIfNecessaryEvent::BundleHashed(Err(e()))),
        UpdateAppIfNecessary::Done(Err(e()))
    );
    assert_eq!(
        hashed("h2").advance(UpdateIfNecessaryEvent::InstalledRead(Err(e()))),
        UpdateAppIfNecessary::Done(Err(e()))
    );
}

#[test]
fn web_app_is_updated_only_if_necessary() {
    let begin = || -> UpdateWebAppIfNecessary<&'static str, u8> {
        runtime().update_web_app_if_necessary(id("a"), "web")
    };
    let hashed = |hash: &str| begin().advance(UpdateIfNecessaryEvent::BundleHashed(Ok(id(hash))));
    let UpdateWebAppIfNecessary::ReadInstalled { files, hash, .. } = hashed("h2") else {
        panic!()
    };
    assert_eq!(files, runtime().filesystem);
    assert_eq!(hash, "h2");
    let read = |hash: &str, apps| {
        hashed(hash).advance(UpdateIfNecessaryEvent::InstalledRead(Ok(apps)))
    };
    assert_eq!(read("h2", installed()), UpdateWebAppIfNecessary::Done(Ok(())));
    assert_eq!(
        read("h2", vec![]),
        UpdateWebAppIfNecessary::Done(Err(Error::UpdateHappError(UpdateHappError::AppNotFound(
            id("a")
        ))))
    );
    let mut update = read("h3", installed());
    assert_eq!(
        update,
        UpdateWebAppIfNecessary::Update(runtime().update_web_app(id("a"), "web"))
    );
    for event in [
        UpdateEvent::BundleStored(Ok(())),
        UpdateEvent::AdminConnected(Ok(())),
        UpdateEvent::HappBundleTaken(Ok(8)),
        UpdateEvent::Updated(Ok(())),
    ] {
        assert!(matches!(update, UpdateWebAppIfNecessary::Update(_)));
        update = update.advance(UpdateIfNecessaryEvent::Update(event));
    }
    assert_eq!(update, UpdateWebAppIfNecessary::Done(Ok(())));
    assert_eq!(
        begin().advance(UpdateIfNecessaryEvent::BundleHashed(Err(e()))),
        UpdateWebAppIfNecessary::Done(Err(e()))
    );
    assert_eq!(
        hashed("h2").advance(UpdateIfNecessaryEvent::InstalledRead(Err(e()))),
        UpdateWebAppIfNecessary::Done(Err(e()))
    );
}

#[test]
fn installed_app_is_found_among_all_apps() {
    let begin = || runtime().is_app_installed(id("a"));
    let listing = || begin().advance(AskEvent::AdminConnected(Ok(())));
    assert_eq!(listing(), IsAppInstalled::ListApps { filter: None, app_id: id("a") });
    let app = |name: &str| AppInfo {
        installed_app_id: id(name),
        status: AppStatus::AwaitingMemproofs,
    };
    assert_eq!(
        listing().advance(AskEvent::AppsListed(Ok(vec![app("b"), app("a")]))),
        IsAppInstalled::Done(Ok(true))
    );
    assert_eq!(
        listing().advance(AskEvent::AppsListed(Ok(vec![app("b")]))),
        IsAppInstalled::Done(Ok(false))
    );
    assert_eq!(
        begin().advance(AskEvent::AdminConnected(Err(id("e")))),
        IsAppInstalled::Done(Err(Error::WebsocketConnectionError(id("e"))))
    );
    assert_eq!(
        listing().advance(AskEvent::AppsListed(Err(e()))),
        IsAppInstalled::Done(Err(e()))
    );
}

#[test]
fn app_commands_are_sent_as_asked() {
    let runtime = runtime();
    for (begin, command) in [
        (runtime.uninstall_app(id("a")), AppCommand::Uninstall { app_id: id("a"), force: false }),
        (runtime.enable_app(id("a")), AppCommand::Enable { app_id: id("a") }),
        (runtime.disable_app(id("a")), AppCommand::Disable { app_id: id("a") }),
    ] {
        let ChangeApp::ConnectAdmin { ref connect, .. } = begin else { panic!() };
        assert_eq!(connect.address, "localhost:1234");
        let sent = begin.advance(ChangeEvent::AdminConnected(Ok(())));
        assert_eq!(sent, ChangeApp::Send { command });
        assert_eq!(sent.advance(ChangeEvent::Answered(Ok(()))), ChangeApp::Done(Ok(())));
    }
    assert_eq!(
        runtime.enable_app(id("a")).advance(ChangeEvent::AdminConnected(Err(id("e")))),
        ChangeApp::Done(Err(Error::WebsocketConnectionError(id("e"))))
    );
    assert_eq!(
        runtime
            .enable_app(id("a"))
            .advance(ChangeEvent::AdminConnected(Ok(())))
            .advance(ChangeEvent::Answered(Err(e()))),
        ChangeApp::Done(Err(e()))
    );
}

#[test]
fn installed_app_is_not_updated_to_the_same_bundle() {
    // The store records the hash of a bundle when it stores it.
    let mut record = vec![];
    let installing = install_web();
    let InstallWebApp::StoreBundle { web_bundle, ref options, .. } = installing else { panic!() };
    record.push(InstalledApp {
        app_id: options.app_id.clone(),
        happ_bundle_hash: format!("hash of {web_bundle}"),
    });
    let installed = installing
        .advance(InstallEvent::BundleStored(Ok(())))
        .advance(InstallEvent::HappBundleTaken(Ok(8)))
        .advance(InstallEvent::BundleLocated(Ok(PathBuf::from("/p"))))
        .advance(InstallEvent::AdminConnected(Ok(())))
        .advance(InstallEvent::Installed(Ok(1)));
    assert_eq!(installed, InstallWebApp::Done(Ok(1)));
    let update: UpdateWebAppIfNecessary<&'static str, u8> =
        runtime().update_web_app_if_necessary(id("a"), "web");
    let update = update.advance(UpdateIfNecessaryEvent::BundleHashed(Ok(id("hash of web"))));
    assert!(matches!(update, UpdateWebAppIfNecessary::ReadInstalled { .. }));
    let update = update.advance(UpdateIfNecessaryEvent::InstalledRead(Ok(record)));
    assert_eq!(update, UpdateWebAppIfNecessary::Done(Ok(())));
}

fn apps(first: AppStatus) -> Vec<AppInfo> {
    vec![
        AppInfo { installed_app_id: id("a"), status: first },
        AppInfo { installed_app_id: id("b"), status: AppStatus::AwaitingMemproofs },
    ]
}

/// How the conductor carries a command out.
fn carry_out(command: &AppCommand, mut apps: Vec<AppInfo>) -> Vec<AppInfo> {
    for app in apps.iter_mut() {
        match command {
            AppCommand::Disable { app_id } if *app_id == app.installed_app_id => {
                app.status = AppStatus::Disabled(DisabledAppReason::User);
            }
            AppCommand::Enable { app_id } if *app_id == app.installed_app_id => {
                app.status = AppStatus::Enabled;
            }
            _ => {}
        }
    }
    apps
}

#[test]
fn enabling_undoes_disabling() {
    let changed = |begin: ChangeApp, before: Vec<AppInfo>| {
        let sent = begin.advance(ChangeEvent::AdminConnected(Ok(())));
        let ChangeApp::Send { ref command } = sent else { panic!() };
        let after = carry_out(command, before);
        assert_eq!(sent.advance(ChangeEvent::Answered(Ok(()))), ChangeApp::Done(Ok(())));
        after
    };
    let disabled = || changed(runtime().disable_app(id("a")), apps(AppStatus::Enabled));
    assert_eq!(disabled(), apps(AppStatus::Disabled(DisabledAppReason::User)));
    let enabled = || changed(runtime().enable_app(id("a")), disabled());
    assert_eq!(enabled(), apps(AppStatus::Enabled));
    for listed in [disabled(), enabled()] {
        let answer = runtime()
            .is_app_installed(id("a"))
            .advance(AskEvent::AdminConnected(Ok(())))
            .advance(AskEvent::AppsListed(Ok(listed)));
        assert_eq!(answer, IsAppInstalled::Done(Ok(true)));
    }
}
