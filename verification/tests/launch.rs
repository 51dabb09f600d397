use holochain_runtime::agent_key::AgentPubKey;
use holochain_runtime::apps::{AppInfo, AppStatus, AppStatusFilter, DisabledAppReason};
use holochain_runtime::config::{HolochainRuntimeConfig, NetworkConfig, ReportConfig};
use holochain_runtime::error::Error;
use holochain_runtime::hc_auth::{AuthFlowResult, AuthKey, HcAuthConfig, HcAuthStatus};
use holochain_runtime::holochain_runtime::launch::{Launch, StartEvent};
use holochain_runtime::holochain_runtime::seed::{ExportEvent, ExportSeed, LairEntryKind};
use holochain_runtime::holochain_runtime::HolochainRuntime;
use holochain_runtime::keystore::{Lair, SpawnedKeystore};
use holochain_runtime::launch::config::InterfaceDriver;
use holochain_runtime::launch::{launch_holochain_runtime, LaunchEvent, LaunchRuntime};
use holochain_runtime::paths::FileSystem;
use std::path::PathBuf;

type Runtime = HolochainRuntime<&'static str, u8, u16, u32>;
type Event = LaunchEvent<u8, u16, u32>;
type Machine = LaunchRuntime<&'static str, u8, u16, u32>;

fn files() -> FileSystem {
    FileSystem {
        app_data_dir: PathBuf::from("/d"),
        conductor_dir: PathBuf::from("/d/conductor"),
        keystore_dir: PathBuf::from("/d/keystore"),
        keystore_config_path: PathBuf::from("/d/keystore/lair.yaml"),
    }
}

fn config() -> HolochainRuntimeConfig {
    HolochainRuntimeConfig::new(
        PathBuf::from("/d"),
        NetworkConfig {
            base64_auth_material: None,
            bootstrap_url: "https://bootstrap".to_string(),
            signal_url: "wss://signal".to_string(),
            webrtc_config: None,
            target_arc_factor: 1,
            report: ReportConfig::JsonLines { days_retained: 5, fetched_op_interval_s: 60 },
            advanced: None,
        },
    )
}

fn spawned() -> Event {
    LaunchEvent::KeystoreSpawned(Ok(SpawnedKeystore { lair_client: 10, in_proc_keystore: 20 }))
}

fn lair() -> Lair<&'static str, u8, u16> {
    Lair { passphrase: "pass", lair_client: 10, in_proc_keystore: 20 }
}

fn run(config: HolochainRuntimeConfig, events: Vec<Event>) -> Machine {
    let mut launch = launch_holochain_runtime("pass", config);
    for event in events {
        launch = launch.advance(event);
    }
    launch
}

fn key() -> AgentPubKey {
    AgentPubKey::from_raw_32([3; 32])
}

fn up_to_seed(admin_port: Option<u16>) -> Vec<Event> {
    let mut events = vec![LaunchEvent::FileSystemOpened(Ok(files()))];
    if let Some(port) = admin_port {
        events.push(LaunchEvent::PortPicked(port));
    }
    events.push(spawned());
    events.push(LaunchEvent::DeviceSeedSought(true));
    events
}

fn auth_key() -> AuthKey {
    AuthKey { agent_key: key(), raw_ed25519_b64url: "raw".to_string() }
}

#[test]
fn launch_begins_with_the_directories() {
    let LaunchRuntime::OpenFileSystem { holochain_dir, .. } = run(config(), vec![]) else {
        panic!()
    };
    assert_eq!(holochain_dir, PathBuf::from("/d"));
    let failed = LaunchEvent::FileSystemOpened(Err(Error::Other("disk full".to_string())));
    assert_eq!(
        run(config(), vec![failed]),
        LaunchRuntime::Done(Err(Error::Other("disk full".to_string())))
    );
}

#[test]
fn forced_admin_port_is_not_picked() {
    let opened = || LaunchEvent::FileSystemOpened(Ok(files()));
    assert!(matches!(run(config(), vec![opened()]), LaunchRuntime::PickPort { .. }));
    let LaunchRuntime::SpawnKeystore { config_path, passphrase, context } =
        run(config().admin_port(7), vec![opened()])
    else {
        panic!()
    };
    assert_eq!(config_path, PathBuf::from("/d/keystore/lair.yaml"));
    assert_eq!(passphrase, "pass");
    assert_eq!(context.admin_port, 7);
    let picked = run(config(), vec![opened(), LaunchEvent::PortPicked(9)]);
    let LaunchRuntime::SpawnKeystore { context, .. } = picked else { panic!() };
    assert_eq!(context.admin_port, 9);
}

#[test]
fn keystore_faults_end_the_launch() {
    let spawn = vec![
        LaunchEvent::FileSystemOpened(Ok(files())),
        LaunchEvent::KeystoreSpawned(Err("locked".to_string())),
    ];
    assert_eq!(
        run(config().admin_port(7), spawn),
        LaunchRuntime::Done(Err(Error::LairError("locked".to_string())))
    );
    let create = vec![
        LaunchEvent::FileSystemOpened(Ok(files())),
        spawned(),
        LaunchEvent::DeviceSeedSought(false),
        LaunchEvent::DeviceSeedCreated(Err("full".to_string())),
    ];
    assert_eq!(
        run(config().admin_port(7), create),
        LaunchRuntime::Done(Err(Error::LairError("full".to_string())))
    );
}

#[test]
fn device_seed_is_made_where_there_is_none() {
    let mut events = vec![
        LaunchEvent::FileSystemOpened(Ok(files())),
        spawned(),
    ];
    let LaunchRuntime::FindDeviceSeed { tag, .. } = run(config().admin_port(7), events) else {
        panic!()
    };
    assert_eq!(tag, "DEVICE_SEED");
    events = vec![
        LaunchEvent::FileSystemOpened(Ok(files())),
        spawned(),
        LaunchEvent::DeviceSeedSought(false),
    ];
    let LaunchRuntime::NewDeviceSeed { tag, deep_lock_passphrase, exportable, .. } =
        run(config().admin_port(7), events)
    else {
        panic!()
    };
    assert_eq!(tag, "DEVICE_SEED");
    assert_eq!(deep_lock_passphrase, None);
    assert!(exportable);
    let found = run(config().admin_port(7), up_to_seed(None));
    assert!(matches!(found, LaunchRuntime::CreateAuthKey { .. }));
}

#[test]
fn seed_of_wrong_length_is_refused() {
    for len in [0, 31, 33, 1000] {
        let mut config = config().admin_port(7);
        config.pending_import_seed = Some(vec![1; len]);
        assert_eq!(
            run(config, up_to_seed(None)),
            LaunchRuntime::Done(Err(Error::AgentSeedError(format!(
                "Import seed must be exactly 32 bytes, got {len}"
            ))))
        );
    }
}

#[test]
fn seed_is_imported_and_its_key_written() {
    let with_seed = || {
        let mut config = config().admin_port(7);
        config.pending_import_seed = Some(vec![5; 32]);
        config
    };
    let mut launch = run(with_seed(), up_to_seed(None));
    let LaunchRuntime::OpenStore { ref seed, ref context, .. } = launch else { panic!() };
    assert_eq!(*seed, vec![5; 32]);
    assert_eq!(context.pending_import_seed, None);
    launch = launch.advance(LaunchEvent::StoreOpened(Ok(())));
    assert!(matches!(launch, LaunchRuntime::LockSeed { .. }));
    launch = launch.advance(LaunchEvent::SeedLocked(Ok(())));
    let LaunchRuntime::InsertSeed { ref seed, tag, exportable, .. } = launch else { panic!() };
    assert_eq!(*seed, vec![5; 32]);
    assert_eq!(tag, "imported-agent-key");
    assert!(!exportable);
    launch = launch.advance(LaunchEvent::SeedInserted(Ok([0; 32])));
    let LaunchRuntime::WriteKeyFile { ref file, ref contents, .. } = launch else { panic!() };
    assert_eq!(file.dir, PathBuf::from("/d"));
    assert_eq!(file.name, "hc-auth-agent-key");
    assert_eq!(contents, "uhCAkAAAAAAAAAAAAAAAAAAAAAAAAAAAAAAAAAAAAAAAAAACZ9h_C");
    launch = launch.advance(LaunchEvent::KeyFileWritten(Ok(())));
    assert!(matches!(launch, LaunchRuntime::CreateAuthKey { .. }));
}

#[test]
fn import_faults_end_the_launch() {
    let fault = |events: Vec<Event>| {
        let mut config = config().admin_port(7);
        config.pending_import_seed = Some(vec![5; 32]);
        let mut launch = run(config, up_to_seed(None));
        for event in events {
            launch = launch.advance(event);
        }
        let LaunchRuntime::Done(Err(Error::AgentSeedError(reason))) = launch else { panic!() };
        reason
    };
    let opened = || LaunchEvent::StoreOpened(Ok(()));
    let locked = || LaunchEvent::SeedLocked(Ok(()));
    let inserted = || LaunchEvent::SeedInserted(Ok([0; 32]));
    let e = || "e".to_string();
    assert_eq!(fault(vec![LaunchEvent::StoreOpened(Err(e()))]), "Failed to get Lair store: e");
    assert_eq!(
        fault(vec![opened(), LaunchEvent::SeedLocked(Err(e()))]),
        "Failed to create locked array: e"
    );
    assert_eq!(
        fault(vec![opened(), locked(), LaunchEvent::SeedInserted(Err(e()))]),
        "Failed to insert seed: e"
    );
    assert_eq!(
        fault(vec![opened(), locked(), inserted(), LaunchEvent::KeyFileWritten(Err(e()))]),
        "Failed to write hc-auth-agent-key: e"
    );
}

#[test]
fn launch_without_server_keeps_the_key_and_says_so() {
    let mut events = up_to_seed(Some(11));
    events.push(LaunchEvent::AuthKeyCreated(Ok(auth_key())));
    events.push(LaunchEvent::ConfigWritten(Err("read-only".to_string())));
    events.push(LaunchEvent::ConductorBuilt(Ok(40)));
    let LaunchRuntime::Done(Ok(runtime)) = run(config(), events) else { panic!() };
    assert_eq!(runtime.filesystem, files());
    assert_eq!(runtime.admin_port, 11);
    assert!(runtime.apps_websockets_auths.is_empty());
    assert!(!runtime.is_hc_auth_configured());
    assert_eq!(runtime.hc_auth_status(), HcAuthStatus::Failed("Not configured".to_string()));
    assert_eq!(runtime.hc_auth_agent_key(), Some(key()));
    assert_eq!(runtime.hc_auth_raw_ed25519_b64url(), Some("raw".to_string()));
}

#[test]
fn launch_goes_on_without_a_key() {
    let mut events = up_to_seed(Some(11));
    events.push(LaunchEvent::AuthKeyCreated(Err("no entropy".to_string())));
    events.push(LaunchEvent::ConfigWritten(Ok(())));
    events.push(LaunchEvent::ConductorBuilt(Ok(40)));
    let LaunchRuntime::Done(Ok(runtime)) = run(config(), events) else { panic!() };
    assert_eq!(runtime.hc_auth_status(), HcAuthStatus::Failed("Not configured".to_string()));
    assert_eq!(runtime.hc_auth_agent_key(), None);
    assert_eq!(runtime.hc_auth_raw_ed25519_b64url(), None);
}

#[test]
fn auth_material_reaches_the_conductor() {
    let server = HcAuthConfig { auth_server_url: "https://auth".to_string() };
    let mut events = up_to_seed(Some(11));
    let LaunchRuntime::RunAuthFlow { server: asked, dir, .. } =
        run(config().with_hc_auth(server.clone()), up_to_seed(Some(11)))
    else {
        panic!()
    };
    assert_eq!(asked, server);
    assert_eq!(dir, PathBuf::from("/d"));
    events.push(LaunchEvent::AuthFlowEnded(Ok(AuthFlowResult {
        status: HcAuthStatus::Reported("Authorized".to_string()),
        auth_material: Some("bWF0".to_string()),
        agent_key: key(),
        raw_ed25519_b64url: "raw".to_string(),
    })));
    let mut launch = run(config().with_hc_auth(server.clone()), events);
    let LaunchRuntime::WriteConfig { ref dir, config: ref conductor, .. } = launch else {
        panic!()
    };
    assert_eq!(*dir, PathBuf::from("/d"));
    assert_eq!(conductor.network.base64_auth_material, Some("bWF0".to_string()));
    assert_eq!(conductor.network.bootstrap_url, "https://bootstrap");
    let interfaces = conductor.admin_interfaces.as_ref().unwrap();
    assert_eq!(interfaces.len(), 1);
    let InterfaceDriver::Websocket { port, .. } = interfaces[0].driver;
    assert_eq!(port, 11);
    launch = launch.advance(LaunchEvent::ConfigWritten(Ok(())));
    let LaunchRuntime::BuildConductor { config: ref conductor, .. } = launch else { panic!() };
    assert_eq!(conductor.network.base64_auth_material, Some("bWF0".to_string()));
    launch = launch.advance(LaunchEvent::ConductorBuilt(Ok(40)));
    let LaunchRuntime::Done(Ok(runtime)) = launch else { panic!() };
    assert!(runtime.is_hc_auth_configured());
    assert_eq!(runtime.hc_auth_status(), HcAuthStatus::Reported("Authorized".to_string()));
    assert_eq!(runtime.hc_auth_agent_key(), Some(key()));
}

#[test]
fn failed_authentication_does_not_fail_the_launch() {
    let server = HcAuthConfig { auth_server_url: "https://auth".to_string() };
    let mut events = up_to_seed(Some(11));
    events.push(LaunchEvent::AuthFlowEnded(Err("refused".to_string())));
    events.push(LaunchEvent::ConfigWritten(Ok(())));
    events.push(LaunchEvent::ConductorBuilt(Ok(40)));
    let LaunchRuntime::Done(Ok(runtime)) = run(config().with_hc_auth(server), events) else {
        panic!()
    };
    assert_eq!(runtime.hc_auth_status(), HcAuthStatus::Failed("refused".to_string()));
    assert_eq!(runtime.hc_auth_agent_key(), None);
    assert_eq!(runtime.hc_auth_raw_ed25519_b64url(), None);
}

#[test]
fn mdns_is_started_only_if_asked_for() {
    let events = || {
        let mut events = up_to_seed(Some(11));
        events.push(LaunchEvent::AuthKeyCreated(Ok(auth_key())));
        events.push(LaunchEvent::ConfigWritten(Ok(())));
        events.push(LaunchEvent::ConductorBuilt(Ok(40)));
        events
    };
    assert!(matches!(run(config(), events()), LaunchRuntime::Done(Ok(_))));
    let launch = run(config().enable_mdns_discovery(), events());
    let LaunchRuntime::SpawnMdns { admin_port, .. } = launch else { panic!() };
    assert_eq!(admin_port, 11);
    let spawned = launch.advance(LaunchEvent::MdnsSpawned(Ok(())));
    assert!(matches!(spawned, LaunchRuntime::Done(Ok(_))));
    let failed = run(config().enable_mdns_discovery(), events())
        .advance(LaunchEvent::MdnsSpawned(Err(Error::Other("no lan".to_string()))));
    assert_eq!(failed, LaunchRuntime::Done(Err(Error::Other("no lan".to_string()))));
}

#[test]
fn conductor_that_does_not_start_fails_the_launch() {
    let mut events = up_to_seed(Some(11));
    events.push(LaunchEvent::AuthKeyCreated(Ok(auth_key())));
    events.push(LaunchEvent::ConfigWritten(Ok(())));
    events.push(LaunchEvent::ConductorBuilt(Err(Error::Other("port taken".to_string()))));
    assert_eq!(
        run(config(), events),
        LaunchRuntime::Done(Err(Error::Other("port taken".to_string())))
    );
}

#[test]
fn event_that_answers_no_call_changes_nothing() {
    let launch = run(config(), up_to_seed(Some(11)));
    let same = run(config(), up_to_seed(Some(11))).advance(LaunchEvent::PortPicked(12));
    assert_eq!(launch, same);
}

fn built() -> Launch<&'static str, u8, u16, u32> {
    let mut launch = Runtime::launch("pass", config());
    let mut events = up_to_seed(Some(11));
    events.push(LaunchEvent::AuthKeyCreated(Ok(auth_key())));
    events.push(LaunchEvent::ConfigWritten(Ok(())));
    events.push(LaunchEvent::ConductorBuilt(Ok(40)));
    for event in events {
        launch = launch.advance(StartEvent::Build(event));
    }
    launch
}

fn app(id: &str, reason: DisabledAppReason) -> AppInfo {
    AppInfo { installed_app_id: id.to_string(), status: AppStatus::Disabled(reason) }
}

#[test]
fn launch_enables_the_apps_that_a_shutdown_disabled() {
    let launch = built();
    let Launch::ConnectAdmin { ref connect, .. } = launch else { panic!() };
    assert_eq!(connect.address, "localhost:11");
    assert_eq!(connect.request_timeout_secs, 300);
    assert_eq!(connect.origin, None);
    let launch = launch.advance(StartEvent::AdminConnected(Ok(())));
    let Launch::ListApps { filter, .. } = launch else { panic!() };
    assert_eq!(filter, AppStatusFilter::Disabled);
    let launch = launch.advance(StartEvent::AppsListed(Ok(vec![
        app("a", DisabledAppReason::User),
        app("b", DisabledAppReason::Error("holochain_runtime/network_shutdown".to_string())),
    ])));
    let Launch::EnableApps { ref app_ids, .. } = launch else { panic!() };
    assert_eq!(*app_ids, ["b"]);
    let launch = launch.advance(StartEvent::AppsEnabled);
    let Launch::Done(Ok(runtime)) = launch else { panic!() };
    assert_eq!(runtime.admin_port, 11);
}

#[test]
fn launched_runtime_keeps_the_keystore_and_the_conductor() {
    let launch = built()
        .advance(StartEvent::AdminConnected(Ok(())))
        .advance(StartEvent::AppsListed(Ok(vec![])));
    let Launch::Done(Ok(runtime)) = launch else { panic!() };
    assert_eq!(runtime.lair, lair());
    assert_eq!(runtime.conductor_handle, 40);
}

#[test]
fn one_keystore_serves_the_whole_launch() {
    let mut with_seed = config();
    with_seed.pending_import_seed = Some(vec![5; 32]);
    let mut events = vec![
        LaunchEvent::DeviceSeedSought(false),
        LaunchEvent::DeviceSeedCreated(Ok(())),
        LaunchEvent::StoreOpened(Ok(())),
        LaunchEvent::SeedLocked(Ok(())),
        LaunchEvent::SeedInserted(Ok([9; 32])),
        LaunchEvent::KeyFileWritten(Ok(())),
        LaunchEvent::AuthKeyCreated(Ok(auth_key())),
        LaunchEvent::ConfigWritten(Ok(())),
        LaunchEvent::ConductorBuilt(Ok(40)),
    ];
    let opened = LaunchEvent::FileSystemOpened(Ok(files()));
    let mut launch = run(with_seed.admin_port(7), vec![opened, spawned()]);
    for event in events.drain(..) {
        let used = match &launch {
            LaunchRuntime::FindDeviceSeed { lair, .. } => lair,
            LaunchRuntime::NewDeviceSeed { lair, .. } => lair,
            LaunchRuntime::OpenStore { lair, .. } => lair,
            LaunchRuntime::LockSeed { lair, .. } => lair,
            LaunchRuntime::InsertSeed { lair, .. } => lair,
            LaunchRuntime::WriteKeyFile { lair, .. } => lair,
            LaunchRuntime::CreateAuthKey { lair, .. } => lair,
            LaunchRuntime::WriteConfig { lair, .. } => lair,
            LaunchRuntime::BuildConductor { lair, .. } => lair,
            _ => panic!(),
        };
        assert_eq!(*used, lair());
        launch = launch.advance(event);
    }
    let LaunchRuntime::Done(Ok(runtime)) = launch else { panic!() };
    assert_eq!(runtime.lair, lair());
    assert_eq!(runtime.conductor_handle, 40);
}

#[test]
fn launch_with_nothing_to_enable_is_over() {
    let launch = built()
        .advance(StartEvent::AdminConnected(Ok(())))
        .advance(StartEvent::AppsListed(Ok(vec![app("a", DisabledAppReason::User)])));
    assert!(matches!(launch, Launch::Done(Ok(_))));
}

#[test]
fn launch_fails_where_the_admin_interface_does() {
    assert_eq!(
        built().advance(StartEvent::AdminConnected(Err("refused".to_string()))),
        Launch::Done(Err(Error::WebsocketConnectionError("refused".to_string())))
    );
    assert_eq!(
        built()
            .advance(StartEvent::AdminConnected(Ok(())))
            .advance(StartEvent::AppsListed(Err(Error::Other("closed".to_string())))),
        Launch::Done(Err(Error::Other("closed".to_string())))
    );
    let failed = Runtime::launch("pass", config()).advance(StartEvent::Build(
        LaunchEvent::FileSystemOpened(Err(Error::Other("disk full".to_string()))),
    ));
    assert_eq!(failed, Launch::Done(Err(Error::Other("disk full".to_string()))));
}

#[test]
fn longest_launch_takes_thirteen_calls() {
    let mut config = config()
        .with_hc_auth(HcAuthConfig { auth_server_url: "https://auth".to_string() })
        .enable_mdns_discovery();
    config.pending_import_seed = Some(vec![5; 32]);
    let events = vec![
        LaunchEvent::FileSystemOpened(Ok(files())),
        LaunchEvent::PortPicked(11),
        spawned(),
        LaunchEvent::DeviceSeedSought(false),
        LaunchEvent::DeviceSeedCreated(Ok(())),
        LaunchEvent::StoreOpened(Ok(())),
        LaunchEvent::SeedLocked(Ok(())),
        LaunchEvent::SeedInserted(Ok([9; 32])),
        LaunchEvent::KeyFileWritten(Ok(())),
        LaunchEvent::AuthFlowEnded(Err("offline".to_string())),
        LaunchEvent::ConfigWritten(Ok(())),
        LaunchEvent::ConductorBuilt(Ok(40)),
        LaunchEvent::MdnsSpawned(Ok(())),
    ];
    assert_eq!(events.len(), 13);
    let mut launch = launch_holochain_runtime("pass", config);
    for event in events {
        assert!(!matches!(launch, LaunchRuntime::Done(_)));
        launch = launch.advance(event);
    }
    let LaunchRuntime::Done(Ok(runtime)) = launch else { panic!() };
    assert_eq!(runtime.filesystem, files());
    assert_eq!(runtime.hc_auth_status(), HcAuthStatus::Failed("offline".to_string()));
}

#[test]
fn export_gives_the_imported_seed_back() {
    let mut config = config().admin_port(7);
    config.pending_import_seed = Some(vec![5; 32]);
    let mut launch = run(config, up_to_seed(None))
        .advance(LaunchEvent::StoreOpened(Ok(())))
        .advance(LaunchEvent::SeedLocked(Ok(())))
        .advance(LaunchEvent::SeedInserted(Ok([9; 32])));
    let LaunchRuntime::WriteKeyFile { ref file, ref contents, .. } = launch else { panic!() };
    let (dir, name, text) = (file.dir.clone(), file.name, contents.clone());
    for event in [
        LaunchEvent::KeyFileWritten(Ok(())),
        LaunchEvent::AuthKeyCreated(Ok(auth_key())),
        LaunchEvent::ConfigWritten(Ok(())),
        LaunchEvent::ConductorBuilt(Ok(40)),
    ] {
        launch = launch.advance(event);
    }
    let LaunchRuntime::Done(Ok(runtime)) = launch else { panic!() };
    let export = runtime.export_agent_seed();
    let ExportSeed::ReadKeyFile { ref file, .. } = export else { panic!() };
    assert_eq!((&file.dir, file.name), (&dir, name));
    let mut export = export.advance(ExportEvent::KeyFileRead(Ok(text)));
    assert_eq!(export, ExportSeed::OpenStore { in_proc_keystore: 20, public_key: [9; 32] });
    export = export.advance(ExportEvent::StoreOpened(Ok(())));
    assert_eq!(export, ExportSeed::FindEntry { public_key: [9; 32] });
    export = export.advance(ExportEvent::EntryFound(Ok(LairEntryKind::Seed)));
    assert_eq!(export, ExportSeed::DecryptSeed { public_key: [9; 32] });
    export = export.advance(ExportEvent::SeedDecrypted(Ok([5; 32])));
    assert_eq!(export, ExportSeed::Done(Ok(vec![5; 32])));
}
