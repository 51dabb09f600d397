use holochain_runtime::agent_key::AgentPubKey;
use holochain_runtime::apps::{AppInfo, AppStatus, AppStatusFilter, DisabledAppReason};
use holochain_runtime::config::{NetworkConfig, ReportConfig};
use holochain_runtime::error::Error;
use holochain_runtime::hc_auth::{AuthFlowResult, HcAuthConfig, HcAuthStatus};
use holochain_runtime::holochain_runtime::restart::{Restart, RestartEvent};
use holochain_runtime::holochain_runtime::seed::{ExportEvent, ExportSeed, LairEntryKind};
use holochain_runtime::holochain_runtime::shutdown::{Shutdown, ShutdownEvent};
use holochain_runtime::holochain_runtime::sign::{SignEvent, SignZomeCall};
use holochain_runtime::holochain_runtime::{websocket_outcome, HolochainRuntime};
use holochain_runtime::keystore::{ConductorLairClient, Lair};
use holochain_runtime::paths::FileSystem;
use std::path::PathBuf;

type Runtime = HolochainRuntime<&'static str, u8, u16, u32>;

fn runtime(server: Option<&str>) -> Runtime {
    HolochainRuntime {
        filesystem: FileSystem {
            app_data_dir: PathBuf::from("/d"),
            conductor_dir: PathBuf::from("/d/conductor"),
            keystore_dir: PathBuf::from("/d/keystore"),
            keystore_config_path: PathBuf::from("/d/keystore/lair.yaml"),
        },
        apps_websockets_auths: vec![],
        admin_port: 1234,
        hc_auth_config: server.map(|url| HcAuthConfig { auth_server_url: url.to_string() }),
        hc_auth_status: HcAuthStatus::Reported("Pending".to_string()),
        hc_auth_agent_key: None,
        hc_auth_raw_ed25519_b64url: None,
        conductor_handle: 40,
        lair: Lair { passphrase: "pass", lair_client: 10, in_proc_keystore: 20 },
    }
}

fn network() -> NetworkConfig {
    NetworkConfig {
        base64_auth_material: Some("old".to_string()),
        bootstrap_url: "https://bootstrap".to_string(),
        signal_url: "wss://signal".to_string(),
        webrtc_config: None,
        target_arc_factor: 1,
        report: ReportConfig::Off,
        advanced: None,
    }
}

#[test]
fn admin_interface_is_at_localhost() {
    let connect = runtime(None).admin_websocket();
    assert_eq!(connect.address, "localhost:1234");
    assert_eq!(connect.request_timeout_secs, 300);
    assert_eq!(connect.origin, None);
}

#[test]
fn websocket_faults_are_told_by_their_cause() {
    assert_eq!(websocket_outcome::<u8>(Ok(1)), Ok(1));
    assert_eq!(
        websocket_outcome::<u8>(Err("timeout".to_string())),
        Err(Error::WebsocketConnectionError("timeout".to_string()))
    );
}

#[test]
fn hc_auth_is_told_as_it_is_known() {
    assert!(!runtime(None).is_hc_auth_configured());
    assert!(runtime(Some("https://auth")).is_hc_auth_configured());
    assert_eq!(runtime(None).hc_auth_status(), HcAuthStatus::Reported("Pending".to_string()));
    assert_eq!(runtime(None).hc_auth_agent_key(), None);
    assert_eq!(runtime(None).hc_auth_raw_ed25519_b64url(), None);
}

#[test]
fn zome_call_is_signed_as_it_is() {
    let sign = || -> SignZomeCall<u32, &'static str, u8> { runtime(None).sign_zome_call("call") };
    let client = ConductorLairClient { conductor: 40 };
    assert_eq!(sign(), SignZomeCall::Sign { zome_call: "call", client });
    let signed = sign().advance(SignEvent::Signed(Ok(9)));
    assert_eq!(signed, SignZomeCall::Done(Ok(9)));
    assert_eq!(signed.advance(SignEvent::Signed(Ok(8))), SignZomeCall::Done(Ok(9)));
    let refused = || Error::Other("no such key".to_string());
    assert_eq!(
        sign().advance(SignEvent::Signed(Err(refused()))),
        SignZomeCall::Done(Err(refused()))
    );
}

fn app(id: &str) -> AppInfo {
    AppInfo { installed_app_id: id.to_string(), status: AppStatus::Enabled }
}

#[test]
fn shutdown_disables_apps_and_then_stops_the_conductor() {
    for begin in [Runtime::shutdown, Runtime::shutdown_conductor_only] {
        let shutdown = begin(&runtime(None));
        let Shutdown::ConnectAdmin { ref connect, .. } = shutdown else { panic!() };
        assert_eq!(connect.address, "localhost:1234");
        let shutdown = shutdown.advance(ShutdownEvent::AdminConnected(Ok(())));
        assert_eq!(
            shutdown,
            Shutdown::ListApps { filter: AppStatusFilter::Enabled, conductor: 40 }
        );
        let shutdown = shutdown.advance(ShutdownEvent::AppsListed(Ok(vec![app("a"), app("b")])));
        let Shutdown::DisableApps { ref requests, conductor } = shutdown else { panic!() };
        assert_eq!(conductor, 40);
        assert_eq!(requests.len(), 2);
        assert_eq!(requests[1].app_id, "b");
        assert_eq!(
            requests[1].reason,
            DisabledAppReason::Error("holochain_runtime/network_shutdown".to_string())
        );
        let shutdown = shutdown.advance(ShutdownEvent::AppsDisabled);
        assert_eq!(shutdown, Shutdown::StopConductor { conductor: 40 });
        let shutdown = shutdown.advance(ShutdownEvent::ConductorStopped(Ok(Ok(()))));
        assert_eq!(shutdown, Shutdown::Done(Ok(())));
    }
}

#[test]
fn shutdown_tells_what_went_wrong() {
    let begin = || runtime(None).shutdown();
    let e = || "e".to_string();
    assert_eq!(
        begin().advance(ShutdownEvent::AdminConnected(Err(e()))),
        Shutdown::Done(Err(Error::WebsocketConnectionError(e())))
    );
    let listing = || begin().advance(ShutdownEvent::AdminConnected(Ok(())));
    assert_eq!(
        listing().advance(ShutdownEvent::AppsListed(Err(Error::Other(e())))),
        Shutdown::Done(Err(Error::Other(e())))
    );
    let stopping = || {
        listing()
            .advance(ShutdownEvent::AppsListed(Ok(vec![])))
            .advance(ShutdownEvent::AppsDisabled)
    };
    for stopped in [Err(e()), Ok(Err(e()))] {
        assert_eq!(
            stopping().advance(ShutdownEvent::ConductorStopped(stopped)),
            Shutdown::Done(Err(Error::HolochainShutdownError(e())))
        );
    }
}

fn key_text() -> String {
    AgentPubKey::from_raw_32([7; 32]).to_text()
}

#[test]
fn export_finds_the_seed_of_the_key_in_the_file() {
    let export = runtime(None).export_agent_seed();
    let ExportSeed::ReadKeyFile { ref file, .. } = export else { panic!() };
    assert_eq!(file.dir, PathBuf::from("/d"));
    assert_eq!(file.name, "hc-auth-agent-key");
    let export = export.advance(ExportEvent::KeyFileRead(Ok(key_text())));
    assert_eq!(export, ExportSeed::OpenStore { in_proc_keystore: 20, public_key: [7; 32] });
    let export = export.advance(ExportEvent::StoreOpened(Ok(())));
    assert_eq!(export, ExportSeed::FindEntry { public_key: [7; 32] });
    let export = export.advance(ExportEvent::EntryFound(Ok(LairEntryKind::Seed)));
    assert_eq!(export, ExportSeed::DecryptSeed { public_key: [7; 32] });
    let mut seed = [0; 32];
    seed[0] = 1;
    seed[31] = 2;
    let ExportSeed::Done(Ok(exported)) = export.advance(ExportEvent::SeedDecrypted(Ok(seed))) else {
        panic!()
    };
    assert_eq!(exported.len(), 32);
    assert_eq!(exported, seed);
}

#[test]
fn white_space_around_the_key_does_not_matter() {
    let text = format!(" \n{}\r\n", key_text());
    assert_eq!(
        runtime(None).export_agent_seed().advance(ExportEvent::KeyFileRead(Ok(text))),
        ExportSeed::OpenStore { in_proc_keystore: 20, public_key: [7; 32] }
    );
}

#[test]
fn export_does_not_depend_on_authentication() {
    assert_eq!(
        runtime(None).export_agent_seed(),
        runtime(Some("https://auth")).export_agent_seed()
    );
}

#[test]
fn export_tells_what_went_wrong() {
    let fault = |events: Vec<ExportEvent>| {
        let mut export = runtime(None).export_agent_seed();
        for event in events {
            export = export.advance(event);
        }
        let ExportSeed::Done(Err(Error::AgentSeedError(reason))) = export else { panic!() };
        reason
    };
    let e = || "e".to_string();
    let read = || ExportEvent::KeyFileRead(Ok(key_text()));
    let opened = || ExportEvent::StoreOpened(Ok(()));
    let found = |kind| ExportEvent::EntryFound(Ok(kind));
    assert_eq!(fault(vec![ExportEvent::KeyFileRead(Err(e()))]), "No agent key file found: e");
    assert_eq!(
        fault(vec![ExportEvent::KeyFileRead(Ok("x".to_string()))]),
        "Invalid agent key in file: NoU"
    );
    assert_eq!(
        fault(vec![read(), ExportEvent::StoreOpened(Err(e()))]),
        "Failed to get Lair store: e"
    );
    assert_eq!(
        fault(vec![read(), opened(), ExportEvent::EntryFound(Err(e()))]),
        "Failed to find seed entry: e"
    );
    for kind in [LairEntryKind::DeepLockedSeed, LairEntryKind::WkaTlsCert, LairEntryKind::Other] {
        assert_eq!(
            fault(vec![read(), opened(), found(kind)]),
            "Agent key entry is not a standard Seed"
        );
    }
    assert_eq!(
        fault(vec![
            read(),
            opened(),
            found(LairEntryKind::Seed),
            ExportEvent::SeedDecrypted(Err(e()))
        ]),
        "Failed to decrypt seed: e"
    );
}

fn stopped(server: Option<&str>) -> Restart<&'static str, u8, u16, u32> {
    let mut restart = runtime(server).restart_with_hc_auth(network());
    for event in [
        ShutdownEvent::AdminConnected(Ok(())),
        ShutdownEvent::AppsListed(Ok(vec![app("a")])),
        ShutdownEvent::AppsDisabled,
        ShutdownEvent::ConductorStopped(Ok(Ok(()))),
    ] {
        restart = restart.advance(RestartEvent::Stop(event));
    }
    restart
}

fn result(material: Option<&str>) -> AuthFlowResult {
    AuthFlowResult {
        status: HcAuthStatus::Reported("Authorized".to_string()),
        auth_material: material.map(|m| m.to_string()),
        agent_key: AgentPubKey::from_raw_32([7; 32]),
        raw_ed25519_b64url: "raw".to_string(),
    }
}

#[test]
fn restart_needs_hc_auth() {
    assert_eq!(
        runtime(None).restart_with_hc_auth(network()),
        Restart::Done(Err(Error::HcAuthError("hc-auth not configured".to_string())))
    );
}

#[test]
fn restart_stops_authenticates_and_starts_again() {
    let restart = stopped(Some("https://auth"));
    let Restart::RunAuthFlow { ref server, ref dir, .. } = restart else { panic!() };
    assert_eq!(server.auth_server_url, "https://auth");
    assert_eq!(*dir, PathBuf::from("/d"));
    let restart = restart.advance(RestartEvent::AuthFlowEnded(Ok(result(Some("new")))));
    assert!(matches!(restart, Restart::PickPort { .. }));
    let restart = restart.advance(RestartEvent::PortPicked(4321));
    let Restart::WriteConfig { ref dir, ref config, .. } = restart else { panic!() };
    assert_eq!(*dir, PathBuf::from("/d"));
    assert_eq!(config.network.base64_auth_material, Some("new".to_string()));
    let restart = restart.advance(RestartEvent::ConfigWritten(Err("read-only".to_string())));
    let Restart::BuildConductor { ref lair, .. } = restart else { panic!() };
    assert_eq!(*lair, runtime(None).lair);
    let restart = restart.advance(RestartEvent::ConductorBuilt(Ok(41)));
    let Restart::Done(Ok(restarted)) = restart else { panic!() };
    let before = runtime(Some("https://auth"));
    assert_eq!(restarted.filesystem, before.filesystem);
    assert_eq!(restarted.hc_auth_config, before.hc_auth_config);
    assert_eq!(restarted.lair, before.lair);
    assert_eq!(restarted.conductor_handle, 41);
    assert_eq!(restarted.admin_port, 4321);
    assert!(restarted.apps_websockets_auths.is_empty());
    assert_eq!(restarted.hc_auth_status(), HcAuthStatus::Reported("Authorized".to_string()));
    assert_eq!(restarted.hc_auth_agent_key(), Some(AgentPubKey::from_raw_32([7; 32])));
    assert_eq!(restarted.hc_auth_raw_ed25519_b64url(), Some("raw".to_string()));
}

#[test]
fn restart_without_material_keeps_the_network() {
    let restart = stopped(Some("https://auth"))
        .advance(RestartEvent::AuthFlowEnded(Ok(result(None))))
        .advance(RestartEvent::PortPicked(4321));
    let Restart::WriteConfig { config, .. } = restart else { panic!() };
    assert_eq!(config.network, network());
}

#[test]
fn restart_tells_what_went_wrong() {
    let e = || Error::Other("e".to_string());
    let begin = || runtime(Some("https://auth")).restart_with_hc_auth(network());
    assert_eq!(
        begin().advance(RestartEvent::Stop(ShutdownEvent::AdminConnected(Err("e".to_string())))),
        Restart::Done(Err(Error::WebsocketConnectionError("e".to_string())))
    );
    assert_eq!(
        stopped(Some("https://auth")).advance(RestartEvent::AuthFlowEnded(Err(e()))),
        Restart::Done(Err(e()))
    );
    assert_eq!(
        stopped(Some("https://auth"))
            .advance(RestartEvent::AuthFlowEnded(Ok(result(None))))
            .advance(RestartEvent::PortPicked(1))
            .advance(RestartEvent::ConfigWritten(Ok(())))
            .advance(RestartEvent::ConductorBuilt(Err(e()))),
        Restart::Done(Err(e()))
    );
}
