use holochain_runtime::config::{HolochainRuntimeConfig, NetworkConfig, ReportConfig};
use holochain_runtime::hc_auth::HcAuthConfig;
use holochain_runtime::launch::config::{
    conductor_config, AdminInterfaceConfig, ConductorConfig, InterfaceDriver, KeystoreConfig,
};
use holochain_runtime::launch::write::{
    write_conductor_config, WriteConductorConfig, WriteError, WriteEvent,
};
use holochain_runtime::origins::AllowedOrigins;
use holochain_runtime::paths::FileSystem;
use std::path::PathBuf;

fn network(material: Option<&str>) -> NetworkConfig {
    NetworkConfig {
        base64_auth_material: material.map(|m| m.to_string()),
        bootstrap_url: "https://bootstrap".to_string(),
        signal_url: "wss://signal".to_string(),
        webrtc_config: None,
        target_arc_factor: 1,
        report: ReportConfig::Off,
        advanced: None,
    }
}

#[test]
fn builders_change_one_setting_each() {
    let config = || HolochainRuntimeConfig::new(PathBuf::from("/d"), network(None));
    assert_eq!(config().holochain_dir, PathBuf::from("/d"));
    assert_eq!(config().network_config, network(None));
    assert_eq!(config().admin_port, None);
    assert!(!config().mdns_discovery);
    assert_eq!(config().hc_auth, None);
    assert_eq!(config().pending_import_seed, None);
    assert_eq!(
        config().admin_port(7),
        HolochainRuntimeConfig { admin_port: Some(7), ..config() }
    );
    assert_eq!(
        config().enable_mdns_discovery(),
        HolochainRuntimeConfig { mdns_discovery: true, ..config() }
    );
    let server = HcAuthConfig { auth_server_url: "https://auth".to_string() };
    assert_eq!(
        config().with_hc_auth(server.clone()),
        HolochainRuntimeConfig { hc_auth: Some(server), ..config() }
    );
}

#[test]
fn auth_material_replaces_what_was_there_only_where_there_is_any() {
    assert_eq!(
        network(Some("old")).with_auth_material(Some("new".to_string())),
        network(Some("new"))
    );
    assert_eq!(network(Some("old")).with_auth_material(None), network(Some("old")));
}

#[test]
fn conductor_config_has_one_admin_interface() {
    let fs = FileSystem {
        app_data_dir: PathBuf::from("/d"),
        conductor_dir: PathBuf::from("/d/conductor"),
        keystore_dir: PathBuf::from("/d/keystore"),
        keystore_config_path: PathBuf::from("/d/keystore/lair.yaml"),
    };
    assert_eq!(
        conductor_config(&fs, 4242, PathBuf::from("/lair"), network(Some("m"))),
        ConductorConfig {
            data_root_path: Some(PathBuf::from("/d/conductor")),
            keystore: KeystoreConfig::LairServerInProc { lair_root: Some(PathBuf::from("/lair")) },
            network: network(Some("m")),
            admin_interfaces: Some(vec![AdminInterfaceConfig {
                driver: InterfaceDriver::Websocket {
                    port: 4242,
                    danger_bind_addr: None,
                    allowed_origins: AllowedOrigins::Any,
                },
            }]),
        }
    );
}

fn write(yaml: Result<&str, &str>) -> WriteConductorConfig<u8> {
    let yaml = yaml.map(|text| text.to_string()).map_err(|cause| cause.to_string());
    write_conductor_config(&PathBuf::from("/d"), yaml)
}

#[test]
fn conductor_config_is_written_to_the_data_directory() {
    let WriteConductorConfig::Write { file, contents } = write(Ok("a: 1\n")) else { panic!() };
    assert_eq!(file.dir, PathBuf::from("/d"));
    assert_eq!(file.name, "conductor-config.yaml");
    assert_eq!(contents, "a: 1\n");
}

#[test]
fn how_the_file_was_written_is_told() {
    let written = write(Ok("a: 1\n")).advance(WriteEvent::Written(Ok(())));
    assert_eq!(written, WriteConductorConfig::Done(Ok(())));
    let again = written.advance(WriteEvent::Written(Err(5)));
    assert_eq!(again, WriteConductorConfig::Done(Ok(())));
    let refused = write(Ok("a: 1\n")).advance(WriteEvent::Written(Err(5)));
    assert_eq!(refused, WriteConductorConfig::Done(Err(WriteError::Io(5))));
}

#[test]
fn without_yaml_no_file_is_written() {
    let none = || WriteConductorConfig::Done(Err(WriteError::Other("no".to_string())));
    assert_eq!(write(Err("no")), none());
    assert_eq!(write(Err("no")).advance(WriteEvent::Written(Ok(()))), none());
}
