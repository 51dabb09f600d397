use holochain_runtime::auth::{find_auth, AppWebsocketAuth};
use holochain_runtime::error::Error;
use holochain_runtime::hc_auth::HcAuthStatus;
use holochain_runtime::holochain_runtime::app_websocket::{
    AuthEvent, GetAppWebsocketAuth, OpenAppWebsocket, OpenEvent,
};
use holochain_runtime::holochain_runtime::HolochainRuntime;
use holochain_runtime::keystore::{ConductorLairClient, Lair};
use holochain_runtime::origins::AllowedOrigins;
use holochain_runtime::paths::FileSystem;
use std::path::PathBuf;

type Runtime = HolochainRuntime<&'static str, u8, u16, u32>;

fn runtime() -> Runtime {
    HolochainRuntime {
        filesystem: FileSystem {
            app_data_dir: PathBuf::from("/d"),
            conductor_dir: PathBuf::from("/d/conductor"),
            keystore_dir: PathBuf::from("/d/keystore"),
            keystore_config_path: PathBuf::from("/d/keystore/lair.yaml"),
        },
        apps_websockets_auths: vec![],
        admin_port: 1234,
        hc_auth_config: None,
        hc_auth_status: HcAuthStatus::Failed("Not configured".to_string()),
        hc_auth_agent_key: None,
        hc_auth_raw_ed25519_b64url: None,
        conductor_handle: 40,
        lair: Lair { passphrase: "pass", lair_client: 10, in_proc_keystore: 20 },
    }
}

fn origins(list: &[&str]) -> AllowedOrigins {
    AllowedOrigins::Origins(list.iter().map(|o| o.to_string()).collect())
}

fn auth(id: &str, allowed_origins: AllowedOrigins, port: u16) -> AppWebsocketAuth {
    AppWebsocketAuth {
        app_id: id.to_string(),
        app_websocket_port: port,
        allowed_origins,
        token: vec![port as u8],
    }
}

fn id(text: &str) -> String {
    text.to_string()
}

#[test]
fn first_authentication_for_app_and_origins_is_found() {
    let auths = vec![
        auth("a", AllowedOrigins::Any, 1),
        auth("a", origins(&["x", "y"]), 2),
        auth("b", AllowedOrigins::Any, 3),
        auth("a", origins(&["y", "x"]), 4),
    ];
    assert_eq!(find_auth(&auths, &id("a"), &origins(&["y", "x"])), Some(auths[1].clone()));
    assert_eq!(find_auth(&auths, &id("b"), &AllowedOrigins::Any), Some(auths[2].clone()));
    assert_eq!(find_auth(&auths, &id("b"), &origins(&[])), None);
    assert_eq!(find_auth(&auths, &id("c"), &AllowedOrigins::Any), None);
}

#[test]
fn authentication_is_issued_and_remembered() {
    let mut runtime = runtime();
    let get = runtime.get_app_websocket_auth(&id("a"), origins(&["x"]));
    let GetAppWebsocketAuth::ConnectAdmin { ref connect, .. } = get else { panic!() };
    assert_eq!(connect.address, "localhost:1234");
    let get = get.advance(AuthEvent::AdminConnected(Ok(())), &mut runtime.apps_websockets_auths);
    let GetAppWebsocketAuth::AttachInterface { ref attach, .. } = get else { panic!() };
    assert_eq!(attach.port, 0);
    assert_eq!(attach.danger_bind_addr, None);
    assert_eq!(attach.allowed_origins, origins(&["x"]));
    assert_eq!(attach.installed_app_id, Some(id("a")));
    let get = get.advance(AuthEvent::InterfaceAttached(Ok(77)), &mut runtime.apps_websockets_auths);
    let GetAppWebsocketAuth::IssueToken { ref issue, .. } = get else { panic!() };
    assert_eq!(issue.installed_app_id, "a");
    assert_eq!(issue.expiry_seconds, 999999999);
    assert!(!issue.single_use);
    assert!(runtime.apps_websockets_auths.is_empty());
    let get = get.advance(AuthEvent::TokenIssued(Ok(vec![77])), &mut runtime.apps_websockets_auths);
    assert_eq!(get, GetAppWebsocketAuth::Done(Ok(auth("a", origins(&["x"]), 77))));
    assert_eq!(runtime.apps_websockets_auths, [auth("a", origins(&["x"]), 77)]);
}

#[test]
fn second_request_is_answered_from_the_list() {
    let mut runtime = runtime();
    runtime.apps_websockets_auths.push(auth("a", origins(&["x", "y"]), 77));
    assert_eq!(
        runtime.get_app_websocket_auth(&id("a"), origins(&["y", "x"])),
        GetAppWebsocketAuth::Done(Ok(auth("a", origins(&["x", "y"]), 77)))
    );
    assert!(matches!(
        runtime.get_app_websocket_auth(&id("a"), AllowedOrigins::Any),
        GetAppWebsocketAuth::ConnectAdmin { .. }
    ));
    assert!(matches!(
        runtime.get_app_websocket_auth(&id("b"), origins(&["x", "y"])),
        GetAppWebsocketAuth::ConnectAdmin { .. }
    ));
}

#[test]
fn failed_authentication_leaves_the_list_alone() {
    let e = || Error::Other("e".to_string());
    let mut runtime = runtime();
    let refused = runtime
        .get_app_websocket_auth(&id("a"), AllowedOrigins::Any)
        .advance(AuthEvent::AdminConnected(Err(id("e"))), &mut runtime.apps_websockets_auths);
    assert_eq!(
        refused,
        GetAppWebsocketAuth::Done(Err(Error::WebsocketConnectionError("e".to_string())))
    );
    let not_attached = runtime
        .get_app_websocket_auth(&id("a"), AllowedOrigins::Any)
        .advance(AuthEvent::AdminConnected(Ok(())), &mut runtime.apps_websockets_auths)
        .advance(AuthEvent::InterfaceAttached(Err(e())), &mut runtime.apps_websockets_auths);
    assert_eq!(not_attached, GetAppWebsocketAuth::Done(Err(e())));
    let not_issued = runtime
        .get_app_websocket_auth(&id("a"), AllowedOrigins::Any)
        .advance(AuthEvent::AdminConnected(Ok(())), &mut runtime.apps_websockets_auths)
        .advance(AuthEvent::InterfaceAttached(Ok(77)), &mut runtime.apps_websockets_auths)
        .advance(AuthEvent::TokenIssued(Err(e())), &mut runtime.apps_websockets_auths);
    assert_eq!(not_issued, GetAppWebsocketAuth::Done(Err(e())));
    assert!(runtime.apps_websockets_auths.is_empty());
}

#[test]
fn app_websocket_names_an_allowed_origin() {
    let mut runtime = runtime();
    runtime.apps_websockets_auths.push(auth("a", origins(&["x", "y"]), 77));
    let open = runtime.app_websocket(id("a"), origins(&["y", "x"]));
    let OpenAppWebsocket::SetOrigin { header, ref origin, ref connect } = open else { panic!() };
    assert_eq!(header, "Origin");
    assert_eq!(origin, "y");
    assert_eq!(connect.host, "127.0.0.1");
    assert_eq!(connect.port, 77);
    assert_eq!(connect.token, [77]);
    assert_eq!(connect.signer, ConductorLairClient { conductor: 40 });
    let open = open.advance(OpenEvent::OriginSet(Ok(())), &mut runtime.apps_websockets_auths);
    let OpenAppWebsocket::Connect { ref connect } = open else { panic!() };
    assert_eq!(connect.port, 77);
    assert_eq!(connect.signer, ConductorLairClient { conductor: 40 });
    let open = open.advance(OpenEvent::Connected(Ok(())), &mut runtime.apps_websockets_auths);
    assert_eq!(open, OpenAppWebsocket::Done(Ok(())));
}

#[test]
fn app_websocket_for_any_origin_names_none() {
    let mut runtime = runtime();
    let mut open = runtime.app_websocket(id("a"), AllowedOrigins::Any);
    assert!(matches!(open, OpenAppWebsocket::Authenticate { .. }));
    for event in [
        AuthEvent::AdminConnected(Ok(())),
        AuthEvent::InterfaceAttached(Ok(9)),
        AuthEvent::TokenIssued(Ok(vec![1, 2])),
    ] {
        open = open.advance(OpenEvent::Authenticate(event), &mut runtime.apps_websockets_auths);
    }
    let OpenAppWebsocket::Connect { ref connect } = open else { panic!() };
    assert_eq!(connect.token, [1, 2]);
    assert_eq!(connect.signer, ConductorLairClient { conductor: 40 });
    assert_eq!(runtime.apps_websockets_auths.len(), 1);
    runtime.apps_websockets_auths.push(auth("b", origins(&[]), 5));
    assert!(matches!(
        runtime.app_websocket(id("b"), origins(&[])),
        OpenAppWebsocket::Connect { .. }
    ));
}

#[test]
fn app_websocket_tells_what_went_wrong() {
    let e = || Error::Other("e".to_string());
    let mut runtime = runtime();
    let refused = runtime.app_websocket(id("a"), AllowedOrigins::Any).advance(
        OpenEvent::Authenticate(AuthEvent::AdminConnected(Err(id("e")))),
        &mut runtime.apps_websockets_auths,
    );
    assert_eq!(
        refused,
        OpenAppWebsocket::Done(Err(Error::WebsocketConnectionError("e".to_string())))
    );
    runtime.apps_websockets_auths.push(auth("a", origins(&["x"]), 77));
    let bad_header = runtime
        .app_websocket(id("a"), origins(&["x"]))
        .advance(OpenEvent::OriginSet(Err(e())), &mut runtime.apps_websockets_auths);
    assert_eq!(bad_header, OpenAppWebsocket::Done(Err(e())));
    let closed = runtime
        .app_websocket(id("a"), origins(&["x"]))
        .advance(OpenEvent::OriginSet(Ok(())), &mut runtime.apps_websockets_auths)
        .advance(OpenEvent::Connected(Err(id("closed"))), &mut runtime.apps_websockets_auths);
    assert_eq!(
        closed,
        OpenAppWebsocket::Done(Err(Error::WebsocketConnectionError("closed".to_string())))
    );
}

#[test]
fn no_two_authentications_are_alike() {
    let mut runtime = runtime();
    for (name, allowed) in [
        ("a", origins(&["x", "y"])),
        ("b", origins(&["x", "y"])),
        ("a", AllowedOrigins::Any),
        ("a", origins(&["y", "x"])),
        ("b", origins(&["y", "x", "x"])),
    ] {
        let mut get = runtime.get_app_websocket_auth(&id(name), allowed);
        for event in [
            AuthEvent::AdminConnected(Ok(())),
            AuthEvent::InterfaceAttached(Ok(5)),
            AuthEvent::TokenIssued(Ok(vec![5])),
        ] {
            get = get.advance(event, &mut runtime.apps_websockets_auths);
        }
        assert!(matches!(get, GetAppWebsocketAuth::Done(Ok(_))));
    }
    assert_eq!(
        runtime.apps_websockets_auths,
        [
            auth("a", origins(&["x", "y"]), 5),
            auth("b", origins(&["x", "y"]), 5),
            auth("a", AllowedOrigins::Any, 5),
        ]
    );
}

#[test]
fn request_on_a_longer_list_is_answered_as_before() {
    let mut runtime = runtime();
    let mut get = runtime.get_app_websocket_auth(&id("a"), origins(&["x"]));
    for event in [
        AuthEvent::AdminConnected(Ok(())),
        AuthEvent::InterfaceAttached(Ok(5)),
        AuthEvent::TokenIssued(Ok(vec![5])),
    ] {
        get = get.advance(event, &mut runtime.apps_websockets_auths);
    }
    let first = GetAppWebsocketAuth::Done(Ok(auth("a", origins(&["x"]), 5)));
    assert_eq!(get, first);
    runtime.apps_websockets_auths.push(auth("b", origins(&["x"]), 6));
    runtime.apps_websockets_auths.push(auth("a", origins(&["x"]), 7));
    let mut again = runtime.get_app_websocket_auth(&id("a"), origins(&["x"]));
    assert_eq!(again, first);
    again = again.advance(AuthEvent::TokenIssued(Ok(vec![8])), &mut runtime.apps_websockets_auths);
    assert_eq!(again, first);
    assert_eq!(runtime.apps_websockets_auths.len(), 3);
}

#[test]
fn answered_call_is_not_made_again() {
    let mut runtime = runtime();
    let get = runtime
        .get_app_websocket_auth(&id("a"), AllowedOrigins::Any)
        .advance(AuthEvent::AdminConnected(Ok(())), &mut runtime.apps_websockets_auths)
        .advance(AuthEvent::InterfaceAttached(Ok(5)), &mut runtime.apps_websockets_auths)
        .advance(AuthEvent::InterfaceAttached(Ok(6)), &mut runtime.apps_websockets_auths);
    let GetAppWebsocketAuth::IssueToken { app_port, .. } = get else { panic!() };
    assert_eq!(app_port, 5);
    let get = get.advance(AuthEvent::TokenIssued(Ok(vec![5])), &mut runtime.apps_websockets_auths);
    let get = get.advance(AuthEvent::TokenIssued(Ok(vec![6])), &mut runtime.apps_websockets_auths);
    assert_eq!(get, GetAppWebsocketAuth::Done(Ok(auth("a", AllowedOrigins::Any, 5))));
    assert_eq!(runtime.apps_websockets_auths.len(), 1);
}
