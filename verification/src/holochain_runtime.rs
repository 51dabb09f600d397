//! The runtime: a conductor, and what is known of it.
use crate::agent_key::AgentPubKey;
use crate::auth::AppWebsocketAuth;
use crate::error::Error;
use crate::hc_auth::{HcAuthConfig, HcAuthStatus};
use crate::keystore::Lair;
use crate::paths::FileSystem;
use crate::text::{decimal_text, joined};
use vstd::prelude::*;

pub mod admin;
pub mod app_websocket;
pub mod install;
pub mod launch;
pub mod restart;
pub mod seed;
pub mod shutdown;
pub mod sign;
pub mod update;

verus! {

/// How long a request at the admin interface may take, in seconds.
pub const ADMIN_REQUEST_TIMEOUT_SECS: u64 = 300;

/// A running conductor, and what is known of it.
#[derive(Debug, PartialEq)]
pub struct HolochainRuntime<P, K, S, C> {
    /// Where the runtime keeps its files.
    pub filesystem: FileSystem,
    /// The authentications that were issued for app websockets.
    pub apps_websockets_auths: Vec<AppWebsocketAuth>,
    /// The port of the admin interface.
    pub admin_port: u16,
    pub hc_auth_config: Option<HcAuthConfig>,
    pub hc_auth_status: HcAuthStatus,
    pub hc_auth_agent_key: Option<AgentPubKey>,
    pub hc_auth_raw_ed25519_b64url: Option<String>,
    /// The running conductor.
    pub conductor_handle: C,
    /// The keystore, which runs on when the conductor is shut down.
    pub lair: Lair<P, K, S>,
}

/// A connection to open to the admin interface.
#[derive(Debug, PartialEq, Eq)]
pub struct AdminConnect {
    pub address: String,
    pub request_timeout_secs: u64,
    /// The origin to name, where one is named.
    pub origin: Option<String>,
}

/// The connection to the admin interface at the port of this machine, which names no origin.
pub open spec fn is_admin_connect(connect: AdminConnect, admin_port: u16) -> bool {
    &&& connect.address@ == "localhost:"@ + crate::text::decimal(admin_port as nat)
    &&& connect.request_timeout_secs == ADMIN_REQUEST_TIMEOUT_SECS
    &&& connect.origin is None
}

impl<P, K, S, C> HolochainRuntime<P, K, S, C> {
    /// The connection to open to the admin interface.
    pub fn admin_websocket(&self) -> (connect: AdminConnect)
        ensures
            is_admin_connect(connect, self.admin_port),
    {
        let port = decimal_text(self.admin_port as u64);
        AdminConnect {
            address: joined("localhost:", port.as_str()),
            request_timeout_secs: ADMIN_REQUEST_TIMEOUT_SECS,
            origin: None,
        }
    }

    /// Whether hc-auth was configured.
    pub fn is_hc_auth_configured(&self) -> (yes: bool)
        ensures
            yes == self.hc_auth_config is Some,
    {
        self.hc_auth_config.is_some()
    }

    /// How authentication went.
    pub fn hc_auth_status(&self) -> (status: HcAuthStatus)
        ensures
            status == self.hc_auth_status,
    {
        self.hc_auth_status.clone()
    }

    /// The agent key of hc-auth, where there is one.
    pub fn hc_auth_agent_key(&self) -> (key: Option<AgentPubKey>)
        ensures
            key == self.hc_auth_agent_key,
    {
        self.hc_auth_agent_key
    }

    /// The Ed25519 public key for hc-auth in URL-safe base64, where there is one.
    pub fn hc_auth_raw_ed25519_b64url(&self) -> (text: Option<String>)
        ensures
            text == self.hc_auth_raw_ed25519_b64url,
    {
        match &self.hc_auth_raw_ed25519_b64url {
            Some(text) => Some(text.clone()),
            None => None,
        }
    }
}

/// What comes of opening a websocket, in the errors of the runtime.
pub open spec fn websocket_told<T>(outcome: Result<T, String>) -> Result<T, Error> {
    match outcome {
        Ok(websocket) => Ok(websocket),
        Err(cause) => Err(Error::WebsocketConnectionError(cause)),
    }
}

/// What comes of opening a websocket: a failure is told by the text of its cause.
pub fn websocket_outcome<T>(outcome: Result<T, String>) -> (result: Result<T, Error>)
    ensures
        result == websocket_told(outcome),
        match outcome {
            Ok(websocket) => result == Ok::<T, Error>(websocket),
            Err(cause) => result == Err::<T, Error>(Error::WebsocketConnectionError(cause)),
        },
{
    match outcome {
        Ok(websocket) => Ok(websocket),
        Err(cause) => Err(Error::WebsocketConnectionError(cause)),
    }
}

/// The admin interface is reached at its port of this machine, with five minutes for each request
/// and no origin named; and different ports are reached at different addresses.
pub proof fn law_admin_interface_is_reached_at_its_port(
    connect: AdminConnect,
    admin_port: u16,
    other: AdminConnect,
    other_port: u16,
)
    requires
        is_admin_connect(connect, admin_port),
        is_admin_connect(other, other_port),
    ensures
        connect.address@.len() > 10,
        connect.address@.take(10) == "localhost:"@,
        crate::text::decimal_value(connect.address@.skip(10)) == admin_port,
        connect.address@[10] == '0' ==> connect.address@.len() == 11,
        forall|i: int|
            10 <= i < connect.address@.len() ==> '0' as int <= (
            #[trigger] connect.address@[i]) as int <= '9' as int,
        connect.request_timeout_secs == 5 * 60,
        connect.origin is None,
        connect.address@ == other.address@ <==> admin_port == other_port,
{
    reveal_strlit("localhost:");
    crate::text::law_decimal_notation_stands_for_the_number(admin_port as nat);
    crate::text::law_decimal_notation_stands_for_the_number(other_port as nat);
    let port = crate::text::decimal(admin_port as nat);
    assert(connect.address@.skip(10) =~= port);
    assert(other.address@.skip(10) =~= crate::text::decimal(other_port as nat));
    assert(connect.address@.take(10) =~= "localhost:"@);
    assert forall|i: int| 10 <= i < connect.address@.len() implies '0' as int <= (
    #[trigger] connect.address@[i]) as int <= '9' as int by {
        assert(connect.address@[i] == port[i - 10]);
    }
    assert(connect.address@[10] == port[0]);
}

/// A websocket that was opened is given as it is; one that was not is told as a fault of the
/// connection, with the cause, and causes are told apart.
pub proof fn law_websocket_faults_tell_their_cause<T>(websocket: T, cause: String, other: String)
    ensures
        websocket_told(Ok::<T, String>(websocket)) == Ok::<T, Error>(websocket),
        websocket_told(Err::<T, String>(cause)) matches Err(error) && (
        error matches Error::WebsocketConnectionError(told) && told == cause),
        websocket_told(Err::<T, String>(cause)) == websocket_told(Err::<T, String>(other))
            <==> cause == other,
{
}

} // verus!
