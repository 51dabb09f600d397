//! What the runtime knows of hc-auth, the authentication for bootstrap and relay networks.
use crate::agent_key::AgentPubKey;
use vstd::prelude::*;

verus! {

/// Where to authenticate.
#[derive(Debug, PartialEq, Eq)]
pub struct HcAuthConfig {
    pub auth_server_url: String,
}

impl Clone for HcAuthConfig {
    fn clone(&self) -> (copy: HcAuthConfig)
        ensures
            copy == *self,
    {
        HcAuthConfig { auth_server_url: self.auth_server_url.clone() }
    }
}

/// How authentication went.
#[derive(Debug, PartialEq, Eq)]
pub enum HcAuthStatus {
    /// It failed, or was not tried, for the reason given.
    Failed(String),
    /// The auth flow ended with this status.
    Reported(String),
}

impl Clone for HcAuthStatus {
    fn clone(&self) -> (copy: HcAuthStatus)
        ensures
            copy == *self,
    {
        match self {
            HcAuthStatus::Failed(reason) => HcAuthStatus::Failed(reason.clone()),
            HcAuthStatus::Reported(status) => HcAuthStatus::Reported(status.clone()),
        }
    }
}

/// What a completed auth flow gives.
#[derive(Debug, PartialEq, Eq)]
pub struct AuthFlowResult {
    pub status: HcAuthStatus,
    /// The material to show to the network, where there is any.
    pub auth_material: Option<String>,
    pub agent_key: AgentPubKey,
    /// The Ed25519 public key in URL-safe base64.
    pub raw_ed25519_b64url: String,
}

/// The agent key that was made, or was there already, without an auth flow.
#[derive(Debug, PartialEq, Eq)]
pub struct AuthKey {
    pub agent_key: AgentPubKey,
    /// The Ed25519 public key in URL-safe base64.
    pub raw_ed25519_b64url: String,
}

/// What the runtime remembers of authentication.
#[derive(Debug, PartialEq, Eq)]
pub struct HcAuthState {
    pub status: HcAuthStatus,
    pub agent_key: Option<AgentPubKey>,
    pub raw_ed25519_b64url: Option<String>,
}

} // verus!
