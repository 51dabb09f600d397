//! What an operation can fail with.
use crate::text::joined;
use vstd::prelude::*;

verus! {

/// Why an app could not be updated.
#[derive(Debug, PartialEq, Eq)]
pub enum UpdateHappError {
    /// The admin interface of the conductor could not be reached.
    WebsocketError,
    /// No app with this id was installed.
    AppNotFound(String),
    /// The update itself failed, for the reason given.
    Other(String),
}

/// Why an operation of the runtime failed.
#[derive(Debug, PartialEq, Eq)]
pub enum Error {
    /// A websocket to the conductor could not be opened.
    WebsocketConnectionError(String),
    /// An app could not be updated.
    UpdateHappError(UpdateHappError),
    /// The agent seed could not be imported or exported.
    AgentSeedError(String),
    /// There is a fault with hc-auth.
    HcAuthError(String),
    /// The Lair keystore refused a request.
    LairError(String),
    /// The conductor could not be shut down.
    HolochainShutdownError(String),
    /// A part outside the runtime failed, with the error given.
    Other(String),
}

/// An `UpdateHappError` in plain values.
pub enum UpdateHappErrorView {
    WebsocketError,
    AppNotFound(Seq<char>),
    Other(Seq<char>),
}

/// An `Error` in plain values.
pub enum ErrorView {
    WebsocketConnectionError(Seq<char>),
    UpdateHappError(UpdateHappErrorView),
    AgentSeedError(Seq<char>),
    HcAuthError(Seq<char>),
    LairError(Seq<char>),
    HolochainShutdownError(Seq<char>),
    Other(Seq<char>),
}

impl View for UpdateHappError {
    type V = UpdateHappErrorView;

    open spec fn view(&self) -> UpdateHappErrorView {
        match self {
            UpdateHappError::WebsocketError => UpdateHappErrorView::WebsocketError,
            UpdateHappError::AppNotFound(app_id) => UpdateHappErrorView::AppNotFound(app_id@),
            UpdateHappError::Other(reason) => UpdateHappErrorView::Other(reason@),
        }
    }
}

impl View for Error {
    type V = ErrorView;

    open spec fn view(&self) -> ErrorView {
        match self {
            Error::WebsocketConnectionError(reason) => ErrorView::WebsocketConnectionError(reason@),
            Error::UpdateHappError(error) => ErrorView::UpdateHappError(error@),
            Error::AgentSeedError(reason) => ErrorView::AgentSeedError(reason@),
            Error::HcAuthError(reason) => ErrorView::HcAuthError(reason@),
            Error::LairError(reason) => ErrorView::LairError(reason@),
            Error::HolochainShutdownError(reason) => ErrorView::HolochainShutdownError(reason@),
            Error::Other(reason) => ErrorView::Other(reason@),
        }
    }
}

impl Error {
    /// A fault with the agent seed: what failed, and why.
    pub(crate) fn agent_seed(what: &str, why: &str) -> (error: Error)
        ensures
            error@ == ErrorView::AgentSeedError(what@ + why@),
    {
        Error::AgentSeedError(joined(what, why))
    }
}

/// Errors that look alike in plain values are of the same kind and tell the same.
pub proof fn law_errors_are_told_apart(one: Error, other: Error)
    ensures
        one@ == other@ <==> match (one, other) {
            (
                Error::WebsocketConnectionError(a),
                Error::WebsocketConnectionError(b),
            ) => a@ == b@,
            (Error::UpdateHappError(a), Error::UpdateHappError(b)) => match (a, b) {
                (UpdateHappError::WebsocketError, UpdateHappError::WebsocketError) => true,
                (UpdateHappError::AppNotFound(a), UpdateHappError::AppNotFound(b)) => a@ == b@,
                (UpdateHappError::Other(a), UpdateHappError::Other(b)) => a@ == b@,
                _ => false,
            },
            (Error::AgentSeedError(a), Error::AgentSeedError(b)) => a@ == b@,
            (Error::HcAuthError(a), Error::HcAuthError(b)) => a@ == b@,
            (Error::LairError(a), Error::LairError(b)) => a@ == b@,
            (Error::HolochainShutdownError(a), Error::HolochainShutdownError(b)) => a@ == b@,
            (Error::Other(a), Error::Other(b)) => a@ == b@,
            _ => false,
        },
{
}

} // verus!
