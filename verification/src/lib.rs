//! A runtime for Holochain: launching a conductor with its keystore, authenticating it with
//! hc-auth, installing and updating apps, opening websockets to them, and shutting down.
//!
//! The library decides, and does no I/O. An operation is a state machine: a method of
//! [`holochain_runtime::HolochainRuntime`] gives its first state, every state but the last holds
//! one call to make with its arguments, and `advance` takes what came of the call and gives the
//! next state. The last state, `Done`, holds the result. Whoever makes the calls, in whatever way,
//! gets the order of calls, the arguments and the result that are proved here.
//!
//! Each machine has a relation `steps`, or a function of what comes next, that says exactly where
//! an event leads, and proofs named `law_..` of what holds of all its runs.
//!
//! - [`launch`]: getting a conductor running, with the laws of it in [`launch::laws`] and
//!   [`launch::calls`]
//! - [`holochain_runtime`]: the operations of a running runtime, one module each
//! - [`apps`], [`auth`], [`origins`]: what is decided over lists of apps, authentications, origins
//! - [`agent_key`]: agent keys, by way of the `holo_hash` crate
//! - [`keystore`]: the handles of the keystore and the conductor
//! - [`config`], [`hc_auth`], [`paths`], [`error`], [`text`]: the values that these work with
pub mod agent_key;
pub mod apps;
pub mod auth;
pub mod config;
pub mod error;
pub mod hc_auth;
pub mod holochain_runtime;
pub mod keystore;
pub mod launch;
pub mod origins;
pub mod paths;
pub mod text;
