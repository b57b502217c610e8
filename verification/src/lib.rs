//! An RPC front end for a stateful backend engine that is not safe for
//! concurrent mutation.
//!
//! The crate models and verifies the moving parts of such a front end:
//! the domain values carried over the wire ([`types`], [`api`]), call
//! envelopes pairing a request with a single-use reply slot
//! ([`envelope`]), the bounded multi-producer single-consumer dispatcher
//! queue ([`queue`]), the dispatcher actor as sole owner of the backend
//! state ([`dispatcher`], [`backend`]), the server's per-call handling
//! and connection-concurrency bound ([`server`]), the client's
//! timeout/retry/reconnect protocol ([`client`]), and configuration
//! handling ([`config`]).

use vstd::prelude::*;

pub mod api;
pub mod backend;
pub mod client;
pub mod config;
pub mod dispatcher;
pub mod envelope;
pub mod queue;
pub mod server;
pub mod types;

pub use client::Client;
pub use types::SendableError;

verus! {

/// Version string of the call protocol; clients compare the server's
/// answer against this value.
pub const PROTOCOL_VERSION: &'static str = "0";

} // verus!
