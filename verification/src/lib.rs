//! Control core of a transparent, identity-aware sidecar proxy.
//!
//! Every decision the proxy takes is a function of this crate with a proved
//! contract; sockets, timers and tasks are driven by the caller, which feeds
//! their outcomes back in as plain values.
//!
//! - [`orchestrator`] and [`inputs`]: the proxy as a unit, from the order in
//!   which its listeners are created to the jobs that it runs.
//! - [`connect`] and [`socket`]: outbound connections that keep the client's
//!   source address, transparent listeners, the socket factory.
//! - [`gateway`]: whether a peer rightly speaks for a waypoint or a network
//!   gateway.
//! - [`secret`]: the guard in front of the certificate backend.
//! - [`attribution`]: the service that an inbound connection is counted
//!   under.
//! - [`proxy_protocol`]: the PROXY protocol header with the peer's identity.
//! - [`trace`] and [`hex`]: the `traceparent` header.
//! - [`state`], [`identity`], [`addr`], [`config`], [`error`]: what the above
//!   work on.

pub mod addr;
pub mod attribution;
pub mod config;
pub mod connect;
pub mod error;
pub mod gateway;
pub mod hex;
pub mod identity;
pub mod inputs;
pub mod orchestrator;
pub mod proxy_protocol;
pub mod secret;
pub mod socket;
pub mod state;
pub mod trace;
