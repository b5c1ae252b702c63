//! Tunnels a byte stream to a target through an HTTP proxy with `CONNECT`.
//!
//! The library holds the parts that decide: parsing endpoints, producing
//! proxy credentials, and the handshake state machine. The caller performs
//! the network work that each step asks for and reports what happened.
use vstd::prelude::*;

pub mod auth;
pub mod handshake;
pub mod host;
pub mod io_ext;

pub use handshake::{Action, ConnectRequest, Event, Negotiator, Phase};
pub use host::{Host, UriParts};

verus! {

/// What can go wrong while establishing or using a tunnel.
#[derive(Debug, Clone, PartialEq, Eq)]
pub enum Error {
    /// A URI without an explicit host or port; holds the URI's text.
    InvalidUri(String),
    /// The proxy could not be dialed.
    Connect(Host, String),
    /// The HTTP exchange with the proxy failed for the given target.
    Handshake(Host, String),
    /// The proxy answered `CONNECT` with a status other than 200 or 407.
    UnexpectedStatus(u16),
    /// The proxy asked for credentials again after they were supplied.
    AuthorizationRejected,
    /// No credential could be produced.
    Auth(auth::Error),
    /// An I/O failure while relaying.
    Io(String),
    /// The request could not be built.
    Http(String),
}

} // verus!
