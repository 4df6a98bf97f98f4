//! What can go wrong in the proxy, by kind.
//!
//! A kind carries what a log line or a metric needs and no text of its own.
//! Kinds that callers treat differently are kept apart even where they look
//! alike: a connection closed because the policy changed under it is not a
//! connection that was never allowed.

use vstd::prelude::*;
use vstd::std_specs::convert::FromSpecImpl;
use crate::addr::{IpAddr, SocketAddr};
use crate::identity::WorkloadInfo;
use crate::state::Workload;

verus! {

/// `std::io::Error`: an error of the operating system. It is carried, never
/// looked into.
#[verifier::external_type_specification]
#[verifier::external_body]
pub struct ExIoError(std::io::Error);

/// `http::StatusCode`: the status of an HTTP response. It is carried, never
/// looked into.
#[verifier::external_type_specification]
#[verifier::external_body]
pub struct ExStatusCode(http::StatusCode);

/// `hickory_proto::error::ProtoError`: a failure of the DNS protocol. It is
/// carried, never looked into.
#[verifier::external_type_specification]
#[verifier::external_body]
pub struct ExProtoError(hickory_proto::error::ProtoError);

/// `hickory_server::authority::LookupError`: a failed DNS lookup. It is
/// carried, never looked into.
#[verifier::external_type_specification]
#[verifier::external_body]
pub struct ExLookupError(hickory_server::authority::LookupError);

/// A failure of the proxy.
#[derive(Debug)]
pub enum Error {
    /// A listener could not be bound to this address.
    Bind(SocketAddr, std::io::Error),
    Io(std::io::Error),
    /// Closing a connection failed.
    ShutdownError(Box<Error>),
    /// The destination went away before all data was written.
    BackendDisconnected,
    ReceiveError(Box<Error>),
    /// The client went away before all data was written.
    ClientDisconnected,
    SendError(Box<Error>),
    ConnectionFailed(std::io::Error),
    /// The connection was allowed once and closed when the policy changed.
    AuthorizationPolicyLateRejection,
    /// The connection was never allowed.
    AuthorizationPolicyRejection,
    WorkloadHBONEPoolAlreadyConnecting,
    WorkloadHBONEPoolConnStreamsMaxed,
    WorkloadHBONEPoolDraining,
    /// An error of a dependency, as its text.
    Generic(String),
    /// The HTTP/2 handshake failed, with the text of the failure.
    Http2Handshake(String),
    /// HTTP/2 failed later on, with the text of the failure.
    H2(String),
    HttpStatus(http::StatusCode),
    /// The request was not a CONNECT but this method.
    NonConnectMethod(String),
    ConnectAddress(String),
    /// The TLS layer failed, with its text.
    Tls(String),
    Identity(crate::identity::Error),
    UnknownSource(IpAddr),
    /// The source is not the workload that the proxy runs for.
    MismatchedSource(IpAddr, WorkloadInfo),
    UnknownWaypoint(String),
    UnknownDestination(IpAddr),
    NoValidDestination(Box<Workload>),
    NoHealthyUpstream(SocketAddr),
    NoResolvedAddresses(String),
    /// Names were resolved for the workload, but to no address.
    EmptyResolvedAddresses(String),
    /// The proxy was about to connect to itself.
    SelfCall,
    NoGatewayAddress(Box<Workload>),
    UnsupportedFeature(String),
    IPMismatch(IpAddr, IpAddr),
    /// A connection was registered twice.
    DoubleConnection,
    DrainTimeOut,
    ClosedFromDrain,
    Dns(hickory_proto::error::ProtoError),
    DnsLookup(hickory_server::authority::LookupError),
    DnsEmpty,
}

impl From<std::io::Error> for Error {
    fn from(e: std::io::Error) -> (r: Error) {
        Error::Io(e)
    }
}

impl FromSpecImpl<std::io::Error> for Error {
    open spec fn obeys_from_spec() -> bool {
        true
    }

    open spec fn from_spec(e: std::io::Error) -> Error {
        Error::Io(e)
    }
}

impl From<crate::identity::Error> for Error {
    fn from(e: crate::identity::Error) -> (r: Error) {
        Error::Identity(e)
    }
}

impl FromSpecImpl<crate::identity::Error> for Error {
    open spec fn obeys_from_spec() -> bool {
        true
    }

    open spec fn from_spec(e: crate::identity::Error) -> Error {
        Error::Identity(e)
    }
}

impl From<hickory_proto::error::ProtoError> for Error {
    fn from(e: hickory_proto::error::ProtoError) -> (r: Error) {
        Error::Dns(e)
    }
}

impl FromSpecImpl<hickory_proto::error::ProtoError> for Error {
    open spec fn obeys_from_spec() -> bool {
        true
    }

    open spec fn from_spec(e: hickory_proto::error::ProtoError) -> Error {
        Error::Dns(e)
    }
}

impl From<hickory_server::authority::LookupError> for Error {
    fn from(e: hickory_server::authority::LookupError) -> (r: Error) {
        Error::DnsLookup(e)
    }
}

impl FromSpecImpl<hickory_server::authority::LookupError> for Error {
    open spec fn obeys_from_spec() -> bool {
        true
    }

    open spec fn from_spec(e: hickory_server::authority::LookupError) -> Error {
        Error::DnsLookup(e)
    }
}

} // verus!
