use std::io;

use proxy_core::error::Error;
use proxy_core::identity::{Identity, WorkloadInfo};

#[test]
fn io_error_becomes_an_io_failure() {
    let e: Error = io::Error::new(io::ErrorKind::BrokenPipe, "gone").into();
    assert!(matches!(e, Error::Io(inner) if inner.kind() == io::ErrorKind::BrokenPipe));
}

#[test]
fn identity_error_becomes_an_identity_failure() {
    let bug = proxy_core::identity::Error::BugInvalidIdentityRequest(
        Identity::new("td", "ns", "sa"),
        WorkloadInfo::new("w", "ns", "other"),
    );
    let e = Error::from(bug);
    assert!(matches!(
        e,
        Error::Identity(proxy_core::identity::Error::BugInvalidIdentityRequest(id, info))
            if id == Identity::new("td", "ns", "sa") && info.service_account == "other"
    ));
}

#[test]
fn dns_errors_become_dns_failures() {
    let proto = hickory_proto::error::ProtoError::from("bad packet");
    assert!(matches!(Error::from(proto), Error::Dns(_)));
    let lookup = hickory_server::authority::LookupError::for_name_exists();
    assert!(matches!(Error::from(lookup), Error::DnsLookup(_)));
}

#[test]
fn rejections_are_told_apart() {
    let late = Error::AuthorizationPolicyLateRejection;
    let never = Error::AuthorizationPolicyRejection;
    assert!(matches!(late, Error::AuthorizationPolicyLateRejection));
    assert!(!matches!(never, Error::AuthorizationPolicyLateRejection));
    let wrapped = Error::ShutdownError(Box::new(Error::ClientDisconnected));
    assert!(matches!(wrapped, Error::ShutdownError(inner) if matches!(*inner, Error::ClientDisconnected)));
}
