//! Who a workload is: the principal that its certificate names.

use vstd::prelude::*;
use vstd::std_specs::cmp::PartialEqSpecImpl;

verus! {

/// The authenticated principal of a workload.
#[derive(Debug)]
pub enum Identity {
    Spiffe { trust_domain: String, namespace: String, service_account: String },
}

/// What an [`Identity`] holds, as text.
pub struct IdentityView {
    pub trust_domain: Seq<char>,
    pub namespace: Seq<char>,
    pub service_account: Seq<char>,
}

/// What a proxy knows of the workload that it runs for. The trust domain is
/// not part of it.
#[derive(Debug)]
pub struct WorkloadInfo {
    pub name: String,
    pub namespace: String,
    pub service_account: String,
}

/// What a [`WorkloadInfo`] holds, as text.
pub struct WorkloadInfoView {
    pub name: Seq<char>,
    pub namespace: Seq<char>,
    pub service_account: Seq<char>,
}

/// A certificate was asked for that the asking proxy has no business with.
/// This is a bug in the caller, not a condition of the network.
#[derive(Clone, Debug)]
pub enum Error {
    /// The identity asked for, and the workload that may be asked for.
    BugInvalidIdentityRequest(Identity, WorkloadInfo),
}

impl View for Identity {
    type V = IdentityView;

    open spec fn view(&self) -> IdentityView {
        match self {
            Identity::Spiffe { trust_domain, namespace, service_account } => IdentityView {
                trust_domain: trust_domain@,
                namespace: namespace@,
                service_account: service_account@,
            },
        }
    }
}

impl View for WorkloadInfo {
    type V = WorkloadInfoView;

    open spec fn view(&self) -> WorkloadInfoView {
        WorkloadInfoView {
            name: self.name@,
            namespace: self.namespace@,
            service_account: self.service_account@,
        }
    }
}

impl IdentityView {
    /// The identity as a SPIFFE URI:
    /// `spiffe://<trust domain>/ns/<namespace>/sa/<service account>`.
    pub open spec fn uri(self) -> Seq<char> {
        "spiffe://"@ + self.trust_domain + "/ns/"@ + self.namespace + "/sa/"@
            + self.service_account
    }
}

impl Identity {
    /// The identity of the given trust domain, namespace and service account.
    pub fn new(trust_domain: &str, namespace: &str, service_account: &str) -> (id: Identity)
        ensures
            id@ == (IdentityView {
                trust_domain: trust_domain@,
                namespace: namespace@,
                service_account: service_account@,
            }),
    {
        Identity::Spiffe {
            trust_domain: trust_domain.to_owned(),
            namespace: namespace.to_owned(),
            service_account: service_account.to_owned(),
        }
    }

    /// The text form of the identity, see [`IdentityView::uri`].
    pub fn to_string(&self) -> (s: String)
        ensures
            s@ == self@.uri(),
    {
        match self {
            Identity::Spiffe { trust_domain, namespace, service_account } => {
                let mut s = "spiffe://".to_owned();
                s.append(trust_domain.as_str());
                s.append("/ns/");
                s.append(namespace.as_str());
                s.append("/sa/");
                s.append(service_account.as_str());
                s
            },
        }
    }
}

impl Clone for Identity {
    fn clone(&self) -> (id: Identity)
        ensures
            id == *self,
    {
        match self {
            Identity::Spiffe { trust_domain, namespace, service_account } => Identity::Spiffe {
                trust_domain: trust_domain.clone(),
                namespace: namespace.clone(),
                service_account: service_account.clone(),
            },
        }
    }
}

impl PartialEq for Identity {
    fn eq(&self, other: &Identity) -> (r: bool) {
        match (self, other) {
            (
                Identity::Spiffe { trust_domain: t1, namespace: n1, service_account: s1 },
                Identity::Spiffe { trust_domain: t2, namespace: n2, service_account: s2 },
            ) => *t1 == *t2 && *n1 == *n2 && *s1 == *s2,
        }
    }
}

impl PartialEqSpecImpl for Identity {
    open spec fn obeys_eq_spec() -> bool {
        true
    }

    /// Two identities are equal when they hold the same text.
    open spec fn eq_spec(&self, other: &Identity) -> bool {
        self@ == other@
    }
}

impl Eq for Identity {

}

impl Clone for WorkloadInfo {
    fn clone(&self) -> (info: WorkloadInfo)
        ensures
            info == *self,
    {
        WorkloadInfo {
            name: self.name.clone(),
            namespace: self.namespace.clone(),
            service_account: self.service_account.clone(),
        }
    }
}

impl WorkloadInfo {
    pub fn new(name: &str, namespace: &str, service_account: &str) -> (info: WorkloadInfo)
        ensures
            info@ == (WorkloadInfoView {
                name: name@,
                namespace: namespace@,
                service_account: service_account@,
            }),
    {
        WorkloadInfo {
            name: name.to_owned(),
            namespace: namespace.to_owned(),
            service_account: service_account.to_owned(),
        }
    }
}

} // verus!
