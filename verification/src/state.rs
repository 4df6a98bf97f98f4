//! What the proxy knows of the mesh: workloads, services and where to find
//! them.
//!
//! Names are compared as text: two values stand for the same thing when
//! their views are equal.

use std::collections::HashMap;
use vstd::prelude::*;
use vstd::std_specs::cmp::PartialEqSpecImpl;
use crate::addr::IpAddr;
use crate::identity::{Identity, IdentityView};

verus! {

/// An address within a named network.
#[derive(Clone, Debug)]
pub struct NetworkAddress {
    pub network: String,
    pub address: IpAddr,
}

pub struct NetworkAddressView {
    pub network: Seq<char>,
    pub address: IpAddr,
}

/// A hostname within a namespace.
#[derive(Clone, Debug)]
pub struct NamespacedHostname {
    pub namespace: String,
    pub hostname: String,
}

pub struct NamespacedHostnameView {
    pub namespace: Seq<char>,
    pub hostname: Seq<char>,
}

/// Where a gateway or waypoint is to be found.
#[derive(Clone, Debug)]
pub enum Destination {
    Address(NetworkAddress),
    Hostname(NamespacedHostname),
}

pub enum DestinationView {
    Address(NetworkAddressView),
    Hostname(NamespacedHostnameView),
}

/// A gateway or waypoint: where it is, and the port on which it takes
/// tunnelled traffic.
#[derive(Clone, Debug)]
pub struct GatewayAddress {
    pub destination: Destination,
    pub hbone_mtls_port: u16,
}

/// One running instance of an application in the mesh.
#[derive(Clone, Debug)]
pub struct Workload {
    pub uid: String,
    pub name: String,
    pub namespace: String,
    pub trust_domain: String,
    pub service_account: String,
    pub network: String,
    pub workload_ips: Vec<IpAddr>,
    /// The waypoint that traffic to this workload passes through, if any.
    pub waypoint: Option<GatewayAddress>,
    /// The gateway that traffic from other networks passes through, if any.
    pub network_gateway: Option<GatewayAddress>,
}

/// One workload behind a service.
#[derive(Clone, Debug)]
pub struct Endpoint {
    pub workload_uid: String,
    pub service: NamespacedHostname,
    /// The address of the workload, where it has one.
    pub address: Option<NetworkAddress>,
    /// For each service port, the port of this workload that takes its
    /// traffic.
    pub port: HashMap<u16, u16>,
}

/// A named destination made of workloads.
#[derive(Clone, Debug)]
pub struct Service {
    pub name: String,
    pub namespace: String,
    pub hostname: String,
    pub vips: Vec<NetworkAddress>,
    /// For each service port, the port of the workloads that takes its
    /// traffic.
    pub ports: HashMap<u16, u16>,
    /// The workloads behind the service. No two of them have both the same
    /// workload and the same address.
    pub endpoints: Vec<Endpoint>,
}

/// The names of a service, for logs and metrics.
#[derive(Clone, Debug)]
pub struct ServiceDescription {
    pub hostname: String,
    pub name: String,
    pub namespace: String,
}

pub struct ServiceDescriptionView {
    pub hostname: Seq<char>,
    pub name: Seq<char>,
    pub namespace: Seq<char>,
}

/// What a destination resolves to.
#[derive(Clone, Copy, Debug)]
pub enum Address<'a> {
    Workload(&'a Workload),
    Service(&'a Service),
}

impl View for NetworkAddress {
    type V = NetworkAddressView;

    open spec fn view(&self) -> NetworkAddressView {
        NetworkAddressView { network: self.network@, address: self.address }
    }
}

impl View for NamespacedHostname {
    type V = NamespacedHostnameView;

    open spec fn view(&self) -> NamespacedHostnameView {
        NamespacedHostnameView { namespace: self.namespace@, hostname: self.hostname@ }
    }
}

impl View for Destination {
    type V = DestinationView;

    open spec fn view(&self) -> DestinationView {
        match self {
            Destination::Address(a) => DestinationView::Address(a@),
            Destination::Hostname(h) => DestinationView::Hostname(h@),
        }
    }
}

impl View for ServiceDescription {
    type V = ServiceDescriptionView;

    open spec fn view(&self) -> ServiceDescriptionView {
        ServiceDescriptionView {
            hostname: self.hostname@,
            name: self.name@,
            namespace: self.namespace@,
        }
    }
}

impl PartialEq for NetworkAddress {
    fn eq(&self, other: &NetworkAddress) -> (r: bool) {
        self.network == other.network && self.address == other.address
    }
}

impl PartialEqSpecImpl for NetworkAddress {
    open spec fn obeys_eq_spec() -> bool {
        true
    }

    open spec fn eq_spec(&self, other: &NetworkAddress) -> bool {
        self@ == other@
    }
}

impl PartialEq for ServiceDescription {
    fn eq(&self, other: &ServiceDescription) -> (r: bool) {
        self.hostname == other.hostname && self.name == other.name && self.namespace
            == other.namespace
    }
}

impl PartialEqSpecImpl for ServiceDescription {
    open spec fn obeys_eq_spec() -> bool {
        true
    }

    open spec fn eq_spec(&self, other: &ServiceDescription) -> bool {
        self@ == other@
    }
}

impl Workload {
    /// The identity that the workload's certificate names.
    pub open spec fn spec_identity(&self) -> IdentityView {
        IdentityView {
            trust_domain: self.trust_domain@,
            namespace: self.namespace@,
            service_account: self.service_account@,
        }
    }

    pub fn identity(&self) -> (id: Identity)
        ensures
            id@ == self.spec_identity(),
    {
        Identity::Spiffe {
            trust_domain: self.trust_domain.clone(),
            namespace: self.namespace.clone(),
            service_account: self.service_account.clone(),
        }
    }

    /// Whether the identity of the workload is `id`.
    pub fn has_identity(&self, id: &Identity) -> (r: bool)
        ensures
            r == (self.spec_identity() == id@),
    {
        match id {
            Identity::Spiffe { trust_domain, namespace, service_account } => {
                self.trust_domain == *trust_domain && self.namespace == *namespace
                    && self.service_account == *service_account
            },
        }
    }

    /// Whether `ip` is one of the addresses of the workload.
    pub fn has_ip(&self, ip: IpAddr) -> (r: bool)
        ensures
            r == self.workload_ips@.contains(ip),
    {
        let mut i: usize = 0;
        while i < self.workload_ips.len()
            invariant
                i <= self.workload_ips.len(),
                forall|j: int| 0 <= j < i ==> self.workload_ips@[j] != ip,
            decreases self.workload_ips.len() - i,
        {
            if self.workload_ips[i] == ip {
                return true;
            }
            i += 1;
        }
        false
    }
}

impl ServiceDescription {
    /// The names of `service`.
    pub open spec fn of(service: Service) -> ServiceDescriptionView {
        ServiceDescriptionView {
            hostname: service.hostname@,
            name: service.name@,
            namespace: service.namespace@,
        }
    }

    pub fn from(service: &Service) -> (d: ServiceDescription)
        ensures
            d@ == Self::of(*service),
    {
        ServiceDescription {
            hostname: service.hostname.clone(),
            name: service.name.clone(),
            namespace: service.namespace.clone(),
        }
    }
}

/// Whether a workload has the uid `uid`.
pub open spec fn has_uid(uid: Seq<char>) -> spec_fn(Workload) -> bool {
    |w: Workload| w.uid@ == uid
}

/// Whether a workload is at `at`: in that network, with that address.
pub open spec fn is_at(at: NetworkAddressView) -> spec_fn(Workload) -> bool {
    |w: Workload| w.network@ == at.network && w.workload_ips@.contains(at.address)
}

/// Whether `at` is one of the virtual addresses of a service.
pub open spec fn has_vip(at: NetworkAddressView) -> spec_fn(Service) -> bool {
    |s: Service| exists|k: int| 0 <= k < s.vips.len() && (#[trigger] s.vips[k])@ == at
}

/// Whether a service has the hostname `name` in its namespace.
pub open spec fn is_named(name: NamespacedHostnameView) -> spec_fn(Service) -> bool {
    |s: Service| s.namespace@ == name.namespace && s.hostname@ == name.hostname
}

/// The workloads and services known to a proxy, each in the order in which
/// it was first inserted.
#[derive(Clone, Debug)]
pub struct ProxyState {
    workloads: Vec<Workload>,
    services: Vec<Service>,
}

impl ProxyState {
    /// The workloads, in the order in which their uids were first seen.
    pub closed spec fn workloads(&self) -> Seq<Workload> {
        self.workloads@
    }

    /// The services, in the order in which their names were first seen.
    pub closed spec fn services(&self) -> Seq<Service> {
        self.services@
    }

    /// The first workload with the uid `uid`.
    pub open spec fn workload_by_uid(&self, uid: Seq<char>) -> Option<Workload> {
        match first_where(self.workloads(), has_uid(uid)) {
            Some(i) => Some(self.workloads()[i]),
            None => None,
        }
    }

    /// What an address resolves to: the first workload at that address or,
    /// where there is none, the first service with that virtual address.
    pub open spec fn address<'a>(&'a self, at: NetworkAddressView) -> Option<Address<'a>> {
        match first_where(self.workloads(), is_at(at)) {
            Some(i) => Some(Address::Workload(&self.workloads()[i])),
            None => match first_where(self.services(), has_vip(at)) {
                Some(i) => Some(Address::Service(&self.services()[i])),
                None => None,
            },
        }
    }

    /// What a hostname resolves to: the first service of that name.
    pub open spec fn hostname<'a>(&'a self, name: NamespacedHostnameView) -> Option<Address<'a>> {
        match first_where(self.services(), is_named(name)) {
            Some(i) => Some(Address::Service(&self.services()[i])),
            None => None,
        }
    }

    /// What a destination resolves to.
    pub open spec fn destination<'a>(&'a self, dest: DestinationView) -> Option<Address<'a>> {
        match dest {
            DestinationView::Address(at) => self.address(at),
            DestinationView::Hostname(name) => self.hostname(name),
        }
    }

    /// A state that knows nothing.
    pub fn new() -> (state: ProxyState)
        ensures
            state.workloads() == Seq::<Workload>::empty(),
            state.services() == Seq::<Service>::empty(),
    {
        ProxyState { workloads: Vec::new(), services: Vec::new() }
    }

    /// Takes in a workload. It takes the place of the first workload with
    /// the same uid, or comes last where there is none. From then on it is what
    /// its uid finds, and every other uid finds what it found before.
    pub fn insert_workload(&mut self, workload: Workload)
        ensures
            final(self).services() == old(self).services(),
            match first_where(old(self).workloads(), has_uid(workload.uid@)) {
                Some(i) => final(self).workloads() == old(self).workloads().update(i, workload),
                None => final(self).workloads() == old(self).workloads().push(workload),
            },
            final(self).workload_by_uid(workload.uid@) == Some(workload),
            forall|uid: Seq<char>|
                uid != workload.uid@ ==> #[trigger] final(self).workload_by_uid(uid) == old(
                    self,
                ).workload_by_uid(uid),
    {
        let ghost before = self.workloads@;
        let ghost key = workload.uid@;
        proof {
            lemma_first_where(before, has_uid(key));
        }
        let mut i: usize = 0;
        while i < self.workloads.len()
            invariant
                i <= self.workloads.len(),
                *self == *old(self),
                before == self.workloads@,
                key == workload.uid@,
                forall|j: int| 0 <= j < i ==> !has_uid(key)(#[trigger] self.workloads@[j]),
            decreases self.workloads.len() - i,
        {
            if self.workloads[i].uid == workload.uid {
                proof {
                            lemma_first_where(before, has_uid(key));
                    assert(is_first_where(before, has_uid(key), i as int));
                    let after = before.update(i as int, workload);
                    lemma_first_where(after, has_uid(key));
                    assert(is_first_where(after, has_uid(key), i as int));
                    assert forall|uid: Seq<char>| uid != key implies first_where(
                        after,
                        has_uid(uid),
                    ) == first_where(before, has_uid(uid)) && (first_where(before, has_uid(uid))
                        matches Some(k) ==> after[k] == before[k]) by {
                        lemma_first_where_same(before, after, has_uid(uid));
                        lemma_first_where(before, has_uid(uid));
                    }
                }
                self.workloads.set(i, workload);
                return ;
            }
            i += 1;
        }
        proof {
            lemma_first_where(before, has_uid(key));
            let after = before.push(workload);
            lemma_first_where_push(before, workload, has_uid(key));
            assert forall|uid: Seq<char>| uid != key implies first_where(after, has_uid(uid))
                == first_where(before, has_uid(uid)) && (first_where(before, has_uid(uid))
                matches Some(k) ==> after[k] == before[k]) by {
                lemma_first_where_push(before, workload, has_uid(uid));
                lemma_first_where(before, has_uid(uid));
            }
        }
        self.workloads.push(workload);
    }

    /// Takes in a service. It takes the place of the first service with the
    /// same hostname and namespace, or comes last where there is none. From then
    /// on it is what its name finds, and every other name finds what it
    /// found before.
    pub fn insert_service(&mut self, service: Service)
        ensures
            final(self).workloads() == old(self).workloads(),
            match first_where(old(self).services(), is_named(Service::name_of(service))) {
                Some(i) => final(self).services() == old(self).services().update(i, service),
                None => final(self).services() == old(self).services().push(service),
            },
            final(self).hostname(Service::name_of(service)) == Some(Address::Service(&service)),
            forall|name: NamespacedHostnameView|
                name != Service::name_of(service) ==> #[trigger] final(self).hostname(name) == old(
                    self,
                ).hostname(name),
    {
        let ghost before = self.services@;
        let ghost key = Service::name_of(service);
        proof {
            lemma_first_where(before, is_named(key));
        }
        let mut i: usize = 0;
        while i < self.services.len()
            invariant
                i <= self.services.len(),
                *self == *old(self),
                before == self.services@,
                key == Service::name_of(service),
                forall|j: int| 0 <= j < i ==> !is_named(key)(#[trigger] self.services@[j]),
            decreases self.services.len() - i,
        {
            if self.services[i].namespace == service.namespace && self.services[i].hostname
                == service.hostname {
                proof {
                            lemma_first_where(before, is_named(key));
                    assert(is_first_where(before, is_named(key), i as int));
                    let after = before.update(i as int, service);
                    lemma_first_where(after, is_named(key));
                    assert(is_first_where(after, is_named(key), i as int));
                    assert forall|name: NamespacedHostnameView| name != key implies first_where(
                        after,
                        is_named(name),
                    ) == first_where(before, is_named(name)) && (first_where(
                        before,
                        is_named(name),
                    ) matches Some(k) ==> after[k] == before[k]) by {
                        lemma_first_where_same(before, after, is_named(name));
                        lemma_first_where(before, is_named(name));
                    }
                }
                self.services.set(i, service);
                return ;
            }
            i += 1;
        }
        proof {
            lemma_first_where(before, is_named(key));
            let after = before.push(service);
            lemma_first_where_push(before, service, is_named(key));
            assert forall|name: NamespacedHostnameView| name != key implies first_where(
                after,
                is_named(name),
            ) == first_where(before, is_named(name)) && (first_where(before, is_named(name))
                matches Some(k) ==> after[k] == before[k]) by {
                lemma_first_where_push(before, service, is_named(name));
                lemma_first_where(before, is_named(name));
            }
        }
        self.services.push(service);
    }

    /// Looks up a workload by its uid.
    pub fn fetch_workload_by_uid(&self, uid: &String) -> (r: Option<&Workload>)
        ensures
            match r {
                Some(w) => self.workload_by_uid(uid@) == Some(*w),
                None => self.workload_by_uid(uid@) is None,
            },
    {
        proof {
            lemma_first_where(self.workloads@, has_uid(uid@));
        }
        let mut i: usize = 0;
        while i < self.workloads.len()
            invariant
                i <= self.workloads.len(),
                forall|j: int| 0 <= j < i ==> !has_uid(uid@)(#[trigger] self.workloads@[j]),
            decreases self.workloads.len() - i,
        {
            if self.workloads[i].uid == *uid {
                assert(is_first_where(self.workloads@, has_uid(uid@), i as int));
                return Some(&self.workloads[i]);
            }
            i += 1;
        }
        None
    }

    /// Looks up what an address resolves to.
    pub fn fetch_address<'a>(&'a self, at: &NetworkAddress) -> (r: Option<Address<'a>>)
        ensures
            r == self.address(at@),
    {
        proof {
            lemma_first_where(self.workloads@, is_at(at@));
            lemma_first_where(self.services@, has_vip(at@));
        }
        let mut i: usize = 0;
        while i < self.workloads.len()
            invariant
                i <= self.workloads.len(),
                forall|j: int| 0 <= j < i ==> !is_at(at@)(#[trigger] self.workloads@[j]),
            decreases self.workloads.len() - i,
        {
            let w = &self.workloads[i];
            if w.network == at.network && w.has_ip(at.address) {
                assert(is_first_where(self.workloads@, is_at(at@), i as int));
                return Some(Address::Workload(w));
            }
            i += 1;
        }
        let mut i: usize = 0;
        while i < self.services.len()
            invariant
                i <= self.services.len(),
                first_where(self.workloads@, is_at(at@)) is None,
                forall|j: int| 0 <= j < i ==> !has_vip(at@)(#[trigger] self.services@[j]),
            decreases self.services.len() - i,
        {
            let s = &self.services[i];
            if s.has_vip(at) {
                assert(is_first_where(self.services@, has_vip(at@), i as int));
                return Some(Address::Service(s));
            }
            i += 1;
        }
        None
    }

    /// Looks up what a hostname resolves to.
    pub fn fetch_hostname<'a>(&'a self, name: &NamespacedHostname) -> (r: Option<Address<'a>>)
        ensures
            r == self.hostname(name@),
    {
        proof {
            lemma_first_where(self.services@, is_named(name@));
        }
        let mut i: usize = 0;
        while i < self.services.len()
            invariant
                i <= self.services.len(),
                forall|j: int| 0 <= j < i ==> !is_named(name@)(#[trigger] self.services@[j]),
            decreases self.services.len() - i,
        {
            let s = &self.services[i];
            if s.namespace == name.namespace && s.hostname == name.hostname {
                assert(is_first_where(self.services@, is_named(name@), i as int));
                return Some(Address::Service(s));
            }
            i += 1;
        }
        None
    }

    /// Looks up what a destination resolves to.
    pub fn fetch_destination<'a>(&'a self, dest: &Destination) -> (r: Option<Address<'a>>)
        ensures
            r == self.destination(dest@),
    {
        match dest {
            Destination::Address(at) => self.fetch_address(at),
            Destination::Hostname(name) => self.fetch_hostname(name),
        }
    }
}

impl Service {
    /// The name that a service is known by: its hostname in its namespace.
    pub open spec fn name_of(service: Service) -> NamespacedHostnameView {
        NamespacedHostnameView { namespace: service.namespace@, hostname: service.hostname@ }
    }

    /// Whether `at` is one of the virtual addresses of the service.
    pub fn has_vip(&self, at: &NetworkAddress) -> (r: bool)
        ensures
            r == has_vip(at@)(*self),
    {
        let mut k: usize = 0;
        while k < self.vips.len()
            invariant
                k <= self.vips.len(),
                forall|j: int| 0 <= j < k ==> (#[trigger] self.vips[j])@ != at@,
            decreases self.vips.len() - k,
        {
            if self.vips[k] == *at {
                return true;
            }
            k += 1;
        }
        false
    }
}

/// The place of the first item of `s` that meets `p`, if there is one.
pub open spec fn first_where<T>(s: Seq<T>, p: spec_fn(T) -> bool) -> Option<int> {
    if exists|i: int| is_first_where(s, p, i) {
        Some(choose|i: int| is_first_where(s, p, i))
    } else {
        None
    }
}

/// Whether `s[i]` meets `p` and nothing before it does.
pub open spec fn is_first_where<T>(s: Seq<T>, p: spec_fn(T) -> bool, i: int) -> bool {
    &&& 0 <= i < s.len()
    &&& p(s[i])
    &&& forall|j: int| 0 <= j < i ==> !p(#[trigger] s[j])
}

/// [`first_where`] is `Some(i)` for the one `i` that [`is_first_where`], and
/// `None` where nothing in `s` meets `p`.
pub proof fn lemma_first_where<T>(s: Seq<T>, p: spec_fn(T) -> bool)
    ensures
        forall|i: int| is_first_where(s, p, i) ==> first_where(s, p) == Some(i),
        (forall|j: int| 0 <= j < s.len() ==> !p(#[trigger] s[j])) ==> first_where(s, p) is None,
        first_where(s, p) matches Some(i) ==> is_first_where(s, p, i),
        first_where(s, p) is None ==> forall|j: int| 0 <= j < s.len() ==> !p(#[trigger] s[j]),
{
    assert forall|i: int| is_first_where(s, p, i) implies first_where(s, p) == Some(i) by {
        let c = choose|c: int| is_first_where(s, p, c);
        if c < i {
            assert(!p(s[c]));
        }
        if i < c {
            assert(!p(s[i]));
        }
    }
    if first_where(s, p) is None {
        assert forall|j: int| 0 <= j < s.len() implies !p(#[trigger] s[j]) by {
            if p(s[j]) {
                lemma_some_is_first(s, p, j);
            }
        }
    }
}

/// Two sequences whose items meet `p` at the same places have their first
/// such item at the same place.
pub proof fn lemma_first_where_same<T>(s: Seq<T>, t: Seq<T>, p: spec_fn(T) -> bool)
    requires
        s.len() == t.len(),
        forall|j: int| 0 <= j < s.len() ==> p(#[trigger] s[j]) == p(t[j]),
    ensures
        first_where(s, p) == first_where(t, p),
{
    lemma_first_where(s, p);
    lemma_first_where(t, p);
    match first_where(s, p) {
        Some(i) => {
            assert(p(t[i]));
            assert forall|j: int| 0 <= j < i implies !p(#[trigger] t[j]) by {
                assert(!p(s[j]));
            }
            assert(is_first_where(t, p, i));
        },
        None => {
            assert forall|j: int| 0 <= j < t.len() implies !p(#[trigger] t[j]) by {
                assert(!p(s[j]));
            }
        },
    }
}

/// An item put behind a sequence is the first to meet `p` only where none
/// before it does.
pub proof fn lemma_first_where_push<T>(s: Seq<T>, x: T, p: spec_fn(T) -> bool)
    ensures
        first_where(s.push(x), p) == match first_where(s, p) {
            Some(i) => Some(i),
            None => if p(x) {
                Some(s.len() as int)
            } else {
                None
            },
        },
{
    let t = s.push(x);
    lemma_first_where(s, p);
    lemma_first_where(t, p);
    match first_where(s, p) {
        Some(i) => {
            assert(t[i] == s[i]);
            assert forall|j: int| 0 <= j < i implies !p(#[trigger] t[j]) by {
                assert(t[j] == s[j]);
            }
            assert(is_first_where(t, p, i));
        },
        None => {
            assert forall|j: int| 0 <= j < s.len() implies !p(#[trigger] t[j]) by {
                assert(t[j] == s[j]);
            }
            if p(x) {
                assert(is_first_where(t, p, s.len() as int));
            }
        },
    }
}

/// Where some item up to `s[k]` meets `p`, one of them is the first.
proof fn lemma_some_is_first<T>(s: Seq<T>, p: spec_fn(T) -> bool, k: int)
    requires
        0 <= k < s.len(),
        p(s[k]),
    ensures
        exists|i: int| is_first_where(s, p, i),
    decreases k,
{
    if exists|j: int| 0 <= j < k && p(s[j]) {
        let j = choose|j: int| 0 <= j < k && p(s[j]);
        lemma_some_is_first(s, p, j);
    } else {
        assert(is_first_where(s, p, k));
    }
}

} // verus!
