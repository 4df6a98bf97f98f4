//! Which service was an inbound connection meant for?
//!
//! A workload may stand behind many services, and the connection itself
//! names none. For logs and metrics a best guess is made among the services
//! of the destination workload. Nothing is routed or allowed by it.

use std::collections::HashMap;
use vstd::prelude::*;
use crate::addr::SocketAddr;
use crate::identity::Identity;
use crate::state::{
    first_where, is_first_where, lemma_first_where, Endpoint, NetworkAddress, NetworkAddressView,
    Service, ServiceDescription, ServiceDescriptionView, Workload,
};

verus! {

/// One TCP flow as it was seen: where it came from, where it went, and who
/// the peer proved to be.
#[derive(Clone, Debug)]
pub struct Connection {
    pub src_identity: Option<Identity>,
    pub src: SocketAddr,
    pub dst_network: String,
    pub dst: SocketAddr,
}

/// Whether a service has the hostname that the client named.
pub open spec fn is_host(host: Option<Seq<char>>) -> spec_fn(Service) -> bool {
    |s: Service| host == Some(s.hostname@)
}

/// Whether an endpoint is that of the workload `uid` at the address `at`.
pub open spec fn is_endpoint(uid: Seq<char>, at: NetworkAddressView) -> spec_fn(Endpoint) -> bool {
    |e: Endpoint| e.workload_uid@ == uid && e.address is Some && e.address->Some_0@ == at
}

/// The ports of the endpoint of `s` for the workload `uid` at `at`, where
/// `s` has such an endpoint.
pub open spec fn endpoint_ports(s: Service, uid: Seq<char>, at: NetworkAddressView) -> Option<
    Map<u16, u16>,
> {
    match first_where(s.endpoints@, is_endpoint(uid, at)) {
        Some(i) => Some(s.endpoints[i].port@),
        None => None,
    }
}

/// Whether traffic for the service port `sport` arrives at `dport`: by the
/// service's own table, or by that of the endpoint (a port that the service
/// knows by name only).
pub open spec fn port_leads_to(
    ports: Map<u16, u16>,
    named: Option<Map<u16, u16>>,
    sport: u16,
    dport: u16,
) -> bool {
    ports.contains_key(sport) && (ports[sport] == dport || (named is Some
        && named->Some_0.contains_key(sport) && named->Some_0[sport] == dport))
}

/// Whether one of the ports of a service leads to `dport` on the workload
/// `uid` at `at`.
pub open spec fn serves_port(dport: u16, uid: Seq<char>, at: NetworkAddressView) -> spec_fn(
    Service,
) -> bool {
    |s: Service|
        exists|sport: u16| #[trigger]
            port_leads_to(s.ports@, endpoint_ports(s, uid, at), sport, dport)
}

/// The best guess at the service of a connection to `dst` on the workload
/// `uid` of the network `network`, among `services`.
///
/// The first service with the hostname that the client named, if the client
/// named one of them. Else the first service with a port that leads to the
/// destination port. Else none.
pub open spec fn guess(
    dst: SocketAddr,
    host: Option<Seq<char>>,
    services: Seq<Service>,
    uid: Seq<char>,
    network: Seq<char>,
) -> Option<ServiceDescriptionView> {
    let at = NetworkAddressView { network, address: dst.ip };
    match first_where(services, is_host(host)) {
        Some(i) => Some(ServiceDescription::of(services[i])),
        None => match first_where(services, serves_port(dst.port, uid, at)) {
            Some(i) => Some(ServiceDescription::of(services[i])),
            None => None,
        },
    }
}

/// The view of a host header that may be missing.
pub open spec fn host_view(host: Option<String>) -> Option<Seq<char>> {
    match host {
        Some(h) => Some(h@),
        None => None,
    }
}

/// The view of a description that may be missing.
pub open spec fn description_view(d: Option<ServiceDescription>) -> Option<ServiceDescriptionView> {
    match d {
        Some(d) => Some(d@),
        None => None,
    }
}

impl Service {
    /// The endpoint of the service for the workload `uid` at `at`.
    pub fn endpoint(&self, uid: &String, at: &NetworkAddress) -> (r: Option<&Endpoint>)
        ensures
            match first_where(self.endpoints@, is_endpoint(uid@, at@)) {
                Some(i) => r == Some(&self.endpoints[i]),
                None => r is None,
            },
    {
        proof {
            lemma_first_where(self.endpoints@, is_endpoint(uid@, at@));
        }
        let mut i: usize = 0;
        while i < self.endpoints.len()
            invariant
                i <= self.endpoints.len(),
                forall|j: int| 0 <= j < i ==> !is_endpoint(uid@, at@)(#[trigger] self.endpoints@[j]),
            decreases self.endpoints.len() - i,
        {
            let e = &self.endpoints[i];
            let here = match &e.address {
                Some(a) => *a == *at,
                None => false,
            };
            if e.workload_uid == *uid && here {
                assert(is_first_where(self.endpoints@, is_endpoint(uid@, at@), i as int));
                return Some(e);
            }
            i += 1;
        }
        None
    }
}

/// The view of a port table that may be missing.
pub open spec fn table_view(table: Option<&HashMap<u16, u16>>) -> Option<Map<u16, u16>> {
    match table {
        Some(t) => Some(t@),
        None => None,
    }
}

/// Whether one of the service ports in `ports` leads to `dport`.
fn some_port_leads_to(
    ports: &HashMap<u16, u16>,
    named: Option<&HashMap<u16, u16>>,
    dport: u16,
) -> (r: bool)
    ensures
        r == exists|sport: u16| #[trigger]
            port_leads_to(ports@, table_view(named), sport, dport),
{
    broadcast use vstd::std_specs::hash::group_hash_axioms;

    let ghost named_view = table_view(named);
    for pair in it: ports.iter()
        invariant
            named_view == table_view(named),
            forall|j: int|
                0 <= j < it.index() ==> !port_leads_to(
                    ports@,
                    named_view,
                    *(#[trigger] it.seq()[j]).0,
                    dport,
                ),
    {
        let (sport, tport) = pair;
        if *tport == dport {
            assert(port_leads_to(ports@, named_view, *sport, dport));
            return true;
        }
        match named {
            Some(n) => match n.get(sport) {
                Some(p) => {
                    if *p == dport {
                        assert(port_leads_to(ports@, named_view, *sport, dport));
                        return true;
                    }
                },
                None => {},
            },
            None => {},
        }
    }
    false
}

/// Picks the service that an inbound connection is counted under.
///
/// If the client named the hostname of one of the services of the
/// destination workload, that service is taken: only those services are
/// candidates, so a made-up name selects nothing. Otherwise the first
/// service with a port that leads to the destination port is taken, by the
/// service's own port table or by that of its endpoint for the destination.
pub fn guess_inbound_service(
    conn: &Connection,
    for_host_header: &Option<String>,
    upstream_service: Vec<Service>,
    dest: &Workload,
) -> (r: Option<ServiceDescription>)
    ensures
        description_view(r) == guess(
            conn.dst,
            host_view(*for_host_header),
            upstream_service@,
            dest.uid@,
            dest.network@,
        ),
{
    let ghost host = host_view(*for_host_header);
    proof {
        lemma_first_where(upstream_service@, is_host(host));
    }
    if let Some(h) = for_host_header {
        let mut i: usize = 0;
        while i < upstream_service.len()
            invariant
                i <= upstream_service.len(),
                host == Some(h@),
                host == host_view(*for_host_header),
                forall|j: int| 0 <= j < i ==> !is_host(host)(#[trigger] upstream_service@[j]),
            decreases upstream_service.len() - i,
        {
            if *h == upstream_service[i].hostname {
                proof {
                    lemma_first_where(upstream_service@, is_host(host));
                    assert(is_first_where(upstream_service@, is_host(host), i as int));
                }
                return Some(ServiceDescription::from(&upstream_service[i]));
            }
            i += 1;
        }
    }
    let dport = conn.dst.port();
    let netaddr = NetworkAddress { network: dest.network.clone(), address: conn.dst.ip() };
    proof {
        lemma_first_where(upstream_service@, serves_port(dport, dest.uid@, netaddr@));
    }
    let mut i: usize = 0;
    while i < upstream_service.len()
        invariant
            i <= upstream_service.len(),
            first_where(upstream_service@, is_host(host)) is None,
            host == host_view(*for_host_header),
            dport == conn.dst.port,
            netaddr@ == (NetworkAddressView { network: dest.network@, address: conn.dst.ip }),
            forall|j: int|
                0 <= j < i ==> !serves_port(dport, dest.uid@, netaddr@)(
                    #[trigger] upstream_service@[j],
                ),
        decreases upstream_service.len() - i,
    {
        let s = &upstream_service[i];
        let named = match s.endpoint(&dest.uid, &netaddr) {
            Some(e) => Some(&e.port),
            None => None,
        };
        assert(table_view(named) == endpoint_ports(*s, dest.uid@, netaddr@));
        if some_port_leads_to(&s.ports, named, dport) {
            proof {
                lemma_first_where(upstream_service@, serves_port(dport, dest.uid@, netaddr@));
                assert(is_first_where(
                    upstream_service@,
                    serves_port(dport, dest.uid@, netaddr@),
                    i as int,
                ));
            }
            return Some(ServiceDescription::from(s));
        }
        i += 1;
    }
    None
}

/// A service that the client named wins over any service that only has a
/// fitting port: where `services[i]` is the first with the hostname named,
/// it is the guess, whatever ports the others have.
pub proof fn lemma_host_header_takes_priority(
    dst: SocketAddr,
    host: Option<Seq<char>>,
    services: Seq<Service>,
    uid: Seq<char>,
    network: Seq<char>,
    i: int,
)
    requires
        is_first_where(services, is_host(host), i),
    ensures
        guess(dst, host, services, uid, network) == Some(ServiceDescription::of(services[i])),
{
    lemma_first_where(services, is_host(host));
}

/// The guess is always one of the candidates: whatever hostname the client
/// names, no service outside `services` is ever picked.
pub proof fn lemma_guess_is_a_candidate(
    dst: SocketAddr,
    host: Option<Seq<char>>,
    services: Seq<Service>,
    uid: Seq<char>,
    network: Seq<char>,
)
    ensures
        guess(dst, host, services, uid, network) matches Some(d) ==> exists|i: int|
            0 <= i < services.len() && d == ServiceDescription::of(#[trigger] services[i]),
        services.len() == 0 ==> guess(dst, host, services, uid, network) is None,
{
    let at = NetworkAddressView { network, address: dst.ip };
    lemma_first_where(services, is_host(host));
    lemma_first_where(services, serves_port(dst.port, uid, at));
}

} // verus!
