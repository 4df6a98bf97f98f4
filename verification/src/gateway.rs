//! Does a peer rightly speak for a gateway or a waypoint?
//!
//! A workload names the waypoint and the network gateway that traffic to it
//! passes through. Either is an address that resolves to one workload, or to
//! a service and so to the workloads behind it. A peer is taken for the
//! gateway when it is one of those workloads.

use vstd::prelude::*;
use crate::addr::IpAddr;
use crate::identity::{Identity, IdentityView};
use crate::state::{Address, Endpoint, GatewayAddress, ProxyState, Workload};

verus! {

/// Whether `wl` is one of the workloads that make up the gateway: the
/// workload that its address resolves to, or a workload that an endpoint of
/// the service that it resolves to points at by uid. With no gateway, or one
/// that does not resolve, there is no such workload.
pub open spec fn is_gateway_workload(
    state: &ProxyState,
    gateway_address: Option<GatewayAddress>,
    wl: Workload,
) -> bool {
    match gateway_address {
        None => false,
        Some(gateway) => match state.destination(gateway.destination@) {
            Some(Address::Workload(w)) => wl == *w,
            Some(Address::Service(s)) => exists|i: int|
                0 <= i < s.endpoints.len() && state.workload_by_uid(
                    (#[trigger] s.endpoints[i]).workload_uid@,
                ) == Some(wl),
            None => false,
        },
    }
}

/// Whether `wl` has the identity `src_identity`.
pub open spec fn is_gateway(wl: Workload, src_identity: Option<IdentityView>) -> bool {
    src_identity == Some(wl.spec_identity())
}

/// Whether `wl` has the identity `src_identity` and the address `src_ip`.
pub open spec fn is_waypoint(
    wl: Workload,
    src_identity: Option<IdentityView>,
    src_ip: IpAddr,
) -> bool {
    src_identity == Some(wl.spec_identity()) && wl.workload_ips@.contains(src_ip)
}

/// Whether a peer with this identity and address is the waypoint of
/// `upstream`: one of the waypoint's workloads has both.
pub open spec fn from_waypoint(
    state: &ProxyState,
    upstream: &Workload,
    src_identity: Option<IdentityView>,
    src_ip: IpAddr,
) -> bool {
    exists|wl: Workload|
        #[trigger] is_gateway_workload(state, upstream.waypoint, wl) && is_waypoint(
            wl,
            src_identity,
            src_ip,
        )
}

/// Whether a peer with this identity is the network gateway of `upstream`:
/// one of the gateway's workloads has it. Addresses play no part.
pub open spec fn from_network_gateway(
    state: &ProxyState,
    upstream: &Workload,
    src_identity: Option<IdentityView>,
) -> bool {
    exists|wl: Workload|
        #[trigger] is_gateway_workload(state, upstream.network_gateway, wl)
            && is_gateway(wl, src_identity)
}

/// The gateway address behind a reference that may be missing.
pub open spec fn gateway_of(gateway_address: Option<&GatewayAddress>) -> Option<GatewayAddress> {
    match gateway_address {
        Some(gateway) => Some(*gateway),
        None => None,
    }
}

/// The view of an identity that may be missing.
pub open spec fn identity_view(id: Option<&Identity>) -> Option<IdentityView> {
    match id {
        Some(id) => Some(id@),
        None => None,
    }
}

/// Whether `predicate` holds of one of the workloads that make up the
/// gateway.
///
/// `true` is returned only where `predicate` gave `true` for one of them,
/// `false` only where it gave `false` for every one: so always with no
/// gateway, with one that does not resolve, and with a service that has no
/// endpoint or none whose workload is known.
pub fn check_gateway_address<F: Fn(&Workload) -> bool>(
    state: &ProxyState,
    gateway_address: Option<&GatewayAddress>,
    predicate: F,
) -> (r: bool)
    requires
        forall|wl: &Workload| call_requires(predicate, (wl,)),
    ensures
        r ==> exists|wl: Workload|
            #[trigger] is_gateway_workload(state, gateway_of(gateway_address), wl) && call_ensures(
                predicate,
                (&wl,),
                true,
            ),
        !r ==> forall|wl: Workload|
            #[trigger] is_gateway_workload(state, gateway_of(gateway_address), wl) ==> call_ensures(
                predicate,
                (&wl,),
                false,
            ),
{
    let gateway = match gateway_address {
        None => { return false; },
        Some(gateway) => gateway,
    };
    match state.fetch_destination(&gateway.destination) {
        Some(Address::Workload(wl)) => {
            let r = predicate(wl);
            assert(is_gateway_workload(state, gateway_of(gateway_address), *wl));
            r
        },
        Some(Address::Service(svc)) => {
            let mut i: usize = 0;
            while i < svc.endpoints.len()
                invariant
                    i <= svc.endpoints.len(),
                    forall|wl: &Workload| call_requires(predicate, (wl,)),
                    gateway_address == Some(gateway),
                    state.destination(gateway.destination@) == Some(Address::Service(svc)),
                    forall|j: int, wl: Workload|
                        0 <= j < i && state.workload_by_uid(
                            (#[trigger] svc.endpoints[j]).workload_uid@,
                        ) == Some(wl) ==> #[trigger] call_ensures(predicate, (&wl,), false),
                decreases svc.endpoints.len() - i,
            {
                match state.fetch_workload_by_uid(&svc.endpoints[i].workload_uid) {
                    Some(wl) => {
                        if predicate(wl) {
                            assert(is_gateway_workload(state, gateway_of(gateway_address), *wl));
                            return true;
                        }
                    },
                    None => {},
                }
                i += 1;
            }
            false
        },
        None => false,
    }
}

/// Checks that the peer is the waypoint of `upstream`: it must have the
/// identity of a workload of the waypoint and one of that workload's
/// addresses.
pub fn check_from_waypoint(
    state: &ProxyState,
    upstream: &Workload,
    src_identity: Option<&Identity>,
    src_ip: &IpAddr,
) -> (r: bool)
    ensures
        r == from_waypoint(state, upstream, identity_view(src_identity), *src_ip),
{
    let is_waypoint = |wl: &Workload| -> (b: bool)
        ensures
            b == is_waypoint(*wl, identity_view(src_identity), *src_ip),
        {
            match src_identity {
                Some(id) => wl.has_identity(id) && wl.has_ip(*src_ip),
                None => false,
            }
        };
    check_gateway_address(state, upstream.waypoint.as_ref(), is_waypoint)
}

/// Checks that the peer is the network gateway of `upstream`: it must have
/// the identity of a workload of the gateway. Its address is not looked at.
pub fn check_from_network_gateway(
    state: &ProxyState,
    upstream: &Workload,
    src_identity: Option<&Identity>,
) -> (r: bool)
    ensures
        r == from_network_gateway(state, upstream, identity_view(src_identity)),
{
    let is_gateway = |wl: &Workload| -> (b: bool)
        ensures
            b == is_gateway(*wl, identity_view(src_identity)),
        {
            match src_identity {
                Some(id) => wl.has_identity(id),
                None => false,
            }
        };
    check_gateway_address(state, upstream.network_gateway.as_ref(), is_gateway)
}

/// Whether the workload that the endpoint points at is known and meets `p`.
pub open spec fn endpoint_meets(state: &ProxyState, e: Endpoint, p: spec_fn(Workload) -> bool) -> bool {
    match state.workload_by_uid(e.workload_uid@) {
        Some(wl) => p(wl),
        None => false,
    }
}

/// A gateway that resolves to a service stands for the workloads of its
/// endpoints and for nothing else: a check over it holds exactly when the
/// workload of at least one endpoint meets the predicate, and so never for a
/// service without endpoints.
pub proof fn lemma_service_gateway_is_its_endpoints(
    state: &ProxyState,
    gateway: &GatewayAddress,
    p: spec_fn(Workload) -> bool,
)
    requires
        state.destination(gateway.destination@) matches Some(Address::Service(_)),
    ensures
        ({
            let svc = state.destination(gateway.destination@)->Some_0->Service_0;
            (exists|wl: Workload| #[trigger] is_gateway_workload(state, Some(*gateway), wl) && p(wl))
                <==> (exists|i: int|
                0 <= i < svc.endpoints.len() && endpoint_meets(
                    state,
                    #[trigger] svc.endpoints[i],
                    p,
                ))
        }),
{
    let svc = state.destination(gateway.destination@)->Some_0->Service_0;
    if exists|wl: Workload| #[trigger] is_gateway_workload(state, Some(*gateway), wl) && p(wl) {
        let wl = choose|wl: Workload| #[trigger]
            is_gateway_workload(state, Some(*gateway), wl) && p(wl);
        let i = choose|i: int|
            0 <= i < svc.endpoints.len() && state.workload_by_uid(
                (#[trigger] svc.endpoints[i]).workload_uid@,
            ) == Some(wl);
        assert(endpoint_meets(state, svc.endpoints[i], p));
    }
    if exists|i: int|
        0 <= i < svc.endpoints.len() && endpoint_meets(state, #[trigger] svc.endpoints[i], p) {
        let i = choose|i: int|
            0 <= i < svc.endpoints.len() && endpoint_meets(state, #[trigger] svc.endpoints[i], p);
        let wl = state.workload_by_uid(svc.endpoints[i].workload_uid@)->Some_0;
        assert(is_gateway_workload(state, Some(*gateway), wl) && p(wl));
    }
}

/// With no gateway, or with one whose address resolves to nothing, no check
/// over it holds.
pub proof fn lemma_no_gateway_no_workload(
    state: &ProxyState,
    gateway_address: Option<GatewayAddress>,
    wl: Workload,
)
    requires
        gateway_address matches Some(gateway) ==> state.destination(gateway.destination@) is None,
    ensures
        !is_gateway_workload(state, gateway_address, wl),
{
}

/// The right identity is not enough for a waypoint: where every workload of
/// the waypoint with the peer's identity lacks the peer's address, the peer
/// is not taken for the waypoint.
pub proof fn lemma_waypoint_needs_identity_and_address(
    state: &ProxyState,
    upstream: &Workload,
    src_identity: Option<IdentityView>,
    src_ip: IpAddr,
)
    requires
        forall|wl: Workload|
            #[trigger] is_gateway_workload(state, upstream.waypoint, wl) && is_gateway(
                wl,
                src_identity,
            ) ==> !wl.workload_ips@.contains(src_ip),
    ensures
        !from_waypoint(state, upstream, src_identity, src_ip),
{
}

/// The right identity is enough for a network gateway, whatever addresses
/// the gateway's workloads have, and whether the gateway is given by address
/// or by hostname.
pub proof fn lemma_network_gateway_needs_identity_only(
    state: &ProxyState,
    upstream: &Workload,
    src_identity: Option<IdentityView>,
    wl: Workload,
)
    requires
        is_gateway_workload(state, upstream.network_gateway, wl),
        src_identity == Some(wl.spec_identity()),
    ensures
        from_network_gateway(state, upstream, src_identity),
{
}

} // verus!
