use std::collections::HashMap;

use proxy_core::addr::IpAddr;
use proxy_core::gateway::{check_from_network_gateway, check_from_waypoint, check_gateway_address};
use proxy_core::identity::Identity;
use proxy_core::state::{
    Destination, Endpoint, GatewayAddress, NamespacedHostname, NetworkAddress, ProxyState, Service,
    Workload,
};

#[test]
fn check_gateway() {
    let w = mock_default_gateway_workload();
    let s = mock_default_gateway_service();
    let mut state = ProxyState::new();
    state.insert_workload(w);
    state.insert_service(s);

    let gateawy_id = Identity::Spiffe {
        trust_domain: "cluster.local".into(),
        namespace: "gatewayns".into(),
        service_account: "default".into(),
    };
    let from_gw_conn = Some(gateawy_id);
    let not_from_gw_conn = Some(other_identity());

    let upstream_with_address = mock_wokload_with_gateway(Some(mock_default_gateway_address()));
    assert!(check_from_network_gateway(
        &state,
        &upstream_with_address,
        from_gw_conn.as_ref(),
    ));
    assert!(!check_from_network_gateway(
        &state,
        &upstream_with_address,
        not_from_gw_conn.as_ref(),
    ));

    // using hostname (will check the service variant of the resolved address)
    let upstream_with_hostname = mock_wokload_with_gateway(Some(mock_default_gateway_hostname()));
    assert!(check_from_network_gateway(
        &state,
        &upstream_with_hostname,
        from_gw_conn.as_ref(),
    ));
    assert!(!check_from_network_gateway(
        &state,
        &upstream_with_hostname,
        not_from_gw_conn.as_ref(),
    ));
}

#[test]
fn no_gateway_is_never_matched() {
    let mut state = ProxyState::new();
    state.insert_workload(mock_default_gateway_workload());
    let upstream = mock_wokload_with_gateway(None);
    let id = gateway_identity();
    assert!(!check_from_network_gateway(&state, &upstream, Some(&id)));
    assert!(!check_from_waypoint(&state, &upstream, Some(&id), &mock_default_gateway_ipaddr()));
    assert!(!check_gateway_address(&state, None, |_wl: &Workload| true));
}

#[test]
fn unresolved_gateway_is_never_matched() {
    let state = ProxyState::new();
    let upstream = mock_wokload_with_gateway(Some(mock_default_gateway_address()));
    let id = gateway_identity();
    assert!(!check_from_network_gateway(&state, &upstream, Some(&id)));
    let by_name = mock_default_gateway_hostname();
    assert!(!check_gateway_address(&state, Some(&by_name), |_wl: &Workload| true));
}

#[test]
fn missing_identity_is_never_matched() {
    let mut state = ProxyState::new();
    state.insert_workload(mock_default_gateway_workload());
    let upstream = mock_wokload_with_gateway(Some(mock_default_gateway_address()));
    assert!(!check_from_network_gateway(&state, &upstream, None));
}

#[test]
fn service_without_endpoints_is_never_matched() {
    let mut state = ProxyState::new();
    state.insert_workload(mock_default_gateway_workload());
    let mut s = mock_default_gateway_service();
    s.endpoints.clear();
    state.insert_service(s);
    let by_name = mock_default_gateway_hostname();
    assert!(!check_gateway_address(&state, Some(&by_name), |_wl: &Workload| true));
}

#[test]
fn service_endpoint_with_unknown_workload_is_skipped() {
    let mut state = ProxyState::new();
    state.insert_service(mock_default_gateway_service());
    let by_name = mock_default_gateway_hostname();
    assert!(!check_gateway_address(&state, Some(&by_name), |_wl: &Workload| true));
}

#[test]
fn service_gateway_matches_any_endpoint() {
    let mut state = ProxyState::new();
    let mut first = mock_default_gateway_workload();
    first.uid = "first".into();
    first.service_account = "first-sa".into();
    let mut second = mock_default_gateway_workload();
    second.uid = "second".into();
    second.service_account = "second-sa".into();
    second.workload_ips = vec![IpAddr::v4(127, 0, 0, 101)];
    state.insert_workload(first);
    state.insert_workload(second);
    let mut s = mock_default_gateway_service();
    s.endpoints = vec![gateway_endpoint("first", 100), gateway_endpoint("second", 101)];
    state.insert_service(s);
    let by_name = mock_default_gateway_hostname();

    assert!(check_gateway_address(&state, Some(&by_name), |wl: &Workload| wl.uid == "second"));
    assert!(check_gateway_address(&state, Some(&by_name), |wl: &Workload| wl.uid == "first"));
    assert!(!check_gateway_address(&state, Some(&by_name), |wl: &Workload| wl.uid == "third"));

    let upstream = mock_wokload_with_gateway(Some(mock_default_gateway_hostname()));
    let second_id = Identity::new("cluster.local", "gatewayns", "second-sa");
    assert!(check_from_network_gateway(&state, &upstream, Some(&second_id)));
    let third_id = Identity::new("cluster.local", "gatewayns", "third-sa");
    assert!(!check_from_network_gateway(&state, &upstream, Some(&third_id)));
}

#[test]
fn waypoint_needs_identity_and_address() {
    let mut state = ProxyState::new();
    state.insert_workload(mock_default_gateway_workload());
    state.insert_service(mock_default_gateway_service());
    let id = gateway_identity();
    let member = mock_default_gateway_ipaddr();
    let stranger = IpAddr::v4(10, 9, 8, 7);

    for waypoint in [mock_default_gateway_address(), mock_default_gateway_hostname()] {
        let mut upstream = mock_wokload_with_gateway(None);
        upstream.waypoint = Some(waypoint);
        assert!(check_from_waypoint(&state, &upstream, Some(&id), &member));
        assert!(!check_from_waypoint(&state, &upstream, Some(&id), &stranger));
        assert!(!check_from_waypoint(&state, &upstream, Some(&other_identity()), &member));
        assert!(!check_from_waypoint(&state, &upstream, None, &member));
    }
}

#[test]
fn network_gateway_ignores_addresses() {
    let mut state = ProxyState::new();
    let mut w = mock_default_gateway_workload();
    w.workload_ips = vec![];
    state.insert_workload(w);
    state.insert_service(mock_default_gateway_service());
    let upstream = mock_wokload_with_gateway(Some(mock_default_gateway_hostname()));
    assert!(check_from_network_gateway(&state, &upstream, Some(&gateway_identity())));
}

#[test]
fn trust_domain_is_part_of_the_identity() {
    let mut state = ProxyState::new();
    state.insert_workload(mock_default_gateway_workload());
    let upstream = mock_wokload_with_gateway(Some(mock_default_gateway_address()));
    let foreign = Identity::new("other.domain", "gatewayns", "default");
    assert!(!check_from_network_gateway(&state, &upstream, Some(&foreign)));
}

// private helpers
fn gateway_identity() -> Identity {
    Identity::new("cluster.local", "gatewayns", "default")
}

fn other_identity() -> Identity {
    Identity::new("cluster.local", "mesh-system", "proxy")
}

fn gateway_endpoint(uid: &str, last: u8) -> Endpoint {
    let mut ports = HashMap::new();
    ports.insert(8080, 80);
    Endpoint {
        workload_uid: uid.into(),
        service: NamespacedHostname { namespace: "gatewayns".into(), hostname: "gateway".into() },
        address: Some(NetworkAddress { network: "".into(), address: IpAddr::v4(127, 0, 0, last) }),
        port: ports,
    }
}

fn mock_wokload_with_gateway(gw: Option<GatewayAddress>) -> Workload {
    Workload {
        workload_ips: vec![IpAddr::v4(127, 0, 0, 1)],
        waypoint: None,
        network_gateway: gw,
        uid: "".into(),
        name: "app".into(),
        namespace: "appns".into(),
        trust_domain: "cluster.local".into(),
        service_account: "default".into(),
        network: "".into(),
    }
}

fn mock_default_gateway_workload() -> Workload {
    Workload {
        workload_ips: vec![mock_default_gateway_ipaddr()],
        waypoint: None,
        network_gateway: None,
        uid: "".into(),
        name: "gateway".into(),
        namespace: "gatewayns".into(),
        trust_domain: "cluster.local".into(),
        service_account: "default".into(),
        network: "".into(),
    }
}

fn mock_default_gateway_service() -> Service {
    let vip1 = NetworkAddress { address: IpAddr::v4(127, 0, 10, 1), network: "".into() };
    let vips = vec![vip1];
    let mut ports = HashMap::new();
    ports.insert(8080, 80);
    let addr = Some(NetworkAddress { network: "".into(), address: mock_default_gateway_ipaddr() });
    let endpoints = vec![Endpoint {
        workload_uid: mock_default_gateway_workload().uid,
        service: NamespacedHostname { namespace: "gatewayns".into(), hostname: "gateway".into() },
        address: addr,
        port: ports.clone(),
    }];
    Service {
        name: "gateway".into(),
        namespace: "gatewayns".into(),
        hostname: "gateway".into(),
        vips,
        ports,
        endpoints,
    }
}

fn mock_default_gateway_address() -> GatewayAddress {
    GatewayAddress {
        destination: Destination::Address(NetworkAddress {
            network: "".into(),
            address: mock_default_gateway_ipaddr(),
        }),
        hbone_mtls_port: 15008,
    }
}

fn mock_default_gateway_hostname() -> GatewayAddress {
    GatewayAddress {
        destination: Destination::Hostname(NamespacedHostname {
            namespace: "gatewayns".into(),
            hostname: "gateway".into(),
        }),
        hbone_mtls_port: 15008,
    }
}

fn mock_default_gateway_ipaddr() -> IpAddr {
    IpAddr::v4(127, 0, 0, 100)
}
