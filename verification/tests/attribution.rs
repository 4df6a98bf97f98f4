use std::collections::HashMap;

use proxy_core::addr::{IpAddr, SocketAddr};
use proxy_core::attribution::{guess_inbound_service, Connection};
use proxy_core::state::{
    Endpoint, NamespacedHostname, NetworkAddress, Service, ServiceDescription, Workload,
};

fn svc(name: &str, ports: &[(u16, u16)], endpoints: Vec<Endpoint>) -> Service {
    let mut table = HashMap::new();
    for (sport, tport) in ports {
        table.insert(*sport, *tport);
    }
    Service {
        name: name.into(),
        namespace: "ns".into(),
        hostname: format!("{name}.ns.svc.cluster.local"),
        vips: vec![],
        ports: table,
        endpoints,
    }
}

fn described(name: &str) -> ServiceDescription {
    ServiceDescription {
        hostname: format!("{name}.ns.svc.cluster.local"),
        name: name.into(),
        namespace: "ns".into(),
    }
}

fn dest_workload() -> Workload {
    Workload {
        uid: "cluster//Pod/ns/app".into(),
        name: "app".into(),
        namespace: "ns".into(),
        trust_domain: "cluster.local".into(),
        service_account: "app".into(),
        network: "net".into(),
        workload_ips: vec![IpAddr::v4(10, 0, 0, 5)],
        waypoint: None,
        network_gateway: None,
    }
}

fn conn_to(port: u16) -> Connection {
    Connection {
        src_identity: None,
        src: SocketAddr::new(IpAddr::v4(10, 0, 0, 9), 40000),
        dst_network: "net".into(),
        dst: SocketAddr::new(IpAddr::v4(10, 0, 0, 5), port),
    }
}

fn named_endpoint(uid: &str, network: &str, ports: &[(u16, u16)]) -> Endpoint {
    let mut table = HashMap::new();
    for (sport, tport) in ports {
        table.insert(*sport, *tport);
    }
    Endpoint {
        workload_uid: uid.into(),
        service: NamespacedHostname { namespace: "ns".into(), hostname: "x".into() },
        address: Some(NetworkAddress { network: network.into(), address: IpAddr::v4(10, 0, 0, 5) }),
        port: table,
    }
}

#[test]
fn host_header_wins_over_port_match() {
    let a = svc("a", &[(80, 9999)], vec![]);
    let b = svc("b", &[(80, 8080)], vec![]);
    let host = Some("a.ns.svc.cluster.local".to_string());
    let got = guess_inbound_service(&conn_to(8080), &host, vec![b, a], &dest_workload());
    assert_eq!(got, Some(described("a")));
}

#[test]
fn target_port_picks_the_service_without_host_header() {
    let a = svc("a", &[(80, 9999)], vec![]);
    let b = svc("b", &[(80, 8080)], vec![]);
    let got = guess_inbound_service(&conn_to(8080), &None, vec![a, b], &dest_workload());
    assert_eq!(got, Some(described("b")));
}

#[test]
fn first_service_with_matching_port_is_taken() {
    let a = svc("a", &[(80, 8080)], vec![]);
    let b = svc("b", &[(81, 8080)], vec![]);
    let got = guess_inbound_service(&conn_to(8080), &None, vec![a, b], &dest_workload());
    assert_eq!(got, Some(described("a")));
}

#[test]
fn unknown_host_header_falls_back_to_ports() {
    let a = svc("a", &[(80, 9999)], vec![]);
    let b = svc("b", &[(80, 8080)], vec![]);
    let host = Some("forged.example.com".to_string());
    let got = guess_inbound_service(&conn_to(8080), &host, vec![a, b], &dest_workload());
    assert_eq!(got, Some(described("b")));
}

#[test]
fn nothing_matches() {
    let a = svc("a", &[(80, 9999)], vec![]);
    let host = Some("forged.example.com".to_string());
    assert_eq!(guess_inbound_service(&conn_to(8080), &host, vec![a], &dest_workload()), None);
    assert_eq!(guess_inbound_service(&conn_to(8080), &None, vec![], &dest_workload()), None);
}

#[test]
fn named_port_of_the_endpoint_matches() {
    // The service maps port 80 to no number (0); the endpoint of the
    // destination workload resolves it to 8080.
    let ep = named_endpoint("cluster//Pod/ns/app", "net", &[(80, 8080)]);
    let a = svc("a", &[(80, 0)], vec![ep]);
    let got = guess_inbound_service(&conn_to(8080), &None, vec![a], &dest_workload());
    assert_eq!(got, Some(described("a")));
}

#[test]
fn named_port_of_another_workload_does_not_match() {
    let ep = named_endpoint("cluster//Pod/ns/other", "net", &[(80, 8080)]);
    let a = svc("a", &[(80, 0)], vec![ep]);
    assert_eq!(guess_inbound_service(&conn_to(8080), &None, vec![a], &dest_workload()), None);
    let ep = named_endpoint("cluster//Pod/ns/app", "elsewhere", &[(80, 8080)]);
    let b = svc("b", &[(80, 0)], vec![ep]);
    assert_eq!(guess_inbound_service(&conn_to(8080), &None, vec![b], &dest_workload()), None);
}

#[test]
fn named_port_must_be_a_service_port() {
    // The endpoint knows port 81, the service does not.
    let ep = named_endpoint("cluster//Pod/ns/app", "net", &[(81, 8080)]);
    let a = svc("a", &[(80, 0)], vec![ep]);
    assert_eq!(guess_inbound_service(&conn_to(8080), &None, vec![a], &dest_workload()), None);
}
