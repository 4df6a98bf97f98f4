use proxy_core::addr::{IpAddr, SocketAddr};
use proxy_core::connect::{
    freebind_connect, Action, ConnectError, Connecting, Event, Next, CONNECTION_TIMEOUT_SECS,
};

fn dst_v4() -> SocketAddr {
    SocketAddr::new(IpAddr::v4(10, 0, 0, 1), 8080)
}

/// Runs an attempt over the given events and records what was asked for.
fn drive(
    local: Option<IpAddr>,
    addr: SocketAddr,
    events: Vec<Event<&'static str>>,
) -> (Vec<Action>, Option<Result<(), ConnectError<&'static str>>>, Vec<&'static str>) {
    let mut state = freebind_connect(local, addr);
    let mut asked = vec![state.action()];
    let mut warned = vec![];
    for event in events {
        match state.advance(event) {
            Next::Continue { state: next, tolerated } => {
                if let Some(e) = tolerated {
                    warned.push(e);
                }
                state = next;
                asked.push(state.action());
            }
            Next::Connected => return (asked, Some(Ok(())), warned),
            Next::Failed(e) => return (asked, Some(Err(e)), warned),
        }
    }
    (asked, None, warned)
}

#[test]
fn timeout_is_ten_seconds() {
    assert_eq!(CONNECTION_TIMEOUT_SECS, 10);
}

#[test]
fn no_local_address_connects_directly() {
    let (asked, result, warned) = drive(None, dst_v4(), vec![Event::Done, Event::Done]);
    assert_eq!(asked, vec![Action::CreateSocket { ipv4: true }, Action::Connect(dst_v4())]);
    assert_eq!(result, Some(Ok(())));
    assert!(warned.is_empty());
}

#[test]
fn no_local_address_uses_the_family_of_the_destination() {
    let dst = SocketAddr::new(IpAddr::V6(1), 443);
    let state = freebind_connect(None, dst);
    assert_eq!(state.action(), Action::CreateSocket { ipv4: false });
}

#[test]
fn local_equal_to_destination_never_binds() {
    let local = Some(IpAddr::v4(10, 0, 0, 1));
    let (asked, result, _) = drive(local, dst_v4(), vec![Event::Done, Event::Done]);
    assert_eq!(asked, vec![Action::CreateSocket { ipv4: true }, Action::Connect(dst_v4())]);
    assert_eq!(result, Some(Ok(())));
}

#[test]
fn local_equal_to_canonical_destination_never_binds() {
    // ::ffff:10.0.0.1 is 10.0.0.1 once it is made canonical.
    let mapped = IpAddr::V6(0xffff_0a00_0001);
    let dst = SocketAddr::new(mapped, 8080);
    let local = Some(IpAddr::v4(10, 0, 0, 1));
    let (asked, result, _) = drive(local, dst, vec![Event::Done, Event::Done]);
    assert_eq!(asked, vec![Action::CreateSocket { ipv4: false }, Action::Connect(dst)]);
    assert_eq!(result, Some(Ok(())));
    assert!(asked
        .iter()
        .all(|a| !matches!(a, Action::Bind(_) | Action::SetFreebindAndTransparent)));
}

#[test]
fn mapped_local_is_not_the_canonical_destination() {
    // The local address is compared as it is given: only the destination
    // is made canonical.
    let mapped = IpAddr::V6(0xffff_0a00_0001);
    let (asked, _, _) = drive(Some(mapped), dst_v4(), vec![Event::Done]);
    assert_eq!(
        asked,
        vec![Action::CreateSocket { ipv4: false }, Action::SetFreebindAndTransparent]
    );
}

#[test]
fn other_local_address_is_bound_to_port_zero() {
    let src = IpAddr::V6(0x2001_0db8_0000_0000_0000_0000_0000_0001);
    let events = vec![Event::Done, Event::Done, Event::Done, Event::Done];
    let (asked, result, warned) = drive(Some(src), dst_v4(), events);
    assert_eq!(
        asked,
        vec![
            Action::CreateSocket { ipv4: false },
            Action::SetFreebindAndTransparent,
            Action::Bind(SocketAddr::new(src, 0)),
            Action::Connect(dst_v4()),
        ]
    );
    assert_eq!(result, Some(Ok(())));
    assert!(warned.is_empty());
}

#[test]
fn failed_options_skip_the_bind() {
    let src = IpAddr::v4(192, 168, 1, 1);
    let events = vec![Event::Done, Event::Failed("no freebind"), Event::Done];
    let (asked, result, warned) = drive(Some(src), dst_v4(), events);
    assert_eq!(
        asked,
        vec![
            Action::CreateSocket { ipv4: true },
            Action::SetFreebindAndTransparent,
            Action::Connect(dst_v4()),
        ]
    );
    assert_eq!(result, Some(Ok(())));
    assert_eq!(warned, vec!["no freebind"]);
}

#[test]
fn failed_bind_still_connects() {
    let src = IpAddr::v4(192, 168, 1, 1);
    let events = vec![Event::Done, Event::Done, Event::Failed("no bind"), Event::Done];
    let (asked, result, warned) = drive(Some(src), dst_v4(), events);
    assert_eq!(asked.last(), Some(&Action::Connect(dst_v4())));
    assert_eq!(asked.len(), 4);
    assert_eq!(result, Some(Ok(())));
    assert_eq!(warned, vec!["no bind"]);
}

#[test]
fn socket_error_is_handed_on() {
    let (asked, result, _) = drive(None, dst_v4(), vec![Event::Failed("no fds")]);
    assert_eq!(asked, vec![Action::CreateSocket { ipv4: true }]);
    assert_eq!(result, Some(Err(ConnectError::Io("no fds"))));
}

#[test]
fn connect_error_is_handed_on() {
    let (_, result, _) = drive(None, dst_v4(), vec![Event::Done, Event::Failed("refused")]);
    assert_eq!(result, Some(Err(ConnectError::Io("refused"))));
}

#[test]
fn timeout_is_not_a_refused_connection() {
    let (_, timed_out, _) = drive(None, dst_v4(), vec![Event::Done, Event::TimedOut]);
    let (_, refused, _) = drive(None, dst_v4(), vec![Event::Done, Event::Failed("refused")]);
    assert_eq!(timed_out, Some(Err(ConnectError::TimedOut)));
    assert_ne!(timed_out, refused);
}

#[test]
fn timeout_ends_every_state() {
    let src = SocketAddr::new(IpAddr::v4(192, 168, 1, 1), 0);
    let states = [
        Connecting::Socket { bind: Some(src), addr: dst_v4() },
        Connecting::Socket { bind: None, addr: dst_v4() },
        Connecting::Options { source: src, addr: dst_v4() },
        Connecting::Bind { source: src, addr: dst_v4() },
        Connecting::Connect { addr: dst_v4() },
    ];
    for state in states {
        match state.advance(Event::<&'static str>::TimedOut) {
            Next::Failed(e) => assert_eq!(e, ConnectError::TimedOut),
            _ => panic!("the attempt went on after the time ran out"),
        }
    }
}
