//! Outbound connection establishment that keeps the client's source address
//! where it can.
//!
//! Creating, configuring and connecting a socket is the caller's work. What
//! to do next, and what a failure means, is decided here: the caller performs
//! the [`Action`] of the current state, reports what happened as an
//! [`Event`], and gets back the next state or the final result.

use vstd::prelude::*;
use crate::addr::{canonical, to_canonical, IpAddr, SocketAddr};

verus! {

/// Seconds allowed for one connection attempt as a whole, socket setup
/// included. When they have passed the caller reports [`Event::TimedOut`].
pub const CONNECTION_TIMEOUT_SECS: u64 = 10;

/// What the caller has to do in a given state.
#[derive(Clone, Copy, Debug, PartialEq, Eq, Structural)]
pub enum Action {
    /// Create a TCP socket of the given family, with no-delay set.
    CreateSocket { ipv4: bool },
    /// Set the freebind and transparent options on the socket.
    SetFreebindAndTransparent,
    /// Bind the socket to this local address.
    Bind(SocketAddr),
    /// Connect the socket to this address.
    Connect(SocketAddr),
}

/// What came of the action.
pub enum Event<E> {
    /// The action succeeded.
    Done,
    /// The action failed with this error.
    Failed(E),
    /// The time allowed for the whole attempt ran out.
    TimedOut,
}

/// Why no connection was made.
#[derive(Debug, PartialEq, Eq)]
pub enum ConnectError<E> {
    /// The attempt took longer than [`CONNECTION_TIMEOUT_SECS`].
    TimedOut,
    /// Creating the socket or connecting it failed with this error.
    Io(E),
}

/// A connection attempt in progress.
#[derive(Clone, Copy, Debug, PartialEq, Eq, Structural)]
pub enum Connecting {
    /// The socket is being created. `bind` is the local address to bind it
    /// to afterwards, if any.
    Socket { bind: Option<SocketAddr>, addr: SocketAddr },
    /// The freebind and transparent options are being set.
    Options { source: SocketAddr, addr: SocketAddr },
    /// The socket is being bound to `source`.
    Bind { source: SocketAddr, addr: SocketAddr },
    /// The socket is being connected.
    Connect { addr: SocketAddr },
}

/// Where an attempt stands after an event.
pub enum Next<E> {
    /// The attempt goes on. `tolerated` is the failure that the event
    /// reported, where there was one: it is worth a warning and no more.
    Continue { state: Connecting, tolerated: Option<E> },
    /// The socket is connected.
    Connected,
    /// The attempt is over.
    Failed(ConnectError<E>),
}

/// The local address to bind before connecting to `addr`, port 0 of the
/// requested address, or `None` where the connection is made directly: no
/// local address was requested, or the requested one is the destination
/// itself in canonical form.
pub open spec fn source_to_bind(local: Option<IpAddr>, addr: SocketAddr) -> Option<SocketAddr> {
    match local {
        None => None,
        Some(src) => if src == canonical(addr).ip {
            None
        } else {
            Some(SocketAddr { ip: src, port: 0 })
        },
    }
}

/// The state in which an attempt to reach `addr` from `local` starts.
pub open spec fn start(local: Option<IpAddr>, addr: SocketAddr) -> Connecting {
    Connecting::Socket { bind: source_to_bind(local, addr), addr }
}

impl Connecting {
    /// The action that this state waits for. A socket that will be bound has
    /// the family of its local address, any other that of the destination.
    pub open spec fn spec_action(self) -> Action {
        match self {
            Connecting::Socket { bind: Some(source), .. } => Action::CreateSocket {
                ipv4: source.ip is V4,
            },
            Connecting::Socket { bind: None, addr } => Action::CreateSocket {
                ipv4: addr.ip is V4,
            },
            Connecting::Options { .. } => Action::SetFreebindAndTransparent,
            Connecting::Bind { source, .. } => Action::Bind(source),
            Connecting::Connect { addr } => Action::Connect(addr),
        }
    }

    /// The address that the attempt is to reach.
    pub open spec fn destination(self) -> SocketAddr {
        match self {
            Connecting::Socket { addr, .. } => addr,
            Connecting::Options { addr, .. } => addr,
            Connecting::Bind { addr, .. } => addr,
            Connecting::Connect { addr } => addr,
        }
    }

    /// The state that follows `self` on `event`.
    ///
    /// Running out of time ends the attempt in any state. A socket that
    /// cannot be created or connected ends it with the error reported.
    /// Setting the options and binding are best effort: when the options
    /// cannot be set the bind is skipped, and either failure leaves a socket
    /// that is connected all the same.
    pub open spec fn next<E>(self, event: Event<E>) -> Next<E> {
        match event {
            Event::TimedOut => Next::Failed(ConnectError::TimedOut),
            Event::Done => match self {
                Connecting::Socket { bind: Some(source), addr } => Next::Continue {
                    state: Connecting::Options { source, addr },
                    tolerated: None,
                },
                Connecting::Socket { bind: None, addr } => Next::Continue {
                    state: Connecting::Connect { addr },
                    tolerated: None,
                },
                Connecting::Options { source, addr } => Next::Continue {
                    state: Connecting::Bind { source, addr },
                    tolerated: None,
                },
                Connecting::Bind { addr, .. } => Next::Continue {
                    state: Connecting::Connect { addr },
                    tolerated: None,
                },
                Connecting::Connect { .. } => Next::Connected,
            },
            Event::Failed(e) => match self {
                Connecting::Socket { .. } => Next::Failed(ConnectError::Io(e)),
                Connecting::Options { addr, .. } => Next::Continue {
                    state: Connecting::Connect { addr },
                    tolerated: Some(e),
                },
                Connecting::Bind { addr, .. } => Next::Continue {
                    state: Connecting::Connect { addr },
                    tolerated: Some(e),
                },
                Connecting::Connect { .. } => Next::Failed(ConnectError::Io(e)),
            },
        }
    }

    /// The actions asked for, in order, when the attempt is in state `self`
    /// and the events to come are `events`: the action of `self`, then those
    /// of the states that follow for as long as the attempt goes on.
    pub open spec fn actions<E>(self, events: Seq<Event<E>>) -> Seq<Action>
        decreases events.len(),
    {
        if events.len() == 0 {
            seq![self.spec_action()]
        } else {
            match self.next(events[0]) {
                Next::Continue { state, .. } => seq![self.spec_action()] + state.actions(
                    events.drop_first(),
                ),
                _ => seq![self.spec_action()],
            }
        }
    }

    /// The result that `events` lead to from state `self`: `None` while the
    /// attempt is still going on when they are used up, else whether the
    /// socket was connected. Events reported after the end are not looked at.
    pub open spec fn result<E>(self, events: Seq<Event<E>>) -> Option<Result<(), ConnectError<E>>>
        decreases events.len(),
    {
        if events.len() == 0 {
            None
        } else {
            match self.next(events[0]) {
                Next::Continue { state, .. } => state.result(events.drop_first()),
                Next::Connected => Some(Ok(())),
                Next::Failed(e) => Some(Err(e)),
            }
        }
    }

    #[verifier::when_used_as_spec(spec_action)]
    pub fn action(self) -> (a: Action)
        ensures
            a == self.spec_action(),
    {
        match self {
            Connecting::Socket { bind: Some(source), .. } => Action::CreateSocket {
                ipv4: source.is_ipv4(),
            },
            Connecting::Socket { bind: None, addr } => Action::CreateSocket {
                ipv4: addr.is_ipv4(),
            },
            Connecting::Options { .. } => Action::SetFreebindAndTransparent,
            Connecting::Bind { source, .. } => Action::Bind(source),
            Connecting::Connect { addr } => Action::Connect(addr),
        }
    }

    /// Takes in what came of the action of this state.
    pub fn advance<E>(self, event: Event<E>) -> (r: Next<E>)
        ensures
            r == self.next(event),
            event is TimedOut ==> r == Next::<E>::Failed(ConnectError::TimedOut),
    {
        let outcome = match event {
            Event::TimedOut => { return Next::Failed(ConnectError::TimedOut); },
            Event::Done => None,
            Event::Failed(e) => Some(e),
        };
        match self {
            Connecting::Socket { bind, addr } => match outcome {
                Some(e) => Next::Failed(ConnectError::Io(e)),
                None => match bind {
                    Some(source) => Next::Continue {
                        state: Connecting::Options { source, addr },
                        tolerated: None,
                    },
                    None => Next::Continue { state: Connecting::Connect { addr }, tolerated: None },
                },
            },
            Connecting::Options { source, addr } => match outcome {
                Some(e) => Next::Continue {
                    state: Connecting::Connect { addr },
                    tolerated: Some(e),
                },
                None => Next::Continue { state: Connecting::Bind { source, addr }, tolerated: None },
            },
            Connecting::Bind { addr, .. } => Next::Continue {
                state: Connecting::Connect { addr },
                tolerated: outcome,
            },
            Connecting::Connect { .. } => match outcome {
                Some(e) => Next::Failed(ConnectError::Io(e)),
                None => Next::Connected,
            },
        }
    }
}

/// Begins an attempt to connect to `addr`, from `local` where one is given.
///
/// With no local address, or with one that is the destination itself once
/// that is made canonical, the socket has the destination's family and is
/// connected as it is. Otherwise it has the family of `local`, and is bound
/// to port 0 of `local` first, as far as the system allows.
pub fn freebind_connect(local: Option<IpAddr>, addr: SocketAddr) -> (state: Connecting)
    ensures
        state == start(local, addr),
{
    let source = match local {
        None => None,
        Some(src) => if src == to_canonical(addr).ip() {
            None
        } else {
            Some(SocketAddr::new(src, 0))
        },
    };
    Connecting::Socket { bind: source, addr }
}

/// An attempt that binds no local address never asks for the socket options
/// or for a bind, whatever happens: it creates a socket of the destination's
/// family and then connects it to the destination.
pub proof fn lemma_direct_attempt_never_binds<E>(
    local: Option<IpAddr>,
    addr: SocketAddr,
    events: Seq<Event<E>>,
)
    requires
        local is None || local == Some(canonical(addr).ip),
    ensures
        ({
            let asked = start(local, addr).actions(events);
            &&& 1 <= asked.len() <= 2
            &&& asked[0] == Action::CreateSocket { ipv4: addr.ip is V4 }
            &&& asked.len() == 2 ==> asked[1] == Action::Connect(addr)
            &&& forall|i: int|
                0 <= i < asked.len() ==> !(asked[i] is Bind) && !(asked[i]
                    is SetFreebindAndTransparent)
        }),
{
    let s0 = start(local, addr);
    assert(s0 == Connecting::Socket { bind: None, addr });
    if events.len() > 0 {
        match s0.next(events[0]) {
            Next::Continue { state, .. } => {
                let rest = events.drop_first();
                assert(state == Connecting::Connect { addr });
                if rest.len() > 0 {
                    assert(!(state.next(rest[0]) is Continue));
                }
                assert(state.actions(rest) =~= seq![Action::Connect(addr)]);
            },
            _ => {},
        }
    }
}

/// Once the socket exists, nothing but a failed connect or the clock can
/// make the attempt fail: with the options or the bind refused, the next
/// thing asked for is the connect to the same destination, and the refusal
/// is handed back to be logged.
pub proof fn lemma_setup_failures_are_tolerated<E>(state: Connecting, e: E)
    requires
        state is Options || state is Bind,
    ensures
        state.next(Event::Failed(e)) == (Next::Continue {
            state: Connecting::Connect { addr: state.destination() },
            tolerated: Some(e),
        }),
{
}

/// Running out of time is its own failure: whatever the attempt was doing,
/// it ends with [`ConnectError::TimedOut`], which no error of the system is
/// mistaken for.
pub proof fn lemma_timeout_is_its_own_error<E>(state: Connecting, e: E)
    ensures
        state.next(Event::<E>::TimedOut) == Next::<E>::Failed(ConnectError::TimedOut),
        ConnectError::<E>::TimedOut != ConnectError::Io(e),
        state.next(Event::Failed(e)) != Next::<E>::Failed(ConnectError::TimedOut),
{
}

/// No attempt takes more than four events: after them the socket is
/// connected or the attempt has failed.
pub proof fn lemma_attempt_ends<E>(local: Option<IpAddr>, addr: SocketAddr, events: Seq<Event<E>>)
    requires
        events.len() >= 4,
    ensures
        start(local, addr).result(events) is Some,
{
    reveal_with_fuel(Connecting::result, 5);
    let s0 = start(local, addr);
    let e1 = events.drop_first();
    let e2 = e1.drop_first();
    let e3 = e2.drop_first();
    if let Next::Continue { state: s1, .. } = s0.next(events[0]) {
        if let Next::Continue { state: s2, .. } = s1.next(e1[0]) {
            if let Next::Continue { state: s3, .. } = s2.next(e2[0]) {
                assert(s3 is Connect);
                assert(!(s3.next(e3[0]) is Continue));
            }
        }
    }
}

} // verus!
