//! The proxy as a unit: its listeners are created in a fixed order, the first
//! failure stops the start, and what was created runs until all of it has
//! finished.
//!
//! Creating a listener binds a socket, so the caller does it. The order, and
//! what a failure means, is decided here: the caller creates the listener
//! that [`Startup::role`] names, with the configuration that
//! [`Startup::config`] gives, and reports the result to
//! [`Startup::advance`].

use vstd::prelude::*;
use crate::addr::SocketAddr;
use crate::config::Config;

verus! {

/// The four listeners of a proxy.
#[derive(Clone, Copy, Debug, PartialEq, Eq, Structural)]
pub enum Role {
    /// Terminates tunnelled traffic for the workload.
    Inbound,
    /// Forwards plain traffic that was captured on its way in.
    InboundPassthrough,
    /// Takes the workload's outgoing traffic.
    Outbound,
    /// Takes outgoing traffic from SOCKS5 clients.
    Socks5,
}

/// A listener that was created: the caller's handle of it, and the address
/// that it is bound to.
#[derive(Debug)]
pub struct Listener<L> {
    pub handle: L,
    pub address: SocketAddr,
}

/// The bound addresses of a proxy.
#[derive(Clone, Copy, Debug, PartialEq, Eq, Structural)]
pub struct Addresses {
    pub outbound: SocketAddr,
    pub inbound: SocketAddr,
    pub socks5: Option<SocketAddr>,
}

/// A start in progress: the listeners created so far, and the configuration
/// that the next one is created with.
#[derive(Debug)]
pub enum Startup<L> {
    Inbound { cfg: Config },
    InboundPassthrough { cfg: Config, inbound: Listener<L> },
    Outbound { cfg: Config, inbound: Listener<L>, inbound_passthrough: Listener<L> },
    Socks5 {
        cfg: Config,
        inbound: Listener<L>,
        inbound_passthrough: Listener<L>,
        outbound: Listener<L>,
    },
}

/// All the listeners of a proxy, created and bound.
#[derive(Debug)]
pub struct Listeners<L> {
    pub inbound: Listener<L>,
    pub inbound_passthrough: Listener<L>,
    pub outbound: Listener<L>,
    pub socks5: Option<Listener<L>>,
}

/// Where a start stands once a listener was created, or was not.
#[derive(Debug)]
pub enum Progress<L, E> {
    /// There is another listener to create.
    Next(Startup<L>),
    /// Every listener is there.
    Listening(Listeners<L>),
    /// A listener could not be created. The start is over, and the
    /// listeners created before are dropped with it.
    Failed(E),
}

/// A proxy ready to run: its listeners and its policy watcher.
#[derive(Debug)]
pub struct Proxy<L, W> {
    pub inbound: Listener<L>,
    pub inbound_passthrough: Listener<L>,
    pub outbound: Listener<L>,
    pub socks5: Option<Listener<L>>,
    pub policy_watcher: W,
}

/// One of the jobs that make up a running proxy.
#[derive(Debug, PartialEq, Eq)]
pub enum Task<L, W> {
    Listener(L),
    PolicyWatcher(W),
}

/// The configuration that the listeners after the inbound one are created
/// with, when the inbound one is bound to `bound`: that of the start, but
/// for a proxy under test that talks to itself, which is told `bound`.
pub open spec fn config_after_inbound(cfg: Config, bound: SocketAddr) -> Config {
    if cfg.fake_self_inbound {
        Config { inbound_addr: bound, ..cfg }
    } else {
        cfg
    }
}

/// The listeners that a proxy with this configuration has, in the order in
/// which they are created: the SOCKS5 one only where it has an address.
pub open spec fn roles(cfg: Config) -> Seq<Role> {
    if cfg.socks5_addr is Some {
        seq![Role::Inbound, Role::InboundPassthrough, Role::Outbound, Role::Socks5]
    } else {
        seq![Role::Inbound, Role::InboundPassthrough, Role::Outbound]
    }
}

impl<L> Startup<L> {
    /// The listener to create next.
    pub open spec fn spec_role(&self) -> Role {
        match self {
            Startup::Inbound { .. } => Role::Inbound,
            Startup::InboundPassthrough { .. } => Role::InboundPassthrough,
            Startup::Outbound { .. } => Role::Outbound,
            Startup::Socks5 { .. } => Role::Socks5,
        }
    }

    /// The configuration to create it with.
    pub open spec fn spec_config(&self) -> Config {
        match self {
            Startup::Inbound { cfg } => *cfg,
            Startup::InboundPassthrough { cfg, .. } => *cfg,
            Startup::Outbound { cfg, .. } => *cfg,
            Startup::Socks5 { cfg, .. } => *cfg,
        }
    }

    /// Where the start stands once `result` came of creating the listener
    /// that `self` asks for.
    ///
    /// An error ends the start and is handed on as it is. The inbound
    /// listener comes first, so that an address in use or a missing
    /// permission shows before anything else exists. The SOCKS5 listener
    /// comes last, and only where the configuration gives it an address.
    pub open spec fn next<E>(self, result: Result<Listener<L>, E>) -> Progress<L, E> {
        match result {
            Err(e) => Progress::Failed(e),
            Ok(listener) => match self {
                Startup::Inbound { cfg } => Progress::Next(
                    Startup::InboundPassthrough {
                        cfg: config_after_inbound(cfg, listener.address),
                        inbound: listener,
                    },
                ),
                Startup::InboundPassthrough { cfg, inbound } => Progress::Next(
                    Startup::Outbound { cfg, inbound, inbound_passthrough: listener },
                ),
                Startup::Outbound { cfg, inbound, inbound_passthrough } => if cfg.socks5_addr
                    is Some {
                    Progress::Next(
                        Startup::Socks5 { cfg, inbound, inbound_passthrough, outbound: listener },
                    )
                } else {
                    Progress::Listening(
                        Listeners { inbound, inbound_passthrough, outbound: listener, socks5: None },
                    )
                },
                Startup::Socks5 { inbound, inbound_passthrough, outbound, .. } => {
                    Progress::Listening(
                        Listeners { inbound, inbound_passthrough, outbound, socks5: Some(listener) },
                    )
                },
            },
        }
    }

    /// Begins the start of a proxy: nothing exists yet, and the inbound
    /// listener is the first to create.
    pub fn begin(cfg: Config) -> (s: Startup<L>)
        ensures
            s == (Startup::<L>::Inbound { cfg }),
    {
        Startup::Inbound { cfg }
    }

    #[verifier::when_used_as_spec(spec_role)]
    pub fn role(&self) -> (r: Role)
        ensures
            r == self.spec_role(),
    {
        match self {
            Startup::Inbound { .. } => Role::Inbound,
            Startup::InboundPassthrough { .. } => Role::InboundPassthrough,
            Startup::Outbound { .. } => Role::Outbound,
            Startup::Socks5 { .. } => Role::Socks5,
        }
    }

    #[verifier::when_used_as_spec(spec_config)]
    pub fn config(&self) -> (cfg: Config)
        ensures
            cfg == self.spec_config(),
    {
        match self {
            Startup::Inbound { cfg } => *cfg,
            Startup::InboundPassthrough { cfg, .. } => *cfg,
            Startup::Outbound { cfg, .. } => *cfg,
            Startup::Socks5 { cfg, .. } => *cfg,
        }
    }

    /// Takes in what came of creating the listener that `self` asks for.
    pub fn advance<E>(self, result: Result<Listener<L>, E>) -> (p: Progress<L, E>)
        ensures
            p == self.next(result),
    {
        let listener = match result {
            Err(e) => { return Progress::Failed(e); },
            Ok(listener) => listener,
        };
        match self {
            Startup::Inbound { cfg } => {
                let cfg = if cfg.fake_self_inbound {
                    cfg.with_inbound_addr(listener.address)
                } else {
                    cfg
                };
                Progress::Next(Startup::InboundPassthrough { cfg, inbound: listener })
            },
            Startup::InboundPassthrough { cfg, inbound } => Progress::Next(
                Startup::Outbound { cfg, inbound, inbound_passthrough: listener },
            ),
            Startup::Outbound { cfg, inbound, inbound_passthrough } => {
                if cfg.socks5_addr.is_some() {
                    Progress::Next(
                        Startup::Socks5 { cfg, inbound, inbound_passthrough, outbound: listener },
                    )
                } else {
                    Progress::Listening(
                        Listeners { inbound, inbound_passthrough, outbound: listener, socks5: None },
                    )
                }
            },
            Startup::Socks5 { inbound, inbound_passthrough, outbound, .. } => Progress::Listening(
                Listeners { inbound, inbound_passthrough, outbound, socks5: Some(listener) },
            ),
        }
    }
}

/// What a whole start comes to when the results of creating the listeners
/// are `results`, in the order in which they are asked for: `None` while
/// listeners are still missing when the results are used up. Results after
/// the end are not looked at.
pub open spec fn outcome<L, E>(state: Startup<L>, results: Seq<Result<Listener<L>, E>>) -> Option<
    Result<Listeners<L>, E>,
>
    decreases results.len(),
{
    if results.len() == 0 {
        None
    } else {
        match state.next(results[0]) {
            Progress::Next(s) => outcome(s, results.drop_first()),
            Progress::Listening(l) => Some(Ok(l)),
            Progress::Failed(e) => Some(Err(e)),
        }
    }
}

/// The listeners asked for in the course of a start, in order.
pub open spec fn asked<L, E>(state: Startup<L>, results: Seq<Result<Listener<L>, E>>) -> Seq<Role>
    decreases results.len(),
{
    if results.len() == 0 {
        seq![state.spec_role()]
    } else {
        match state.next(results[0]) {
            Progress::Next(s) => seq![state.spec_role()] + asked(s, results.drop_first()),
            _ => seq![state.spec_role()],
        }
    }
}

impl<L, W> Proxy<L, W> {
    /// The proxy made of these listeners and the policy watcher.
    pub fn new(listeners: Listeners<L>, policy_watcher: W) -> (proxy: Proxy<L, W>)
        ensures
            proxy == (Proxy {
                inbound: listeners.inbound,
                inbound_passthrough: listeners.inbound_passthrough,
                outbound: listeners.outbound,
                socks5: listeners.socks5,
                policy_watcher,
            }),
    {
        Proxy {
            inbound: listeners.inbound,
            inbound_passthrough: listeners.inbound_passthrough,
            outbound: listeners.outbound,
            socks5: listeners.socks5,
            policy_watcher,
        }
    }

    /// The addresses that the listeners are bound to.
    pub open spec fn spec_addresses(&self) -> Addresses {
        Addresses {
            outbound: self.outbound.address,
            inbound: self.inbound.address,
            socks5: match self.socks5 {
                Some(l) => Some(l.address),
                None => None,
            },
        }
    }

    /// The jobs of the proxy in the order in which they are started: the
    /// SOCKS5 listener is the last, where there is one.
    pub open spec fn spec_tasks(self) -> Seq<Task<L, W>> {
        let first = seq![
            Task::Listener(self.inbound_passthrough.handle),
            Task::PolicyWatcher(self.policy_watcher),
            Task::Listener(self.inbound.handle),
            Task::Listener(self.outbound.handle),
        ];
        match self.socks5 {
            Some(l) => first.push(Task::Listener(l.handle)),
            None => first,
        }
    }

    /// The addresses that the listeners are bound to: those that the system
    /// chose, where a listener was given port 0.
    #[verifier::when_used_as_spec(spec_addresses)]
    pub fn addresses(&self) -> (a: Addresses)
        ensures
            a == self.spec_addresses(),
    {
        Addresses {
            outbound: self.outbound.address,
            inbound: self.inbound.address,
            socks5: match &self.socks5 {
                Some(l) => Some(l.address),
                None => None,
            },
        }
    }

    /// Takes the proxy apart into the jobs to run. Each is started on its
    /// own, and the proxy has run when all of them have finished.
    pub fn run(self) -> (tasks: Vec<Task<L, W>>)
        ensures
            tasks@ == self.spec_tasks(),
    {
        let mut tasks = Vec::new();
        tasks.push(Task::Listener(self.inbound_passthrough.handle));
        tasks.push(Task::PolicyWatcher(self.policy_watcher));
        tasks.push(Task::Listener(self.inbound.handle));
        tasks.push(Task::Listener(self.outbound.handle));
        match self.socks5 {
            Some(l) => { tasks.push(Task::Listener(l.handle)); },
            None => {},
        }
        tasks
    }
}

/// A start asks for the listeners of its configuration, in their order, for
/// as long as they can be created: when `results` holds `n` successes, the
/// first `n + 1` listeners have been asked for, or all of them.
pub proof fn lemma_start_follows_roles<L, E>(cfg: Config, results: Seq<Result<Listener<L>, E>>)
    requires
        forall|i: int| 0 <= i < results.len() ==> results[i] is Ok,
    ensures
        ({
            let all = roles(cfg);
            let got = asked(Startup::<L>::Inbound { cfg }, results);
            if results.len() < all.len() {
                got == all.take(results.len() + 1 as int)
            } else {
                got == all
            }
        }),
{
    let s0 = Startup::<L>::Inbound { cfg };
    let all = roles(cfg);
    reveal_with_fuel(asked, 5);
    if results.len() == 0 {
        assert(asked(s0, results) =~= all.take(1));
    } else {
        let r1 = results.drop_first();
        let s1 = s0.next(results[0])->Next_0;
        assert(s1.spec_config().socks5_addr == cfg.socks5_addr);
        if r1.len() == 0 {
            assert(asked(s0, results) =~= all.take(2));
        } else {
            let r2 = r1.drop_first();
            let s2 = s1.next(r1[0])->Next_0;
            if r2.len() == 0 {
                assert(asked(s0, results) =~= all.take(3));
            } else {
                let r3 = r2.drop_first();
                if cfg.socks5_addr is Some {
                    let s3 = s2.next(r2[0])->Next_0;
                    if r3.len() == 0 {
                        assert(asked(s0, results) =~= all.take(4));
                    } else {
                        assert(asked(s0, results) =~= all);
                    }
                } else {
                    assert(asked(s0, results) =~= all);
                }
            }
        }
    }
}

/// The first listener that cannot be created ends the start with its error,
/// and nothing is asked for after it.
pub proof fn lemma_first_failure_stops_start<L, E>(
    state: Startup<L>,
    results: Seq<Result<Listener<L>, E>>,
    n: int,
)
    requires
        0 <= n < results.len(),
        results[n] is Err,
        forall|i: int| 0 <= i < n ==> results[i] is Ok,
        outcome(state, results.take(n)) is None,
    ensures
        outcome(state, results) == Some(Err::<Listeners<L>, E>(results[n]->Err_0)),
        asked(state, results).len() == n + 1,
    decreases n,
{
    if n > 0 {
        let rest = results.drop_first();
        assert(results.take(n)[0] == results[0]);
        assert(results.take(n).drop_first() =~= rest.take(n - 1));
        match state.next(results[0]) {
            Progress::Next(s) => {
                lemma_first_failure_stops_start(s, rest, n - 1);
            },
            _ => {},
        }
    }
}

/// A proxy has a SOCKS5 address exactly when its configuration asks for a
/// SOCKS5 listener, and its addresses are those that the listeners were
/// reported with.
pub proof fn lemma_socks5_only_when_configured<L, E, W>(
    cfg: Config,
    results: Seq<Result<Listener<L>, E>>,
    policy_watcher: W,
)
    requires
        outcome(Startup::<L>::Inbound { cfg }, results) is Some,
        outcome(Startup::<L>::Inbound { cfg }, results)->Some_0 is Ok,
    ensures
        ({
            let l = outcome(Startup::<L>::Inbound { cfg }, results)->Some_0->Ok_0;
            let proxy = Proxy {
                inbound: l.inbound,
                inbound_passthrough: l.inbound_passthrough,
                outbound: l.outbound,
                socks5: l.socks5,
                policy_watcher,
            };
            &&& proxy.spec_addresses().socks5 is Some <==> cfg.socks5_addr is Some
            &&& results.len() >= roles(cfg).len()
            &&& proxy.spec_addresses().inbound == results[0]->Ok_0.address
            &&& proxy.spec_addresses().outbound == results[2]->Ok_0.address
            &&& cfg.socks5_addr is Some ==> proxy.spec_addresses().socks5 == Some(
                results[3]->Ok_0.address,
            )
        }),
{
    reveal_with_fuel(outcome, 5);
    let s0 = Startup::<L>::Inbound { cfg };
    if results.len() > 0 {
        let r1 = results.drop_first();
        if let Progress::Next(s1) = s0.next(results[0]) {
            if r1.len() > 0 {
                let r2 = r1.drop_first();
                if let Progress::Next(s2) = s1.next(r1[0]) {
                    if r2.len() > 0 {
                        let r3 = r2.drop_first();
                        if let Progress::Next(s3) = s2.next(r2[0]) {
                            if r3.len() > 0 {
                                assert(s3.next(r3[0]) is Failed || s3.next(r3[0]) is Listening);
                            }
                        }
                    }
                }
            }
        }
    }
}

} // verus!
