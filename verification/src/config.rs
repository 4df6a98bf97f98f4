//! The part of the proxy's configuration that its control logic reads.

use vstd::prelude::*;
use crate::addr::SocketAddr;

verus! {

/// Settings of one proxy instance. A configuration is never changed once it
/// is in use: a different setting is a different `Config`.
#[derive(Clone, Copy, Debug, PartialEq, Eq, Structural)]
pub struct Config {
    /// Where the inbound listener accepts connections.
    pub inbound_addr: SocketAddr,
    /// Where the SOCKS5 listener accepts connections, if there is to be one.
    pub socks5_addr: Option<SocketAddr>,
    /// Whether listeners must keep the client's source address
    /// (`Some(true)`), must not try to (`Some(false)`), or should as far as
    /// the system allows (`None`).
    pub require_original_source: Option<bool>,
    /// Lets a proxy under test talk to itself: the listeners created after
    /// the inbound one are told the address that it was really bound to.
    pub fake_self_inbound: bool,
}

impl Config {
    /// This configuration with another inbound address.
    pub fn with_inbound_addr(&self, inbound_addr: SocketAddr) -> (cfg: Config)
        ensures
            cfg == (Config { inbound_addr, ..*self }),
    {
        Config {
            inbound_addr,
            socks5_addr: self.socks5_addr,
            require_original_source: self.require_original_source,
            fake_self_inbound: self.fake_self_inbound,
        }
    }
}

} // verus!
