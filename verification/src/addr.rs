//! Network addresses as plain integers.
//!
//! An IPv4 address is its 32 bits, an IPv6 address its 128 bits, both in
//! network order read as one big-endian number: `127.0.0.1` is `0x7f00_0001`.

use vstd::prelude::*;

verus! {

/// An IP address of either family.
#[derive(Clone, Copy, Debug, PartialEq, Eq, Hash, Structural)]
pub enum IpAddr {
    V4(u32),
    V6(u128),
}

/// An IP address together with a port.
#[derive(Clone, Copy, Debug, PartialEq, Eq, Hash, Structural)]
pub struct SocketAddr {
    pub ip: IpAddr,
    pub port: u16,
}

/// The 32 bits of the dotted quad `a.b.c.d`.
pub open spec fn v4_bits(a: u8, b: u8, c: u8, d: u8) -> int {
    a * 0x100_0000 + b * 0x1_0000 + c * 0x100 + d
}

/// Whether the 128 bits are an IPv4-mapped address, `::ffff:a.b.c.d`.
pub open spec fn is_v4_mapped(bits: u128) -> bool {
    bits / 0x1_0000_0000 == 0xffff
}

/// The canonical form of an address: an IPv4-mapped IPv6 address becomes the
/// IPv4 address in its low 32 bits, any other address is left as it is.
pub open spec fn canonical_ip(ip: IpAddr) -> IpAddr {
    match ip {
        IpAddr::V4(_) => ip,
        IpAddr::V6(bits) => if is_v4_mapped(bits) {
            IpAddr::V4((bits % 0x1_0000_0000) as u32)
        } else {
            ip
        },
    }
}

/// The canonical form of a socket address: the port is kept.
pub open spec fn canonical(addr: SocketAddr) -> SocketAddr {
    SocketAddr { ip: canonical_ip(addr.ip), port: addr.port }
}

impl IpAddr {
    /// The IPv4 address `a.b.c.d`.
    pub fn v4(a: u8, b: u8, c: u8, d: u8) -> (ip: IpAddr)
        ensures
            ip == IpAddr::V4(v4_bits(a, b, c, d) as u32),
            v4_bits(a, b, c, d) <= u32::MAX,
    {
        IpAddr::V4((a as u32) * 0x100_0000 + (b as u32) * 0x1_0000 + (c as u32) * 0x100 + (d as u32))
    }

    pub fn is_ipv4(&self) -> (r: bool)
        ensures
            r == (*self is V4),
    {
        match self {
            IpAddr::V4(_) => true,
            IpAddr::V6(_) => false,
        }
    }

    /// See [`canonical_ip`].
    pub fn to_canonical(&self) -> (ip: IpAddr)
        ensures
            ip == canonical_ip(*self),
    {
        match *self {
            IpAddr::V4(_) => *self,
            IpAddr::V6(bits) => {
                if bits / 0x1_0000_0000 == 0xffff {
                    IpAddr::V4((bits % 0x1_0000_0000) as u32)
                } else {
                    *self
                }
            },
        }
    }
}

impl SocketAddr {
    pub fn new(ip: IpAddr, port: u16) -> (addr: SocketAddr)
        ensures
            addr.ip == ip,
            addr.port == port,
    {
        SocketAddr { ip, port }
    }

    pub fn ip(&self) -> (ip: IpAddr)
        ensures
            ip == self.ip,
    {
        self.ip
    }

    pub fn port(&self) -> (port: u16)
        ensures
            port == self.port,
    {
        self.port
    }

    pub fn is_ipv4(&self) -> (r: bool)
        ensures
            r == (self.ip is V4),
    {
        self.ip.is_ipv4()
    }
}

/// See [`canonical`].
pub fn to_canonical(addr: SocketAddr) -> (r: SocketAddr)
    ensures
        r == canonical(addr),
{
    SocketAddr { ip: addr.ip.to_canonical(), port: addr.port }
}

} // verus!
