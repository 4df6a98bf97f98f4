//! What is decided about sockets before and after the system is asked.
//!
//! The system calls themselves are the caller's: this module is handed what
//! they returned.

use vstd::prelude::*;
use crate::addr::{canonical, to_canonical, IpAddr, SocketAddr};
use crate::config::Config;
use crate::error::Error;

verus! {

/// The kernel control file that says whether IPv6 is switched off on the
/// loopback interface.
pub const IPV6_DISABLED_LO: &'static str = "/proc/sys/net/ipv6/conf/lo/disable_ipv6";

/// The socket factory that asks the operating system. It holds nothing: the
/// caller gives it the means to create and bind sockets.
#[derive(Clone, Copy, Debug, Default)]
pub struct DefaultSocketFactory;

/// Whether a character has the Unicode property `White_Space`, which is
/// what `str::trim` takes away.
pub uninterp spec fn white_space(c: char) -> bool;

/// Whether the characters of `s` from `i` up to `j` are what is left of `s`
/// without the white space at its two ends: all before `i` and all from `j`
/// on is white space, and the first and the last that are left are not.
pub open spec fn is_trim_range(s: Seq<char>, i: int, j: int) -> bool {
    &&& 0 <= i <= j <= s.len()
    &&& forall|k: int| 0 <= k < i ==> white_space(#[trigger] s[k])
    &&& forall|k: int| j <= k < s.len() ==> white_space(#[trigger] s[k])
    &&& i < j ==> !white_space(s[i]) && !white_space(s[j - 1])
}

/// Whether `t` is `s` without the white space at its two ends.
pub open spec fn is_trim_of(s: Seq<char>, t: Seq<char>) -> bool {
    exists|i: int, j: int| #[trigger] is_trim_range(s, i, j) && t == s.subrange(i, j)
}

/// `s` without the white space at its two ends.
pub open spec fn trimmed(s: Seq<char>) -> Seq<char> {
    choose|t: Seq<char>| is_trim_of(s, t)
}

/// `str::trim`: the text between the first and the last character that is
/// not white space, both included, or the empty text where all is white
/// space.
#[verifier::external_body]
fn trim<'a>(s: &'a str) -> (t: &'a str)
    ensures
        is_trim_of(s@, t@),
        t@.len() > 0 ==> !white_space(t@.first()) && !white_space(t@.last()),
{
    s.trim()
}

/// A text has one trimmed form.
pub proof fn lemma_trim_is_unique(s: Seq<char>, t: Seq<char>)
    requires
        is_trim_of(s, t),
    ensures
        trimmed(s) == t,
{
    let u = trimmed(s);
    let (i, j) = choose|i: int, j: int| #[trigger]
        is_trim_range(s, i, j) && t == s.subrange(i, j);
    let (a, b) = choose|a: int, b: int| #[trigger]
        is_trim_range(s, a, b) && u == s.subrange(a, b);
    if i < j && a < b {
        assert(i == a) by {
            if i < a {
                assert(white_space(s[i]));
            }
            if a < i {
                assert(white_space(s[a]));
            }
        }
        assert(j == b) by {
            if j < b {
                assert(white_space(s[b - 1]));
            }
            if b < j {
                assert(white_space(s[j - 1]));
            }
        }
    } else if i < j {
        assert(white_space(s[i]));
    } else if a < b {
        assert(white_space(s[a]));
    } else {
        assert(t =~= u);
    }
}

/// Whether IPv6 can be used on the loopback interface, given what
/// [`IPV6_DISABLED_LO`] holds or the error of reading it.
///
/// It can unless the file holds `1`, white space at both ends left aside.
/// Where the file could not be read nothing is assumed: the error is handed
/// on as it is.
pub fn ipv6_disabled_on_localhost<E>(sysctl: Result<String, E>) -> (r: Result<bool, E>)
    ensures
        match sysctl {
            Ok(data) => r == Ok::<bool, E>(trimmed(data@) != seq!['1']),
            Err(e) => r == Err::<bool, E>(e),
        },
{
    match sysctl {
        Ok(data) => {
            let t = trim(data.as_str());
            proof {
                lemma_trim_is_unique(data@, t@);
            }
            if t.unicode_len() == 1 {
                let c = t.get_char(0);
                assert(c == '1' ==> t@ =~= seq!['1']);
                Ok(c != '1')
            } else {
                assert(seq!['1'].len() == 1);
                Ok(true)
            }
        },
        Err(e) => Err(e),
    }
}

/// Where sockets come from. The proxy asks for every socket here, so that
/// a test can hand it sockets of its own making.
///
/// A TCP socket comes unconnected and with no-delay set. A listener and a
/// UDP socket come bound. An error of the system is handed on as it is.
pub trait SocketFactory {
    type TcpSocket;

    type Listener;

    type UdpSocket;

    fn new_tcp_v4(&self) -> Result<Self::TcpSocket, std::io::Error>;

    fn new_tcp_v6(&self) -> Result<Self::TcpSocket, std::io::Error>;

    fn tcp_bind(&self, addr: SocketAddr) -> Result<Self::Listener, std::io::Error>;

    fn udp_bind(&self, addr: SocketAddr) -> Result<Self::UdpSocket, std::io::Error>;

    /// Whether IPv6 can be used on the loopback interface.
    fn ipv6_enabled_localhost(&self) -> Result<bool, std::io::Error>;
}

/// A new TCP socket of the family asked for.
pub fn create_socket<F: SocketFactory>(socket_factory: &F, ipv4: bool) -> (r: Result<
    F::TcpSocket,
    std::io::Error,
>)
    ensures
        ipv4 ==> call_ensures(F::new_tcp_v4, (socket_factory,), r),
        !ipv4 ==> call_ensures(F::new_tcp_v6, (socket_factory,), r),
{
    if ipv4 {
        socket_factory.new_tcp_v4()
    } else {
        socket_factory.new_tcp_v6()
    }
}

/// Whether a listener is asked to take connections for addresses that are
/// not its own: never where keeping the source address is switched off.
pub open spec fn attempts_transparent(cfg: Config) -> bool {
    cfg.require_original_source != Some(false)
}

/// What a listener reports once it was asked and `outcome` came back:
/// whether the source address can be kept. A refusal is an error only where
/// the configuration requires the source address.
pub open spec fn transparent_result(cfg: Config, outcome: Result<(), std::io::Error>) -> Result<
    bool,
    Error,
> {
    match outcome {
        Ok(()) => Ok(true),
        Err(e) => if cfg.require_original_source == Some(true) {
            Err(Error::Io(e))
        } else {
            Ok(false)
        },
    }
}

/// Makes a listener transparent as far as the configuration asks for it,
/// and says whether it now is. `set_transparent` sets the option on the
/// listener.
///
/// Where the configuration requires the source address the option is set,
/// and a refusal is the error returned. Where it switches it off the option
/// is left alone and the answer is no. Where it says nothing the option is
/// tried, and the answer is whether that worked.
pub fn maybe_set_transparent<F: FnOnce() -> Result<(), std::io::Error>>(
    cfg: &Config,
    set_transparent: F,
) -> (r: Result<bool, Error>)
    requires
        attempts_transparent(*cfg) ==> call_requires(set_transparent, ()),
    ensures
        !attempts_transparent(*cfg) ==> r == Ok::<bool, Error>(false),
        attempts_transparent(*cfg) ==> exists|outcome: Result<(), std::io::Error>|
            #[trigger] call_ensures(set_transparent, (), outcome) && r == transparent_result(
                *cfg,
                outcome,
            ),
{
    match cfg.require_original_source {
        Some(true) => {
            match set_transparent() {
                Ok(()) => Ok(true),
                Err(e) => Err(Error::from(e)),
            }
        },
        Some(false) => Ok(false),
        None => {
            match set_transparent() {
                Ok(()) => Ok(true),
                Err(_) => Ok(false),
            }
        },
    }
}

/// The address that a connection really came from, given what the stream
/// says of its peer: the peer's address in canonical form, or nothing where
/// the stream could not say.
pub fn get_original_src_from_stream<E>(peer_addr: Result<SocketAddr, E>) -> (r: Option<IpAddr>)
    ensures
        r == match peer_addr {
            Ok(sa) => Some(canonical(sa).ip),
            Err(_) => None,
        },
{
    match peer_addr {
        Ok(sa) => Some(to_canonical(sa).ip()),
        Err(_) => None,
    }
}

} // verus!
