//! The PROXY protocol header, version 2, that tells the next hop where a
//! connection really came from and who the peer proved to be.
//!
//! The header goes out once, in front of the first byte of the connection:
//! 12 bytes of signature, the version and command, the address family and
//! transport, the length of what follows, the two addresses with their
//! ports, and the peer's identity as one more field.

use vstd::prelude::*;
use vstd::utf8::encode_utf8;
use ppp::v2::Builder;
use crate::addr::{IpAddr, SocketAddr};
use crate::identity::Identity;

verus! {

/// The type of the field that carries the peer's identity as text.
pub const PROXY_PROTOCOL_AUTHORITY_TLV: u8 = 0xD0;

/// Version 2, command PROXY.
pub const VERSION_2_PROXY: u8 = 0x21;

/// The transport that a header speaks of.
#[derive(Clone, Copy, Debug, PartialEq, Eq, Structural)]
pub enum Protocol {
    Unspecified,
    Stream,
    Datagram,
}

/// The two ends of the connection that a header speaks of.
#[derive(Clone, Copy, Debug, PartialEq, Eq, Structural)]
pub enum Addresses {
    /// Nothing is said of the ends.
    Unspecified,
    IPv4 { source_address: u32, source_port: u16, destination_address: u32, destination_port: u16 },
    IPv6 {
        source_address: u128,
        source_port: u16,
        destination_address: u128,
        destination_port: u16,
    },
}

/// The 12 bytes that every version 2 header starts with.
pub open spec fn signature() -> Seq<u8> {
    seq![0x0d, 0x0a, 0x0d, 0x0a, 0x00, 0x0d, 0x0a, 0x51, 0x55, 0x49, 0x54, 0x0a]
}

/// `value` as `width` bytes, most significant first.
pub open spec fn be_bytes(value: nat, width: nat) -> Seq<u8>
    decreases width,
{
    if width == 0 {
        Seq::empty()
    } else {
        be_bytes(value / 256, (width - 1) as nat).push((value % 256) as u8)
    }
}

/// The high half of the byte for family and transport.
pub open spec fn family_bits(addresses: Addresses) -> u8 {
    match addresses {
        Addresses::Unspecified => 0x00,
        Addresses::IPv4 { .. } => 0x10,
        Addresses::IPv6 { .. } => 0x20,
    }
}

/// The low half of the byte for family and transport.
pub open spec fn protocol_bits(protocol: Protocol) -> u8 {
    match protocol {
        Protocol::Unspecified => 0,
        Protocol::Stream => 1,
        Protocol::Datagram => 2,
    }
}

/// The addresses as they stand in a header: source address, destination
/// address, source port, destination port.
pub open spec fn address_block(addresses: Addresses) -> Seq<u8> {
    match addresses {
        Addresses::Unspecified => Seq::empty(),
        Addresses::IPv4 { source_address, source_port, destination_address, destination_port } => {
            be_bytes(source_address as nat, 4) + be_bytes(destination_address as nat, 4)
                + be_bytes(source_port as nat, 2) + be_bytes(destination_port as nat, 2)
        },
        Addresses::IPv6 { source_address, source_port, destination_address, destination_port } => {
            be_bytes(source_address as nat, 16) + be_bytes(destination_address as nat, 16)
                + be_bytes(source_port as nat, 2) + be_bytes(destination_port as nat, 2)
        },
    }
}

/// A field of the given type: the type, the length of the value in two
/// bytes, the value.
pub open spec fn tlv(kind: u8, value: Seq<u8>) -> Seq<u8> {
    seq![kind] + be_bytes(value.len(), 2) + value
}

/// The 16 bytes in front of the addresses, with a length of zero.
pub open spec fn fixed_part(version_command: u8, protocol: Protocol, addresses: Addresses) -> Seq<
    u8,
> {
    signature() + seq![
        version_command,
        (family_bits(addresses) + protocol_bits(protocol)) as u8,
        0,
        0,
    ]
}

/// `header` with the length of what follows its first 16 bytes written into
/// bytes 14 and 15.
pub open spec fn with_length(header: Seq<u8>) -> Seq<u8> {
    let length = be_bytes((header.len() - 16) as nat, 2);
    header.update(14, length[0]).update(15, length[1])
}

/// The fields that follow the addresses: the identity of the peer as its
/// text in UTF-8, where it is known.
pub open spec fn identity_fields(src_id: Option<Identity>) -> Seq<u8> {
    match src_id {
        Some(id) => tlv(PROXY_PROTOCOL_AUTHORITY_TLV, encode_utf8(id@.uri())),
        None => Seq::empty(),
    }
}

/// The header for a TCP stream between `addresses`, from the peer `src_id`.
pub open spec fn proxy_header(addresses: Addresses, src_id: Option<Identity>) -> Seq<u8> {
    with_length(
        fixed_part(VERSION_2_PROXY, Protocol::Stream, addresses) + address_block(addresses)
            + identity_fields(src_id),
    )
}

/// Whether a header can be made: what follows its first 16 bytes must not
/// be longer than two bytes can say.
pub open spec fn header_fits(addresses: Addresses, src_id: Option<Identity>) -> bool {
    address_block(addresses).len() + identity_fields(src_id).len() <= 0xffff
}

/// `ppp::v2::Builder`: a header in the making. What it holds is known by
/// [`builder_header`] and [`builder_length`] alone.
#[verifier::external_type_specification]
#[verifier::external_body]
pub struct ExBuilder(Builder);

/// The header as it stands in a builder: the 16 fixed bytes, the addresses,
/// and what was written after them. A builder that was only made has the
/// bytes that its first write puts there.
pub uninterp spec fn builder_header(builder: Builder) -> Seq<u8>;

/// The length that a builder was told to put into the header in place of
/// the real one, if it was told any.
pub uninterp spec fn builder_length(builder: Builder) -> Option<u16>;

/// `Builder::with_addresses`: a builder whose header is the signature, the
/// two bytes for version, command, family and transport, a length of zero
/// and the addresses, and that was told no length.
#[verifier::external_body]
fn builder_with_addresses(version_command: u8, protocol: Protocol, addresses: &Addresses) -> (b:
    Builder)
    ensures
        builder_header(b) == fixed_part(version_command, protocol, *addresses) + address_block(
            *addresses,
        ),
        builder_length(b) is None,
{
    let protocol = match protocol {
        Protocol::Unspecified => ppp::v2::Protocol::Unspecified,
        Protocol::Stream => ppp::v2::Protocol::Stream,
        Protocol::Datagram => ppp::v2::Protocol::Datagram,
    };
    let addresses = match *addresses {
        Addresses::Unspecified => ppp::v2::Addresses::Unspecified,
        Addresses::IPv4 { source_address: s, source_port: sp, destination_address: d, destination_port: dp } => ppp::v2::IPv4::new(s, d, sp, dp).into(),
        Addresses::IPv6 { source_address: s, source_port: sp, destination_address: d, destination_port: dp } => ppp::v2::IPv6::new(s, d, sp, dp).into(),
    };
    Builder::with_addresses(version_command, protocol, addresses)
}

/// `Builder::write_tlv`: the field is added behind what the builder holds.
/// With a header that leaves room for the three bytes in front of the value
/// this fails exactly when the value is longer than 65535 bytes.
#[verifier::external_body]
fn builder_write_tlv(builder: Builder, kind: u8, value: &[u8]) -> (r: Result<
    Builder,
    std::io::Error,
>)
    ensures
        builder_header(builder).len() <= 65548 ==> (r is Ok <==> value@.len() <= 0xffff),
        r matches Ok(b) ==> builder_header(b) == builder_header(builder) + tlv(kind, value@)
            && builder_length(b) == builder_length(builder),
{
    builder.write_tlv(kind, value)
}

/// `Builder::build`: for a builder that was told no length, the header with
/// its real length written in, or an error where that length does not fit
/// into two bytes.
#[verifier::external_body]
fn builder_build(builder: Builder) -> (r: Result<Vec<u8>, std::io::Error>)
    ensures
        builder_length(builder) is None ==> (r is Ok <==> builder_header(builder).len() - 16
            <= 0xffff),
        builder_length(builder) is None ==> (r matches Ok(header) ==> header@ == with_length(
            builder_header(builder),
        )),
{
    builder.build()
}

impl Addresses {
    /// What a header says of a connection from `source` to `destination`:
    /// both ends where they are of one family, nothing where they are not.
    pub open spec fn of(source: SocketAddr, destination: SocketAddr) -> Addresses {
        match (source.ip, destination.ip) {
            (IpAddr::V4(s), IpAddr::V4(d)) => Addresses::IPv4 {
                source_address: s,
                source_port: source.port,
                destination_address: d,
                destination_port: destination.port,
            },
            (IpAddr::V6(s), IpAddr::V6(d)) => Addresses::IPv6 {
                source_address: s,
                source_port: source.port,
                destination_address: d,
                destination_port: destination.port,
            },
            _ => Addresses::Unspecified,
        }
    }

    pub fn new(source: SocketAddr, destination: SocketAddr) -> (a: Addresses)
        ensures
            a == Addresses::of(source, destination),
    {
        match (source.ip, destination.ip) {
            (IpAddr::V4(s), IpAddr::V4(d)) => Addresses::IPv4 {
                source_address: s,
                source_port: source.port,
                destination_address: d,
                destination_port: destination.port,
            },
            (IpAddr::V6(s), IpAddr::V6(d)) => Addresses::IPv6 {
                source_address: s,
                source_port: source.port,
                destination_address: d,
                destination_port: destination.port,
            },
            _ => Addresses::Unspecified,
        }
    }
}

/// The number of bytes that `be_bytes` gives is the width.
pub proof fn lemma_be_bytes_len(value: nat, width: nat)
    ensures
        be_bytes(value, width).len() == width,
    decreases width,
{
    if width > 0 {
        lemma_be_bytes_len(value / 256, (width - 1) as nat);
    }
}

/// The addresses take 12 bytes for IPv4, 36 for IPv6, and none where
/// nothing is said.
pub proof fn lemma_address_block_len(addresses: Addresses)
    ensures
        address_block(addresses).len() == match addresses {
            Addresses::Unspecified => 0nat,
            Addresses::IPv4 { .. } => 12nat,
            Addresses::IPv6 { .. } => 36nat,
        },
{
    match addresses {
        Addresses::Unspecified => {},
        Addresses::IPv4 { source_address, source_port, destination_address, destination_port } => {
            lemma_be_bytes_len(source_address as nat, 4);
            lemma_be_bytes_len(destination_address as nat, 4);
            lemma_be_bytes_len(source_port as nat, 2);
            lemma_be_bytes_len(destination_port as nat, 2);
        },
        Addresses::IPv6 { source_address, source_port, destination_address, destination_port } => {
            lemma_be_bytes_len(source_address as nat, 16);
            lemma_be_bytes_len(destination_address as nat, 16);
            lemma_be_bytes_len(source_port as nat, 2);
            lemma_be_bytes_len(destination_port as nat, 2);
        },
    }
}

/// A header starts with the signature, the byte for version 2 and PROXY, and
/// the byte for the family over a stream. Bytes 14 and 15 say how many bytes
/// follow them, so that a reader can skip fields that it does not know.
pub proof fn lemma_proxy_header_frame(addresses: Addresses, src_id: Option<Identity>)
    requires
        header_fits(addresses, src_id),
    ensures
        ({
            let header = proxy_header(addresses, src_id);
            let payload = address_block(addresses) + identity_fields(src_id);
            &&& header.len() == 16 + payload.len()
            &&& header.subrange(0, 12) == signature()
            &&& header[12] == VERSION_2_PROXY
            &&& header[13] == family_bits(addresses) + 1
            &&& header[14] * 256 + header[15] == payload.len()
            &&& header.subrange(16, header.len() as int) == payload
        }),
{
    let payload = address_block(addresses) + identity_fields(src_id);
    let raw = fixed_part(VERSION_2_PROXY, Protocol::Stream, addresses) + address_block(addresses)
        + identity_fields(src_id);
    let header = proxy_header(addresses, src_id);
    let n = payload.len();
    assert(raw.len() == 16 + n);
    reveal_with_fuel(be_bytes, 3);
    lemma_be_bytes_len(n, 2);
    let length = be_bytes(n, 2);
    assert(length[0] == ((n / 256) % 256) as u8);
    assert(length[1] == (n % 256) as u8);
    assert(header.subrange(0, 12) =~= signature());
    assert(header.subrange(16, header.len() as int) =~= payload);
}

/// Writes the header for a TCP stream between `addresses` to `stream`, with
/// the identity of the peer where it is known.
///
/// The header is written whole or not at all. It cannot be made where the
/// identity is too long for it, see [`header_fits`]: that is the one error.
pub fn write_proxy_protocol(
    stream: &mut Vec<u8>,
    addresses: Addresses,
    src_id: Option<Identity>,
) -> (r: Result<(), std::io::Error>)
    ensures
        r is Ok <==> header_fits(addresses, src_id),
        r is Ok ==> final(stream)@ == old(stream)@ + proxy_header(addresses, src_id),
        r is Err ==> final(stream)@ == old(stream)@,
{
    proof {
        lemma_address_block_len(addresses);
    }
    let mut builder = builder_with_addresses(VERSION_2_PROXY, Protocol::Stream, &addresses);
    if let Some(id) = &src_id {
        let text = id.to_string();
        let value = text.as_str().as_bytes();
        proof {
            lemma_be_bytes_len(value@.len(), 2);
        }
        builder = match builder_write_tlv(builder, PROXY_PROTOCOL_AUTHORITY_TLV, value) {
            Ok(builder) => builder,
            Err(e) => { return Err(e); },
        };
    }
    let header = match builder_build(builder) {
        Ok(header) => header,
        Err(e) => { return Err(e); },
    };
    let ghost before = stream@;
    stream.extend_from_slice(header.as_slice());
    assert(stream@ =~= before + header@);
    Ok(())
}

} // verus!
