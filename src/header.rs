use vstd::prelude::*;
use crate::config::Config;

verus! {

/// IP protocol number of ICMP.
pub const PROTOCOL_ICMP: u8 = 1;

/// IP protocol number of ICMPv6.
pub const PROTOCOL_ICMPV6: u8 = 58;

/// The value of two octets read in network order.
pub open spec fn be16(hi: u8, lo: u8) -> int {
    hi as int * 256 + lo as int
}

/// Length in octets of the IPv4 header that starts `b`, options included.
pub open spec fn ipv4_header_len(b: Seq<u8>) -> int {
    (b[0] % 16) as int * 4
}

/// The total length that the IPv4 header at the start of `b` declares.
pub open spec fn ipv4_total_len(b: Seq<u8>) -> int {
    be16(b[2], b[3])
}

/// Whether `b` starts with a complete IPv4 header: version 4, a header length
/// of at least five words, all of it present.
pub open spec fn ipv4_header_ok(b: Seq<u8>) -> bool {
    b.len() >= 20 && b[0] / 16 == 4 && b[0] % 16 >= 5 && b.len() >= ipv4_header_len(b)
}

/// The fields of an IPv4 header that translation reads.
#[derive(Clone, Copy, Debug, PartialEq, Eq)]
pub struct Ipv4Fields {
    /// Header length in octets.
    pub header_length: u16,
    pub total_length: u16,
    /// The upper six bits of the type-of-service octet.
    pub dscp: u8,
    pub ttl: u8,
    pub protocol: u8,
    pub source: [u8; 4],
    pub destination: [u8; 4],
}

/// Whether `f` holds the fields of the IPv4 header at the start of `b`.
pub open spec fn ipv4_fields_of(f: Ipv4Fields, b: Seq<u8>) -> bool {
    &&& f.header_length as int == ipv4_header_len(b)
    &&& f.total_length as int == ipv4_total_len(b)
    &&& f.dscp == b[1] / 4
    &&& f.ttl == b[8]
    &&& f.protocol == b[9]
    &&& f.source@ == b.subrange(12, 16)
    &&& f.destination@ == b.subrange(16, 20)
}

/// Relies on etherparse's `Ipv4HeaderSlice::from_slice`, which accepts a slice
/// that starts with a complete version-4 header of at least 20 octets, and on
/// its field accessors (`slice`, `total_len`, `dcp`, `ttl`, `protocol`,
/// `source`, `destination`), which read the header's octets.
#[verifier::external_body]
pub(crate) fn parse_ipv4_header(b: &[u8]) -> (r: Option<Ipv4Fields>)
    ensures
        r is Some <==> ipv4_header_ok(b@),
        r matches Some(f) ==> ipv4_fields_of(f, b@),
{
    match etherparse::Ipv4HeaderSlice::from_slice(b) {
        Ok(h) => Some(Ipv4Fields {
            header_length: h.slice().len() as u16,
            total_length: h.total_len(),
            dscp: h.dcp().value(),
            ttl: h.ttl(),
            protocol: h.protocol().0,
            source: h.source(),
            destination: h.destination(),
        }),
        Err(_) => None,
    }
}

/// An IPv6 header; its flow label is always zero.
#[derive(Clone, Copy, Debug, PartialEq, Eq)]
pub struct Ipv6Fields {
    pub traffic_class: u8,
    pub payload_length: u16,
    pub next_header: u8,
    pub hop_limit: u8,
    pub source: [u8; 16],
    pub destination: [u8; 16],
}

/// The forty octets of an IPv6 header with a zero flow label.
pub open spec fn ipv6_header_bytes(
    traffic_class: u8,
    payload_length: u16,
    next_header: u8,
    hop_limit: u8,
    source: Seq<u8>,
    destination: Seq<u8>,
) -> Seq<u8> {
    seq![
        (0x60 + traffic_class / 16) as u8,
        ((traffic_class % 16) * 16) as u8,
        0u8,
        0u8,
        (payload_length / 256) as u8,
        (payload_length % 256) as u8,
        next_header,
        hop_limit,
    ] + source + destination
}

/// The octets of `h` as it is sent.
pub open spec fn ipv6_fields_bytes(h: Ipv6Fields) -> Seq<u8> {
    ipv6_header_bytes(h.traffic_class, h.payload_length, h.next_header, h.hop_limit, h.source@, h.destination@)
}

/// Relies on etherparse's `Ipv6Header::to_bytes`, which lays the header out
/// as RFC 8200 does: version and traffic class, flow label, payload length,
/// next header, hop limit, then the two addresses.
#[verifier::external_body]
pub(crate) fn ipv6_header_to_bytes(h: &Ipv6Fields) -> (r: [u8; 40])
    ensures
        r@ == ipv6_fields_bytes(*h),
{
    etherparse::Ipv6Header {
        traffic_class: h.traffic_class,
        flow_label: etherparse::Ipv6FlowLabel::ZERO,
        payload_length: h.payload_length,
        next_header: etherparse::IpNumber(h.next_header),
        hop_limit: h.hop_limit,
        source: h.source,
        destination: h.destination,
    }.to_bytes()
}

/// Why an IPv4 header cannot be translated.
#[derive(Clone, Copy, Debug, PartialEq, Eq, Structural)]
pub enum HeaderError {
    /// The declared total length is smaller than the header itself.
    TotalLengthTooSmall,
}

/// The next-header value that stands for IPv4 protocol `p`.
pub open spec fn next_header_of(p: u8) -> u8 {
    if p == PROTOCOL_ICMP {
        PROTOCOL_ICMPV6
    } else {
        p
    }
}

/// Builds the IPv6 header that replaces `v4_header` (RFC 6145, section 4.1),
/// with the given translated addresses.
pub fn convert_ip_header(
    config: &Config,
    v4_header: &Ipv4Fields,
    v6_source_addr: &[u8; 16],
    v6_dest_addr: &[u8; 16],
) -> (r: Result<Ipv6Fields, HeaderError>)
    ensures
        r is Err <==> v4_header.total_length < v4_header.header_length,
        r matches Ok(h) ==> {
            &&& h.source == *v6_source_addr
            &&& h.destination == *v6_dest_addr
            &&& h.traffic_class == (if config.ignore_ipv4_tos { 0 } else { v4_header.dscp })
            &&& h.payload_length == v4_header.total_length - v4_header.header_length
            &&& h.hop_limit == v4_header.ttl
            &&& h.next_header == next_header_of(v4_header.protocol)
        },
{
    if v4_header.total_length < v4_header.header_length {
        return Err(HeaderError::TotalLengthTooSmall);
    }
    Ok(Ipv6Fields {
        traffic_class: if config.ignore_ipv4_tos { 0 } else { v4_header.dscp },
        payload_length: v4_header.total_length - v4_header.header_length,
        next_header: if v4_header.protocol == PROTOCOL_ICMP { PROTOCOL_ICMPV6 } else { v4_header.protocol },
        hop_limit: v4_header.ttl,
        source: *v6_source_addr,
        destination: *v6_dest_addr,
    })
}

} // verus!
