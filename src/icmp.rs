use vstd::prelude::*;
use crate::packet::{Translation, Verdict, append_range};

verus! {

pub const ICMPV4_ECHO_REPLY: u8 = 0;
pub const ICMPV4_DEST_UNREACHABLE: u8 = 3;
pub const ICMPV4_ECHO_REQUEST: u8 = 8;
pub const ICMPV4_TIME_EXCEEDED: u8 = 11;
pub const ICMPV4_PARAMETER_PROBLEM: u8 = 12;
pub const ICMPV4_TIMESTAMP: u8 = 13;
pub const ICMPV4_TIMESTAMP_REPLY: u8 = 14;

pub const ICMPV6_DEST_UNREACHABLE: u8 = 1;
pub const ICMPV6_PACKET_TOO_BIG: u8 = 2;
pub const ICMPV6_TIME_EXCEEDED: u8 = 3;
pub const ICMPV6_PARAMETER_PROBLEM: u8 = 4;
pub const ICMPV6_ECHO_REQUEST: u8 = 128;
pub const ICMPV6_ECHO_REPLY: u8 = 129;

/// Largest ICMPv4 header: a timestamp message.
pub const ICMPV4_MAX_HEADER_LEN: u32 = 20;

/// Largest ICMPv6 header: eight octets and two addresses.
pub const ICMPV6_MAX_HEADER_LEN: u32 = 40;

/// The first eight octets of an ICMP message, checksum left out.
#[derive(Clone, Copy, Debug, PartialEq, Eq)]
pub struct IcmpHeader {
    pub icmp_type: u8,
    pub code: u8,
    /// Octets five to eight: identifier and sequence, MTU or pointer.
    pub rest: [u8; 4],
}

/// Four zero octets.
pub open spec fn zeros4() -> Seq<u8> {
    seq![0u8, 0u8, 0u8, 0u8]
}

/// `v` as four octets in network order.
pub open spec fn be32_bytes(v: int) -> Seq<u8> {
    seq![(v / 0x1000000 % 256) as u8, (v / 0x10000 % 256) as u8, (v / 0x100 % 256) as u8, (v % 256) as u8]
}

/// Destination-unreachable codes that become "no route to destination".
pub open spec fn is_no_route_code(c: u8) -> bool {
    c == 0 || c == 1 || c == 5 || c == 6 || c == 7 || c == 8 || c == 11 || c == 12
}

/// Destination-unreachable codes that become "administratively prohibited".
pub open spec fn is_prohibited_code(c: u8) -> bool {
    c == 9 || c == 10 || c == 13 || c == 15
}

/// Where an IPv4 parameter-problem pointer lands in the IPv6 header
/// (RFC 6145, figure 3); `None` where the field has no counterpart.
pub open spec fn pointer_map(p: u8) -> Option<u8> {
    if p == 0 || p == 1 {
        Some(p)
    } else if p == 2 || p == 3 {
        Some(4u8)
    } else if p == 8 {
        Some(7u8)
    } else if p == 9 {
        Some(6u8)
    } else if 12 <= p <= 15 {
        Some(8u8)
    } else if 16 <= p <= 19 {
        Some(24u8)
    } else {
        None
    }
}

/// The ICMPv6 type, code and octets five to eight that stand for an ICMPv4
/// message of type `t`, code `c` and octets five to eight `rest`; `None` for a
/// message that cannot be translated.
pub open spec fn icmp_map(t: u8, c: u8, rest: Seq<u8>) -> Option<(u8, u8, Seq<u8>)> {
    if t == ICMPV4_ECHO_REQUEST && c == 0 {
        Some((ICMPV6_ECHO_REQUEST, 0u8, rest))
    } else if t == ICMPV4_ECHO_REPLY && c == 0 {
        Some((ICMPV6_ECHO_REPLY, 0u8, rest))
    } else if t == ICMPV4_DEST_UNREACHABLE {
        if is_no_route_code(c) {
            Some((ICMPV6_DEST_UNREACHABLE, 0u8, zeros4()))
        } else if c == 2 {
            Some((ICMPV6_PARAMETER_PROBLEM, 1u8, be32_bytes(6)))
        } else if c == 3 {
            Some((ICMPV6_DEST_UNREACHABLE, 4u8, zeros4()))
        } else if c == 4 {
            Some((ICMPV6_PACKET_TOO_BIG, 0u8, be32_bytes(
                rest[2] as int * 256 + rest[3] as int + (ICMPV6_MAX_HEADER_LEN - ICMPV4_MAX_HEADER_LEN),
            )))
        } else if is_prohibited_code(c) {
            Some((ICMPV6_DEST_UNREACHABLE, 1u8, zeros4()))
        } else {
            None
        }
    } else if t == ICMPV4_TIME_EXCEEDED && (c == 0 || c == 1) {
        Some((ICMPV6_TIME_EXCEEDED, c, zeros4()))
    } else if t == ICMPV4_PARAMETER_PROBLEM && (c == 0 || c == 2) {
        match pointer_map(rest[0]) {
            Some(q) => Some((ICMPV6_PARAMETER_PROBLEM, 0u8, be32_bytes(q as int))),
            None => None,
        }
    } else {
        None
    }
}

fn map_pointer(p: u8) -> (r: Option<u8>)
    ensures
        r == pointer_map(p),
{
    if p == 0 || p == 1 {
        Some(p)
    } else if p == 2 || p == 3 {
        Some(4)
    } else if p == 8 {
        Some(7)
    } else if p == 9 {
        Some(6)
    } else if 12 <= p && p <= 15 {
        Some(8)
    } else if 16 <= p && p <= 19 {
        Some(24)
    } else {
        None
    }
}

fn be32(v: u32) -> (r: [u8; 4])
    ensures
        r@ == be32_bytes(v as int),
{
    let r: [u8; 4] = [(v / 0x1000000) as u8, (v / 0x10000 % 256) as u8, (v / 0x100 % 256) as u8, (v % 256) as u8];
    assert(r@ =~= be32_bytes(v as int));
    r
}

/// Translates the header of an ICMPv4 message into that of the ICMPv6 message
/// that replaces it (RFC 6145, section 4.2); `None` where the message must be
/// dropped.
pub fn convert_icmp(h: &IcmpHeader) -> (r: Option<IcmpHeader>)
    ensures
        r is None <==> icmp_map(h.icmp_type, h.code, h.rest@) is None,
        r matches Some(o) ==> icmp_map(h.icmp_type, h.code, h.rest@) == Some((o.icmp_type, o.code, o.rest@)),
{
    let t = h.icmp_type;
    let c = h.code;
    let zero: [u8; 4] = [0u8; 4];
    assert(zero@ =~= zeros4());
    if t == ICMPV4_ECHO_REQUEST && c == 0 {
        Some(IcmpHeader { icmp_type: ICMPV6_ECHO_REQUEST, code: 0, rest: h.rest })
    } else if t == ICMPV4_ECHO_REPLY && c == 0 {
        Some(IcmpHeader { icmp_type: ICMPV6_ECHO_REPLY, code: 0, rest: h.rest })
    } else if t == ICMPV4_DEST_UNREACHABLE {
        if c == 0 || c == 1 || c == 5 || c == 6 || c == 7 || c == 8 || c == 11 || c == 12 {
            Some(IcmpHeader { icmp_type: ICMPV6_DEST_UNREACHABLE, code: 0, rest: zero })
        } else if c == 2 {
            Some(IcmpHeader { icmp_type: ICMPV6_PARAMETER_PROBLEM, code: 1, rest: be32(6) })
        } else if c == 3 {
            Some(IcmpHeader { icmp_type: ICMPV6_DEST_UNREACHABLE, code: 4, rest: zero })
        } else if c == 4 {
            let mtu: u32 = h.rest[2] as u32 * 256 + h.rest[3] as u32;
            let adjusted: u32 = mtu + (ICMPV6_MAX_HEADER_LEN - ICMPV4_MAX_HEADER_LEN);
            Some(IcmpHeader { icmp_type: ICMPV6_PACKET_TOO_BIG, code: 0, rest: be32(adjusted) })
        } else if c == 9 || c == 10 || c == 13 || c == 15 {
            Some(IcmpHeader { icmp_type: ICMPV6_DEST_UNREACHABLE, code: 1, rest: zero })
        } else {
            None
        }
    } else if t == ICMPV4_TIME_EXCEEDED && (c == 0 || c == 1) {
        Some(IcmpHeader { icmp_type: ICMPV6_TIME_EXCEEDED, code: c, rest: zero })
    } else if t == ICMPV4_PARAMETER_PROBLEM && (c == 0 || c == 2) {
        match map_pointer(h.rest[0]) {
            Some(q) => Some(IcmpHeader { icmp_type: ICMPV6_PARAMETER_PROBLEM, code: 0, rest: be32(q as u32) }),
            None => None,
        }
    } else {
        None
    }
}

/// Echo requests and replies keep their identifier and sequence octets and
/// become ICMPv6 echo requests and replies.
pub proof fn lemma_echo_preserved(t: u8, rest: Seq<u8>)
    requires
        t == ICMPV4_ECHO_REQUEST || t == ICMPV4_ECHO_REPLY,
    ensures
        icmp_map(t, 0, rest) == Some((
            if t == ICMPV4_ECHO_REQUEST { ICMPV6_ECHO_REQUEST } else { ICMPV6_ECHO_REPLY },
            0u8,
            rest,
        )),
{
}

/// Fragmentation Needed becomes Packet Too Big, its MTU raised by the
/// difference of the largest ICMPv6 and ICMPv4 headers.
pub proof fn lemma_packet_too_big(rest: Seq<u8>)
    requires
        rest.len() == 4,
    ensures
        icmp_map(ICMPV4_DEST_UNREACHABLE, 4, rest) == Some((
            ICMPV6_PACKET_TOO_BIG,
            0u8,
            be32_bytes(rest[2] as int * 256 + rest[3] as int + ICMPV6_MAX_HEADER_LEN - ICMPV4_MAX_HEADER_LEN),
        )),
{
}

/// Whether `b` is an ICMPv4 message that can be read: at least eight octets,
/// and exactly twenty for a timestamp request or reply of code zero.
pub open spec fn icmpv4_ok(b: Seq<u8>) -> bool {
    b.len() >= 8 && !((b[0] == ICMPV4_TIMESTAMP || b[0] == ICMPV4_TIMESTAMP_REPLY) && b[1] == 0 && b.len() != 20)
}

/// Relies on etherparse's `Icmpv4Slice::from_slice`, which accepts a slice of
/// at least eight octets (twenty for a timestamp message of code zero), and on
/// its accessors `type_u8`, `code_u8` and `bytes5to8`, which read octets one,
/// two and five to eight.
#[verifier::external_body]
pub(crate) fn parse_icmpv4(b: &[u8]) -> (r: Option<IcmpHeader>)
    ensures
        r is Some <==> icmpv4_ok(b@),
        r matches Some(h) ==> h.icmp_type == b@[0] && h.code == b@[1] && h.rest@ == b@.subrange(4, 8),
{
    match etherparse::Icmpv4Slice::from_slice(b) {
        Ok(s) => Some(IcmpHeader { icmp_type: s.type_u8(), code: s.code_u8(), rest: s.bytes5to8() }),
        Err(_) => None,
    }
}

/// The ICMPv6 checksum of a message with the given first eight octets
/// (checksum left out) and payload, sent between the two addresses.
pub uninterp spec fn icmpv6_checksum_of(source: Seq<u8>, destination: Seq<u8>, header: Seq<u8>, payload: Seq<u8>) -> u16;

/// Relies on etherparse's `Icmpv6Type::calc_checksum`, which sums the
/// pseudo-header, the message's header and its payload, and fails only where
/// the payload is longer than `u32::MAX` less the eight header octets.
#[verifier::external_body]
fn icmpv6_checksum(source: &[u8; 16], destination: &[u8; 16], h: &IcmpHeader, payload: &[u8]) -> (r: Option<u16>)
    ensures
        r is None <==> payload@.len() > 0xffff_fff7,
        r matches Some(c) ==> c == icmpv6_checksum_of(source@, destination@, seq![h.icmp_type, h.code] + h.rest@, payload@),
{
    etherparse::Icmpv6Type::Unknown { type_u8: h.icmp_type, code_u8: h.code, bytes5to8: h.rest }
        .calc_checksum(*source, *destination, payload)
        .ok()
}

/// The octets of an ICMPv6 message with type `t`, code `c`, octets five to
/// eight `rest` and the given payload, checksum included.
pub open spec fn icmpv6_message(source: Seq<u8>, destination: Seq<u8>, t: u8, c: u8, rest: Seq<u8>, payload: Seq<u8>) -> Seq<u8> {
    let ck = icmpv6_checksum_of(source, destination, seq![t, c] + rest, payload);
    seq![t, c, (ck / 256) as u8, (ck % 256) as u8] + rest + payload
}

/// The translation of the ICMPv4 message `b`, carried between the two
/// translated addresses; what follows its eight header octets is kept.
pub open spec fn translate_icmp_spec(source: Seq<u8>, destination: Seq<u8>, b: Seq<u8>) -> Verdict {
    if !icmpv4_ok(b) {
        Verdict::Malformed
    } else {
        match icmp_map(b[0], b[1], b.subrange(4, 8)) {
            Some((t, c, rest)) => Verdict::Forward(icmpv6_message(source, destination, t, c, rest, b.subrange(8, b.len() as int))),
            None => Verdict::Unsupported,
        }
    }
}

/// Translates the ICMPv4 message `message` into the ICMPv6 message that
/// replaces it, between the translated addresses `source` and `destination`.
pub fn translate_icmp(source: &[u8; 16], destination: &[u8; 16], message: &[u8]) -> (r: Translation)
    requires
        message@.len() <= 0xffff_ffff,
    ensures
        r@ == translate_icmp_spec(source@, destination@, message@),
        !(r is NotIpv4),
{
    let h = match parse_icmpv4(message) {
        Some(h) => h,
        None => return Translation::Malformed,
    };
    let o = match convert_icmp(&h) {
        Some(o) => o,
        None => return Translation::Unsupported,
    };
    let payload = vstd::slice::slice_subrange(message, 8, message.len());
    let ck = match icmpv6_checksum(source, destination, &o, payload) {
        Some(ck) => ck,
        None => return Translation::Malformed,
    };
    let mut out: Vec<u8> = Vec::new();
    out.push(o.icmp_type);
    out.push(o.code);
    out.push((ck / 256) as u8);
    out.push((ck % 256) as u8);
    append_range(&mut out, &o.rest, 0, 4);
    append_range(&mut out, payload, 0, payload.len());
    assert(o.rest@.subrange(0, 4) =~= o.rest@);
    assert(payload@.subrange(0, payload@.len() as int) =~= payload@);
    assert(out@ =~= icmpv6_message(source@, destination@, o.icmp_type, o.code, o.rest@, payload@));
    Translation::Translated(out)
}

} // verus!
