use vstd::prelude::*;
use vstd::slice::slice_subrange;
use crate::address::{PlatPrefix, nat46, nat46_spec};
use crate::config::Config;
use crate::header::{
    PROTOCOL_ICMP, convert_ip_header, ipv4_header_len, ipv4_header_ok, ipv4_total_len,
    be16, ipv6_header_bytes, ipv6_header_to_bytes, next_header_of, parse_ipv4_header,
};
use crate::icmp::{icmp_map, icmpv4_ok, translate_icmp, translate_icmp_spec};

verus! {

/// What becomes of one packet, as a mathematical value.
pub enum Verdict {
    /// The octets to write out.
    Forward(Seq<u8>),
    /// Not an IPv4 packet: not forwarded, and no error.
    Ignore,
    /// Well formed, but with no faithful translation: dropped.
    Unsupported,
    /// Inconsistent or truncated: dropped.
    Malformed,
}

/// What becomes of one packet.
#[derive(Clone, Debug, PartialEq, Eq)]
pub enum Translation {
    /// The translated packet, to be written out.
    Translated(Vec<u8>),
    /// Not an IPv4 packet.
    NotIpv4,
    /// An ICMPv4 message that has no faithful ICMPv6 counterpart.
    Unsupported,
    /// A packet whose lengths or structure are inconsistent.
    Malformed,
}

impl View for Translation {
    type V = Verdict;

    open spec fn view(&self) -> Verdict {
        match self {
            Translation::Translated(v) => Verdict::Forward(v@),
            Translation::NotIpv4 => Verdict::Ignore,
            Translation::Unsupported => Verdict::Unsupported,
            Translation::Malformed => Verdict::Malformed,
        }
    }
}

/// The translation of the packet `b` under `config` and `prefix`.
pub open spec fn translate_spec(config: Config, prefix: PlatPrefix, b: Seq<u8>) -> Verdict {
    if b.len() == 0 {
        Verdict::Malformed
    } else if b[0] / 16 != 4 {
        Verdict::Ignore
    } else if !ipv4_header_ok(b) || ipv4_total_len(b) > b.len() || ipv4_total_len(b) < ipv4_header_len(b) {
        Verdict::Malformed
    } else {
        let payload = b.subrange(ipv4_header_len(b), ipv4_total_len(b));
        let source = nat46_spec(prefix.address@, prefix.length as int, b.subrange(12, 16));
        let destination = nat46_spec(prefix.address@, prefix.length as int, b.subrange(16, 20));
        let header = ipv6_header_bytes(
            if config.ignore_ipv4_tos { 0u8 } else { b[1] / 4 },
            (ipv4_total_len(b) - ipv4_header_len(b)) as u16,
            next_header_of(b[9]),
            b[8],
            source,
            destination,
        );
        if b[9] == PROTOCOL_ICMP {
            match translate_icmp_spec(source, destination, payload) {
                Verdict::Forward(m) => Verdict::Forward(header + m),
                v => v,
            }
        } else {
            Verdict::Forward(header + payload)
        }
    }
}

/// Appends the octets of `b` from `start` up to `end` to `out`.
pub(crate) fn append_range(out: &mut Vec<u8>, b: &[u8], start: usize, end: usize)
    requires
        start <= end <= b@.len(),
    ensures
        final(out)@ == old(out)@ + b@.subrange(start as int, end as int),
{
    let mut i: usize = start;
    while i < end
        invariant
            start <= i <= end,
            end <= b@.len(),
            out@ == old(out)@ + b@.subrange(start as int, i as int),
        decreases end - i,
    {
        out.push(b[i]);
        assert(b@.subrange(start as int, i + 1) =~= b@.subrange(start as int, i as int).push(b@[i as int]));
        i = i + 1;
    }
}

/// Translates one packet read from the interface: an IPv4 packet becomes an
/// IPv6 packet with synthesised addresses and, for ICMP, a translated
/// message; anything else is reported as not forwarded.
pub fn translate_packet(config: &Config, prefix: &PlatPrefix, packet: &[u8]) -> (r: Translation)
    requires
        prefix.wf(),
    ensures
        r@ == translate_spec(*config, *prefix, packet@),
{
    if packet.len() == 0 {
        return Translation::Malformed;
    }
    if packet[0] / 16 != 4 {
        return Translation::NotIpv4;
    }
    let v4 = match parse_ipv4_header(packet) {
        Some(v4) => v4,
        None => return Translation::Malformed,
    };
    if v4.total_length as usize > packet.len() {
        return Translation::Malformed;
    }
    let source = nat46(prefix.address, prefix.length, v4.source);
    let destination = nat46(prefix.address, prefix.length, v4.destination);
    let v6 = match convert_ip_header(config, &v4, &source, &destination) {
        Ok(v6) => v6,
        Err(_) => return Translation::Malformed,
    };
    let b = Ghost(packet@);
    assert(v4.source@ == b@.subrange(12, 16));
    assert(v4.destination@ == b@.subrange(16, 20));
    let header = ipv6_header_to_bytes(&v6);
    let mut out: Vec<u8> = Vec::new();
    append_range(&mut out, &header, 0, 40);
    assert(header@.subrange(0, 40) =~= header@);
    let payload = slice_subrange(packet, v4.header_length as usize, v4.total_length as usize);
    if v4.protocol == PROTOCOL_ICMP {
        match translate_icmp(&source, &destination, payload) {
            Translation::Translated(m) => {
                append_range(&mut out, m.as_slice(), 0, m.len());
                assert(m@.subrange(0, m@.len() as int) =~= m@);
                Translation::Translated(out)
            },
            other => other,
        }
    } else {
        append_range(&mut out, payload, 0, payload.len());
        assert(payload@.subrange(0, payload@.len() as int) =~= payload@);
        Translation::Translated(out)
    }
}

/// Whether `b` is an IPv4 packet whose header and lengths are consistent.
pub open spec fn well_formed_ipv4(b: Seq<u8>) -> bool {
    &&& ipv4_header_ok(b)
    &&& ipv4_header_len(b) <= ipv4_total_len(b) <= b.len()
}

/// A forwarded packet is an IPv6 header followed by a payload as long as the
/// IPv4 payload, and the header's fields are those the IPv4 header gives:
/// the hop limit is the TTL, the payload length is the total length less the
/// header length, and the traffic class is zero when the type of service is
/// ignored and the DSCP value otherwise.
pub proof fn lemma_forwarded_header(config: Config, prefix: PlatPrefix, b: Seq<u8>)
    requires
        prefix.wf(),
        translate_spec(config, prefix, b) is Forward,
    ensures
        well_formed_ipv4(b),
        ({
            let o = translate_spec(config, prefix, b)->Forward_0;
            &&& o.len() == 40 + ipv4_total_len(b) - ipv4_header_len(b)
            &&& o[7] == b[8]
            &&& be16(o[4], o[5]) == ipv4_total_len(b) - ipv4_header_len(b)
            &&& (o[0] % 16) as int * 16 + (o[1] / 16) as int == (if config.ignore_ipv4_tos { 0 } else { b[1] / 4 }) as int
        }),
{
    let o = translate_spec(config, prefix, b)->Forward_0;
    let tc: u8 = if config.ignore_ipv4_tos { 0u8 } else { b[1] / 4 };
    let pl: u16 = (ipv4_total_len(b) - ipv4_header_len(b)) as u16;
    assert(o.subrange(0, 8) =~= seq![
        (0x60 + tc / 16) as u8,
        ((tc % 16) * 16) as u8,
        0u8,
        0u8,
        (pl / 256) as u8,
        (pl % 256) as u8,
        next_header_of(b[9]),
        b[8],
    ]);
    assert(o[0] == (0x60 + tc / 16) as u8);
    assert(o[1] == ((tc % 16) * 16) as u8);
    assert(tc < 64);
    assert((o[0] % 16) as int * 16 + (o[1] / 16) as int == tc as int) by (nonlinear_arith)
        requires
            tc < 64,
            o[0] == (0x60 + tc / 16) as u8,
            o[1] == ((tc % 16) * 16) as u8,
    ;
}

/// A packet that starts with version 4 but whose header length exceeds the
/// whole buffer is malformed: nothing is written for it.
pub proof fn lemma_truncated_header_malformed(config: Config, prefix: PlatPrefix, b: Seq<u8>)
    requires
        b.len() > 0,
        b[0] / 16 == 4,
        ipv4_header_len(b) > b.len(),
    ensures
        translate_spec(config, prefix, b) == Verdict::Malformed,
{
}

/// An ICMPv4 Redirect, or a Parameter Problem with code Missing Required
/// Option, is not forwarded.
pub proof fn lemma_untranslatable_icmp_dropped(config: Config, prefix: PlatPrefix, b: Seq<u8>)
    requires
        prefix.wf(),
        well_formed_ipv4(b),
        b[9] == PROTOCOL_ICMP,
        ipv4_total_len(b) - ipv4_header_len(b) >= 8,
        ({
            let m = b.subrange(ipv4_header_len(b), ipv4_total_len(b));
            m[0] == 5 || (m[0] == 12 && m[1] == 1)
        }),
    ensures
        translate_spec(config, prefix, b) == Verdict::Unsupported,
{
    let m = b.subrange(ipv4_header_len(b), ipv4_total_len(b));
    assert(icmpv4_ok(m));
    assert(icmp_map(m[0], m[1], m.subrange(4, 8)) is None);
}

} // verus!
