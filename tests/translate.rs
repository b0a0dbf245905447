use clat::{
    Action, Config, Event, IcmpHeader, Ipv4Fields, PlatPrefix, SessionState, Translation,
    convert_icmp, convert_ip_header, discover_plat_prefix, interface_name, step,
    translate_icmp, translate_packet, tun_request_name, HeaderError,
};

const DOC_PREFIX: [u8; 16] = [0x20, 0x01, 0x0d, 0xb8, 0, 0, 0, 0, 0, 0, 0, 0, 0, 0, 0, 0];
const WKP: [u8; 16] = [0, 0x64, 0xff, 0x9b, 0, 0, 0, 0, 0, 0, 0, 0, 0, 0, 0, 0];

fn prefix96() -> PlatPrefix {
    PlatPrefix { address: WKP, length: 96 }
}

fn ipv4_packet(tos: u8, ttl: u8, protocol: u8, src: [u8; 4], dst: [u8; 4], payload: &[u8]) -> Vec<u8> {
    let total = 20 + payload.len();
    let mut p = vec![0x45, tos, (total >> 8) as u8, total as u8, 0, 1, 0, 0, ttl, protocol, 0, 0];
    p.extend_from_slice(&src);
    p.extend_from_slice(&dst);
    p.extend_from_slice(payload);
    p
}

fn ones_complement_sum(words: &[u8]) -> u32 {
    let mut sum: u32 = 0;
    let mut i = 0;
    while i < words.len() {
        let hi = words[i] as u32;
        let lo = if i + 1 < words.len() { words[i + 1] as u32 } else { 0 };
        sum += (hi << 8) | lo;
        i += 2;
    }
    while sum > 0xffff {
        sum = (sum & 0xffff) + (sum >> 16);
    }
    sum
}

fn icmpv6_checksum_ok(src: &[u8], dst: &[u8], msg: &[u8]) -> bool {
    let mut pseudo = Vec::new();
    pseudo.extend_from_slice(src);
    pseudo.extend_from_slice(dst);
    pseudo.extend_from_slice(&(msg.len() as u32).to_be_bytes());
    pseudo.extend_from_slice(&[0, 0, 0, 58]);
    pseudo.extend_from_slice(msg);
    ones_complement_sum(&pseudo) == 0xffff
}

fn forwarded(t: Translation) -> Vec<u8> {
    match t {
        Translation::Translated(v) => v,
        other => panic!("not forwarded: {:?}", other),
    }
}

#[test]
fn nat46() {
    // 2001:db8::/96 and 192.0.2.1 give 2001:db8::c000:201
    assert_eq!(
        clat::nat46(DOC_PREFIX, 96, [192, 0, 2, 1]),
        [0x20, 0x01, 0x0d, 0xb8, 0, 0, 0, 0, 0, 0, 0, 0, 0xc0, 0x00, 0x02, 0x01]
    );
}

#[test]
fn nat46_shorter_prefixes_embed_contiguously() {
    let prefix = [0x20, 0x01, 0x0d, 0xb8, 0x12, 0x34, 0x56, 0x78, 0x9a, 0xbc, 0xde, 0xf0, 1, 2, 3, 4];
    assert_eq!(
        clat::nat46(prefix, 32, [10, 1, 2, 3]),
        [0x20, 0x01, 0x0d, 0xb8, 10, 1, 2, 3, 0, 0, 0, 0, 0, 0, 0, 0]
    );
    assert_eq!(
        clat::nat46(prefix, 64, [10, 1, 2, 3]),
        [0x20, 0x01, 0x0d, 0xb8, 0x12, 0x34, 0x56, 0x78, 10, 1, 2, 3, 0, 0, 0, 0]
    );
}

#[test]
fn nat46_distinct_addresses_stay_distinct() {
    let a = clat::nat46(DOC_PREFIX, 96, [192, 0, 2, 1]);
    let b = clat::nat46(DOC_PREFIX, 96, [192, 0, 2, 2]);
    assert_ne!(a, b);
    assert_eq!(a, clat::nat46(DOC_PREFIX, 96, [192, 0, 2, 1]));
}

#[test]
fn discovers_well_known_prefix() {
    let synthesised = [0, 0x64, 0xff, 0x9b, 0, 0, 0, 0, 0, 0, 0, 0, 192, 0, 0, 170];
    assert_eq!(discover_plat_prefix(&vec![synthesised]), Some(prefix96()));
}

#[test]
fn discovers_prefix_of_length_40() {
    let synthesised = [0x20, 0x01, 0x0d, 0xb8, 0x77, 192, 0, 0, 171, 9, 9, 9, 9, 9, 9, 9];
    let p = discover_plat_prefix(&vec![synthesised]).unwrap();
    assert_eq!(p.length, 40);
    assert_eq!(p.address, [0x20, 0x01, 0x0d, 0xb8, 0x77, 0, 0, 0, 0, 0, 0, 0, 0, 0, 0, 0]);
}

#[test]
fn invalid_prefix_length_is_no_prefix() {
    // marker at octet 2: a length of 16 bits
    let bad = [0x20, 0x01, 192, 0, 0, 170, 0, 0, 0, 0, 0, 0, 0, 0, 0, 0];
    assert_eq!(discover_plat_prefix(&vec![bad]), None);
    assert_eq!(discover_plat_prefix(&vec![]), None);
    let good = [0, 0x64, 0xff, 0x9b, 0, 0, 0, 0, 0, 0, 0, 0, 192, 0, 0, 170];
    assert_eq!(discover_plat_prefix(&vec![bad, good]), Some(prefix96()));
    let (state, action) = step(&Config::default(), &SessionState::AwaitingPrefix, &Event::PrefixQueried(vec![bad]));
    let (state2, action2) = step(&Config::default(), &SessionState::AwaitingPrefix, &Event::PrefixQueried(vec![]));
    assert_eq!(state, SessionState::AwaitingPrefix);
    assert_eq!(action, Action::Sleep(600));
    assert_eq!((state, action), (state2, action2));
}

fn fields(tos_dscp: u8, ttl: u8, protocol: u8, total: u16, header: u16) -> Ipv4Fields {
    Ipv4Fields {
        header_length: header,
        total_length: total,
        dscp: tos_dscp,
        ttl,
        protocol,
        source: [192, 0, 2, 1],
        destination: [198, 51, 100, 7],
    }
}

#[test]
fn header_keeps_ttl_and_recomputes_length() {
    let src = [1u8; 16];
    let dst = [2u8; 16];
    let h = convert_ip_header(&Config::default(), &fields(46, 37, 17, 120, 24), &src, &dst).unwrap();
    assert_eq!(h.hop_limit, 37);
    assert_eq!(h.payload_length, 96);
    assert_eq!(h.next_header, 17);
    assert_eq!(h.traffic_class, 46);
    assert_eq!(h.source, src);
    assert_eq!(h.destination, dst);
}

#[test]
fn header_maps_icmp_to_icmpv6() {
    let h = convert_ip_header(&Config::default(), &fields(0, 64, 1, 28, 20), &[0; 16], &[0; 16]).unwrap();
    assert_eq!(h.next_header, 58);
}

#[test]
fn header_ignores_tos_when_asked() {
    let config = Config { ignore_ipv4_tos: true };
    let h = convert_ip_header(&config, &fields(46, 64, 6, 40, 20), &[0; 16], &[0; 16]).unwrap();
    assert_eq!(h.traffic_class, 0);
}

#[test]
fn header_rejects_short_total_length() {
    let r = convert_ip_header(&Config::default(), &fields(0, 64, 6, 16, 20), &[0; 16], &[0; 16]);
    assert_eq!(r, Err(HeaderError::TotalLengthTooSmall));
}

#[test]
fn default_config_keeps_tos() {
    assert!(!Config::default().ignore_ipv4_tos);
}

#[test]
fn translates_udp_packet() {
    let payload = [0x12, 0x34, 0x00, 0x35, 0x00, 0x0c, 0x00, 0x00, 0xde, 0xad, 0xbe, 0xef];
    let packet = ipv4_packet(0xb8, 42, 17, [192, 0, 2, 1], [198, 51, 100, 7], &payload);
    let out = forwarded(translate_packet(&Config::default(), &prefix96(), &packet));
    assert_eq!(out.len(), 40 + payload.len());
    // DSCP 46 as traffic class
    assert_eq!(out[0], 0x60 | (46 >> 4));
    assert_eq!(out[1], (46 & 0xf) << 4);
    assert_eq!(&out[2..4], &[0, 0]);
    assert_eq!(&out[4..6], &[0, 12]);
    assert_eq!(out[6], 17);
    assert_eq!(out[7], 42);
    assert_eq!(&out[8..24], &[0, 0x64, 0xff, 0x9b, 0, 0, 0, 0, 0, 0, 0, 0, 192, 0, 2, 1]);
    assert_eq!(&out[24..40], &[0, 0x64, 0xff, 0x9b, 0, 0, 0, 0, 0, 0, 0, 0, 198, 51, 100, 7]);
    assert_eq!(&out[40..], &payload);
}

#[test]
fn translates_with_tos_ignored() {
    let packet = ipv4_packet(0xb8, 42, 17, [192, 0, 2, 1], [198, 51, 100, 7], &[1, 2, 3, 4, 5, 6, 7, 8]);
    let out = forwarded(translate_packet(&Config { ignore_ipv4_tos: true }, &prefix96(), &packet));
    assert_eq!(out[0], 0x60);
    assert_eq!(out[1], 0);
}

#[test]
fn translates_echo_request() {
    let icmp = [8, 0, 0, 0, 0x12, 0x34, 0x00, 0x07, b'p', b'i', b'n', b'g'];
    let packet = ipv4_packet(0, 64, 1, [192, 0, 2, 1], [198, 51, 100, 7], &icmp);
    let out = forwarded(translate_packet(&Config::default(), &prefix96(), &packet));
    assert_eq!(out.len(), 40 + icmp.len());
    assert_eq!(out[6], 58);
    let msg = &out[40..];
    assert_eq!(msg[0], 128);
    assert_eq!(msg[1], 0);
    assert_eq!(&msg[4..8], &[0x12, 0x34, 0x00, 0x07]);
    assert_eq!(&msg[8..], b"ping");
    assert!(icmpv6_checksum_ok(&out[8..24], &out[24..40], msg));
}

#[test]
fn translates_echo_reply() {
    let src = [3u8; 16];
    let dst = [4u8; 16];
    let msg = forwarded(translate_icmp(&src, &dst, &[0, 0, 0xff, 0xff, 0xab, 0xcd, 0x01, 0x02]));
    assert_eq!(&msg[..2], &[129, 0]);
    assert_eq!(&msg[4..8], &[0xab, 0xcd, 0x01, 0x02]);
    assert!(icmpv6_checksum_ok(&src, &dst, &msg));
}

#[test]
fn fragmentation_needed_becomes_packet_too_big() {
    let h = IcmpHeader { icmp_type: 3, code: 4, rest: [0, 0, 0x05, 0x78] };
    let o = convert_icmp(&h).unwrap();
    assert_eq!(o.icmp_type, 2);
    assert_eq!(o.code, 0);
    // 1400 + (40 - 20)
    assert_eq!(u32::from_be_bytes(o.rest), 1420);
}

#[test]
fn destination_unreachable_codes() {
    let map = |code: u8| convert_icmp(&IcmpHeader { icmp_type: 3, code, rest: [0; 4] });
    for code in [0u8, 1, 5, 6, 7, 8, 11, 12] {
        let o = map(code).unwrap();
        assert_eq!((o.icmp_type, o.code, o.rest), (1, 0, [0; 4]));
    }
    let o = map(2).unwrap();
    assert_eq!((o.icmp_type, o.code, o.rest), (4, 1, [0, 0, 0, 6]));
    let o = map(3).unwrap();
    assert_eq!((o.icmp_type, o.code), (1, 4));
    for code in [9u8, 10, 13, 15] {
        let o = map(code).unwrap();
        assert_eq!((o.icmp_type, o.code), (1, 1));
    }
    assert_eq!(map(14), None);
    assert_eq!(map(16), None);
}

#[test]
fn time_exceeded_codes() {
    let o = convert_icmp(&IcmpHeader { icmp_type: 11, code: 0, rest: [0; 4] }).unwrap();
    assert_eq!((o.icmp_type, o.code), (3, 0));
    let o = convert_icmp(&IcmpHeader { icmp_type: 11, code: 1, rest: [0; 4] }).unwrap();
    assert_eq!((o.icmp_type, o.code), (3, 1));
}

#[test]
fn parameter_problem_pointer_is_remapped() {
    let o = convert_icmp(&IcmpHeader { icmp_type: 12, code: 0, rest: [8, 0, 0, 0] }).unwrap();
    assert_eq!((o.icmp_type, o.code, o.rest), (4, 0, [0, 0, 0, 7]));
    let o = convert_icmp(&IcmpHeader { icmp_type: 12, code: 2, rest: [16, 0, 0, 0] }).unwrap();
    assert_eq!((o.icmp_type, o.code, o.rest), (4, 0, [0, 0, 0, 24]));
    assert_eq!(convert_icmp(&IcmpHeader { icmp_type: 12, code: 0, rest: [5, 0, 0, 0] }), None);
}

#[test]
fn redirect_and_missing_option_are_dropped() {
    let config = Config::default();
    let state = SessionState::Active(prefix96());
    let redirect = ipv4_packet(0, 64, 1, [192, 0, 2, 1], [198, 51, 100, 7], &[5, 1, 0, 0, 10, 0, 0, 1]);
    assert_eq!(translate_packet(&config, &prefix96(), &redirect), Translation::Unsupported);
    let (next, action) = step(&config, &state, &Event::PacketRead(redirect));
    assert_eq!(action, Action::ReadNext);
    assert_eq!(next, state);
    let missing = ipv4_packet(0, 64, 1, [192, 0, 2, 1], [198, 51, 100, 7], &[12, 1, 0, 0, 0, 0, 0, 0]);
    let (_, action) = step(&config, &state, &Event::PacketRead(missing));
    assert_eq!(action, Action::ReadNext);
}

#[test]
fn malformed_packet_is_skipped() {
    let config = Config::default();
    let state = SessionState::Active(prefix96());
    // header length of 60 octets in a 24-octet buffer
    let mut bad = ipv4_packet(0, 64, 17, [192, 0, 2, 1], [198, 51, 100, 7], &[0; 4]);
    bad[0] = 0x4f;
    assert_eq!(translate_packet(&config, &prefix96(), &bad), Translation::Malformed);
    let (next, action) = step(&config, &state, &Event::PacketRead(bad));
    assert_eq!(action, Action::ReadNext);
    assert_eq!(next, state);
    let good = ipv4_packet(0, 64, 17, [192, 0, 2, 1], [198, 51, 100, 7], &[0; 8]);
    let (_, action) = step(&config, &next, &Event::PacketRead(good));
    assert!(matches!(action, Action::Write(ref v) if v.len() == 48));
}

#[test]
fn inconsistent_lengths_are_malformed() {
    let config = Config::default();
    let mut long = ipv4_packet(0, 64, 17, [192, 0, 2, 1], [198, 51, 100, 7], &[0; 4]);
    long[3] = 200;
    assert_eq!(translate_packet(&config, &prefix96(), &long), Translation::Malformed);
    let mut short = ipv4_packet(0, 64, 17, [192, 0, 2, 1], [198, 51, 100, 7], &[0; 4]);
    short[3] = 10;
    assert_eq!(translate_packet(&config, &prefix96(), &short), Translation::Malformed);
    assert_eq!(translate_packet(&config, &prefix96(), &[]), Translation::Malformed);
    let short_icmp = ipv4_packet(0, 64, 1, [192, 0, 2, 1], [198, 51, 100, 7], &[8, 0, 0]);
    assert_eq!(translate_packet(&config, &prefix96(), &short_icmp), Translation::Malformed);
}

#[test]
fn ipv6_packet_is_ignored() {
    let mut v6 = vec![0x60, 0, 0, 0, 0, 0, 17, 64];
    v6.extend_from_slice(&[0; 32]);
    assert_eq!(translate_packet(&Config::default(), &prefix96(), &v6), Translation::NotIpv4);
}

#[test]
fn session_opens_and_falls_back() {
    let config = Config::default();
    let synthesised = [0, 0x64, 0xff, 0x9b, 0, 0, 0, 0, 0, 0, 0, 0, 192, 0, 0, 170];
    let (state, action) = step(&config, &SessionState::AwaitingPrefix, &Event::PrefixQueried(vec![synthesised]));
    assert_eq!(state, SessionState::Active(prefix96()));
    assert_eq!(action, Action::OpenInterface);
    let (state, action) = step(&config, &state, &Event::InterfaceFailed);
    assert_eq!(state, SessionState::AwaitingPrefix);
    assert_eq!(action, Action::QueryPrefix);
}

#[test]
fn tun_name_is_cut_and_indexed() {
    let r = tun_request_name(b"clat");
    assert_eq!(&r, b"clat%d\0\0\0\0\0\0\0\0\0\0");
    let r = tun_request_name(b"averyveryverylongname");
    assert_eq!(&r, b"averyveryveryl%d");
    assert_eq!(interface_name(b"clat0\0\0\0\0\0\0\0\0\0\0\0"), b"clat0".to_vec());
    assert_eq!(interface_name(b"abcdefghijklmnop"), b"abcdefghijklmnop".to_vec());
}
