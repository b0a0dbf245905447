use vstd::prelude::*;

verus! {

/// Whether `len` is one of the prefix lengths that allow an IPv4 address to be
/// embedded in an IPv6 address.
pub open spec fn is_prefix_length(len: int) -> bool {
    len == 32 || len == 40 || len == 48 || len == 56 || len == 64 || len == 96
}

/// Octet `i` of the IPv6 address that embeds `v4` after the first `len` bits
/// of `prefix`: the prefix's octets, then the four IPv4 octets, then zeros.
pub open spec fn embedded_octet(prefix: Seq<u8>, len: int, v4: Seq<u8>, i: int) -> u8 {
    let k = len / 8;
    if i < k {
        prefix[i]
    } else if i < k + 4 {
        v4[i - k]
    } else {
        0
    }
}

/// The IPv6 address that embeds `v4` under the first `len` bits of `prefix`.
pub open spec fn nat46_spec(prefix: Seq<u8>, len: int, v4: Seq<u8>) -> Seq<u8> {
    Seq::new(16, |i: int| embedded_octet(prefix, len, v4, i))
}

/// Whether `len` is one of 32, 40, 48, 56, 64 and 96.
pub fn valid_prefix_length(len: usize) -> (r: bool)
    ensures
        r == is_prefix_length(len as int),
{
    len == 32 || len == 40 || len == 48 || len == 56 || len == 64 || len == 96
}

/// The prefix under which IPv4 addresses are synthesised as IPv6 addresses.
#[derive(Clone, Copy, Debug, PartialEq, Eq)]
pub struct PlatPrefix {
    pub address: [u8; 16],
    pub length: usize,
}

impl PlatPrefix {
    pub open spec fn wf(&self) -> bool {
        is_prefix_length(self.length as int)
    }
}

/// Embeds the four octets of `v4_addr` right after the first
/// `plat_prefix_length` bits of `plat_prefix_addr`; the octets that follow
/// are zero. The embedding is contiguous for every prefix length: no octet is
/// set aside for the RFC 6052 "u" bits.
pub fn nat46(plat_prefix_addr: [u8; 16], plat_prefix_length: usize, v4_addr: [u8; 4]) -> (r: [u8; 16])
    requires
        is_prefix_length(plat_prefix_length as int),
    ensures
        r@ == nat46_spec(plat_prefix_addr@, plat_prefix_length as int, v4_addr@),
{
    let k: usize = plat_prefix_length / 8;
    let mut r: [u8; 16] = [0u8; 16];
    let mut i: usize = 0;
    while i < 16
        invariant
            k == plat_prefix_length / 8,
            k <= 12,
            i <= 16,
            r@.len() == 16,
            forall|j: int| 0 <= j < i ==> r@[j] == embedded_octet(plat_prefix_addr@, plat_prefix_length as int, v4_addr@, j),
        decreases 16 - i,
    {
        let o: u8 = if i < k {
            plat_prefix_addr[i]
        } else if i < k + 4 {
            v4_addr[i - k]
        } else {
            0
        };
        r[i] = o;
        i = i + 1;
    }
    assert(r@ =~= nat46_spec(plat_prefix_addr@, plat_prefix_length as int, v4_addr@));
    r
}

/// Distinct IPv4 addresses embedded under one prefix give distinct IPv6
/// addresses; equal ones give equal addresses, since the mapping is a function.
pub proof fn lemma_nat46_injective(prefix: Seq<u8>, len: int, a: Seq<u8>, b: Seq<u8>)
    requires
        prefix.len() == 16,
        is_prefix_length(len),
        a.len() == 4,
        b.len() == 4,
    ensures
        a != b ==> nat46_spec(prefix, len, a) != nat46_spec(prefix, len, b),
        a == b ==> nat46_spec(prefix, len, a) == nat46_spec(prefix, len, b),
{
    if a != b {
        if forall|j: int| 0 <= j < 4 ==> a[j] == b[j] {
            assert(a =~= b);
        }
        let j = choose|j: int| 0 <= j < 4 && a[j] != b[j];
        let k = len / 8;
        assert(nat46_spec(prefix, len, a)[k + j] == a[j]);
        assert(nat46_spec(prefix, len, b)[k + j] == b[j]);
    }
}

/// Whether octets `i .. i + 4` of `o` are 192.0.0.170 or 192.0.0.171, the
/// well-known addresses of the name that is resolved to discover the prefix.
pub open spec fn is_marker_at(o: Seq<u8>, i: int) -> bool {
    o[i] == 192 && o[i + 1] == 0 && o[i + 2] == 0 && (o[i + 3] == 170 || o[i + 3] == 171)
}

/// The first position, from `i` on and at most 12, where a marker starts.
pub open spec fn scan_marker(o: Seq<u8>, i: int) -> Option<int>
    decreases 13 - i,
{
    if i < 0 || i > 12 {
        None
    } else if is_marker_at(o, i) {
        Some(i)
    } else {
        scan_marker(o, i + 1)
    }
}

/// The first `k` octets of `o`, followed by zeros up to sixteen octets.
pub open spec fn masked(o: Seq<u8>, k: int) -> Seq<u8> {
    Seq::new(16, |j: int| if j < k { o[j] } else { 0u8 })
}

/// The prefix (octets and length in bits) that a synthesised address reveals:
/// the position of its first marker gives the length, which must be valid.
pub open spec fn prefix_of(o: Seq<u8>) -> Option<(Seq<u8>, int)> {
    match scan_marker(o, 0) {
        Some(i) => if is_prefix_length(8 * i) {
            Some((masked(o, i), 8 * i))
        } else {
            None
        },
        None => None,
    }
}

/// The abstract value of a discovered prefix.
pub open spec fn prefix_view(r: Option<PlatPrefix>) -> Option<(Seq<u8>, int)> {
    match r {
        Some(p) => Some((p.address@, p.length as int)),
        None => None,
    }
}

/// The prefix revealed by the first address of `s`, from index `i` on, that
/// reveals one.
pub open spec fn first_prefix(s: Seq<[u8; 16]>, i: int) -> Option<(Seq<u8>, int)>
    decreases s.len() - i,
{
    if i < 0 || i >= s.len() {
        None
    } else if prefix_of(s[i]@) is Some {
        prefix_of(s[i]@)
    } else {
        first_prefix(s, i + 1)
    }
}

fn is_marker(o: &[u8; 16], i: usize) -> (r: bool)
    requires
        i <= 12,
    ensures
        r == is_marker_at(o@, i as int),
{
    o[i] == 192 && o[i + 1] == 0 && o[i + 2] == 0 && (o[i + 3] == 170 || o[i + 3] == 171)
}

/// The prefix that one synthesised address reveals, if any.
pub fn prefix_from_address(octets: &[u8; 16]) -> (r: Option<PlatPrefix>)
    ensures
        prefix_view(r) == prefix_of(octets@),
        r matches Some(p) ==> p.wf(),
{
    let mut i: usize = 0;
    while i <= 12
        invariant
            i <= 13,
            scan_marker(octets@, 0) == scan_marker(octets@, i as int),
        decreases 13 - i,
    {
        if is_marker(octets, i) {
            let len: usize = 8 * i;
            if !valid_prefix_length(len) {
                return None;
            }
            let mut address: [u8; 16] = [0u8; 16];
            let mut j: usize = 0;
            while j < i
                invariant
                    j <= i,
                    i <= 12,
                    address@.len() == 16,
                    forall|m: int| 0 <= m < 16 ==> address@[m] == (if m < j { octets@[m] } else { 0u8 }),
                decreases i - j,
            {
                address[j] = octets[j];
                j = j + 1;
            }
            assert(address@ =~= masked(octets@, i as int));
            return Some(PlatPrefix { address, length: len });
        }
        i = i + 1;
    }
    None
}

/// The prefix revealed by the first of `addresses` that reveals one; `None`
/// where none does, also where a marker stands at a position whose length is
/// not a valid prefix length.
pub fn discover_plat_prefix(addresses: &Vec<[u8; 16]>) -> (r: Option<PlatPrefix>)
    ensures
        prefix_view(r) == first_prefix(addresses@, 0),
        r matches Some(p) ==> p.wf(),
{
    let mut i: usize = 0;
    while i < addresses.len()
        invariant
            i <= addresses@.len(),
            first_prefix(addresses@, 0) == first_prefix(addresses@, i as int),
        decreases addresses@.len() - i,
    {
        let found = prefix_from_address(&addresses[i]);
        if found.is_some() {
            return found;
        }
        i = i + 1;
    }
    None
}

} // verus!
