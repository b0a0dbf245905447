use vstd::prelude::*;

verus! {

/// Size of the kernel's interface-name buffer, terminating zero included.
pub const IFNAMSIZ: usize = 16;

/// Longest base name: room is left for the "%d" index placeholder and the
/// terminating zero.
pub const MAX_BASE_NAME_LEN: usize = 14;

/// Flag that asks for a TUN device: IP packets, no link-layer header.
pub const IFF_TUN: u16 = 0x0001;

/// Flag that asks for packets without the packet-information prefix.
pub const IFF_NO_PI: u16 = 0x1000;

/// The flags of the device-configuration request.
pub const TUN_FLAGS: u16 = IFF_TUN | IFF_NO_PI;

/// The name buffer of the device-configuration request for base name `name`:
/// at most its first fourteen octets, then "%d", then zeros.
pub open spec fn request_name_spec(name: Seq<u8>) -> Seq<u8> {
    let k = if name.len() < 14 { name.len() as int } else { 14 };
    Seq::new(16, |i: int| if i < k { name[i] } else if i == k { 37u8 } else if i == k + 1 { 100u8 } else { 0u8 })
}

/// Builds the name buffer of the device-configuration request for `name`,
/// cut to fourteen octets so that the kernel's index fits.
pub fn tun_request_name(name: &[u8]) -> (r: [u8; 16])
    ensures
        r@ == request_name_spec(name@),
{
    let k: usize = if name.len() < MAX_BASE_NAME_LEN { name.len() } else { MAX_BASE_NAME_LEN };
    let mut r: [u8; 16] = [0u8; 16];
    let mut i: usize = 0;
    while i < k
        invariant
            k <= 14,
            k <= name@.len(),
            i <= k,
            r@.len() == 16,
            forall|j: int| 0 <= j < 16 ==> r@[j] == (if j < i { name@[j] } else { 0u8 }),
        decreases k - i,
    {
        r[i] = name[i];
        i = i + 1;
    }
    r[k] = 37;
    r[k + 1] = 100;
    assert(r@ =~= request_name_spec(name@));
    r
}

/// The octets of `buf` before its first zero, or all of them.
pub open spec fn name_before_zero(buf: Seq<u8>, n: Seq<u8>) -> bool {
    &&& n.len() <= buf.len()
    &&& n == buf.subrange(0, n.len() as int)
    &&& forall|j: int| 0 <= j < n.len() ==> n[j] != 0
    &&& (n.len() < buf.len() ==> buf[n.len() as int] == 0)
}

/// The interface name that the kernel wrote back into the name buffer.
pub fn interface_name(buf: &[u8; 16]) -> (r: Vec<u8>)
    ensures
        name_before_zero(buf@, r@),
{
    let mut r: Vec<u8> = Vec::new();
    let mut i: usize = 0;
    while i < IFNAMSIZ && buf[i] != 0
        invariant
            i <= 16,
            buf@.len() == 16,
            r@ == buf@.subrange(0, i as int),
            forall|j: int| 0 <= j < i ==> buf@[j] != 0,
        decreases 16 - i,
    {
        r.push(buf[i]);
        assert(buf@.subrange(0, i + 1) =~= buf@.subrange(0, i as int).push(buf@[i as int]));
        i = i + 1;
    }
    r
}

} // verus!
