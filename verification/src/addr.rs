//! IP addresses: their values, their byte orders and subnet masks.

use vstd::arithmetic::power2::pow2;
use vstd::prelude::*;

verus! {

/// An IPv4 address, by its four octets.
#[derive(Clone, Copy, PartialEq, Eq, Structural, Debug)]
pub struct Ipv4Addr {
    pub a: u8,
    pub b: u8,
    pub c: u8,
    pub d: u8,
}

/// An IPv6 address, by its eight segments.
#[derive(Clone, Copy, PartialEq, Eq, Structural, Debug)]
pub struct Ipv6Addr {
    pub s0: u16,
    pub s1: u16,
    pub s2: u16,
    pub s3: u16,
    pub s4: u16,
    pub s5: u16,
    pub s6: u16,
    pub s7: u16,
}

/// An IP address of either family.
#[derive(Clone, Copy, PartialEq, Eq, Structural, Debug)]
pub enum IpAddr {
    V4(Ipv4Addr),
    V6(Ipv6Addr),
}

/// 255.255.255.0.
pub open spec fn class_c_mask() -> Ipv4Addr {
    Ipv4Addr { a: 255, b: 255, c: 255, d: 0 }
}

/// 0.0.0.0.
pub open spec fn zero_addr() -> Ipv4Addr {
    Ipv4Addr { a: 0, b: 0, c: 0, d: 0 }
}

/// 128.0.0.0.
pub open spec fn half_addr() -> Ipv4Addr {
    Ipv4Addr { a: 128, b: 0, c: 0, d: 0 }
}

/// The mask of a network of 256 addresses, used where none is configured.
#[verifier::when_used_as_spec(class_c_mask)]
pub fn default_mask() -> (ip: Ipv4Addr)
    ensures
        ip == class_c_mask(),
{
    Ipv4Addr { a: 255, b: 255, c: 255, d: 0 }
}

/// The address that stands for "none".
#[verifier::when_used_as_spec(zero_addr)]
pub fn unspecified() -> (ip: Ipv4Addr)
    ensures
        ip == zero_addr(),
{
    Ipv4Addr { a: 0, b: 0, c: 0, d: 0 }
}

/// The first address of the upper half of the IPv4 space.
#[verifier::when_used_as_spec(half_addr)]
pub fn upper_half() -> (ip: Ipv4Addr)
    ensures
        ip == half_addr(),
{
    Ipv4Addr { a: 128, b: 0, c: 0, d: 0 }
}

impl Ipv4Addr {
    /// An address from its octets.
    pub fn new(a: u8, b: u8, c: u8, d: u8) -> (ip: Ipv4Addr)
        ensures
            ip == (Ipv4Addr { a, b, c, d }),
    {
        Ipv4Addr { a, b, c, d }
    }

    /// Whether all octets are zero.
    pub fn is_unspecified(&self) -> (r: bool)
        ensures
            r == (*self == unspecified()),
    {
        self.a == 0 && self.b == 0 && self.c == 0 && self.d == 0
    }

    /// The address as a number, the first octet the most significant.
    pub open spec fn value(self) -> int {
        self.a * 0x100_0000 + self.b * 0x1_0000 + self.c * 0x100 + self.d
    }
}

impl Ipv6Addr {
    /// The segments, in order.
    pub open spec fn segments(self) -> Seq<u16> {
        seq![self.s0, self.s1, self.s2, self.s3, self.s4, self.s5, self.s6, self.s7]
    }
}

/// The address with the given eight segments.
pub open spec fn v6_of(g: Seq<u16>) -> Ipv6Addr {
    Ipv6Addr {
        s0: g[0],
        s1: g[1],
        s2: g[2],
        s3: g[3],
        s4: g[4],
        s5: g[5],
        s6: g[6],
        s7: g[7],
    }
}

// ---------------------------------------------------------------------------
// Byte order
// ---------------------------------------------------------------------------

/// An address as the 32-bit field of a Windows socket structure, which holds the
/// octets in network order: read as a little-endian number, the first octet is the
/// least significant.
pub open spec fn net_order(ip: Ipv4Addr) -> int {
    ip.a + ip.b * 0x100 + ip.c * 0x1_0000 + ip.d * 0x100_0000
}

/// The address that such a field holds.
pub open spec fn from_net_order(raw: u32) -> Ipv4Addr {
    Ipv4Addr {
        a: (raw % 0x100) as u8,
        b: (raw / 0x100 % 0x100) as u8,
        c: (raw / 0x1_0000 % 0x100) as u8,
        d: (raw / 0x100_0000) as u8,
    }
}

/// The address with its octets in the opposite order.
pub open spec fn reversed(ip: Ipv4Addr) -> Ipv4Addr {
    Ipv4Addr { a: ip.d, b: ip.c, c: ip.b, d: ip.a }
}

/// Turns an address into its network-order field.
pub fn ip_to_net_order(ip: Ipv4Addr) -> (raw: u32)
    ensures
        raw == net_order(ip),
{
    ip.a as u32 + ip.b as u32 * 0x100 + ip.c as u32 * 0x1_0000 + ip.d as u32 * 0x100_0000
}

/// Reads an address out of its network-order field.
pub fn ipv4_from_net_order(raw: u32) -> (ip: Ipv4Addr)
    ensures
        ip == from_net_order(raw),
{
    Ipv4Addr {
        a: (raw % 0x100) as u8,
        b: (raw / 0x100 % 0x100) as u8,
        c: (raw / 0x1_0000 % 0x100) as u8,
        d: (raw / 0x100_0000) as u8,
    }
}

/// The address with its octets in the opposite order.
pub fn reverse_octets(ip: Ipv4Addr) -> (out: Ipv4Addr)
    ensures
        out == reversed(ip),
{
    Ipv4Addr { a: ip.d, b: ip.c, c: ip.b, d: ip.a }
}

/// An address written to a network-order field is the one read back from it.
pub proof fn net_order_round_trip(ip: Ipv4Addr)
    ensures
        0 <= net_order(ip) <= u32::MAX,
        from_net_order(net_order(ip) as u32) == ip,
{
    let raw = net_order(ip) as u32;
    assert(raw % 0x100 == ip.a);
    assert(raw / 0x100 == ip.b + ip.c * 0x100 + ip.d * 0x1_0000);
    assert(raw / 0x100 % 0x100 == ip.b);
    assert(raw / 0x1_0000 == ip.c + ip.d * 0x100);
    assert(raw / 0x1_0000 % 0x100 == ip.c);
    assert(raw / 0x100_0000 == ip.d);
}

/// Every field is the network-order form of the address read from it.
pub proof fn net_order_covers_all_fields(raw: u32)
    ensures
        net_order(from_net_order(raw)) == raw,
{
}

// ---------------------------------------------------------------------------
// Subnet masks
// ---------------------------------------------------------------------------

/// The value of a mask with `p` leading ones.
pub open spec fn mask_value(p: nat) -> int {
    0x1_0000_0000 - pow2((32 - p) as nat)
}

/// Whether an address is a mask: ones, then zeros.
pub open spec fn is_mask(mask: Ipv4Addr) -> bool {
    exists|p: nat| p <= 32 && mask.value() == #[trigger] mask_value(p)
}

/// Whether an address can serve as a subnet mask, such as 255.255.255.0.
pub fn is_valid_subnet_mask(mask: Ipv4Addr) -> (r: bool)
    ensures
        r == is_mask(mask),
{
    let bits: u64 = mask.a as u64 * 0x100_0000 + mask.b as u64 * 0x1_0000 + mask.c as u64 * 0x100
        + mask.d as u64;
    let mut p: u32 = 0;
    let mut block: u64 = 0x1_0000_0000;
    proof {
        vstd::arithmetic::power2::lemma2_to64();
    }
    while p < 32
        invariant
            p <= 32,
            bits == mask.value(),
            block == pow2((32 - p) as nat),
            block <= 0x1_0000_0000,
            forall|q: nat| q < p ==> mask.value() != #[trigger] mask_value(q),
        decreases 32 - p,
    {
        if bits == 0x1_0000_0000 - block {
            assert(mask.value() == mask_value(p as nat));
            return true;
        }
        proof {
            vstd::arithmetic::power2::lemma_pow2_unfold((32 - p) as nat);
        }
        block = block / 2;
        p = p + 1;
    }
    proof {
        vstd::arithmetic::power2::lemma2_to64();
        assert(mask_value(32) == 0x1_0000_0000 - 1);
    }
    bits == 0xffff_ffff
}

/// The address with the given value.
pub open spec fn from_value(v: int) -> Ipv4Addr {
    Ipv4Addr {
        a: (v / 0x100_0000) as u8,
        b: (v / 0x1_0000 % 0x100) as u8,
        c: (v / 0x100 % 0x100) as u8,
        d: (v % 0x100) as u8,
    }
}

/// The mask of a network with the prefix length.
pub fn mask_of_prefix(prefix: u8) -> (mask: Ipv4Addr)
    requires
        prefix <= 32,
    ensures
        mask == from_value(mask_value(prefix as nat)),
{
    let mut p: u8 = 0;
    let mut block: u64 = 0x1_0000_0000;
    proof {
        vstd::arithmetic::power2::lemma2_to64();
    }
    while p < prefix
        invariant
            p <= prefix <= 32,
            block == pow2((32 - p) as nat),
            block <= 0x1_0000_0000,
        decreases prefix - p,
    {
        proof {
            vstd::arithmetic::power2::lemma_pow2_unfold((32 - p) as nat);
        }
        block = block / 2;
        p = p + 1;
    }
    proof {
        vstd::arithmetic::power2::lemma_pow2_pos((32 - p) as nat);
    }
    let v: u64 = 0x1_0000_0000 - block;
    Ipv4Addr {
        a: (v / 0x100_0000) as u8,
        b: (v / 0x1_0000 % 0x100) as u8,
        c: (v / 0x100 % 0x100) as u8,
        d: (v % 0x100) as u8,
    }
}

/// The mask of a prefix length is a mask, and its value is the one that the length gives.
pub proof fn prefix_gives_a_mask(prefix: u8)
    requires
        prefix <= 32,
    ensures
        is_mask(from_value(mask_value(prefix as nat))),
        from_value(mask_value(prefix as nat)).value() == mask_value(prefix as nat),
{
    let v = mask_value(prefix as nat);
    let n = (32 - prefix) as nat;
    vstd::arithmetic::power2::lemma_pow2_pos(n);
    vstd::arithmetic::power2::lemma2_to64();
    if n < 32 {
        vstd::arithmetic::power2::lemma_pow2_strictly_increases(n, 32);
    }
    assert(0 <= v <= u32::MAX);
    assert(from_value(v).value() == v);
}

} // verus!
