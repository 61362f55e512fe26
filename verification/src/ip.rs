//! IP addresses, held by their bits.

use vstd::prelude::*;

verus! {

/// The bits of `::ffff:0.0.0.0`, the prefix that every IPv4-mapped IPv6
/// address starts from.
pub const V4_MAPPED_PREFIX: u128 = 0xffff_0000_0000;

/// An IPv4 address: the 32 bits `a.b.c.d` in network order, `a` highest.
#[derive(Debug, Clone, Copy, PartialEq, Eq, Structural, Hash)]
pub struct Ipv4Address {
    pub bits: u32,
}

/// An IPv6 address: its 128 bits in network order.
#[derive(Debug, Clone, Copy, PartialEq, Eq, Structural, Hash)]
pub struct Ipv6Address {
    pub bits: u128,
}

/// The bits of the IPv4-mapped IPv6 address `::ffff:a.b.c.d` of the IPv4
/// address whose bits are `v4`.
pub open spec fn ipv4_mapped_bits(v4: u32) -> u128 {
    (V4_MAPPED_PREFIX + v4) as u128
}

impl Ipv4Address {
    /// The address `a.b.c.d`.
    pub fn new(a: u8, b: u8, c: u8, d: u8) -> (r: Self)
        ensures
            r.bits == a * 0x100_0000 + b * 0x1_0000 + c * 0x100 + d,
    {
        let high: u32 = (a as u32) * 0x100_0000 + (b as u32) * 0x1_0000;
        let low: u32 = (c as u32) * 0x100 + (d as u32);
        Self { bits: high + low }
    }

    /// The address with the given bits.
    pub fn from_bits(bits: u32) -> (r: Self)
        ensures
            r.bits == bits,
    {
        Self { bits }
    }

    /// The bits of the address.
    pub fn to_bits(&self) -> (r: u32)
        ensures
            r == self.bits,
    {
        self.bits
    }

    /// What `to_ipv6_mapped` returns.
    pub open spec fn spec_to_ipv6_mapped(&self) -> Ipv6Address {
        Ipv6Address { bits: ipv4_mapped_bits(self.bits) }
    }

    /// Converts this address to its IPv4-mapped IPv6 form: `a.b.c.d`
    /// becomes `::ffff:a.b.c.d`.
    pub fn to_ipv6_mapped(&self) -> (r: Ipv6Address)
        ensures
            r == self.spec_to_ipv6_mapped(),
            r.bits == V4_MAPPED_PREFIX + self.bits,
    {
        Ipv6Address { bits: V4_MAPPED_PREFIX + (self.bits as u128) }
    }
}

impl Ipv6Address {
    /// The address with the given bits.
    pub fn from_bits(bits: u128) -> (r: Self)
        ensures
            r.bits == bits,
    {
        Self { bits }
    }

    /// The bits of the address.
    pub fn to_bits(&self) -> (r: u128)
        ensures
            r == self.bits,
    {
        self.bits
    }
}

} // verus!
