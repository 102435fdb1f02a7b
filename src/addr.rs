//! IP addresses and CIDR prefixes as plain integers.
use vstd::prelude::*;

verus! {

/// An IPv4 or IPv6 address, held as its integer value.
#[derive(Debug, Clone, Copy, PartialEq, Eq, Structural)]
pub enum IpAddress {
    V4(u32),
    V6(u128),
}

/// A CIDR network: an address and a prefix length.
/// Equality is by (address, prefix length).
#[derive(Debug, Clone, Copy, PartialEq, Eq, Structural)]
pub struct Prefix {
    pub addr: IpAddress,
    pub len: u8,
}

/// An address and a port.
#[derive(Debug, Clone, Copy, PartialEq, Eq, Structural)]
pub struct SocketAddress {
    pub ip: IpAddress,
    pub port: u16,
}

/// Number of bits in an address of the same family as `a`.
pub open spec fn addr_width(a: IpAddress) -> nat {
    match a {
        IpAddress::V4(_) => 32,
        IpAddress::V6(_) => 128,
    }
}

/// Whether two addresses share their leading `len` bits (same family).
pub open spec fn same_leading_bits(a: IpAddress, b: IpAddress, len: u8) -> bool {
    match (a, b) {
        (IpAddress::V4(x), IpAddress::V4(y)) => len == 0 || (len <= 32 && (x >> ((32 - len) as u32)) == (y >> ((32 - len) as u32))),
        (IpAddress::V6(x), IpAddress::V6(y)) => len == 0 || (len <= 128 && (x >> ((128 - len) as u32)) == (y >> ((128 - len) as u32))),
        _ => false,
    }
}

/// Integer value of the dotted IPv4 address a.b.c.d.
pub open spec fn v4_value(a: u8, b: u8, c: u8, d: u8) -> u32 {
    (a as int * 0x1000000 + b as int * 0x10000 + c as int * 0x100 + d as int) as u32
}

/// Order of addresses used to break ties: IPv4 before IPv6, then by value.
pub open spec fn addr_less(a: IpAddress, b: IpAddress) -> bool {
    match (a, b) {
        (IpAddress::V4(x), IpAddress::V4(y)) => x < y,
        (IpAddress::V4(_), IpAddress::V6(_)) => true,
        (IpAddress::V6(_), IpAddress::V4(_)) => false,
        (IpAddress::V6(x), IpAddress::V6(y)) => x < y,
    }
}

impl IpAddress {
    /// The IPv4 address a.b.c.d.
    pub fn v4(a: u8, b: u8, c: u8, d: u8) -> (r: IpAddress)
        ensures
            r == IpAddress::V4(v4_value(a, b, c, d)),
    {
        IpAddress::V4((a as u32) * 0x1000000 + (b as u32) * 0x10000 + (c as u32) * 0x100 + (d as u32))
    }

    pub fn is_v4(&self) -> (r: bool)
        ensures
            r == (*self is V4),
    {
        match self {
            IpAddress::V4(_) => true,
            IpAddress::V6(_) => false,
        }
    }

    /// Tie-break order: IPv4 before IPv6, then by value.
    pub fn less_than(&self, other: &IpAddress) -> (r: bool)
        ensures
            r == addr_less(*self, *other),
    {
        match (self, other) {
            (IpAddress::V4(x), IpAddress::V4(y)) => *x < *y,
            (IpAddress::V4(_), IpAddress::V6(_)) => true,
            (IpAddress::V6(_), IpAddress::V4(_)) => false,
            (IpAddress::V6(x), IpAddress::V6(y)) => *x < *y,
        }
    }
}

impl Prefix {
    /// A prefix is well formed when its length fits its address family.
    pub open spec fn wf(&self) -> bool {
        self.len as nat <= addr_width(self.addr)
    }

    /// Standard prefix match: same family, same leading `len` bits.
    pub open spec fn spec_contains(&self, ip: IpAddress) -> bool {
        same_leading_bits(self.addr, ip, self.len)
    }

    /// Builds a prefix; `None` when the length exceeds the address width.
    pub fn new(addr: IpAddress, len: u8) -> (r: Option<Prefix>)
        ensures
            r is Some <==> len as nat <= addr_width(addr),
            r matches Some(p) ==> p.addr == addr && p.len == len && p.wf(),
    {
        let max: u8 = if addr.is_v4() { 32 } else { 128 };
        if len <= max {
            Some(Prefix { addr, len })
        } else {
            None
        }
    }

    /// The IPv4 prefix a.b.c.d/len.
    pub fn v4(a: u8, b: u8, c: u8, d: u8, len: u8) -> (r: Option<Prefix>)
        ensures
            r is Some <==> len <= 32,
            r matches Some(p) ==> p.addr == IpAddress::V4(v4_value(a, b, c, d)) && p.len == len && p.wf(),
    {
        Prefix::new(IpAddress::v4(a, b, c, d), len)
    }

    pub fn prefix_len(&self) -> (r: u8)
        ensures
            r == self.len,
    {
        self.len
    }

    /// Whether `ip` lies inside this network.
    pub fn contains(&self, ip: &IpAddress) -> (r: bool)
        ensures
            r == self.spec_contains(*ip),
    {
        let len = self.len;
        match (&self.addr, ip) {
            (IpAddress::V4(x), IpAddress::V4(y)) => {
                if len == 0 {
                    true
                } else if len <= 32 {
                    let shift: u32 = (32 - len) as u32;
                    (*x >> shift) == (*y >> shift)
                } else {
                    false
                }
            },
            (IpAddress::V6(x), IpAddress::V6(y)) => {
                if len == 0 {
                    true
                } else if len <= 128 {
                    let shift: u32 = (128 - len) as u32;
                    (*x >> shift) == (*y >> shift)
                } else {
                    false
                }
            },
            _ => false,
        }
    }

    /// Whether the two prefixes are the same network (address and length).
    pub fn same(&self, other: &Prefix) -> (r: bool)
        ensures
            r == (*self == *other),
    {
        let same_addr = match (&self.addr, &other.addr) {
            (IpAddress::V4(x), IpAddress::V4(y)) => *x == *y,
            (IpAddress::V6(x), IpAddress::V6(y)) => *x == *y,
            _ => false,
        };
        same_addr && self.len == other.len
    }
}

} // verus!
