//! Addresses of nodes: an IPv4 address and a TCP port.

use vstd::prelude::*;

verus! {

/// An IPv4 address, by its four octets.
#[derive(Clone, Copy, Debug, PartialEq, Eq, Structural, Hash)]
pub struct Ipv4 {
    pub a: u8,
    pub b: u8,
    pub c: u8,
    pub d: u8,
}

impl Ipv4 {
    /// The address `a.b.c.d`.
    pub fn new(a: u8, b: u8, c: u8, d: u8) -> (ip: Ipv4)
        ensures
            ip == (Ipv4 { a, b, c, d }),
    {
        Ipv4 { a, b, c, d }
    }

    /// The loopback address `127.0.0.1`.
    pub open spec fn localhost() -> Ipv4 {
        Ipv4 { a: 127, b: 0, c: 0, d: 1 }
    }

    /// Whether the address lies in one of the private ranges `10.0.0.0/8`,
    /// `172.16.0.0/12` and `192.168.0.0/16`.
    pub open spec fn private(self) -> bool {
        ||| self.a == 10
        ||| self.a == 172 && 16 <= self.b <= 31
        ||| self.a == 192 && self.b == 168
    }

    /// Whether the address lies in one of the private ranges.
    pub fn is_private(&self) -> (r: bool)
        ensures
            r == self.private(),
    {
        self.a == 10 || (self.a == 172 && self.b >= 16 && self.b <= 31) || (self.a == 192
            && self.b == 168)
    }
}

/// Where a node listens: an IPv4 address and a port.
#[derive(Clone, Copy, Debug, PartialEq, Eq, Structural, Hash)]
pub struct Address {
    pub ip: Ipv4,
    pub port: u16,
}

impl Address {
    /// The address `a.b.c.d:port`.
    pub fn new(a: u8, b: u8, c: u8, d: u8, port: u16) -> (addr: Address)
        ensures
            addr == Address::from_parts(a, b, c, d, port),
    {
        Address { ip: Ipv4 { a, b, c, d }, port }
    }

    /// The address `a.b.c.d:port`, for use in contracts.
    pub open spec fn from_parts(a: u8, b: u8, c: u8, d: u8, port: u16) -> Address {
        Address { ip: Ipv4 { a, b, c, d }, port }
    }
}

} // verus!
